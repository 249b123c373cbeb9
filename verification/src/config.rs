//! Typed configuration: a flat record read from a TOML byte buffer.
//!
//! The toml crate decides whether the bytes are well-formed TOML and what the
//! document holds; those outcomes are named below and taken on trust. Every
//! decision above that — which fields are required, which are optional, how
//! their values map into the typed record, and which fault is reported when
//! the mapping fails — is verified here.

use vstd::prelude::*;

verus! {

/// The operating mode of the tracker.
#[derive(Clone, Copy, Debug, PartialEq, Eq, Structural)]
pub enum TrackerMode {
    PublicMode,
    ListedMode,
    PrivateMode,
    PrivateListedMode,
}

/// UDP tracker settings.
#[derive(Debug)]
pub struct UDPConfig {
    bind_address: String,
    announce_interval: u32,
}

/// HTTP tracker settings.
#[derive(Debug)]
pub struct HTTPConfig {
    bind_address: String,
    access_tokens: Vec<(String, String)>,
}

/// The whole configuration record. Built once, never mutated afterwards.
#[derive(Debug)]
pub struct Configuration {
    mode: TrackerMode,
    udp: UDPConfig,
    http: Option<HTTPConfig>,
    log_level: Option<String>,
    db_path: Option<String>,
    cleanup_interval: Option<u64>,
    external_ip: Option<String>,
}

/// Which part of the document a schema fault points at.
#[derive(Clone, Copy, Debug, PartialEq, Eq, Structural)]
pub enum FieldId {
    Mode,
    Udp,
    UdpBindAddress,
    UdpAnnounceInterval,
    Http,
    HttpBindAddress,
    HttpAccessTokens,
    LogLevel,
    DbPath,
    CleanupInterval,
    ExternalIp,
}

/// Why a byte buffer was rejected: the bytes are not TOML at all, or the
/// document does not fit the schema at the named field.
#[derive(Clone, Copy, Debug, PartialEq, Eq, Structural)]
pub enum ParseError {
    Syntax,
    Schema(FieldId),
}

/// Why loading a configuration failed: reading the file, or parsing it.
#[derive(Debug)]
pub enum ConfigError {
    IOError(String),
    ParseError(ParseError),
}

/// What the toml crate holds of the document parsed from `data`, at the key
/// path `path`: whether the bytes parse at all, whether a key is present,
/// and the value behind it when it is a string, an integer, or a table of
/// string keys. All of it is a function of the bytes alone.
pub uninterp spec fn toml_ok(data: Seq<u8>) -> bool;

pub uninterp spec fn toml_has(data: Seq<u8>, path: Seq<Seq<char>>) -> bool;

pub uninterp spec fn toml_str(data: Seq<u8>, path: Seq<Seq<char>>) -> Option<Seq<char>>;

pub uninterp spec fn toml_int(data: Seq<u8>, path: Seq<Seq<char>>) -> Option<i64>;

pub uninterp spec fn toml_is_table(data: Seq<u8>, path: Seq<Seq<char>>) -> bool;

pub uninterp spec fn toml_str_table(data: Seq<u8>, path: Seq<Seq<char>>) -> Option<
    Seq<(Seq<char>, Option<Seq<char>>)>,
>;

/// Relies on `toml::from_slice`: whether the bytes are well-formed TOML.
#[verifier::external_body]
fn toml_check(data: &[u8]) -> (ok: bool)
    ensures
        ok == toml_ok(data@),
{
    toml::from_slice::<toml::Value>(data).is_ok()
}

/// Relies on `toml::from_slice` and `toml::Value::get`: whether the document
/// has the top-level key.
#[verifier::external_body]
fn toml_has1(data: &[u8], key: &str) -> (present: bool)
    ensures
        present == (toml_ok(data@) && toml_has(data@, seq![key@])),
{
    match toml::from_slice::<toml::Value>(data) {
        Ok(doc) => doc.get(key).is_some(),
        Err(_) => false,
    }
}

/// Relies on `toml::from_slice`, `toml::Value::get` and `as_str`: the string
/// behind the top-level key, if the key is there and holds a string.
#[verifier::external_body]
fn toml_str1(data: &[u8], key: &str) -> (r: Option<String>)
    ensures
        toml_ok(data@) ==> r.deep_view() == toml_str(data@, seq![key@]),
        !toml_ok(data@) ==> r is None,
{
    match toml::from_slice::<toml::Value>(data) {
        Ok(doc) => doc.get(key).and_then(|v| v.as_str()).map(|s| s.to_string()),
        Err(_) => None,
    }
}

/// Relies on `toml::from_slice`, `toml::Value::get` and `as_str`: the string
/// one level down, if the whole path is there and ends in a string.
#[verifier::external_body]
fn toml_str2(data: &[u8], key1: &str, key2: &str) -> (r: Option<String>)
    ensures
        toml_ok(data@) ==> r.deep_view() == toml_str(data@, seq![key1@, key2@]),
        !toml_ok(data@) ==> r is None,
{
    match toml::from_slice::<toml::Value>(data) {
        Ok(doc) => doc.get(key1).and_then(|t| t.get(key2)).and_then(|v| v.as_str()).map(
            |s| s.to_string(),
        ),
        Err(_) => None,
    }
}

/// Relies on `toml::from_slice`, `toml::Value::get` and `as_integer`: the
/// integer behind the top-level key, if the key is there and holds one.
#[verifier::external_body]
fn toml_int1(data: &[u8], key: &str) -> (r: Option<i64>)
    ensures
        toml_ok(data@) ==> r.deep_view() == toml_int(data@, seq![key@]),
        !toml_ok(data@) ==> r is None,
{
    match toml::from_slice::<toml::Value>(data) {
        Ok(doc) => doc.get(key).and_then(|v| v.as_integer()),
        Err(_) => None,
    }
}

/// Relies on `toml::from_slice`, `toml::Value::get` and `as_integer`: the
/// integer one level down, if the whole path is there and ends in one.
#[verifier::external_body]
fn toml_int2(data: &[u8], key1: &str, key2: &str) -> (r: Option<i64>)
    ensures
        toml_ok(data@) ==> r.deep_view() == toml_int(data@, seq![key1@, key2@]),
        !toml_ok(data@) ==> r is None,
{
    match toml::from_slice::<toml::Value>(data) {
        Ok(doc) => doc.get(key1).and_then(|t| t.get(key2)).and_then(|v| v.as_integer()),
        Err(_) => None,
    }
}

/// Relies on `toml::from_slice`, `toml::Value::get` and `as_table`: whether
/// the top-level key is there and holds a table.
#[verifier::external_body]
fn toml_table1(data: &[u8], key: &str) -> (r: bool)
    ensures
        r == (toml_ok(data@) && toml_is_table(data@, seq![key@])),
{
    match toml::from_slice::<toml::Value>(data) {
        Ok(doc) => doc.get(key).map_or(false, |v| v.as_table().is_some()),
        Err(_) => false,
    }
}

/// Relies on `toml::from_slice`, `toml::Value::get`, `as_table` and `as_str`:
/// the entries of the table one level down, each value given as a string
/// where it is one. The backing map is ordered, so the entry order is a
/// function of the bytes, and its keys are distinct.
#[verifier::external_body]
fn toml_entries2(data: &[u8], key1: &str, key2: &str) -> (r: Option<Vec<(String, Option<String>)>>)
    ensures
        toml_ok(data@) ==> r.deep_view() == toml_str_table(data@, seq![key1@, key2@]),
        !toml_ok(data@) ==> r is None,
        (match r {
            Some(entries) => forall|i: int, j: int|
                0 <= i < j < entries@.len() ==> entries@[i].0@ != entries@[j].0@,
            None => true,
        }),
{
    let doc: toml::Value = match toml::from_slice(data) {
        Ok(d) => d,
        Err(_) => return None,
    };
    let table = doc.get(key1)?.get(key2)?.as_table()?;
    Some(table.iter().map(|(k, v)| (k.clone(), v.as_str().map(|s| s.to_string()))).collect())
}

} // verus!

verus! {

/// The mathematical content of `UDPConfig`.
pub ghost struct UDPConfigView {
    pub bind_address: Seq<char>,
    pub announce_interval: u32,
}

/// The mathematical content of `HTTPConfig`.
pub ghost struct HTTPConfigView {
    pub bind_address: Seq<char>,
    pub access_tokens: Seq<(Seq<char>, Seq<char>)>,
}

/// The mathematical content of `Configuration`.
pub ghost struct ConfigView {
    pub mode: TrackerMode,
    pub udp: UDPConfigView,
    pub http: Option<HTTPConfigView>,
    pub log_level: Option<Seq<char>>,
    pub db_path: Option<Seq<char>>,
    pub cleanup_interval: Option<u64>,
    pub external_ip: Option<Seq<char>>,
}

impl View for UDPConfig {
    type V = UDPConfigView;

    closed spec fn view(&self) -> UDPConfigView {
        UDPConfigView {
            bind_address: self.bind_address@,
            announce_interval: self.announce_interval,
        }
    }
}

impl View for HTTPConfig {
    type V = HTTPConfigView;

    closed spec fn view(&self) -> HTTPConfigView {
        HTTPConfigView {
            bind_address: self.bind_address@,
            access_tokens: self.access_tokens.deep_view(),
        }
    }
}

impl View for Configuration {
    type V = ConfigView;

    closed spec fn view(&self) -> ConfigView {
        ConfigView {
            mode: self.mode,
            udp: self.udp@,
            http: match self.http {
                Some(h) => Some(h@),
                None => None,
            },
            log_level: self.log_level.deep_view(),
            db_path: self.db_path.deep_view(),
            cleanup_interval: self.cleanup_interval,
            external_ip: self.external_ip.deep_view(),
        }
    }
}

/// Access-token lists keep the uniqueness the TOML table had: no key occurs
/// twice.
pub open spec fn tokens_wf(toks: Seq<(Seq<char>, Seq<char>)>) -> bool {
    forall|i: int, j: int| 0 <= i < j < toks.len() ==> toks[i].0 != toks[j].0
}

/// The mode strings the configuration file may use.
pub open spec fn spec_mode_of(s: Seq<char>) -> Option<TrackerMode> {
    if s == "public"@ {
        Some(TrackerMode::PublicMode)
    } else if s == "listed"@ {
        Some(TrackerMode::ListedMode)
    } else if s == "private"@ {
        Some(TrackerMode::PrivateMode)
    } else if s == "private_listed"@ {
        Some(TrackerMode::PrivateListedMode)
    } else {
        None
    }
}

/// An optional top-level string field: absent is fine, present with a
/// non-string value is a schema fault at `fid`.
pub open spec fn spec_opt_str_field(data: Seq<u8>, key: Seq<char>, fid: FieldId) -> Result<
    Option<Seq<char>>,
    ParseError,
> {
    if !toml_has(data, seq![key]) {
        Ok(None)
    } else {
        match toml_str(data, seq![key]) {
            Some(s) => Ok(Some(s)),
            None => Err(ParseError::Schema(fid)),
        }
    }
}

/// The optional cleanup interval: absent is fine; present, it must be a
/// non-negative integer.
pub open spec fn spec_cleanup_interval(data: Seq<u8>) -> Result<Option<u64>, ParseError> {
    if !toml_has(data, seq!["cleanup_interval"@]) {
        Ok(None)
    } else {
        match toml_int(data, seq!["cleanup_interval"@]) {
            Some(i) => if i >= 0 {
                Ok(Some(i as u64))
            } else {
                Err(ParseError::Schema(FieldId::CleanupInterval))
            },
            None => Err(ParseError::Schema(FieldId::CleanupInterval)),
        }
    }
}

/// Every value of the token table is a string.
pub open spec fn spec_all_strings(entries: Seq<(Seq<char>, Option<Seq<char>>)>) -> bool {
    forall|i: int| 0 <= i < entries.len() ==> entries[i].1 is Some
}

/// The token table with its string values unwrapped.
pub open spec fn spec_token_pairs(entries: Seq<(Seq<char>, Option<Seq<char>>)>) -> Seq<
    (Seq<char>, Seq<char>),
> {
    entries.map_values(|e: (Seq<char>, Option<Seq<char>>)| (e.0, e.1->Some_0))
}

/// The optional `http` block: absent is fine; present, it must be a table
/// with a string `bind_address` and a string-to-string `access_tokens` table.
pub open spec fn spec_http(data: Seq<u8>) -> Result<Option<HTTPConfigView>, ParseError> {
    if !toml_has(data, seq!["http"@]) {
        Ok(None)
    } else if !toml_is_table(data, seq!["http"@]) {
        Err(ParseError::Schema(FieldId::Http))
    } else {
        match toml_str(data, seq!["http"@, "bind_address"@]) {
            None => Err(ParseError::Schema(FieldId::HttpBindAddress)),
            Some(hb) => match toml_str_table(data, seq!["http"@, "access_tokens"@]) {
                None => Err(ParseError::Schema(FieldId::HttpAccessTokens)),
                Some(entries) => if !spec_all_strings(entries) {
                    Err(ParseError::Schema(FieldId::HttpAccessTokens))
                } else {
                    Ok(
                        Some(
                            HTTPConfigView {
                                bind_address: hb,
                                access_tokens: spec_token_pairs(entries),
                            },
                        ),
                    )
                },
            },
        }
    }
}

/// What `Configuration::load` returns on any byte buffer: the typed record,
/// or the first fault in document order. `mode` and the `udp` block are
/// required; `http`, `log_level`, `db_path`, `cleanup_interval` and
/// `external_ip` are optional.
pub open spec fn spec_parse(data: Seq<u8>) -> Result<ConfigView, ParseError> {
    if !toml_ok(data) {
        Err(ParseError::Syntax)
    } else {
        match toml_str(data, seq!["mode"@]) {
            None => Err(ParseError::Schema(FieldId::Mode)),
            Some(ms) => match spec_mode_of(ms) {
                None => Err(ParseError::Schema(FieldId::Mode)),
                Some(mode) => if !toml_is_table(data, seq!["udp"@]) {
                    Err(ParseError::Schema(FieldId::Udp))
                } else {
                    match toml_str(data, seq!["udp"@, "bind_address"@]) {
                        None => Err(ParseError::Schema(FieldId::UdpBindAddress)),
                        Some(ub) => match toml_int(data, seq!["udp"@, "announce_interval"@]) {
                            None => Err(ParseError::Schema(FieldId::UdpAnnounceInterval)),
                            Some(ai) => if ai < 0 || ai > u32::MAX {
                                Err(ParseError::Schema(FieldId::UdpAnnounceInterval))
                            } else {
                                match spec_http(data) {
                                    Err(e) => Err(e),
                                    Ok(http) => match spec_opt_str_field(
                                        data,
                                        "log_level"@,
                                        FieldId::LogLevel,
                                    ) {
                                        Err(e) => Err(e),
                                        Ok(log_level) => match spec_opt_str_field(
                                            data,
                                            "db_path"@,
                                            FieldId::DbPath,
                                        ) {
                                            Err(e) => Err(e),
                                            Ok(db_path) => match spec_cleanup_interval(data) {
                                                Err(e) => Err(e),
                                                Ok(ci) => match spec_opt_str_field(
                                                    data,
                                                    "external_ip"@,
                                                    FieldId::ExternalIp,
                                                ) {
                                                    Err(e) => Err(e),
                                                    Ok(ext) => Ok(
                                                        ConfigView {
                                                            mode,
                                                            udp: UDPConfigView {
                                                                bind_address: ub,
                                                                announce_interval: ai as u32,
                                                            },
                                                            http,
                                                            log_level,
                                                            db_path,
                                                            cleanup_interval: ci,
                                                            external_ip: ext,
                                                        },
                                                    ),
                                                },
                                            },
                                        },
                                    },
                                }
                            },
                        },
                    }
                },
            },
        }
    }
}

/// Maps a mode string to its variant.
pub fn mode_from_str(s: &str) -> (r: Option<TrackerMode>)
    ensures
        r == spec_mode_of(s@),
{
    let t = s.to_owned();
    if t == "public".to_owned() {
        Some(TrackerMode::PublicMode)
    } else if t == "listed".to_owned() {
        Some(TrackerMode::ListedMode)
    } else if t == "private".to_owned() {
        Some(TrackerMode::PrivateMode)
    } else if t == "private_listed".to_owned() {
        Some(TrackerMode::PrivateListedMode)
    } else {
        None
    }
}

} // verus!

verus! {

/// Reads an optional top-level string field.
fn opt_str_field(data: &[u8], key: &str, fid: FieldId) -> (r: Result<Option<String>, ParseError>)
    requires
        toml_ok(data@),
    ensures
        match (r, spec_opt_str_field(data@, key@, fid)) {
            (Ok(v), Ok(sv)) => v.deep_view() == sv,
            (Err(e1), Err(e2)) => e1 == e2,
            _ => false,
        },
{
    if !toml_has1(data, key) {
        Ok(None)
    } else {
        match toml_str1(data, key) {
            Some(s) => Ok(Some(s)),
            None => Err(ParseError::Schema(fid)),
        }
    }
}

/// Reads the optional cleanup interval.
fn cleanup_interval_field(data: &[u8]) -> (r: Result<Option<u64>, ParseError>)
    requires
        toml_ok(data@),
    ensures
        match (r, spec_cleanup_interval(data@)) {
            (Ok(v), Ok(sv)) => v == sv,
            (Err(e1), Err(e2)) => e1 == e2,
            _ => false,
        },
{
    if !toml_has1(data, "cleanup_interval") {
        Ok(None)
    } else {
        match toml_int1(data, "cleanup_interval") {
            Some(i) => if i >= 0 {
                Ok(Some(i as u64))
            } else {
                Err(ParseError::Schema(FieldId::CleanupInterval))
            },
            None => Err(ParseError::Schema(FieldId::CleanupInterval)),
        }
    }
}

/// Reads the optional `http` block.
#[verifier::loop_isolation(false)]
fn parse_http(data: &[u8]) -> (r: Result<Option<HTTPConfig>, ParseError>)
    requires
        toml_ok(data@),
    ensures
        match (r, spec_http(data@)) {
            (Ok(None), Ok(None)) => true,
            (Ok(Some(h)), Ok(Some(hv))) => h@ == hv && tokens_wf(h@.access_tokens),
            (Err(e1), Err(e2)) => e1 == e2,
            _ => false,
        },
{
    if !toml_has1(data, "http") {
        return Ok(None);
    }
    if !toml_table1(data, "http") {
        return Err(ParseError::Schema(FieldId::Http));
    }
    let hb = match toml_str2(data, "http", "bind_address") {
        Some(s) => s,
        None => {
            return Err(ParseError::Schema(FieldId::HttpBindAddress));
        },
    };
    let entries = match toml_entries2(data, "http", "access_tokens") {
        Some(v) => v,
        None => {
            return Err(ParseError::Schema(FieldId::HttpAccessTokens));
        },
    };
    let mut tokens: Vec<(String, String)> = Vec::new();
    let mut i: usize = 0;
    while i < entries.len()
        invariant
            i <= entries.len(),
            tokens.len() == i,
            forall|j: int| 0 <= j < i ==> (#[trigger] entries@[j]).1 is Some,
            forall|j: int|
                0 <= j < i ==> (#[trigger] tokens@[j]).0@ == entries@[j].0@ && tokens@[j].1@
                    == entries@[j].1->Some_0@,
        decreases entries.len() - i,
    {
        match &entries[i].1 {
            Some(v) => {
                let pair = (entries[i].0.clone(), v.clone());
                tokens.push(pair);
            },
            None => {
                proof {
                    let sentries = entries.deep_view();
                    assert(sentries[i as int].1 is None);
                    assert(!spec_all_strings(sentries));
                }
                return Err(ParseError::Schema(FieldId::HttpAccessTokens));
            },
        }
        i += 1;
    }
    proof {
        let sentries = entries.deep_view();
        assert forall|j: int| 0 <= j < sentries.len() implies sentries[j].1 is Some by {
            assert(entries@[j].1 is Some);
        }
        assert(spec_all_strings(sentries));
        assert(tokens.deep_view() =~= spec_token_pairs(sentries));
        assert forall|a: int, b: int| 0 <= a < b < tokens.deep_view().len() implies
            tokens.deep_view()[a].0 != tokens.deep_view()[b].0 by {
            assert(entries@[a].0@ != entries@[b].0@);
        }
    }
    Ok(Some(HTTPConfig { bind_address: hb, access_tokens: tokens }))
}

impl Configuration {
    /// Parses a configuration from a TOML byte buffer: exactly the record
    /// and faults that `spec_parse` describes. Never panics.
    pub fn load(data: &[u8]) -> (r: Result<Configuration, ParseError>)
        ensures
            match (r, spec_parse(data@)) {
                (Ok(c), Ok(v)) => c@ == v,
                (Err(e1), Err(e2)) => e1 == e2,
                _ => false,
            },
            (match r {
                Ok(c) => match c@.http {
                    Some(h) => tokens_wf(h.access_tokens),
                    None => true,
                },
                Err(_) => true,
            }),
    {
        if !toml_check(data) {
            return Err(ParseError::Syntax);
        }
        let mode_s = match toml_str1(data, "mode") {
            Some(s) => s,
            None => {
                return Err(ParseError::Schema(FieldId::Mode));
            },
        };
        let mode = match mode_from_str(mode_s.as_str()) {
            Some(m) => m,
            None => {
                return Err(ParseError::Schema(FieldId::Mode));
            },
        };
        if !toml_table1(data, "udp") {
            return Err(ParseError::Schema(FieldId::Udp));
        }
        let udp_bind = match toml_str2(data, "udp", "bind_address") {
            Some(s) => s,
            None => {
                return Err(ParseError::Schema(FieldId::UdpBindAddress));
            },
        };
        let announce = match toml_int2(data, "udp", "announce_interval") {
            Some(i) => i,
            None => {
                return Err(ParseError::Schema(FieldId::UdpAnnounceInterval));
            },
        };
        if announce < 0 || announce > u32::MAX as i64 {
            return Err(ParseError::Schema(FieldId::UdpAnnounceInterval));
        }
        let http = match parse_http(data) {
            Ok(h) => h,
            Err(e) => {
                return Err(e);
            },
        };
        let log_level = match opt_str_field(data, "log_level", FieldId::LogLevel) {
            Ok(v) => v,
            Err(e) => {
                return Err(e);
            },
        };
        let db_path = match opt_str_field(data, "db_path", FieldId::DbPath) {
            Ok(v) => v,
            Err(e) => {
                return Err(e);
            },
        };
        let cleanup_interval = match cleanup_interval_field(data) {
            Ok(v) => v,
            Err(e) => {
                return Err(e);
            },
        };
        let external_ip = match opt_str_field(data, "external_ip", FieldId::ExternalIp) {
            Ok(v) => v,
            Err(e) => {
                return Err(e);
            },
        };
        Ok(
            Configuration {
                mode,
                udp: UDPConfig {
                    bind_address: udp_bind,
                    announce_interval: announce as u32,
                },
                http,
                log_level,
                db_path,
                cleanup_interval,
                external_ip,
            },
        )
    }
}

} // verus!

verus! {

impl UDPConfig {
    /// The UDP bind address, as written in the configuration.
    pub fn get_address(&self) -> (r: &str)
        ensures
            r@ == self@.bind_address,
    {
        self.bind_address.as_str()
    }

    /// The announce interval in seconds.
    pub fn get_announce_interval(&self) -> (r: u32)
        ensures
            r == self@.announce_interval,
    {
        self.announce_interval
    }
}

impl HTTPConfig {
    /// The HTTP bind address, as written in the configuration.
    pub fn get_address(&self) -> (r: &str)
        ensures
            r@ == self@.bind_address,
    {
        self.bind_address.as_str()
    }

    /// The access tokens, one `(name, token)` pair per entry.
    pub fn get_access_tokens(&self) -> (r: &Vec<(String, String)>)
        ensures
            r.deep_view() == self@.access_tokens,
    {
        &self.access_tokens
    }
}

impl Configuration {
    /// The operating mode.
    pub fn get_mode(&self) -> (r: &TrackerMode)
        ensures
            *r == self@.mode,
    {
        &self.mode
    }

    /// The UDP tracker settings.
    pub fn get_udp_config(&self) -> (r: &UDPConfig)
        ensures
            r@ == self@.udp,
    {
        &self.udp
    }

    /// The log level, if one was configured.
    pub fn get_log_level(&self) -> (r: &Option<String>)
        ensures
            r.deep_view() == self@.log_level,
    {
        &self.log_level
    }

    /// The HTTP tracker settings, if an `http` block was configured.
    pub fn get_http_config(&self) -> (r: Option<&HTTPConfig>)
        ensures
            match (r, self@.http) {
                (Some(h), Some(hv)) => h@ == hv,
                (None, None) => true,
                _ => false,
            },
    {
        self.http.as_ref()
    }

    /// The database path, if one was configured.
    pub fn get_db_path(&self) -> (r: &Option<String>)
        ensures
            r.deep_view() == self@.db_path,
    {
        &self.db_path
    }

    /// The cleanup interval in seconds, if one was configured.
    pub fn get_cleanup_interval(&self) -> (r: Option<u64>)
        ensures
            r == self@.cleanup_interval,
    {
        self.cleanup_interval
    }

    /// The external IP address text, if one was configured or detected.
    pub fn get_ext_ip(&self) -> (r: &Option<String>)
        ensures
            r.deep_view() == self@.external_ip,
    {
        &self.external_ip
    }

    /// The process-level default configuration: public mode, UDP on
    /// `0.0.0.0:6968` announcing every 120 seconds, HTTP on `127.0.0.1:6969`
    /// with one default access token, trace logging, no database, no cleanup
    /// interval, and whatever external IP the caller detected (absence is
    /// not an error).
    pub fn default_with_external_ip(external_ip: Option<String>) -> (c: Configuration)
        ensures
            c@.mode == TrackerMode::PublicMode,
            c@.udp.bind_address == "0.0.0.0:6968"@,
            c@.udp.announce_interval == 120,
            c@.http matches Some(h) && h.bind_address == "127.0.0.1:6969"@ && h.access_tokens
                =~= seq![("someone"@, "MyAccessToken"@)],
            c@.log_level == Some("trace"@),
            c@.db_path is None,
            c@.cleanup_interval is None,
            c@.external_ip == external_ip.deep_view(),
    {
        let mut access_tokens: Vec<(String, String)> = Vec::new();
        access_tokens.push(("someone".to_owned(), "MyAccessToken".to_owned()));
        Configuration {
            mode: TrackerMode::PublicMode,
            udp: UDPConfig {
                bind_address: "0.0.0.0:6968".to_owned(),
                announce_interval: 120,
            },
            http: Some(
                HTTPConfig {
                    bind_address: "127.0.0.1:6969".to_owned(),
                    access_tokens,
                },
            ),
            log_level: Some("trace".to_owned()),
            db_path: None,
            cleanup_interval: None,
            external_ip,
        }
    }
}

} // verus!

verus! {

impl ParseError {
    /// A human-readable description of the fault.
    pub fn message(&self) -> (m: String)
        ensures
            self is Syntax ==> m@ == "the bytes are not well-formed TOML"@,
            self is Schema ==> m@ == "the document does not fit the configuration schema"@,
    {
        match self {
            ParseError::Syntax => "the bytes are not well-formed TOML".to_owned(),
            ParseError::Schema(_) => "the document does not fit the configuration schema".to_owned(),
        }
    }
}

impl ConfigError {
    /// A human-readable description of the failure: the I/O error text as it
    /// came, or the parse fault's description.
    pub fn message(&self) -> (m: String)
        ensures
            match self {
                ConfigError::IOError(s) => m@ == s@,
                ConfigError::ParseError(e) => (e is Syntax ==> m@
                    == "the bytes are not well-formed TOML"@) && (e is Schema ==> m@
                    == "the document does not fit the configuration schema"@),
            },
    {
        match self {
            ConfigError::IOError(s) => s.clone(),
            ConfigError::ParseError(e) => e.message(),
        }
    }
}

} // verus!
