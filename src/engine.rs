//! Engine configurations and open databases, and the mapping of the storage
//! engine's outcomes into the host's result convention.
use vstd::prelude::*;
use crate::config::{
    apply_all, configuration_of, options_valid, requested_settings, unset_configuration,
    ConfigOptions, Configuration,
};
use crate::options::BindingError;

verus! {

#[verifier::external_type_specification]
#[verifier::external_body]
pub struct ExConfig(sled::Config);

#[verifier::external_type_specification]
#[verifier::external_body]
pub struct ExDb(sled::Db);

#[verifier::external_type_specification]
#[verifier::external_body]
pub struct ExError(sled::Error);

/// The engine's own configuration fields that this library sets.
pub struct EngineFields {
    pub path: Seq<char>,
    pub cache_capacity: u64,
    pub flush_every_ms: Option<u64>,
    pub create_new: bool,
    pub temporary: bool,
    pub use_compression: bool,
    pub compression_factor: i32,
    pub print_profile_on_drop: bool,
    pub idgen_persist_interval: u64,
}

/// The values that an engine configuration holds in the fields of `EngineFields`.
pub uninterp spec fn engine_fields(c: sled::Config) -> EngineFields;

/// The engine's default configuration fields.
pub open spec fn default_engine_fields() -> EngineFields {
    EngineFields {
        path: seq!['d', 'e', 'f', 'a', 'u', 'l', 't', '.', 's', 'l', 'e', 'd'],
        cache_capacity: 1073741824,
        flush_every_ms: Some(500),
        create_new: false,
        temporary: false,
        use_compression: false,
        compression_factor: 5,
        print_profile_on_drop: false,
        idgen_persist_interval: 1000000,
    }
}

/// The smallest page cache that the engine can open a database with.
pub const MIN_CACHE_CAPACITY: u64 = 256;

/// Relies on `sled::Config::new`: a configuration holding the engine's
/// defaults (`Inner::default`).
pub assume_specification[ sled::Config::new ]() -> (r: sled::Config)
    ensures
        engine_fields(r) == default_engine_fields(),
;

/// Relies on `sled::Config::flush_every_ms`: sets the flush interval and nothing else.
pub assume_specification[ sled::Config::flush_every_ms ](c: sled::Config, every_ms: Option<u64>) -> (r: sled::Config)
    ensures
        engine_fields(r) == (EngineFields { flush_every_ms: every_ms, ..engine_fields(c) }),
;

/// Relies on `sled::Config::temporary`: sets the temporary-mode flag and nothing else.
pub assume_specification[ sled::Config::temporary ](c: sled::Config, to: bool) -> (r: sled::Config)
    ensures
        engine_fields(r) == (EngineFields { temporary: to, ..engine_fields(c) }),
;

/// Relies on `sled::Config::create_new`: sets the create-new flag and nothing else.
pub assume_specification[ sled::Config::create_new ](c: sled::Config, to: bool) -> (r: sled::Config)
    ensures
        engine_fields(r) == (EngineFields { create_new: to, ..engine_fields(c) }),
;

/// Relies on `sled::Config::cache_capacity`: sets the page cache size and nothing else.
pub assume_specification[ sled::Config::cache_capacity ](c: sled::Config, to: u64) -> (r: sled::Config)
    ensures
        engine_fields(r) == (EngineFields { cache_capacity: to, ..engine_fields(c) }),
;

/// Relies on `sled::Config::print_profile_on_drop`: sets the profiling flag and nothing else.
pub assume_specification[ sled::Config::print_profile_on_drop ](c: sled::Config, to: bool) -> (r: sled::Config)
    ensures
        engine_fields(r) == (EngineFields { print_profile_on_drop: to, ..engine_fields(c) }),
;

/// Relies on `sled::Config::use_compression`: sets the compression flag and nothing else.
pub assume_specification[ sled::Config::use_compression ](c: sled::Config, to: bool) -> (r: sled::Config)
    ensures
        engine_fields(r) == (EngineFields { use_compression: to, ..engine_fields(c) }),
;

/// Relies on `sled::Config::compression_factor`: sets the compression level and nothing else.
pub assume_specification[ sled::Config::compression_factor ](c: sled::Config, to: i32) -> (r: sled::Config)
    ensures
        engine_fields(r) == (EngineFields { compression_factor: to, ..engine_fields(c) }),
;

/// Relies on `sled::Config::idgen_persist_interval`: sets the id persistence interval and nothing else.
pub assume_specification[ sled::Config::idgen_persist_interval ](c: sled::Config, interval: u64) -> (r: sled::Config)
    ensures
        engine_fields(r) == (EngineFields { idgen_persist_interval: interval, ..engine_fields(c) }),
;

/// Relies on `sled::Config::open`: opens a database, or reports why it could
/// not. The engine asserts that its page cache holds at least 256 bytes.
pub assume_specification[ sled::Config::open ](c: &sled::Config) -> Result<sled::Db, sled::Error>
    requires
        engine_fields(*c).cache_capacity >= MIN_CACHE_CAPACITY,
;

/// Relies on `sled::Config::new` and `sled::Config::path`: a default
/// configuration stored at `path`. `path` unwraps exclusive access to the
/// configuration, which a configuration made here and shared with no clone has.
#[verifier::external_body]
fn config_at(path: String) -> (r: sled::Config)
    ensures
        engine_fields(r) == (EngineFields { path: path@, ..default_engine_fields() }),
{
    sled::Config::new().path(path)
}

/// Relies on `sled::open`: opens the database stored at `path` with the
/// engine's defaults, or reports why it could not.
#[verifier::external_body]
fn open_at(path: &str) -> Result<sled::Db, sled::Error> {
    sled::open(path)
}

/// Relies on `sled::Tree::insert` (reached through `sled::Db`): stores `value`
/// under `key`; the value that was replaced is not needed.
#[verifier::external_body]
fn db_insert(db: &sled::Db, key: Vec<u8>, value: Vec<u8>) -> Result<(), sled::Error> {
    db.insert(key, value).map(|_| ())
}

/// Relies on `sled::Tree::get` (reached through `sled::Db`): the bytes stored
/// under `key`, copied out of the engine's buffer.
#[verifier::external_body]
fn db_get(db: &sled::Db, key: &[u8]) -> Result<Option<Vec<u8>>, sled::Error> {
    db.get(key).map(|found| found.map(|v| v.to_vec()))
}

/// The engine fields that the settings `c` lead to: each field that `c`
/// sets, and the engine's default for each field it leaves unset.
pub open spec fn fields_for(c: Configuration) -> EngineFields {
    let d = default_engine_fields();
    EngineFields {
        path: match c.path {
            Some(p) => p@,
            None => d.path,
        },
        cache_capacity: or_default(c.cache_capacity, d.cache_capacity),
        flush_every_ms: or_default(c.flush_every_ms, d.flush_every_ms),
        create_new: or_default(c.create_new, d.create_new),
        temporary: or_default(c.temporary, d.temporary),
        use_compression: or_default(c.use_compression, d.use_compression),
        compression_factor: or_default(c.compression_factor, d.compression_factor),
        print_profile_on_drop: or_default(c.print_profile_on_drop, d.print_profile_on_drop),
        idgen_persist_interval: or_default(c.idgen_persist_interval, d.idgen_persist_interval),
    }
}

/// The value held, or `d` when there is none.
pub open spec fn or_default<T>(o: Option<T>, d: T) -> T {
    match o {
        Some(v) => v,
        None => d,
    }
}

/// Whether the settings `c` give the engine a page cache it can open with.
pub open spec fn cache_too_small(c: Configuration) -> bool {
    (c.cache_capacity matches Some(v) && v < MIN_CACHE_CAPACITY)
}

/// The decimal digits of `n`, most significant first.
pub open spec fn decimal(n: nat) -> Seq<char>
    decreases n,
{
    let digit = seq!['0', '1', '2', '3', '4', '5', '6', '7', '8', '9'][(n % 10) as int];
    if n < 10 {
        seq![digit]
    } else {
        decimal(n / 10).push(digit)
    }
}

/// The decimal text of `i`, with a leading `-` when it is negative.
pub open spec fn signed_decimal(i: int) -> Seq<char> {
    if i < 0 {
        seq!['-'] + decimal((-i) as nat)
    } else {
        decimal(i as nat)
    }
}

/// `true` or `false`.
pub open spec fn bool_text(b: bool) -> Seq<char> {
    if b {
        seq!['t', 'r', 'u', 'e']
    } else {
        seq!['f', 'a', 'l', 's', 'e']
    }
}

/// `Some(n)` or `None`, with `n` in decimal.
pub open spec fn optional_decimal(o: Option<u64>) -> Seq<char> {
    match o {
        Some(v) => seq!['S', 'o', 'm', 'e', '('] + decimal(v as nat) + seq![')'],
        None => seq!['N', 'o', 'n', 'e'],
    }
}

/// Whether `part` occurs in `t`.
pub open spec fn contains_text(t: Seq<char>, part: Seq<char>) -> bool {
    exists|i: int| 0 <= i <= t.len() - part.len() && #[trigger] t.subrange(i, i + part.len()) == part
}

/// Whether `t` holds the entry `name: value`.
pub open spec fn shows_field(t: Seq<char>, name: &str, value: Seq<char>) -> bool {
    contains_text(t, name@ + seq![':', ' '] + value)
}

/// Whether `t` lists each numeric and flag field of `f` as `name: value`.
pub open spec fn shows_fields(t: Seq<char>, f: EngineFields) -> bool {
    &&& shows_field(t, "cache_capacity", decimal(f.cache_capacity as nat))
    &&& shows_field(t, "flush_every_ms", optional_decimal(f.flush_every_ms))
    &&& shows_field(t, "create_new", bool_text(f.create_new))
    &&& shows_field(t, "temporary", bool_text(f.temporary))
    &&& shows_field(t, "use_compression", bool_text(f.use_compression))
    &&& shows_field(t, "compression_factor", signed_decimal(f.compression_factor as int))
    &&& shows_field(t, "print_profile_on_drop", bool_text(f.print_profile_on_drop))
    &&& shows_field(t, "idgen_persist_interval", decimal(f.idgen_persist_interval as nat))
}

/// Relies on sled's derived `Debug` for `Config`: it writes each field of
/// the configuration as `name: value`. The text also holds a temporary path
/// drawn from the clock and an address, so it is not named.
#[verifier::external_body]
fn config_text(c: &sled::Config) -> (r: String)
    ensures
        shows_fields(r@, engine_fields(*c)),
{
    format!("{:?}", c)
}

/// Relies on sled's `Display` for `Error`: a readable reason.
#[verifier::external_body]
fn error_text(e: &sled::Error) -> String {
    format!("{}", e)
}

/// What a lookup found: the stored bytes, or the marker for an absent key.
#[derive(Debug, Clone, PartialEq, Eq)]
pub enum Lookup {
    Found(Vec<u8>),
    Absent,
}

/// An immutable engine configuration together with the settings it was built
/// from. The engine receives the fields of `EngineFields`; the segment mode,
/// read-only flag, snapshot path, snapshot interval and segment-cleanup
/// threshold and skew are validated and kept in the settings only, because
/// this engine version has no setter for them or ignores them.
pub struct EngineConfig {
    settings: Configuration,
    engine: sled::Config,
}

/// An open database.
pub struct Database {
    db: sled::Db,
}

impl EngineConfig {
    #[verifier::type_invariant]
    spec fn engine_matches(self) -> bool {
        engine_fields(self.engine) == fields_for(self.settings)
    }

    /// The engine configuration that opening hands to the engine.
    pub closed spec fn engine(&self) -> sled::Config {
        self.engine
    }
}

impl Database {
    /// The engine's database that this handle refers to.
    pub closed spec fn engine(&self) -> sled::Db {
        self.db
    }
}

impl View for EngineConfig {
    type V = Configuration;

    closed spec fn view(&self) -> Configuration {
        self.settings
    }
}

/// Turns an engine failure into the host's failure carrying its reason.
pub fn engine_failure(e: sled::Error) -> (r: BindingError)
    ensures
        r is EngineError,
{
    BindingError::EngineError(error_text(&e))
}

/// Maps the outcome of opening a database: a handle on success, the engine's
/// reason on failure.
pub fn opened(outcome: Result<sled::Db, sled::Error>) -> (r: Result<Database, BindingError>)
    ensures
        r is Ok <==> outcome is Ok,
        r matches Err(e) ==> e is EngineError,
        outcome is Ok ==> r is Ok && r->Ok_0.engine() == outcome->Ok_0,
{
    match outcome {
        Ok(db) => Ok(Database { db }),
        Err(e) => Err(engine_failure(e)),
    }
}

/// Maps the outcome of a write: success, or the engine's reason.
pub fn written(outcome: Result<(), sled::Error>) -> (r: Result<(), BindingError>)
    ensures
        r is Ok <==> outcome is Ok,
        r matches Err(e) ==> e is EngineError,
{
    match outcome {
        Ok(()) => Ok(()),
        Err(e) => Err(engine_failure(e)),
    }
}

/// Maps the outcome of a read: found bytes are handed on unchanged, a missing
/// key becomes the absent marker, and a failure carries the engine's reason.
pub fn looked_up(outcome: Result<Option<Vec<u8>>, sled::Error>) -> (r: Result<Lookup, BindingError>)
    ensures
        r is Ok <==> outcome is Ok,
        r matches Err(e) ==> e is EngineError,
        outcome matches Ok(Some(v)) ==> r == Ok::<Lookup, BindingError>(Lookup::Found(v)),
        outcome matches Ok(None) ==> r == Ok::<Lookup, BindingError>(Lookup::Absent),
{
    match outcome {
        Ok(Some(v)) => Ok(Lookup::Found(v)),
        Ok(None) => Ok(Lookup::Absent),
        Err(e) => Err(engine_failure(e)),
    }
}

/// The engine configuration for `c`: each field that `c` sets is handed to
/// the engine's setter. This engine version has no setter for the segment
/// mode or the read-only flag, and ignores the snapshot and segment-cleanup
/// settings, so those live in the configuration model only.
fn engine_config_of(c: &Configuration) -> (r: sled::Config)
    ensures
        engine_fields(r) == fields_for(*c),
{
    let mut e = match &c.path {
        Some(p) => config_at(p.clone()),
        None => sled::Config::new(),
    };
    let ghost before = engine_fields(e);
    if let Some(v) = c.flush_every_ms {
        e = e.flush_every_ms(v);
    }
    assert(engine_fields(e) == (EngineFields { flush_every_ms: fields_for(*c).flush_every_ms, ..before }));
    let ghost before = engine_fields(e);
    if let Some(v) = c.temporary {
        e = e.temporary(v);
    }
    assert(engine_fields(e) == (EngineFields { temporary: fields_for(*c).temporary, ..before }));
    let ghost before = engine_fields(e);
    if let Some(v) = c.create_new {
        e = e.create_new(v);
    }
    assert(engine_fields(e) == (EngineFields { create_new: fields_for(*c).create_new, ..before }));
    let ghost before = engine_fields(e);
    if let Some(v) = c.cache_capacity {
        e = e.cache_capacity(v);
    }
    assert(engine_fields(e) == (EngineFields { cache_capacity: fields_for(*c).cache_capacity, ..before }));
    let ghost before = engine_fields(e);
    if let Some(v) = c.print_profile_on_drop {
        e = e.print_profile_on_drop(v);
    }
    assert(engine_fields(e) == (EngineFields { print_profile_on_drop: fields_for(*c).print_profile_on_drop, ..before }));
    let ghost before = engine_fields(e);
    if let Some(v) = c.use_compression {
        e = e.use_compression(v);
    }
    assert(engine_fields(e) == (EngineFields { use_compression: fields_for(*c).use_compression, ..before }));
    let ghost before = engine_fields(e);
    if let Some(v) = c.compression_factor {
        e = e.compression_factor(v);
    }
    assert(engine_fields(e) == (EngineFields { compression_factor: fields_for(*c).compression_factor, ..before }));
    let ghost before = engine_fields(e);
    if let Some(v) = c.idgen_persist_interval {
        e = e.idgen_persist_interval(v);
    }
    assert(engine_fields(e) == (EngineFields { idgen_persist_interval: fields_for(*c).idgen_persist_interval, ..before }));
    e
}

/// Builds an engine configuration from the host's record. Malformed
/// tri-state pairs and unknown segment mode tags are refused with
/// `InvalidArgument` before anything is built; nothing touches the disk.
pub fn build_configuration(o: ConfigOptions) -> (r: Result<EngineConfig, BindingError>)
    ensures
        r is Ok <==> options_valid(o),
        r matches Err(e) ==> e == BindingError::InvalidArgument,
        r matches Ok(c) ==> c@ == configuration_of(o),
        r matches Ok(c) ==> c@ == apply_all(unset_configuration(), requested_settings(o)),
        r matches Ok(c) ==> engine_fields(c.engine()) == fields_for(c@),
{
    match Configuration::from_options(o) {
        Ok(settings) => {
            let engine = engine_config_of(&settings);
            Ok(EngineConfig { settings, engine })
        },
        Err(e) => Err(e),
    }
}

/// Opens the database stored at `path` with the engine's defaults.
pub fn open_path(path: &str) -> (r: Result<Database, BindingError>)
    ensures
        r matches Err(e) ==> e is EngineError,
{
    opened(open_at(path))
}

impl EngineConfig {
    /// The settings this configuration was built from. Of these, only the
    /// fields of `EngineFields` reach the engine (see `fields_for`).
    pub fn settings(&self) -> (r: &Configuration)
        ensures
            *r == self@,
    {
        &self.settings
    }

    /// The engine's textual dump of this configuration; it lists the engine
    /// fields that the settings lead to.
    pub fn inspect(&self) -> (r: String)
        ensures
            shows_fields(r@, fields_for(self@)),
    {
        proof {
            use_type_invariant(self);
        }
        config_text(&self.engine)
    }

    /// Opens a database with `engine()`, whose fields are `fields_for(self@)`;
    /// the configuration stays usable and may be opened again. A page cache
    /// below the engine's minimum is refused before the engine is called.
    pub fn open(&self) -> (r: Result<Database, BindingError>)
        ensures
            cache_too_small(self@) ==> (r matches Err(e) && e is EngineError),
            r is Ok ==> !cache_too_small(self@),
            r matches Err(e) ==> e is EngineError,
            engine_fields(self.engine()) == fields_for(self@),
    {
        proof {
            use_type_invariant(self);
        }
        if let Some(v) = self.settings.cache_capacity {
            if v < MIN_CACHE_CAPACITY {
                return Err(BindingError::EngineError(
                    "the cache capacity must be at least 256 bytes".to_string(),
                ));
            }
        }
        opened(self.engine.open())
    }
}

impl Database {
    /// Stores `value` under `key`. An engine failure is returned, never raised.
    pub fn insert(&self, key: Vec<u8>, value: Vec<u8>) -> (r: Result<(), BindingError>)
        ensures
            r matches Err(e) ==> e is EngineError,
    {
        written(db_insert(&self.db, key, value))
    }

    /// The bytes stored under `key`, or the absent marker when there are none.
    pub fn get(&self, key: &[u8]) -> (r: Result<Lookup, BindingError>)
        ensures
            r matches Err(e) ==> e is EngineError,
    {
        looked_up(db_get(&self.db, key))
    }
}


/// Building twice from the same host record gives the same configuration:
/// two successful builds from equal records have equal settings.
pub proof fn lemma_rebuild_same(o1: ConfigOptions, o2: ConfigOptions, c1: EngineConfig, c2: EngineConfig)
    requires
        o1 == o2,
        c1@ == configuration_of(o1),
        c2@ == configuration_of(o2),
    ensures
        c1@ == c2@,
{
}

} // verus!
