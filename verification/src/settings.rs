//! The typed configuration snapshot and how it is built from layered
//! sources.

use vstd::prelude::*;
use crate::source::{
    census, configured, entries_view, field, is_nested, kind_is, lookup, merge, merged, misplaced,
    mixed, nested, same_kind, spelled, text_view, Entry, EntryView, Source,
};

verus! {

/// Why loading the configuration failed.
#[derive(Debug, Clone, Copy, PartialEq, Eq)]
pub enum ConfigError {
    /// A source is present and cannot be read as configuration.
    MalformedSource,
    /// A value stands where a store's variants or a variant's fields
    /// belong, or a table or list where a field holds text.
    InvalidType,
    /// A store names a backend kind that does not exist.
    UnknownVariant,
    /// A store names two backend kinds at once.
    ConflictingVariants,
    /// The chosen backend lacks a field it cannot do without.
    MissingField,
}

impl ConfigError {
    /// The wording of the error.
    pub open spec fn text(self) -> Seq<char> {
        match self {
            ConfigError::MalformedSource => "a configuration source is malformed"@,
            ConfigError::InvalidType => "a store value has the wrong shape"@,
            ConfigError::UnknownVariant => "a store names an unknown backend kind"@,
            ConfigError::ConflictingVariants => "a store names more than one backend kind"@,
            ConfigError::MissingField => "a store lacks a mandatory field"@,
        }
    }

    /// The error in words, for logs and for the user.
    pub fn message(&self) -> (words: String)
        ensures
            words@ == self.text(),
    {
        match self {
            ConfigError::MalformedSource => "a configuration source is malformed".to_owned(),
            ConfigError::InvalidType => "a store value has the wrong shape".to_owned(),
            ConfigError::UnknownVariant => "a store names an unknown backend kind".to_owned(),
            ConfigError::ConflictingVariants => "a store names more than one backend kind".to_owned(),
            ConfigError::MissingField => "a store lacks a mandatory field".to_owned(),
        }
    }
}

/// A store kept in an embedded database file.
#[derive(Debug, Clone)]
pub struct SqliteStoreConfig {
    pub filename: String,
}

/// A store kept in a relational database reached over the network.
#[derive(Debug, Clone)]
pub struct PostgresStoreConfig {
    pub url: String,
    pub database: Option<String>,
    pub tls_client_crt: Option<String>,
    pub tls_client_key: Option<String>,
    pub tls_ca_crt: Option<String>,
}

/// A store kept in a key-value service reached over the network.
#[derive(Debug, Clone)]
pub struct RedisStoreConfig {
    pub url: String,
    pub namespace: Option<String>,
}

/// The backend that holds data.
#[derive(Debug, Clone)]
pub enum DataStore {
    Sqlite(SqliteStoreConfig),
    Postgres(PostgresStoreConfig),
}

/// The backend that holds cached values.
#[derive(Debug, Clone)]
pub enum CacheStore {
    Sqlite(SqliteStoreConfig),
    Redis(RedisStoreConfig),
}

/// The configuration snapshot: for each store category the one backend
/// chosen for it, or none.
#[derive(Debug, Clone)]
pub struct Settings {
    pub data_store: Option<DataStore>,
    pub cache_store: Option<CacheStore>,
}

/// The mathematical content of a [`SqliteStoreConfig`].
pub struct SqliteStoreConfigView {
    pub filename: Seq<char>,
}

/// The mathematical content of a [`PostgresStoreConfig`].
pub struct PostgresStoreConfigView {
    pub url: Seq<char>,
    pub database: Option<Seq<char>>,
    pub tls_client_crt: Option<Seq<char>>,
    pub tls_client_key: Option<Seq<char>>,
    pub tls_ca_crt: Option<Seq<char>>,
}

/// The mathematical content of a [`RedisStoreConfig`].
pub struct RedisStoreConfigView {
    pub url: Seq<char>,
    pub namespace: Option<Seq<char>>,
}

/// The mathematical content of a [`DataStore`].
pub enum DataStoreView {
    Sqlite(SqliteStoreConfigView),
    Postgres(PostgresStoreConfigView),
}

/// The mathematical content of a [`CacheStore`].
pub enum CacheStoreView {
    Sqlite(SqliteStoreConfigView),
    Redis(RedisStoreConfigView),
}

/// The mathematical content of a [`Settings`] snapshot.
pub struct SettingsView {
    pub data_store: Option<DataStoreView>,
    pub cache_store: Option<CacheStoreView>,
}

impl View for SqliteStoreConfig {
    type V = SqliteStoreConfigView;

    open spec fn view(&self) -> SqliteStoreConfigView {
        SqliteStoreConfigView { filename: self.filename@ }
    }
}

impl View for PostgresStoreConfig {
    type V = PostgresStoreConfigView;

    open spec fn view(&self) -> PostgresStoreConfigView {
        PostgresStoreConfigView {
            url: self.url@,
            database: text_view(self.database),
            tls_client_crt: text_view(self.tls_client_crt),
            tls_client_key: text_view(self.tls_client_key),
            tls_ca_crt: text_view(self.tls_ca_crt),
        }
    }
}

impl View for RedisStoreConfig {
    type V = RedisStoreConfigView;

    open spec fn view(&self) -> RedisStoreConfigView {
        RedisStoreConfigView { url: self.url@, namespace: text_view(self.namespace) }
    }
}

impl View for DataStore {
    type V = DataStoreView;

    open spec fn view(&self) -> DataStoreView {
        match self {
            DataStore::Sqlite(c) => DataStoreView::Sqlite(c@),
            DataStore::Postgres(c) => DataStoreView::Postgres(c@),
        }
    }
}

impl View for CacheStore {
    type V = CacheStoreView;

    open spec fn view(&self) -> CacheStoreView {
        match self {
            CacheStore::Sqlite(c) => CacheStoreView::Sqlite(c@),
            CacheStore::Redis(c) => CacheStoreView::Redis(c@),
        }
    }
}

impl View for Settings {
    type V = SettingsView;

    open spec fn view(&self) -> SettingsView {
        SettingsView {
            data_store: match self.data_store {
                Some(s) => Some(s@),
                None => None,
            },
            cache_store: match self.cache_store {
                Some(s) => Some(s@),
                None => None,
            },
        }
    }
}

/// The top-level key of the data store.
pub open spec fn data_store_key() -> Seq<char> {
    "data_store"@
}

/// The top-level key of the cache store.
pub open spec fn cache_store_key() -> Seq<char> {
    "cache_store"@
}

/// What is wrong with the shape of the entries under `category`, if
/// anything is: an entry stands where a table belongs, or the entries
/// spell more than one kind.
pub open spec fn store_fault(entries: Seq<EntryView>, category: Seq<char>) -> Option<ConfigError> {
    if misplaced(entries, category) {
        Some(ConfigError::InvalidType)
    } else if mixed(entries, category) {
        Some(ConfigError::ConflictingVariants)
    } else {
        None
    }
}

/// The embedded-file backend that the entries describe under `category`,
/// where they spell its kind `kind`.
pub open spec fn sqlite_of(
    entries: Seq<EntryView>,
    category: Seq<char>,
    kind: Seq<char>,
) -> Result<
    SqliteStoreConfigView,
    ConfigError,
> {
    if nested(entries, category, kind, "filename"@) {
        Err(ConfigError::InvalidType)
    } else {
        match field(entries, category, kind, "filename"@) {
            Some(filename) => Ok(SqliteStoreConfigView { filename }),
            None => Err(ConfigError::MissingField),
        }
    }
}

/// The relational backend that the entries describe under `category`,
/// where they spell its kind `kind`.
pub open spec fn postgres_of(
    entries: Seq<EntryView>,
    category: Seq<char>,
    kind: Seq<char>,
) -> Result<
    PostgresStoreConfigView,
    ConfigError,
> {
    if nested(entries, category, kind, "url"@) || nested(
        entries,
        category,
        kind,
        "database"@,
    ) || nested(entries, category, kind, "tls_client_crt"@) || nested(
        entries,
        category,
        kind,
        "tls_client_key"@,
    ) || nested(entries, category, kind, "tls_ca_crt"@) {
        Err(ConfigError::InvalidType)
    } else {
        match field(entries, category, kind, "url"@) {
            Some(url) => Ok(
                PostgresStoreConfigView {
                    url,
                    database: field(entries, category, kind, "database"@),
                    tls_client_crt: field(entries, category, kind, "tls_client_crt"@),
                    tls_client_key: field(entries, category, kind, "tls_client_key"@),
                    tls_ca_crt: field(entries, category, kind, "tls_ca_crt"@),
                },
            ),
            None => Err(ConfigError::MissingField),
        }
    }
}

/// The key-value backend that the entries describe under `category`,
/// where they spell its kind `kind`.
pub open spec fn redis_of(
    entries: Seq<EntryView>,
    category: Seq<char>,
    kind: Seq<char>,
) -> Result<
    RedisStoreConfigView,
    ConfigError,
> {
    if nested(entries, category, kind, "url"@) || nested(
        entries,
        category,
        kind,
        "namespace"@,
    ) {
        Err(ConfigError::InvalidType)
    } else {
        match field(entries, category, kind, "url"@) {
            Some(url) => Ok(
                RedisStoreConfigView {
                    url,
                    namespace: field(entries, category, kind, "namespace"@),
                },
            ),
            None => Err(ConfigError::MissingField),
        }
    }
}

/// The data store that the entries choose: none where no entry lies under
/// its key; an error where the entries under it are ill-shaped, spell more
/// than one kind, spell a kind that is not known, nest entries below a
/// field of the kind or leave out a mandatory field. Kinds are told apart
/// without regard to the case of letters.
pub open spec fn data_store_of(entries: Seq<EntryView>) -> Result<
    Option<DataStoreView>,
    ConfigError,
> {
    let category = data_store_key();
    if !configured(entries, category) {
        Ok(None)
    } else if let Some(fault) = store_fault(entries, category) {
        Err(fault)
    } else {
        match spelled(entries, category) {
            None => Err(ConfigError::InvalidType),
            Some(kind) => if same_kind(kind, "Sqlite"@) {
                match sqlite_of(entries, category, kind) {
                    Ok(store) => Ok(Some(DataStoreView::Sqlite(store))),
                    Err(fault) => Err(fault),
                }
            } else if same_kind(kind, "Postgres"@) {
                match postgres_of(entries, category, kind) {
                    Ok(store) => Ok(Some(DataStoreView::Postgres(store))),
                    Err(fault) => Err(fault),
                }
            } else {
                Err(ConfigError::UnknownVariant)
            },
        }
    }
}

/// The cache store that the entries choose, by the same rules.
pub open spec fn cache_store_of(entries: Seq<EntryView>) -> Result<
    Option<CacheStoreView>,
    ConfigError,
> {
    let category = cache_store_key();
    if !configured(entries, category) {
        Ok(None)
    } else if let Some(fault) = store_fault(entries, category) {
        Err(fault)
    } else {
        match spelled(entries, category) {
            None => Err(ConfigError::InvalidType),
            Some(kind) => if same_kind(kind, "Sqlite"@) {
                match sqlite_of(entries, category, kind) {
                    Ok(store) => Ok(Some(CacheStoreView::Sqlite(store))),
                    Err(fault) => Err(fault),
                }
            } else if same_kind(kind, "Redis"@) {
                match redis_of(entries, category, kind) {
                    Ok(store) => Ok(Some(CacheStoreView::Redis(store))),
                    Err(fault) => Err(fault),
                }
            } else {
                Err(ConfigError::UnknownVariant)
            },
        }
    }
}

/// The snapshot that merged entries describe. Entries under other keys
/// play no part.
pub open spec fn settings_of(entries: Seq<EntryView>) -> Result<SettingsView, ConfigError> {
    match data_store_of(entries) {
        Err(fault) => Err(fault),
        Ok(data_store) => match cache_store_of(entries) {
            Err(fault) => Err(fault),
            Ok(cache_store) => Ok(SettingsView { data_store, cache_store }),
        },
    }
}

/// The result of loading from a file layer and an environment layer: the
/// environment is merged over the file, so that for one key the
/// environment's value counts.
pub open spec fn load(file: Source, environment: Source) -> Result<SettingsView, ConfigError> {
    if file.is_malformed() || environment.is_malformed() {
        Err(ConfigError::MalformedSource)
    } else {
        settings_of(merged(file.entries(), environment.entries()))
    }
}

/// The contents of a loading result.
pub open spec fn outcome_view(outcome: Result<Settings, ConfigError>) -> Result<
    SettingsView,
    ConfigError,
> {
    match outcome {
        Ok(settings) => Ok(settings@),
        Err(fault) => Err(fault),
    }
}

/// The contents of a decoded data store.
pub open spec fn data_outcome_view(outcome: Result<Option<DataStore>, ConfigError>) -> Result<
    Option<DataStoreView>,
    ConfigError,
> {
    match outcome {
        Ok(Some(store)) => Ok(Some(store@)),
        Ok(None) => Ok(None),
        Err(fault) => Err(fault),
    }
}

/// The contents of a decoded cache store.
pub open spec fn cache_outcome_view(outcome: Result<Option<CacheStore>, ConfigError>) -> Result<
    Option<CacheStoreView>,
    ConfigError,
> {
    match outcome {
        Ok(Some(store)) => Ok(Some(store@)),
        Ok(None) => Ok(None),
        Err(fault) => Err(fault),
    }
}

/// Reads the embedded-file backend under `category`, spelled `kind`.
fn read_sqlite(entries: &Vec<Entry>, category: &str, kind: &str) -> (store: Result<
    SqliteStoreConfig,
    ConfigError,
>)
    ensures
        match sqlite_of(entries_view(entries@), category@, kind@) {
            Ok(wanted) => store is Ok && store->Ok_0@ == wanted,
            Err(fault) => store == Err::<SqliteStoreConfig, ConfigError>(fault),
        },
{
    if is_nested(entries, category, kind, "filename") {
        return Err(ConfigError::InvalidType);
    }
    match lookup(entries, category, kind, "filename") {
        Some(filename) => Ok(SqliteStoreConfig { filename }),
        None => Err(ConfigError::MissingField),
    }
}

/// Reads the relational backend under `category`, spelled `kind`.
fn read_postgres(entries: &Vec<Entry>, category: &str, kind: &str) -> (store: Result<
    PostgresStoreConfig,
    ConfigError,
>)
    ensures
        match postgres_of(entries_view(entries@), category@, kind@) {
            Ok(wanted) => store is Ok && store->Ok_0@ == wanted,
            Err(fault) => store == Err::<PostgresStoreConfig, ConfigError>(fault),
        },
{
    if is_nested(entries, category, kind, "url") || is_nested(
        entries,
        category,
        kind,
        "database",
    ) || is_nested(entries, category, kind, "tls_client_crt") || is_nested(
        entries,
        category,
        kind,
        "tls_client_key",
    ) || is_nested(entries, category, kind, "tls_ca_crt") {
        return Err(ConfigError::InvalidType);
    }
    match lookup(entries, category, kind, "url") {
        Some(url) => Ok(
            PostgresStoreConfig {
                url,
                database: lookup(entries, category, kind, "database"),
                tls_client_crt: lookup(entries, category, kind, "tls_client_crt"),
                tls_client_key: lookup(entries, category, kind, "tls_client_key"),
                tls_ca_crt: lookup(entries, category, kind, "tls_ca_crt"),
            },
        ),
        None => Err(ConfigError::MissingField),
    }
}

/// Reads the key-value backend under `category`, spelled `kind`.
fn read_redis(entries: &Vec<Entry>, category: &str, kind: &str) -> (store: Result<
    RedisStoreConfig,
    ConfigError,
>)
    ensures
        match redis_of(entries_view(entries@), category@, kind@) {
            Ok(wanted) => store is Ok && store->Ok_0@ == wanted,
            Err(fault) => store == Err::<RedisStoreConfig, ConfigError>(fault),
        },
{
    if is_nested(entries, category, kind, "url") || is_nested(
        entries,
        category,
        kind,
        "namespace",
    ) {
        return Err(ConfigError::InvalidType);
    }
    match lookup(entries, category, kind, "url") {
        Some(url) => Ok(
            RedisStoreConfig { url, namespace: lookup(entries, category, kind, "namespace") },
        ),
        None => Err(ConfigError::MissingField),
    }
}

/// Decodes the data store from merged entries.
pub fn read_data_store(entries: &Vec<Entry>) -> (store: Result<Option<DataStore>, ConfigError>)
    ensures
        data_outcome_view(store) == data_store_of(entries_view(entries@)),
{
    let found = census(entries, "data_store");
    if !found.configured {
        Ok(None)
    } else if found.misplaced {
        Err(ConfigError::InvalidType)
    } else if found.mixed {
        Err(ConfigError::ConflictingVariants)
    } else {
        match found.spelling {
            None => Err(ConfigError::InvalidType),
            Some(kind) => {
                if kind_is(kind.as_str(), "Sqlite") {
                    match read_sqlite(entries, "data_store", kind.as_str()) {
                        Ok(store) => Ok(Some(DataStore::Sqlite(store))),
                        Err(fault) => Err(fault),
                    }
                } else if kind_is(kind.as_str(), "Postgres") {
                    match read_postgres(entries, "data_store", kind.as_str()) {
                        Ok(store) => Ok(Some(DataStore::Postgres(store))),
                        Err(fault) => Err(fault),
                    }
                } else {
                    Err(ConfigError::UnknownVariant)
                }
            },
        }
    }
}

/// Decodes the cache store from merged entries.
pub fn read_cache_store(entries: &Vec<Entry>) -> (store: Result<Option<CacheStore>, ConfigError>)
    ensures
        cache_outcome_view(store) == cache_store_of(entries_view(entries@)),
{
    let found = census(entries, "cache_store");
    if !found.configured {
        Ok(None)
    } else if found.misplaced {
        Err(ConfigError::InvalidType)
    } else if found.mixed {
        Err(ConfigError::ConflictingVariants)
    } else {
        match found.spelling {
            None => Err(ConfigError::InvalidType),
            Some(kind) => {
                if kind_is(kind.as_str(), "Sqlite") {
                    match read_sqlite(entries, "cache_store", kind.as_str()) {
                        Ok(store) => Ok(Some(CacheStore::Sqlite(store))),
                        Err(fault) => Err(fault),
                    }
                } else if kind_is(kind.as_str(), "Redis") {
                    match read_redis(entries, "cache_store", kind.as_str()) {
                        Ok(store) => Ok(Some(CacheStore::Redis(store))),
                        Err(fault) => Err(fault),
                    }
                } else {
                    Err(ConfigError::UnknownVariant)
                }
            },
        }
    }
}

impl Settings {
    /// Decodes a snapshot from entries that are already merged.
    pub fn from_entries(entries: &Vec<Entry>) -> (outcome: Result<Settings, ConfigError>)
        ensures
            outcome_view(outcome) == settings_of(entries_view(entries@)),
    {
        let data_store = match read_data_store(entries) {
            Ok(store) => store,
            Err(fault) => {
                return Err(fault);
            },
        };
        let cache_store = match read_cache_store(entries) {
            Ok(store) => store,
            Err(fault) => {
                return Err(fault);
            },
        };
        Ok(Settings { data_store, cache_store })
    }

    /// Loads the snapshot from the file layer and the environment layer.
    /// An absent layer contributes nothing; a malformed one fails the load.
    /// The environment is merged over the file.
    pub fn new(file: Source, environment: Source) -> (outcome: Result<Settings, ConfigError>)
        ensures
            outcome_view(outcome) == load(file, environment),
    {
        let earlier: Vec<Entry> = match file {
            Source::Absent => Vec::new(),
            Source::Malformed => {
                return Err(ConfigError::MalformedSource);
            },
            Source::Entries(entries) => entries,
        };
        let later: Vec<Entry> = match environment {
            Source::Absent => Vec::new(),
            Source::Malformed => {
                return Err(ConfigError::MalformedSource);
            },
            Source::Entries(entries) => entries,
        };
        proof {
            assert(entries_view(earlier@) =~= file.entries());
            assert(entries_view(later@) =~= environment.entries());
        }
        let all = merge(&earlier, &later);
        Settings::from_entries(&all)
    }
}

} // verus!
