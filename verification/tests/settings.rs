use fly_dns::settings::{CacheStore, ConfigError, DataStore, Settings};
use fly_dns::source::{
    census, duplicate, is_nested, is_overridden, key_is, kind_is, leads_to, lookup, merge,
    path_begins, Entry, Source,
};

fn entry(path: &[&str], value: &str) -> Entry {
    Entry { path: path.iter().map(|s| s.to_string()).collect(), value: value.to_string() }
}

#[test]
fn no_sources_give_an_empty_snapshot() {
    let settings = Settings::new(Source::Absent, Source::Absent).unwrap();
    assert!(settings.data_store.is_none());
    assert!(settings.cache_store.is_none());
}

#[test]
fn empty_sources_give_an_empty_snapshot() {
    let settings = Settings::new(Source::Entries(vec![]), Source::Entries(vec![])).unwrap();
    assert!(settings.data_store.is_none());
    assert!(settings.cache_store.is_none());
}

#[test]
fn file_chooses_sqlite_data_store() {
    let file = Source::Entries(vec![entry(&["data_store", "Sqlite", "filename"], "data.db")]);
    let settings = Settings::new(file, Source::Absent).unwrap();
    match settings.data_store {
        Some(DataStore::Sqlite(store)) => assert_eq!(store.filename, "data.db"),
        other => panic!("unexpected data store: {:?}", other),
    }
    assert!(settings.cache_store.is_none());
}

#[test]
fn postgres_takes_its_optional_fields() {
    let file = Source::Entries(vec![
        entry(&["data_store", "Postgres", "url"], "postgres://db"),
        entry(&["data_store", "Postgres", "database"], "fly"),
        entry(&["data_store", "Postgres", "tls_ca_crt"], "ca.pem"),
    ]);
    let settings = Settings::new(file, Source::Absent).unwrap();
    match settings.data_store {
        Some(DataStore::Postgres(store)) => {
            assert_eq!(store.url, "postgres://db");
            assert_eq!(store.database, Some("fly".to_string()));
            assert_eq!(store.tls_client_crt, None);
            assert_eq!(store.tls_client_key, None);
            assert_eq!(store.tls_ca_crt, Some("ca.pem".to_string()));
        }
        other => panic!("unexpected data store: {:?}", other),
    }
}

#[test]
fn postgres_takes_its_client_certificate() {
    let file = Source::Entries(vec![
        entry(&["data_store", "Postgres", "tls_client_key"], "key.pem"),
        entry(&["data_store", "Postgres", "tls_client_crt"], "crt.pem"),
        entry(&["data_store", "Postgres", "url"], "postgres://db"),
    ]);
    let settings = Settings::new(file, Source::Absent).unwrap();
    match settings.data_store {
        Some(DataStore::Postgres(store)) => {
            assert_eq!(store.database, None);
            assert_eq!(store.tls_client_crt, Some("crt.pem".to_string()));
            assert_eq!(store.tls_client_key, Some("key.pem".to_string()));
            assert_eq!(store.tls_ca_crt, None);
        }
        other => panic!("unexpected data store: {:?}", other),
    }
}

#[test]
fn redis_cache_store_with_namespace() {
    let file = Source::Entries(vec![
        entry(&["cache_store", "Redis", "url"], "redis://cache"),
        entry(&["cache_store", "Redis", "namespace"], "edge"),
    ]);
    let settings = Settings::new(file, Source::Absent).unwrap();
    match settings.cache_store {
        Some(CacheStore::Redis(store)) => {
            assert_eq!(store.url, "redis://cache");
            assert_eq!(store.namespace, Some("edge".to_string()));
        }
        other => panic!("unexpected cache store: {:?}", other),
    }
    assert!(settings.data_store.is_none());
}

#[test]
fn sqlite_cache_store() {
    let file = Source::Entries(vec![entry(&["cache_store", "Sqlite", "filename"], "cache.db")]);
    let settings = Settings::new(file, Source::Absent).unwrap();
    match settings.cache_store {
        Some(CacheStore::Sqlite(store)) => assert_eq!(store.filename, "cache.db"),
        other => panic!("unexpected cache store: {:?}", other),
    }
}

#[test]
fn both_stores_are_read_independently() {
    let file = Source::Entries(vec![
        entry(&["cache_store", "Redis", "url"], "redis://cache"),
        entry(&["data_store", "Sqlite", "filename"], "data.db"),
    ]);
    let settings = Settings::new(file, Source::Absent).unwrap();
    assert!(matches!(settings.data_store, Some(DataStore::Sqlite(_))));
    match settings.cache_store {
        Some(CacheStore::Redis(store)) => assert_eq!(store.namespace, None),
        other => panic!("unexpected cache store: {:?}", other),
    }
}

#[test]
fn environment_wins_over_file_for_the_same_key() {
    let file = Source::Entries(vec![entry(&["data_store", "Sqlite", "filename"], "file.db")]);
    let env = Source::Entries(vec![entry(&["data_store", "Sqlite", "filename"], "env.db")]);
    let settings = Settings::new(file, env).unwrap();
    match settings.data_store {
        Some(DataStore::Sqlite(store)) => assert_eq!(store.filename, "env.db"),
        other => panic!("unexpected data store: {:?}", other),
    }
}

#[test]
fn file_value_shows_where_environment_is_silent() {
    let file = Source::Entries(vec![
        entry(&["cache_store", "Redis", "url"], "redis://file"),
        entry(&["cache_store", "Redis", "namespace"], "from-file"),
    ]);
    let env = Source::Entries(vec![entry(&["cache_store", "Redis", "url"], "redis://env")]);
    let settings = Settings::new(file, env).unwrap();
    match settings.cache_store {
        Some(CacheStore::Redis(store)) => {
            assert_eq!(store.url, "redis://env");
            assert_eq!(store.namespace, Some("from-file".to_string()));
        }
        other => panic!("unexpected cache store: {:?}", other),
    }
}

#[test]
fn missing_file_with_environment_builds_from_environment() {
    let env = Source::Entries(vec![entry(&["cache_store", "Sqlite", "filename"], "env.db")]);
    let settings = Settings::new(Source::Absent, env).unwrap();
    match settings.cache_store {
        Some(CacheStore::Sqlite(store)) => assert_eq!(store.filename, "env.db"),
        other => panic!("unexpected cache store: {:?}", other),
    }
    assert!(settings.data_store.is_none());
}

#[test]
fn loading_twice_gives_the_same_snapshot() {
    let make = || {
        Source::Entries(vec![
            entry(&["data_store", "Postgres", "url"], "postgres://db"),
            entry(&["cache_store", "Sqlite", "filename"], "cache.db"),
        ])
    };
    let first = Settings::new(make(), Source::Absent).unwrap();
    let second = Settings::new(make(), Source::Absent).unwrap();
    assert_eq!(format!("{:?}", first), format!("{:?}", second));
}

#[test]
fn later_entry_of_one_source_counts() {
    let file = Source::Entries(vec![
        entry(&["data_store", "Sqlite", "filename"], "old.db"),
        entry(&["data_store", "Sqlite", "filename"], "new.db"),
    ]);
    let settings = Settings::new(file, Source::Absent).unwrap();
    match settings.data_store {
        Some(DataStore::Sqlite(store)) => assert_eq!(store.filename, "new.db"),
        other => panic!("unexpected data store: {:?}", other),
    }
}

#[test]
fn unknown_keys_are_ignored() {
    let file = Source::Entries(vec![
        entry(&["log_level"], "debug"),
        entry(&["data_store", "Sqlite", "filename"], "data.db"),
        entry(&["data_store", "Sqlite", "journal"], "wal"),
        entry(&["other", "Sqlite", "filename"], "x.db"),
    ]);
    let settings = Settings::new(file, Source::Absent).unwrap();
    match settings.data_store {
        Some(DataStore::Sqlite(store)) => assert_eq!(store.filename, "data.db"),
        other => panic!("unexpected data store: {:?}", other),
    }
    assert!(settings.cache_store.is_none());
}

#[test]
fn malformed_file_fails_the_load() {
    let env = Source::Entries(vec![entry(&["data_store", "Sqlite", "filename"], "env.db")]);
    assert_eq!(Settings::new(Source::Malformed, env).unwrap_err(), ConfigError::MalformedSource);
}

#[test]
fn malformed_environment_fails_the_load() {
    let file = Source::Entries(vec![entry(&["data_store", "Sqlite", "filename"], "data.db")]);
    assert_eq!(Settings::new(file, Source::Malformed).unwrap_err(), ConfigError::MalformedSource);
}

#[test]
fn two_backend_kinds_for_one_store_fail_the_load() {
    let file = Source::Entries(vec![
        entry(&["data_store", "Sqlite", "filename"], "data.db"),
        entry(&["data_store", "Postgres", "url"], "postgres://db"),
    ]);
    assert_eq!(
        Settings::new(file, Source::Absent).unwrap_err(),
        ConfigError::ConflictingVariants
    );
}

#[test]
fn conflicting_kinds_across_sources_fail_the_load() {
    let file = Source::Entries(vec![entry(&["cache_store", "Sqlite", "filename"], "cache.db")]);
    let env = Source::Entries(vec![entry(&["cache_store", "Redis", "url"], "redis://cache")]);
    assert_eq!(Settings::new(file, env).unwrap_err(), ConfigError::ConflictingVariants);
}

#[test]
fn unknown_backend_kind_fails_the_load() {
    let file = Source::Entries(vec![entry(&["data_store", "Redis", "url"], "redis://x")]);
    assert_eq!(Settings::new(file, Source::Absent).unwrap_err(), ConfigError::UnknownVariant);
    let file = Source::Entries(vec![entry(&["cache_store", "Postgres", "url"], "postgres://x")]);
    assert_eq!(Settings::new(file, Source::Absent).unwrap_err(), ConfigError::UnknownVariant);
}

#[test]
fn missing_mandatory_field_fails_the_load() {
    let file = Source::Entries(vec![entry(&["data_store", "Postgres", "database"], "fly")]);
    assert_eq!(Settings::new(file, Source::Absent).unwrap_err(), ConfigError::MissingField);
    let file = Source::Entries(vec![entry(&["cache_store", "Redis", "namespace"], "edge")]);
    assert_eq!(Settings::new(file, Source::Absent).unwrap_err(), ConfigError::MissingField);
    let file = Source::Entries(vec![entry(&["cache_store", "Sqlite", "path"], "cache.db")]);
    assert_eq!(Settings::new(file, Source::Absent).unwrap_err(), ConfigError::MissingField);
}

#[test]
fn scalar_in_place_of_a_store_fails_the_load() {
    let env = Source::Entries(vec![entry(&["data_store"], "Sqlite")]);
    assert_eq!(Settings::new(Source::Absent, env).unwrap_err(), ConfigError::InvalidType);
    let file = Source::Entries(vec![entry(&["cache_store", "Redis"], "redis://cache")]);
    assert_eq!(Settings::new(file, Source::Absent).unwrap_err(), ConfigError::InvalidType);
}

#[test]
fn shape_fault_comes_before_other_faults() {
    let file = Source::Entries(vec![
        entry(&["data_store", "Sqlite", "filename"], "data.db"),
        entry(&["data_store", "Postgres", "url"], "postgres://db"),
        entry(&["data_store", "Mongo", "url"], "mongo://db"),
        entry(&["data_store"], "x"),
    ]);
    assert_eq!(Settings::new(file, Source::Absent).unwrap_err(), ConfigError::InvalidType);
    let file = Source::Entries(vec![
        entry(&["data_store", "Sqlite", "filename"], "data.db"),
        entry(&["data_store", "Mongo", "url"], "mongo://db"),
    ]);
    assert_eq!(
        Settings::new(file, Source::Absent).unwrap_err(),
        ConfigError::ConflictingVariants
    );
    let file = Source::Entries(vec![
        entry(&["data_store", "Mongo", "url"], "mongo://db"),
        entry(&["data_store", "Mongo", "filename"], "data.db"),
    ]);
    assert_eq!(Settings::new(file, Source::Absent).unwrap_err(), ConfigError::UnknownVariant);
}

#[test]
fn data_store_fault_comes_before_cache_store_fault() {
    let file = Source::Entries(vec![
        entry(&["cache_store", "Postgres", "url"], "postgres://x"),
        entry(&["data_store", "Sqlite", "name"], "data.db"),
    ]);
    assert_eq!(Settings::new(file, Source::Absent).unwrap_err(), ConfigError::MissingField);
}

#[test]
fn backend_kinds_are_told_apart_without_regard_to_case() {
    let env = Source::Entries(vec![entry(&["data_store", "sqlite", "filename"], "data.db")]);
    let settings = Settings::new(Source::Absent, env).unwrap();
    match settings.data_store {
        Some(DataStore::Sqlite(store)) => assert_eq!(store.filename, "data.db"),
        other => panic!("unexpected data store: {:?}", other),
    }
    let env = Source::Entries(vec![
        entry(&["cache_store", "REDIS", "url"], "redis://cache"),
        entry(&["data_store", "postgres", "url"], "postgres://db"),
    ]);
    let settings = Settings::new(Source::Absent, env).unwrap();
    assert!(matches!(settings.data_store, Some(DataStore::Postgres(_))));
    assert!(matches!(settings.cache_store, Some(CacheStore::Redis(_))));
}

#[test]
fn two_spellings_of_one_kind_fail_the_load() {
    let file = Source::Entries(vec![entry(&["data_store", "Sqlite", "filename"], "file.db")]);
    let env = Source::Entries(vec![entry(&["data_store", "sqlite", "filename"], "env.db")]);
    assert_eq!(Settings::new(file, env).unwrap_err(), ConfigError::ConflictingVariants);
}

#[test]
fn fields_are_found_under_the_spelling_in_use() {
    let file = Source::Entries(vec![
        entry(&["cache_store", "redis", "url"], "redis://file"),
        entry(&["cache_store", "redis", "namespace"], "ns"),
    ]);
    let env = Source::Entries(vec![entry(&["cache_store", "redis", "url"], "redis://env")]);
    let settings = Settings::new(file, env).unwrap();
    match settings.cache_store {
        Some(CacheStore::Redis(store)) => {
            assert_eq!(store.url, "redis://env");
            assert_eq!(store.namespace, Some("ns".to_string()));
        }
        other => panic!("unexpected cache store: {:?}", other),
    }
}

#[test]
fn field_names_are_spelled_exactly() {
    let file = Source::Entries(vec![entry(&["data_store", "Sqlite", "Filename"], "data.db")]);
    assert_eq!(Settings::new(file, Source::Absent).unwrap_err(), ConfigError::MissingField);
    let file = Source::Entries(vec![entry(&["Data_Store", "Sqlite", "filename"], "data.db")]);
    assert!(Settings::new(file, Source::Absent).unwrap().data_store.is_none());
}

#[test]
fn kind_comparison_ignores_case_only() {
    assert!(kind_is("Sqlite", "Sqlite"));
    assert!(kind_is("SQLITE", "Sqlite"));
    assert!(kind_is("sqlite", "Sqlite"));
    assert!(!kind_is("sqlite3", "Sqlite"));
    assert!(!kind_is("Redis", "Sqlite"));
}

#[test]
fn table_in_place_of_a_field_fails_the_load() {
    let file = Source::Entries(vec![entry(
        &["data_store", "Sqlite", "filename", "nested"],
        "data.db",
    )]);
    assert_eq!(Settings::new(file, Source::Absent).unwrap_err(), ConfigError::InvalidType);
    let file = Source::Entries(vec![
        entry(&["data_store", "Postgres", "url"], "postgres://db"),
        entry(&["data_store", "Postgres", "tls_client_key", "0"], "key.pem"),
    ]);
    assert_eq!(Settings::new(file, Source::Absent).unwrap_err(), ConfigError::InvalidType);
    let file = Source::Entries(vec![
        entry(&["cache_store", "Redis", "url"], "redis://cache"),
        entry(&["cache_store", "Redis", "namespace", "a", "b"], "x"),
    ]);
    assert_eq!(Settings::new(file, Source::Absent).unwrap_err(), ConfigError::InvalidType);
}

#[test]
fn tables_under_unknown_fields_are_ignored() {
    let file = Source::Entries(vec![
        entry(&["cache_store", "Redis", "url"], "redis://cache"),
        entry(&["cache_store", "Redis", "pool", "size"], "4"),
    ]);
    let settings = Settings::new(file, Source::Absent).unwrap();
    match settings.cache_store {
        Some(CacheStore::Redis(store)) => assert_eq!(store.url, "redis://cache"),
        other => panic!("unexpected cache store: {:?}", other),
    }
}

#[test]
fn nesting_is_found_below_the_exact_key_only() {
    let entries = vec![entry(&["s", "V", "f", "x"], "1"), entry(&["s", "V", "g"], "2")];
    assert!(is_nested(&entries, "s", "V", "f"));
    assert!(!is_nested(&entries, "s", "V", "g"));
    assert!(!is_nested(&entries, "s", "W", "f"));
    assert!(!is_nested(&vec![], "s", "V", "f"));
}

#[test]
fn from_entries_reads_merged_entries() {
    let merged = vec![
        entry(&["data_store", "Sqlite", "filename"], "a.db"),
        entry(&["cache_store", "Redis", "url"], "redis://c"),
    ];
    let settings = Settings::from_entries(&merged).unwrap();
    assert!(matches!(settings.data_store, Some(DataStore::Sqlite(_))));
    assert!(matches!(settings.cache_store, Some(CacheStore::Redis(_))));
}

#[test]
fn error_messages_differ_by_kind() {
    assert_eq!(ConfigError::MalformedSource.message(), "a configuration source is malformed");
    assert_eq!(ConfigError::MissingField.message(), "a store lacks a mandatory field");
    assert_eq!(ConfigError::UnknownVariant.message(), "a store names an unknown backend kind");
    assert_eq!(
        ConfigError::ConflictingVariants.message(),
        "a store names more than one backend kind"
    );
    assert_eq!(
        ConfigError::InvalidType.message(),
        "a store value has the wrong shape"
    );
}

#[test]
fn key_comparison_is_exact() {
    assert!(key_is(&"data_store".to_string(), "data_store"));
    assert!(!key_is(&"data_store".to_string(), "data_stor"));
    assert!(!key_is(&"Data_store".to_string(), "data_store"));
}

#[test]
fn path_comparison_needs_three_matching_segments() {
    let e = entry(&["a", "b", "c"], "v");
    assert!(leads_to(&e, "a", "b", "c"));
    assert!(!leads_to(&e, "a", "b", "d"));
    assert!(!leads_to(&entry(&["a", "b"], "v"), "a", "b", "c"));
    assert!(!leads_to(&entry(&["a", "b", "c", "d"], "v"), "a", "b", "c"));
}

#[test]
fn lookup_returns_latest_value() {
    let entries = vec![
        entry(&["s", "V", "f"], "1"),
        entry(&["s", "V", "g"], "2"),
        entry(&["s", "V", "f"], "3"),
    ];
    assert_eq!(lookup(&entries, "s", "V", "f"), Some("3".to_string()));
    assert_eq!(lookup(&entries, "s", "V", "g"), Some("2".to_string()));
    assert_eq!(lookup(&entries, "s", "V", "h"), None);
    assert_eq!(lookup(&vec![], "s", "V", "f"), None);
}

#[test]
fn census_reports_what_entries_name() {
    let entries = vec![
        entry(&["s", "A", "f"], "1"),
        entry(&["t", "B", "f"], "2"),
        entry(&["s", "C", "f"], "3"),
    ];
    let found = census(&entries, "s");
    assert!(found.configured);
    assert!(!found.misplaced);
    assert!(found.mixed);
    assert_eq!(found.spelling, Some("C".to_string()));
    let found = census(&entries, "t");
    assert!(found.configured && !found.misplaced && !found.mixed);
    assert_eq!(found.spelling, Some("B".to_string()));
    let found = census(&entries, "u");
    assert!(!found.configured && !found.misplaced && !found.mixed);
    assert_eq!(found.spelling, None);
    let found = census(&vec![entry(&["s", "A"], "x"), entry(&["s"], "y")], "s");
    assert!(found.configured && found.misplaced && !found.mixed);
    assert_eq!(found.spelling, Some("A".to_string()));
    let found = census(&vec![entry(&["s", "A", "f"], "x"), entry(&["s", "A", "g"], "y")], "s");
    assert!(found.configured && !found.misplaced && !found.mixed);
}

fn paths(entries: &[Entry]) -> Vec<(Vec<String>, String)> {
    entries.iter().map(|e| (e.path.clone(), e.value.clone())).collect()
}

#[test]
fn environment_table_replaces_file_scalar() {
    let file = Source::Entries(vec![entry(&["data_store"], "none")]);
    let env = Source::Entries(vec![entry(&["data_store", "sqlite", "filename"], "env.db")]);
    let settings = Settings::new(file, env).unwrap();
    match settings.data_store {
        Some(DataStore::Sqlite(store)) => assert_eq!(store.filename, "env.db"),
        other => panic!("unexpected data store: {:?}", other),
    }
}

#[test]
fn environment_value_replaces_file_table() {
    let file = Source::Entries(vec![
        entry(&["cache_store", "Redis", "url", "host"], "cache"),
        entry(&["cache_store", "Redis", "url", "port"], "6379"),
    ]);
    let env = Source::Entries(vec![entry(&["cache_store", "Redis", "url"], "redis://env")]);
    let settings = Settings::new(file, env).unwrap();
    match settings.cache_store {
        Some(CacheStore::Redis(store)) => assert_eq!(store.url, "redis://env"),
        other => panic!("unexpected cache store: {:?}", other),
    }
}

#[test]
fn environment_scalar_over_a_store_fails_the_load() {
    let file = Source::Entries(vec![entry(&["data_store", "Sqlite", "filename"], "data.db")]);
    let env = Source::Entries(vec![entry(&["data_store"], "sqlite")]);
    assert_eq!(Settings::new(file, env).unwrap_err(), ConfigError::InvalidType);
}

#[test]
fn empty_table_is_a_fault_of_shape_or_a_missing_field() {
    let file = Source::Entries(vec![entry(&["data_store", ""], "")]);
    assert_eq!(Settings::new(file, Source::Absent).unwrap_err(), ConfigError::InvalidType);
    let file = Source::Entries(vec![entry(&["data_store", "Sqlite", ""], "")]);
    assert_eq!(Settings::new(file, Source::Absent).unwrap_err(), ConfigError::MissingField);
    let file = Source::Entries(vec![entry(&["data_store", "Sqlite", "filename", ""], "")]);
    assert_eq!(Settings::new(file, Source::Absent).unwrap_err(), ConfigError::InvalidType);
}

#[test]
fn merge_keeps_untouched_entries_and_appends_the_later_layer() {
    let earlier = vec![
        entry(&["a", "b", "c"], "1"),
        entry(&["a", "b", "d"], "2"),
        entry(&["x"], "3"),
        entry(&["y", "z"], "4"),
    ];
    let later = vec![entry(&["a", "b", "c"], "5"), entry(&["x", "w"], "6"), entry(&["y"], "7")];
    let all = merge(&earlier, &later);
    let expected = vec![
        entry(&["a", "b", "d"], "2"),
        entry(&["a", "b", "c"], "5"),
        entry(&["x", "w"], "6"),
        entry(&["y"], "7"),
    ];
    assert_eq!(paths(&all), paths(&expected));
    assert_eq!(paths(&merge(&earlier, &vec![])), paths(&earlier));
    assert_eq!(paths(&merge(&vec![], &later)), paths(&later));
}

#[test]
fn override_needs_a_related_path() {
    let later = vec![entry(&["a", "b"], "1")];
    let path = |p: &[&str]| -> Vec<String> { p.iter().map(|s| s.to_string()).collect() };
    assert!(is_overridden(&path(&["a", "b"]), &later));
    assert!(is_overridden(&path(&["a"]), &later));
    assert!(is_overridden(&path(&["a", "b", "c"]), &later));
    assert!(!is_overridden(&path(&["a", "c"]), &later));
    assert!(!is_overridden(&path(&["b"]), &later));
    assert!(!is_overridden(&path(&["a", "b"]), &vec![]));
}

#[test]
fn path_begins_compares_leading_segments() {
    let path = |p: &[&str]| -> Vec<String> { p.iter().map(|s| s.to_string()).collect() };
    assert!(path_begins(&path(&[]), &path(&["a"])));
    assert!(path_begins(&path(&["a"]), &path(&["a"])));
    assert!(path_begins(&path(&["a"]), &path(&["a", "b"])));
    assert!(!path_begins(&path(&["a", "b"]), &path(&["a"])));
    assert!(!path_begins(&path(&["b"]), &path(&["a", "b"])));
    assert!(!path_begins(&path(&["a", "c"]), &path(&["a", "b", "c"])));
}

#[test]
fn duplicate_copies_path_and_value() {
    let e = entry(&["a", "b", "c"], "v");
    let copy = duplicate(&e);
    assert_eq!(copy.path, e.path);
    assert_eq!(copy.value, e.value);
}
