use fabric_atelier::config::{
    default_cache_path, default_dimension, default_model, default_provider, default_timeout,
    default_true, ConfigFile, Settings,
};
use fabric_atelier::error::Error;

#[test]
fn test_default_settings() {
    let settings = Settings::default();
    assert_eq!(settings.server.name, "fabric-atelier");
    assert_eq!(settings.fabric.timeout_secs, 30);
    assert_eq!(settings.embeddings.dimension, 1536);
    assert!(settings.performance.simd_enabled);
}

#[test]
fn default_functions() {
    assert_eq!(default_timeout(), 30);
    assert_eq!(default_provider(), "openai");
    assert_eq!(default_model(), "text-embedding-3-small");
    assert_eq!(default_dimension(), 1536);
    assert_eq!(default_cache_path(), "data/cache/embeddings.parquet");
    assert!(default_true());
}

#[test]
fn all_defaults() {
    let settings = Settings::default();
    assert_eq!(settings.server.version, "0.1.0");
    assert_eq!(settings.fabric.patterns_dir, None);
    assert_eq!(settings.fabric.cli_path, None);
    assert_eq!(settings.embeddings.provider, "openai");
    assert_eq!(settings.embeddings.model, "text-embedding-3-small");
    assert_eq!(settings.embeddings.cache_path, "data/cache/embeddings.parquet");
    assert!(settings.performance.parallel_loading);
    assert!(settings.performance.memory_mapped_io);
}

#[test]
fn load_without_file_gives_defaults() {
    let settings = Settings::load("config/default.toml", None).unwrap();
    assert_eq!(settings.server.name, "fabric-atelier");
    assert_eq!(settings.fabric.timeout_secs, 30);
}

#[test]
fn load_with_file_gives_its_settings() {
    let mut custom = Settings::default();
    custom.server.name = "other".to_string();
    custom.fabric.timeout_secs = 5;
    let settings = Settings::load("config/default.toml", Some(ConfigFile::Parsed(custom))).unwrap();
    assert_eq!(settings.server.name, "other");
    assert_eq!(settings.fabric.timeout_secs, 5);
}

#[test]
fn unreadable_file_is_a_config_error() {
    let r = Settings::from_file("conf.toml", ConfigFile::Unreadable("denied".to_string()));
    match r {
        Err(Error::ConfigError(m)) => {
            assert_eq!(m, "Failed to read config file 'conf.toml': denied")
        }
        _ => panic!("expected a configuration error"),
    }
}

#[test]
fn malformed_file_is_a_config_error() {
    let r = Settings::load("conf.toml", Some(ConfigFile::Malformed("line 1".to_string())));
    match r {
        Err(e) => assert_eq!(
            e.message(),
            "Configuration error: Failed to parse config file 'conf.toml': line 1"
        ),
        Ok(_) => panic!("expected a configuration error"),
    }
}
