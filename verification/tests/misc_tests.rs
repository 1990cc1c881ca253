use eardogger::args::{parse_cli_args, parse_import_args};
use eardogger::config::{reader_pool_size, ConfError, LogConfig, LogFileConfig, PreDogConfig, ServeMode};
use eardogger::version::{build_date, commit_sha};

fn args(list: &[&str]) -> Vec<String> {
    list.iter().map(|s| s.to_string()).collect()
}

#[test]
fn cli_flags() {
    let p = parse_cli_args(&args(&["eardogger-rs", "--migrate", "--config", "x.toml"]));
    assert!(p.options.migrate);
    assert!(!p.options.status);
    assert_eq!(p.options.config.as_deref(), Some("x.toml"));
    assert!(!p.dangling_config);
    // The value after --config is taken as-is, even when it looks like a flag.
    let p = parse_cli_args(&args(&["eardogger-rs", "--config", "--status"]));
    assert_eq!(p.options.config.as_deref(), Some("--status"));
    assert!(!p.options.status);
    // A trailing --config is reported and ignored.
    let p = parse_cli_args(&args(&["eardogger-rs", "--status", "--config"]));
    assert!(p.options.status);
    assert_eq!(p.options.config, None);
    assert!(p.dangling_config);
    // The last --config wins; unknown args are ignored.
    let p = parse_cli_args(&args(&["--config", "a", "--whatever", "--config", "b"]));
    assert_eq!(p.options.config.as_deref(), Some("b"));
}

#[test]
fn import_flags() {
    let a = parse_import_args(&args(&[
        "postgres-import",
        "--postgres_url",
        "postgres://db",
        "--sqlite_url",
        "sqlite://file.db",
    ]));
    assert_eq!(a.postgres_url.as_deref(), Some("postgres://db"));
    assert_eq!(a.sqlite_url.as_deref(), Some("sqlite://file.db"));
    let a = parse_import_args(&args(&["postgres-import", "--sqlite_url"]));
    assert_eq!(a.postgres_url, None);
    assert_eq!(a.sqlite_url, None);
}

#[test]
fn version_lines() {
    let data = "abc123\n2024-06-01\n";
    assert_eq!(commit_sha(data), "abc123");
    assert_eq!(build_date(data), "2024-06-01");
    let data = "abc123\r\n2024-06-01";
    assert_eq!(commit_sha(data), "abc123");
    assert_eq!(build_date(data), "2024-06-01");
    assert_eq!(commit_sha(""), "");
    assert_eq!(build_date("only-sha"), "");
}

#[test]
fn reader_pool_sizes() {
    assert_eq!(reader_pool_size(1), 2);
    assert_eq!(reader_pool_size(3), 2);
    assert_eq!(reader_pool_size(4), 2);
    assert_eq!(reader_pool_size(8), 6);
}

fn pre(public_url: &str) -> PreDogConfig {
    PreDogConfig {
        production: true,
        runtime_threads: 2,
        reader_threads: 3,
        mode: ServeMode::Http { port: 443 },
        validate_migrations: false,
        public_url: public_url.to_string(),
        db_file: "eardogger.db".to_string(),
        assets_dir: "/srv/public".to_string(),
        key_file: "keys/cookie_key.bin".to_string(),
        log: LogConfig {
            filter: "info".to_string(),
            stdout: true,
            file: Some(LogFileConfig {
                directory: "logs".to_string(),
                name: "eardogger".to_string(),
                days: 7,
            }),
        },
    }
}

#[test]
fn config_finalizing() {
    let c = pre("https://eardogger.com").finalize("/home/me/data").expect("ok");
    assert_eq!(c.public_url, "https://eardogger.com/");
    assert_eq!(c.db_file, "/home/me/data/eardogger.db");
    assert_eq!(c.assets_dir, "/srv/public");
    assert_eq!(c.key_file, "/home/me/data/keys/cookie_key.bin");
    let f = c.log.file.expect("log file");
    assert_eq!(f.directory, "/home/me/data/logs");
    assert_eq!(f.days, 7);
    assert!(c.production);
    assert_eq!(c.reader_threads, 3);
    assert_eq!(c.mode, ServeMode::Http { port: 443 });
    match pre("not a url").finalize("/home/me/data") {
        Err(ConfError::InvalidPublicUrl(reason)) => assert!(!reason.is_empty()),
        other => panic!("must fail: {:?}", other.map(|_| ())),
    }
    assert!(ConfError::Impossible.message().starts_with("a prior check"));
}

#[test]
fn short_date_descriptions() {
    let date = time::Date::from_calendar_date(2024, time::Month::March, 2).unwrap();
    let unpadded = time::format_description::parse_borrowed::<1>(eardogger::util::SHORT_DATE).unwrap();
    assert_eq!(date.format(unpadded.as_slice()).unwrap(), "2024-3-2");
    let padded =
        time::format_description::parse_borrowed::<1>(eardogger::util::SHORT_DATE_PADDED).unwrap();
    assert_eq!(date.format(padded.as_slice()).unwrap(), "2024-03-02");
}

#[test]
fn check_is_status_and_version_is_read() {
    let p = parse_cli_args(&args(&["eardogger-rs", "--check"]));
    assert!(p.options.status);
    assert!(!p.options.migrate);
    assert!(!p.options.version);
    assert_eq!(p.options.config, None);
    let p = parse_cli_args(&args(&["eardogger-rs", "--version"]));
    assert!(p.options.version);
    assert!(!p.options.status);
}
