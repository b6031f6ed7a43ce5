use user_api::config::{AppEnv, Config};

#[test]
fn from_str_accepts_known_tags() {
    assert_eq!(AppEnv::from_str("local"), Ok(AppEnv::Local));
    assert_eq!(AppEnv::from_str("dev"), Ok(AppEnv::Dev));
    assert_eq!(AppEnv::from_str("development"), Ok(AppEnv::Dev));
    assert_eq!(AppEnv::from_str("prod"), Ok(AppEnv::Prod));
    assert_eq!(AppEnv::from_str("production"), Ok(AppEnv::Prod));
}

#[test]
fn from_str_is_case_insensitive() {
    assert_eq!(AppEnv::from_str("LOCAL"), Ok(AppEnv::Local));
    assert_eq!(AppEnv::from_str("Dev"), Ok(AppEnv::Dev));
    assert_eq!(AppEnv::from_str("PRODUCTION"), Ok(AppEnv::Prod));
}

#[test]
fn from_str_rejects_unknown_tags() {
    assert_eq!(AppEnv::from_str("staging"), Err("invalid APP_ENV: staging".to_owned()));
    assert_eq!(AppEnv::from_str(""), Err("invalid APP_ENV: ".to_owned()));
}

#[test]
fn is_prod_only_for_prod() {
    assert!(AppEnv::Prod.is_prod());
    assert!(!AppEnv::Local.is_prod());
    assert!(!AppEnv::Dev.is_prod());
}

#[test]
fn config_carries_its_fields() {
    let c = Config { db_url: "postgres://localhost/app".to_owned(), app_env: AppEnv::Local };
    assert_eq!(c.db_url, "postgres://localhost/app");
    assert_eq!(c.app_env, AppEnv::Local);
}
