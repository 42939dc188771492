use simple_erp::config::{default_server_options, env_from_name, env_name, str_eq, Config, Env, IpAddress, SiteAddr};
use simple_erp::logging::{Level, LogFormat};

#[test]
fn default_config_values() {
    let c = Config::default();
    assert_eq!(c.logging.verbosity, Level::Info);
    assert_eq!(c.logging.log_format, LogFormat::Compact);
    assert_eq!(c.logging.log_filter, "");
    assert_eq!(c.leptos_options.output_name, "erpc");
    assert_eq!(c.leptos_options.site_root, "target/site");
    assert_eq!(c.leptos_options.site_pkg_dir, "pkg");
    assert_eq!(c.leptos_options.env, Env::PROD);
    assert_eq!(c.leptos_options.site_addr, SiteAddr { ip: IpAddress::V4(127, 0, 0, 1), port: 3000 });
    assert_eq!(c.leptos_options.reload_port, 3001);
    assert_eq!(c.database_url, "sqlite:erp.db");
    assert!(c.migrate_db_on_load);
}

#[test]
fn environment_options_take_precedence() {
    let mut o = default_server_options();
    o.env = Env::DEV;
    o.site_addr.port = 8080;
    let c = Config::with_server_options(Some(o.clone()));
    assert_eq!(c.leptos_options, o);
    assert_eq!(c.database_url, "sqlite:erp.db");
    assert_eq!(Config::with_server_options(None), Config::default());
}

#[test]
fn env_names() {
    assert_eq!(env_name(Env::PROD), "PROD");
    assert_eq!(env_name(Env::DEV), "DEV");
    assert_eq!(env_from_name("PROD"), Some(Env::PROD));
    assert_eq!(env_from_name("DEV"), Some(Env::DEV));
    assert_eq!(env_from_name("prod"), None);
    assert_eq!(env_from_name(""), None);
}

#[test]
fn string_equality() {
    assert!(str_eq("abc", "abc"));
    assert!(!str_eq("abc", "abd"));
    assert!(!str_eq("abc", "ab"));
    assert!(str_eq("", ""));
}
