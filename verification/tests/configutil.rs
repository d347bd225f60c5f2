use cfproxy_rs::args::Args;
use cfproxy_rs::configutil::Config;
use cfproxy_rs::error::Errors;
use cfproxy_rs::logutil::{loginit, LogLevel, LogSetup, LogTarget};

fn no_args() -> Args {
    Args {
        config: None,
        cfhost: None,
        cfip: None,
        token: None,
        host: None,
        port: None,
        user: None,
        passwd: None,
        log: None,
        loglevel: None,
    }
}

fn file_config() -> Config {
    Config {
        cfhost: "file.example.net".to_string(),
        cfip: "104.16.1.1".to_string(),
        token: "file-token".to_string(),
        host: "0.0.0.0".to_string(),
        port: 1080,
        user: "file-user".to_string(),
        passwd: "file-passwd".to_string(),
        log: "/var/log/file.log".to_string(),
        loglevel: "debug".to_string(),
    }
}

#[test]
fn default_settings() {
    let config = Config::default();
    assert_eq!(config.cfhost, "");
    assert_eq!(config.cfip, "104.16.0.0");
    assert_eq!(config.token, "");
    assert_eq!(config.host, "127.0.0.1");
    assert_eq!(config.port, 4514);
    assert_eq!(config.user, "");
    assert_eq!(config.passwd, "");
    assert_eq!(config.log, "");
    assert_eq!(config.loglevel, "info");
}

#[test]
fn load_without_file_starts_from_the_defaults() {
    let mut args = no_args();
    args.cfhost = Some("edge.example.net".to_string());
    let mut expected = Config::default();
    expected.cfhost = "edge.example.net".to_string();
    assert_eq!(Config::load(&args, None), Ok(expected));
}

#[test]
fn load_without_options_keeps_the_file() {
    assert_eq!(Config::load(&no_args(), Some(file_config())), Ok(file_config()));
}

#[test]
fn load_lets_each_option_override_the_file() {
    let args = Args {
        config: Some("/etc/cfproxy.json".to_string()),
        cfhost: Some("arg.example.net".to_string()),
        cfip: Some("104.16.2.2".to_string()),
        token: Some("arg-token".to_string()),
        host: Some("::1".to_string()),
        port: Some(0),
        user: Some("arg-user".to_string()),
        passwd: Some("arg-passwd".to_string()),
        log: Some("arg.log".to_string()),
        loglevel: Some("trace".to_string()),
    };
    let expected = Config {
        cfhost: "arg.example.net".to_string(),
        cfip: "104.16.2.2".to_string(),
        token: "arg-token".to_string(),
        host: "::1".to_string(),
        port: 0,
        user: "arg-user".to_string(),
        passwd: "arg-passwd".to_string(),
        log: "arg.log".to_string(),
        loglevel: "trace".to_string(),
    };
    assert_eq!(Config::load(&args, Some(file_config())), Ok(expected.clone()));
    assert_eq!(Config::load(&args, None), Ok(expected));
}

#[test]
fn load_overrides_one_setting_at_a_time() {
    let mut args = no_args();
    args.port = Some(9050);
    let mut expected = file_config();
    expected.port = 9050;
    assert_eq!(Config::load(&args, Some(file_config())), Ok(expected));
    let mut args = no_args();
    args.user = Some(String::new());
    let mut expected = file_config();
    expected.user = String::new();
    assert_eq!(Config::load(&args, Some(file_config())), Ok(expected));
}

#[test]
fn load_without_cfhost_fails() {
    let missing = Err(Errors::ConfigError("Missing the required config 'cfhost'!".to_string()));
    assert_eq!(Config::load(&no_args(), None), missing);
    let mut args = no_args();
    args.token = Some("token".to_string());
    assert_eq!(Config::load(&args, None), missing);
    let mut file = file_config();
    file.cfhost = String::new();
    assert_eq!(Config::load(&no_args(), Some(file)), missing);
    let mut args = no_args();
    args.cfhost = Some(String::new());
    assert_eq!(Config::load(&args, Some(file_config())), missing);
}

fn level_of(name: &str) -> LogLevel {
    let mut config = Config::default();
    config.loglevel = name.to_string();
    config.get_loglevel()
}

#[test]
fn loglevel_by_name() {
    assert_eq!(level_of("off"), LogLevel::Off);
    assert_eq!(level_of("error"), LogLevel::Error);
    assert_eq!(level_of("warn"), LogLevel::Warn);
    assert_eq!(level_of("info"), LogLevel::Info);
    assert_eq!(level_of("debug"), LogLevel::Debug);
    assert_eq!(level_of("trace"), LogLevel::Trace);
}

#[test]
fn loglevel_in_any_case() {
    assert_eq!(level_of("OFF"), LogLevel::Off);
    assert_eq!(level_of("Error"), LogLevel::Error);
    assert_eq!(level_of("wARN"), LogLevel::Warn);
    assert_eq!(level_of("DeBuG"), LogLevel::Debug);
    assert_eq!(level_of("TRACE"), LogLevel::Trace);
}

#[test]
fn loglevel_falls_back_to_info() {
    assert_eq!(level_of(""), LogLevel::Info);
    assert_eq!(level_of("verbose"), LogLevel::Info);
    assert_eq!(level_of("warning"), LogLevel::Info);
    assert_eq!(level_of(" debug"), LogLevel::Info);
    assert_eq!(level_of("debug "), LogLevel::Info);
    assert_eq!(level_of("tr\u{e4}ce"), LogLevel::Info);
    assert_eq!(level_of("3"), LogLevel::Info);
    assert_eq!(Config::default().get_loglevel(), LogLevel::Info);
}

#[test]
fn loginit_logs_to_stdout_without_a_file() {
    let mut config = Config::default();
    config.loglevel = "warn".to_string();
    assert_eq!(loginit(&config), LogSetup { level: LogLevel::Warn, target: LogTarget::Stdout });
}

#[test]
fn loginit_logs_to_the_configured_file() {
    let mut config = Config::default();
    config.log = "proxy.log".to_string();
    config.loglevel = "nonsense".to_string();
    assert_eq!(
        loginit(&config),
        LogSetup { level: LogLevel::Info, target: LogTarget::File("proxy.log".to_string()) }
    );
}

#[test]
fn listen_addr_joins_host_and_port() {
    assert_eq!(Config::default().listen_addr(), "127.0.0.1:4514");
    let mut config = Config::default();
    config.host = "0.0.0.0".to_string();
    config.port = 0;
    assert_eq!(config.listen_addr(), "0.0.0.0:0");
    config.port = 65535;
    assert_eq!(config.listen_addr(), "0.0.0.0:65535");
}

#[test]
fn credentials_are_set_by_either_name() {
    let mut config = Config::default();
    assert!(!config.has_credentials());
    config.user = "u".to_string();
    assert!(config.has_credentials());
    config.passwd = "p".to_string();
    assert!(config.has_credentials());
    config.user = String::new();
    assert!(config.has_credentials());
}
