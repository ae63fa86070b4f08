use hirai::config::{
    config_file_path, default_log_level, AppConfig, CliArgs, FileConfig, DEFAULT_CONFIG_FILE,
};
use std::path::PathBuf;

fn strings(v: &[&str]) -> Vec<String> {
    v.iter().map(|s| s.to_string()).collect()
}

#[test]
fn test_config_loading_defaults_and_cli_override() {
    let cli_args = CliArgs {
        multicast: Some("239.1.1.1:11111".to_string()),
        folders: strings(&["/tmp/test1", "/tmp/test2"]),
        ..Default::default()
    };
    let merged = FileConfig {
        multicast: Some("239.0.0.1:9999".to_string()),
        webaddr: Some("0.0.0.0:8080".to_string()),
        listen: Some(false),
        browse: Some(false),
        log_level: Some("info".to_string()),
        folders: Some(strings(&["/default/folder"])),
    };
    let app_config = AppConfig::load(cli_args, merged, "info".to_string());
    assert_eq!(app_config.multicast_addr, "239.1.1.1:11111");
    assert_eq!(app_config.folders_to_watch, vec!["/tmp/test1", "/tmp/test2"]);
    assert_eq!(app_config.listen, false);
}

#[test]
fn defaults_fill_every_setting() {
    let merged = FileConfig::defaults("warn".to_string());
    let cfg = AppConfig::load(CliArgs::default(), merged, "warn".to_string());
    assert_eq!(cfg.multicast_addr, "239.0.0.1:9999");
    assert_eq!(cfg.web_addr, "0.0.0.0:8080");
    assert_eq!(cfg.log_level, "warn");
    assert!(!cfg.listen);
    assert!(!cfg.browse);
    assert!(cfg.folders_to_watch.is_empty());
}

#[test]
fn empty_merged_config_falls_back_to_built_in_values() {
    let cfg = AppConfig::load(CliArgs::default(), FileConfig::default(), "debug".to_string());
    assert_eq!(cfg.multicast_addr, "239.0.0.1:9999");
    assert_eq!(cfg.web_addr, "0.0.0.0:8080");
    assert_eq!(cfg.log_level, "debug");
    assert!(cfg.folders_to_watch.is_empty());
}

#[test]
fn merged_values_stand_when_command_line_is_silent() {
    let merged = FileConfig {
        folders: Some(strings(&["/srv/a"])),
        multicast: Some("239.9.9.9:1234".to_string()),
        webaddr: Some("127.0.0.1:9000".to_string()),
        listen: Some(true),
        browse: Some(true),
        log_level: Some("trace".to_string()),
    };
    let cfg = AppConfig::load(CliArgs::default(), merged, "info".to_string());
    assert_eq!(cfg.multicast_addr, "239.9.9.9:1234");
    assert_eq!(cfg.web_addr, "127.0.0.1:9000");
    assert_eq!(cfg.log_level, "trace");
    assert_eq!(cfg.folders_to_watch, vec!["/srv/a"]);
    assert!(cfg.listen);
    assert!(cfg.browse);
}

#[test]
fn command_line_wins_over_merged_values() {
    let cli = CliArgs {
        listen: true,
        browse: true,
        multicast: Some("239.2.2.2:2222".to_string()),
        webaddr: Some("127.0.0.1:1".to_string()),
        config: None,
        folders: strings(&["/cli"]),
        log_level: Some("error".to_string()),
    };
    let merged = FileConfig {
        folders: Some(strings(&["/file"])),
        multicast: Some("239.9.9.9:1234".to_string()),
        webaddr: Some("127.0.0.1:9000".to_string()),
        listen: Some(false),
        browse: Some(false),
        log_level: Some("trace".to_string()),
    };
    let cfg = AppConfig::load(cli, merged, "info".to_string());
    assert_eq!(cfg.multicast_addr, "239.2.2.2:2222");
    assert_eq!(cfg.web_addr, "127.0.0.1:1");
    assert_eq!(cfg.log_level, "error");
    assert_eq!(cfg.folders_to_watch, vec!["/cli"]);
    assert!(cfg.listen);
    assert!(cfg.browse);
}

#[test]
fn unset_command_line_flag_does_not_turn_a_mode_off() {
    let merged = FileConfig { listen: Some(true), ..Default::default() };
    let cfg = AppConfig::load(CliArgs::default(), merged, "info".to_string());
    assert!(cfg.listen);
    assert!(!cfg.browse);
}

#[test]
fn default_log_level_uses_environment_then_info() {
    assert_eq!(default_log_level(Some("debug".to_string())), "debug");
    assert_eq!(default_log_level(None), "info");
}

#[test]
fn layers_keep_lower_values_that_higher_does_not_name() {
    let lower = FileConfig {
        folders: Some(strings(&["/low"])),
        multicast: Some("239.0.0.1:9999".to_string()),
        webaddr: Some("0.0.0.0:8080".to_string()),
        listen: Some(false),
        browse: Some(false),
        log_level: Some("info".to_string()),
    };
    let higher = FileConfig {
        multicast: Some("239.5.5.5:5555".to_string()),
        browse: Some(true),
        ..Default::default()
    };
    let r = FileConfig::layered(lower, higher);
    assert_eq!(r.multicast.as_deref(), Some("239.5.5.5:5555"));
    assert_eq!(r.browse, Some(true));
    assert_eq!(r.webaddr.as_deref(), Some("0.0.0.0:8080"));
    assert_eq!(r.listen, Some(false));
    assert_eq!(r.log_level.as_deref(), Some("info"));
    assert_eq!(r.folders, Some(strings(&["/low"])));
}

#[test]
fn sources_in_precedence_order() {
    // defaults < file < environment < command line
    let defaults = FileConfig::defaults("info".to_string());
    let file = FileConfig {
        multicast: Some("239.1.0.0:1".to_string()),
        webaddr: Some("127.0.0.1:1".to_string()),
        log_level: Some("debug".to_string()),
        folders: Some(strings(&["/from/file"])),
        ..Default::default()
    };
    let env = FileConfig {
        multicast: Some("239.2.0.0:2".to_string()),
        log_level: Some("warn".to_string()),
        ..Default::default()
    };
    let cli = CliArgs { multicast: Some("239.3.0.0:3".to_string()), ..Default::default() };
    let merged = FileConfig::layered(FileConfig::layered(defaults, file), env);
    let cfg = AppConfig::load(cli, merged, "info".to_string());
    assert_eq!(cfg.multicast_addr, "239.3.0.0:3");
    assert_eq!(cfg.log_level, "warn");
    assert_eq!(cfg.web_addr, "127.0.0.1:1");
    assert_eq!(cfg.folders_to_watch, vec!["/from/file"]);
    assert!(!cfg.listen);
}

#[test]
fn config_file_choice() {
    assert_eq!(
        config_file_path(None, PathBuf::from(DEFAULT_CONFIG_FILE)),
        PathBuf::from("hirai.toml")
    );
    assert_eq!(
        config_file_path(Some(PathBuf::from("/etc/h.toml")), PathBuf::from(DEFAULT_CONFIG_FILE)),
        PathBuf::from("/etc/h.toml")
    );
}
