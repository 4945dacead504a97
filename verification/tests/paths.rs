use std::path::Path;

use openlogi::paths::{
    xdg_config_home, xdg_data_home,
    agent_socket_path_for, config_dir_for, config_path_for, data_dir_for, dev_id, is_dev_id,
    join, launch_agents_dir_in, profile_dir_in, runtime_dir_for, runtime_dir_in, state_dir_for,
    state_dir_in, text_ends_with, PathsError, Profile,
};

/// The profile this test process runs under: nothing forces one and it is
/// not inside an app bundle.
fn current() -> Profile {
    Profile::detect_from(None, None)
}

#[test]
fn config_dir_keeps_openlogi_under_xdg_config_home() {
    assert!(Path::new(&config_dir_for(current()).expect("config dir")).ends_with("openlogi"));
}

#[test]
fn data_dir_keeps_openlogi_under_xdg_data_home() {
    assert!(Path::new(&data_dir_for(current()).expect("data dir")).ends_with("openlogi"));
}

#[test]
fn runtime_dir_keeps_openlogi_suffix() {
    assert!(Path::new(&runtime_dir_for(current()).expect("runtime dir")).ends_with("openlogi"));
}

#[test]
fn a_named_profile_resolves_its_own_directories() {
    assert!(
        Path::new(&config_dir_for(Profile::Dev).expect("dev config dir"))
            .ends_with("openlogi-dev")
    );
    assert!(
        Path::new(&agent_socket_path_for(Profile::Dev).expect("dev socket"))
            .ends_with("openlogi-dev/agent.sock")
    );
    assert!(
        Path::new(&agent_socket_path_for(Profile::Production).expect("production socket"))
            .ends_with("openlogi/agent.sock")
    );
}

#[test]
fn each_directory_sits_under_its_own_xdg_base() {
    let config = xdg_config_home().expect("config home");
    let data = xdg_data_home().expect("data home");
    assert_eq!(config_dir_for(Profile::Dev).unwrap(), join(&config, "openlogi-dev"));
    assert_eq!(config_path_for(Profile::Production).unwrap(), join(&join(&config, "openlogi"), "config.toml"));
    assert_eq!(data_dir_for(Profile::Production).unwrap(), join(&data, "openlogi"));
    assert_ne!(config_dir_for(Profile::Production).unwrap(), data_dir_for(Profile::Production).unwrap());
}

#[test]
fn the_state_dir_and_config_file_sit_under_the_profile() {
    assert!(state_dir_for(Profile::Dev).expect("state dir").ends_with("openlogi-dev"));
    assert!(config_path_for(Profile::Production).expect("config path").ends_with("openlogi/config.toml"));
}

#[test]
fn paths_join_with_one_separator() {
    assert_eq!(join("/home/u", "openlogi"), "/home/u/openlogi");
    assert_eq!(join("/home/u/", "openlogi"), "/home/u/openlogi");
    assert_eq!(join("", "openlogi"), "openlogi");
    assert_eq!(join("/home/u", "/abs"), "/abs");
    assert_eq!(launch_agents_dir_in("/Users/a"), "/Users/a/Library/LaunchAgents");
    assert_eq!(profile_dir_in("/x", Profile::Dev), "/x/openlogi-dev");
}

#[test]
fn state_and_runtime_fall_back_to_their_second_base() {
    assert_eq!(state_dir_in(Some("/s"), "/d", Profile::Production), "/s/openlogi");
    assert_eq!(state_dir_in(None, "/d", Profile::Production), "/d/openlogi");
    assert_eq!(runtime_dir_in(Some("/run/user/1"), "/c", Profile::Dev), "/run/user/1/openlogi-dev");
    assert_eq!(runtime_dir_in(None, "/c", Profile::Dev), "/c/openlogi-dev");
}

#[test]
fn profile_detection_prefers_the_environment_then_the_bundle() {
    assert_eq!(Profile::detect_from(Some("dev"), None), Profile::Dev);
    assert_eq!(Profile::detect_from(Some("prod"), Some("app.openlogi.dev")), Profile::Production);
    assert_eq!(Profile::detect_from(Some("production"), None), Profile::Production);
    assert_eq!(Profile::detect_from(Some("other"), Some("app.openlogi.dev")), Profile::Dev);
    assert_eq!(Profile::detect_from(None, Some("app.openlogi")), Profile::Production);
    assert_eq!(Profile::Dev.env_value(), "dev");
    assert_eq!(Profile::Production.env_value(), "prod");
}

#[test]
fn dev_identifiers_are_suffixed() {
    assert_eq!(dev_id("app.openlogi.agent"), "app.openlogi.agent.dev");
    assert!(is_dev_id("app.openlogi.agent.dev"));
    assert!(!is_dev_id("app.openlogi.agent"));
    assert!(text_ends_with("abc", "bc"));
    assert!(!text_ends_with("c", "bc"));
    assert_eq!(Profile::Production.agent_service_label(), "app.openlogi.agent");
    assert_eq!(Profile::Dev.agent_service_label(), "app.openlogi.agent.dev");
    assert_eq!(Profile::Dev.app_dir(), "openlogi-dev");
}

#[test]
fn the_home_error_says_what_failed() {
    assert_eq!(
        PathsError::HomeNotFound.message(),
        "could not resolve a home directory for the current user"
    );
}

#[test]
fn xdg_homes_are_absolute_or_under_home() {
    let config = xdg_config_home().expect("config home");
    assert!(config.starts_with('/') || config.ends_with(".config/"), "{config}");
    let data = xdg_data_home().expect("data home");
    assert!(data.starts_with('/') || data.ends_with(".local/share/"), "{data}");
}
