use auto_wlr_randr::config::{Config, OutputSetting, Profile, ProfileTable};
use auto_wlr_randr::event_loop::{finish_reload, handle_command, CommandStep};
use auto_wlr_randr::ipc::Command;
use auto_wlr_randr::output::OutputInfo;
use auto_wlr_randr::wayland::WaylandState;

fn create_test_state() -> WaylandState {
    let mut profiles = ProfileTable::new();
    profiles.insert(
        "test".to_string(),
        Profile {
            exec_commands: vec![],
            settings: vec![],
        },
    );
    let config = Config {
        profiles,
        config_path: "config.toml".to_string(),
    };

    let mut state = WaylandState::new(config);

    state.outputs = vec![OutputInfo {
        name: "TEST-1".to_string(),
        make: Some("Test Inc.".to_string()),
        model: Some("TestModel".to_string()),
        serial: None,
    }];

    state
}

fn reply(step: CommandStep) -> Result<String, String> {
    match step {
        CommandStep::Reply(r) => r,
        CommandStep::ReloadConfig => panic!("expected a reply"),
    }
}

fn edp_setting(on: bool) -> OutputSetting {
    OutputSetting {
        output: "eDP-1".into(),
        on,
        mode: None,
        preferred: false,
        pos: None,
        left_of: None,
        right_of: None,
        above: None,
        below: None,
        transform: None,
        scale: None,
        adaptive_sync: false,
    }
}

fn laptop_config(extra: bool) -> Config {
    let mut profiles = ProfileTable::new();
    profiles.insert(
        "laptop".to_string(),
        Profile {
            exec_commands: vec!["notify-send laptop".into()],
            settings: vec![edp_setting(true)],
        },
    );
    if extra {
        profiles.insert(
            "presentation".to_string(),
            Profile { exec_commands: vec![], settings: vec![edp_setting(false)] },
        );
    }
    Config { profiles, config_path: "config.toml".to_string() }
}

fn edp() -> OutputInfo {
    OutputInfo { name: "eDP-1".into(), make: None, model: None, serial: None }
}

#[test]
fn test_handle_command_status() {
    let mut state = create_test_state();
    state.active_profile_id = Some("test".to_string());

    let result = reply(handle_command(Command::Status, &mut state));

    assert!(result.is_ok());
    let json_str = result.unwrap();

    assert!(json_str.contains("test"));
    assert!(json_str.contains("TEST-1"));
}

#[test]
fn status_report_exact_text() {
    let mut state = create_test_state();
    let text = reply(handle_command(Command::Status, &mut state)).unwrap();
    assert_eq!(
        text,
        "{\n  \"active_profile\": \"None\",\n  \"connected_outputs\": [\n    \"TEST-1 (Test Inc. TestModel)\"\n  ]\n}"
    );
}

#[test]
fn test_handle_command_switch_valid() {
    let mut state = create_test_state();

    let result = reply(handle_command(Command::Switch("test".to_string()), &mut state));

    assert!(result.is_ok());
    assert_eq!(state.active_profile_id, Some("test".to_string()));
}

#[test]
fn test_handle_command_switch_invalid() {
    let mut state = create_test_state();

    let result = reply(handle_command(Command::Switch("nonexistent".to_string()), &mut state));

    assert!(result.is_err());
}

#[test]
fn switch_to_absent_profile_keeps_active() {
    let mut state = create_test_state();
    state.active_profile_id = Some("test".to_string());
    let result = reply(handle_command(Command::Switch("nonexistent".to_string()), &mut state));
    assert_eq!(result, Err("Profile 'nonexistent' not found.".to_string()));
    assert_eq!(state.active_profile_id, Some("test".to_string()));
    assert!(state.take_pending_commands().is_empty());
}

#[test]
fn switch_forces_activation_and_replies() {
    let mut state = WaylandState::new(laptop_config(false));
    state.active_profile_id = Some("laptop".to_string());
    let result = reply(handle_command(Command::Switch("laptop".to_string()), &mut state));
    assert_eq!(result, Ok("Profile switched successfully to laptop".to_string()));
    let batches = state.take_pending_commands();
    assert_eq!(batches.len(), 1);
    assert_eq!(
        batches[0],
        vec![
            "wlr-randr --output 'eDP-1' --on --adaptive-sync disabled".to_string(),
            "notify-send laptop".to_string(),
        ]
    );
}

#[test]
fn reload_asks_for_the_file() {
    let mut state = create_test_state();
    assert!(matches!(
        handle_command(Command::Reload, &mut state),
        CommandStep::ReloadConfig
    ));
    assert!(state.active_profile_id.is_none());
}

#[test]
fn reload_changes_profile_count_and_reruns_active_profile() {
    let mut state = WaylandState::new(laptop_config(false));
    state.refresh_outputs(Ok(vec![edp()]));
    assert_eq!(state.active_profile_id, Some("laptop".to_string()));
    assert_eq!(state.take_pending_commands().len(), 1);
    assert_eq!(state.config.profiles.len(), 1);

    let result = finish_reload(&mut state, Ok(laptop_config(true)));
    assert_eq!(result, Ok("Configuration reloaded successfully.".to_string()));
    assert_eq!(state.config.profiles.len(), 2);
    assert_eq!(state.active_profile_id, Some("laptop".to_string()));
    assert_eq!(state.take_pending_commands().len(), 1);

    let status = reply(handle_command(Command::Status, &mut state)).unwrap();
    assert!(status.contains("laptop"));

    let result = finish_reload(&mut state, Ok(laptop_config(false)));
    assert!(result.is_ok());
    assert_eq!(state.config.profiles.len(), 1);
}

#[test]
fn failed_reload_changes_nothing() {
    let mut state = WaylandState::new(laptop_config(false));
    state.refresh_outputs(Ok(vec![edp()]));
    state.take_pending_commands();
    let result = finish_reload(&mut state, Err("Failed to parse config file".to_string()));
    assert_eq!(result, Err("Failed to parse config file".to_string()));
    assert_eq!(state.config.profiles.len(), 1);
    assert!(state.take_pending_commands().is_empty());
}

#[test]
fn status_after_activation_names_profile_and_outputs() {
    let mut state = WaylandState::new(laptop_config(false));
    state.refresh_outputs(Ok(vec![edp()]));
    let text = reply(handle_command(Command::Status, &mut state)).unwrap();
    assert_eq!(
        text,
        "{\n  \"active_profile\": \"laptop\",\n  \"connected_outputs\": [\n    \"eDP-1 (unknown)\"\n  ]\n}"
    );
}
