use auto_wlr_randr::assembler::{FinalizeOutcome, OutputAssembler, OutputField};
use auto_wlr_randr::config::{Config, OutputSetting, Profile, ProfileTable};
use auto_wlr_randr::output::OutputInfo;
use auto_wlr_randr::wayland::{runnable_commands, RegistryEvent, WaylandState};

fn setting(output: &str, on: bool) -> OutputSetting {
    OutputSetting {
        output: output.into(),
        on,
        mode: None,
        preferred: false,
        pos: None,
        left_of: None,
        right_of: None,
        above: None,
        below: None,
        transform: None,
        scale: None,
        adaptive_sync: false,
    }
}

fn output(name: &str) -> OutputInfo {
    OutputInfo { name: name.into(), make: None, model: None, serial: None }
}

fn config() -> Config {
    let mut profiles = ProfileTable::new();
    profiles.insert(
        "laptop".to_string(),
        Profile { exec_commands: vec!["echo laptop".into()], settings: vec![setting("eDP-1", true)] },
    );
    profiles.insert(
        "docked".to_string(),
        Profile {
            exec_commands: vec![],
            settings: vec![setting("eDP-1", false), setting("HDMI-*", true)],
        },
    );
    Config { profiles, config_path: "config.toml".to_string() }
}

#[test]
fn activate_twice_runs_once() {
    let mut state = WaylandState::new(config());
    let profile = state.config.profiles.get("laptop").unwrap().clone();
    state.activate("laptop", &profile, false);
    state.activate("laptop", &profile, false);
    let batches = state.take_pending_commands();
    assert_eq!(batches.len(), 1);
    assert_eq!(
        batches[0],
        vec![
            "wlr-randr --output 'eDP-1' --on --adaptive-sync disabled".to_string(),
            "echo laptop".to_string(),
        ]
    );
    assert_eq!(state.active_profile_id, Some("laptop".to_string()));
}

#[test]
fn forced_activation_runs_again() {
    let mut state = WaylandState::new(config());
    let profile = state.config.profiles.get("laptop").unwrap().clone();
    state.activate("laptop", &profile, false);
    state.activate("laptop", &profile, true);
    assert_eq!(state.take_pending_commands().len(), 2);
}

#[test]
fn refresh_activates_match_and_resolves_names() {
    let mut state = WaylandState::new(config());
    state.refresh_outputs(Ok(vec![output("HDMI-A-1"), output("eDP-1")]));
    assert_eq!(state.active_profile_id, Some("docked".to_string()));
    assert_eq!(state.name_map.get("HDMI-*"), Some(&"HDMI-A-1".to_string()));
    let batches = state.take_pending_commands();
    assert_eq!(
        batches,
        vec![vec![
            "wlr-randr --output 'eDP-1' --off --adaptive-sync disabled \
             --output 'HDMI-A-1' --on --adaptive-sync disabled"
                .to_string()
        ]]
    );
    state.refresh_outputs(Ok(vec![output("eDP-1"), output("HDMI-A-1")]));
    assert!(state.take_pending_commands().is_empty());
}

#[test]
fn no_match_clears_active_profile() {
    let mut state = WaylandState::new(config());
    state.refresh_outputs(Ok(vec![output("eDP-1")]));
    assert_eq!(state.active_profile_id, Some("laptop".to_string()));
    state.take_pending_commands();
    state.refresh_outputs(Ok(vec![output("DP-1")]));
    assert_eq!(state.active_profile_id, None);
    assert!(state.take_pending_commands().is_empty());
}

#[test]
fn failed_refresh_keeps_outputs() {
    let mut state = WaylandState::new(config());
    state.refresh_outputs(Ok(vec![output("eDP-1")]));
    state.refresh_outputs(Err("wlr-randr failed".to_string()));
    assert_eq!(state.outputs.len(), 1);
    assert_eq!(state.active_profile_id, Some("laptop".to_string()));
}

#[test]
fn apply_profile_by_name_messages() {
    let mut state = WaylandState::new(config());
    assert_eq!(
        state.apply_profile_by_name("docked"),
        Ok("Profile 'docked' applied successfully.".to_string())
    );
    assert_eq!(state.active_profile_id, Some("docked".to_string()));
    assert_eq!(
        state.apply_profile_by_name("nope"),
        Err("Profile 'nope' not found.".to_string())
    );
    assert_eq!(state.active_profile_id, Some("docked".to_string()));
}

#[test]
fn registry_events_schedule_refresh() {
    let mut state = WaylandState::new(config());
    state.handle_registry_event(RegistryEvent::Global { interface: "wl_seat".to_string() });
    assert!(!state.take_pending_update());
    state.handle_registry_event(RegistryEvent::Global { interface: "wl_output".to_string() });
    assert!(state.take_pending_update());
    assert!(!state.take_pending_update());
    state.handle_registry_event(RegistryEvent::GlobalRemove);
    assert!(state.take_pending_update());
}

#[test]
fn runnable_commands_skip_empty_ones() {
    let batch = vec![
        "wlr-randr --output 'eDP-1' --on".to_string(),
        "".to_string(),
        "notify-send done".to_string(),
        "".to_string(),
    ];
    assert_eq!(
        runnable_commands(&batch),
        vec!["wlr-randr --output 'eDP-1' --on".to_string(), "notify-send done".to_string()]
    );
    assert!(runnable_commands(&vec![]).is_empty());
}

fn announce(a: &mut OutputAssembler, id: u32, name: &str, description: &str) {
    a.add_pending(id);
    a.record_field(id, OutputField::Name, name.to_string());
    a.record_field(id, OutputField::Description, description.to_string());
}

#[test]
fn completed_and_removed_outputs_reevaluate_profiles() {
    let mut state = WaylandState::new(config());
    let mut assembler = OutputAssembler::new();
    announce(&mut assembler, 1, "eDP-1", "Panel (eDP-1)");
    assert!(state.active_profile_id.is_none());
    assert!(matches!(state.complete_output(&mut assembler, 1), FinalizeOutcome::Added));
    assert_eq!(state.active_profile_id, Some("laptop".to_string()));
    assert_eq!(state.outputs.len(), 1);
    assert_eq!(state.outputs[0].name, "eDP-1");
    assert_eq!(state.outputs[0].serial, Some("Panel".to_string()));

    announce(&mut assembler, 2, "HDMI-A-1", "Dell Inc. U2718Q (HDMI-A-1)");
    assert!(matches!(state.complete_output(&mut assembler, 2), FinalizeOutcome::Added));
    assert_eq!(state.active_profile_id, Some("docked".to_string()));
    assert!(matches!(state.complete_output(&mut assembler, 2), FinalizeOutcome::Duplicate));
    assert_eq!(state.take_pending_commands().len(), 2);

    assert!(state.remove_output(&mut assembler, 2));
    assert_eq!(state.active_profile_id, Some("laptop".to_string()));
    assert!(!state.remove_output(&mut assembler, 2));
    assert_eq!(state.outputs.len(), 1);
}

#[test]
fn assembled_output_matches_by_description() {
    let mut profiles = ProfileTable::new();
    profiles.insert(
        "desk".to_string(),
        Profile { exec_commands: vec![], settings: vec![setting("Dell Inc. *", true)] },
    );
    let mut state = WaylandState::new(Config { profiles, config_path: String::new() });
    let mut assembler = OutputAssembler::new();
    announce(&mut assembler, 4, "DP-3", "Dell Inc. U2718Q ABC (DP-3)");
    state.complete_output(&mut assembler, 4);
    assert_eq!(state.active_profile_id, Some("desk".to_string()));
    assert_eq!(state.name_map.get("Dell Inc. *"), Some(&"DP-3".to_string()));
}

#[test]
fn incomplete_output_changes_nothing() {
    let mut state = WaylandState::new(config());
    let mut assembler = OutputAssembler::new();
    assembler.add_pending(8);
    assembler.record_field(8, OutputField::Name, "eDP-1".to_string());
    assert!(matches!(state.complete_output(&mut assembler, 8), FinalizeOutcome::MissingField));
    assert!(state.outputs.is_empty());
    assert!(state.active_profile_id.is_none());
}
