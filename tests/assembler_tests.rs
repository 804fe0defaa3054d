use auto_wlr_randr::assembler::{FinalizeOutcome, OutputAssembler, OutputField};

#[test]
fn output_completes_and_strips_name_suffix() {
    let mut a = OutputAssembler::new();
    a.add_pending(7);
    assert!(a.record_field(7, OutputField::Name, "DP-1".to_string()));
    assert!(a.record_field(
        7,
        OutputField::Description,
        "Dell Inc. U2718Q ABC123 (DP-1)".to_string()
    ));
    assert!(matches!(a.finalize(7), FinalizeOutcome::Added));
    assert!(a.pending.is_empty());
    assert_eq!(a.connected.len(), 1);
    assert_eq!(a.connected[0].0, 7);
    assert_eq!(a.connected[0].1.name, "DP-1");
    assert_eq!(a.connected[0].1.identity, "Dell Inc. U2718Q ABC123");
}

#[test]
fn description_without_suffix_is_kept() {
    let mut a = OutputAssembler::new();
    a.add_pending(1);
    a.record_field(1, OutputField::Name, "eDP-1".to_string());
    a.record_field(1, OutputField::Description, "Built-in (HDMI-1)".to_string());
    assert!(matches!(a.finalize(1), FinalizeOutcome::Added));
    assert_eq!(a.connected[0].1.identity, "Built-in (HDMI-1)");
}

#[test]
fn duplicate_completion_is_ignored() {
    let mut a = OutputAssembler::new();
    a.add_pending(3);
    a.record_field(3, OutputField::Name, "HDMI-A-1".to_string());
    a.record_field(3, OutputField::Description, "TV".to_string());
    assert!(matches!(a.finalize(3), FinalizeOutcome::Added));
    assert!(matches!(a.finalize(3), FinalizeOutcome::Duplicate));
    assert_eq!(a.connected.len(), 1);
}

#[test]
fn missing_field_discards_pending_output() {
    let mut a = OutputAssembler::new();
    a.add_pending(4);
    a.record_field(4, OutputField::Name, "DP-2".to_string());
    assert!(matches!(a.finalize(4), FinalizeOutcome::MissingField));
    assert!(a.pending.is_empty());
    assert!(a.connected.is_empty());
    assert!(matches!(a.finalize(4), FinalizeOutcome::Unknown));
}

#[test]
fn unknown_ids_change_nothing() {
    let mut a = OutputAssembler::new();
    assert!(!a.record_field(9, OutputField::Name, "X".to_string()));
    assert!(matches!(a.finalize(9), FinalizeOutcome::Unknown));
    assert!(!a.remove(9));
    a.add_pending(9);
    assert!(!a.remove(9));
    assert_eq!(a.pending.len(), 1);
}

#[test]
fn remove_deletes_connected_output() {
    let mut a = OutputAssembler::new();
    for (id, name) in [(1u32, "eDP-1"), (2u32, "HDMI-A-1")] {
        a.add_pending(id);
        a.record_field(id, OutputField::Name, name.to_string());
        a.record_field(id, OutputField::Description, format!("panel ({name})"));
        a.finalize(id);
    }
    assert_eq!(a.connected.len(), 2);
    assert!(a.remove(1));
    assert_eq!(a.connected.len(), 1);
    assert_eq!(a.connected[0].1.name, "HDMI-A-1");
    assert_eq!(a.connected[0].1.identity, "panel");
    assert!(!a.remove(1));
}

#[test]
fn announcing_a_known_id_again_is_ignored() {
    let mut a = OutputAssembler::new();
    a.add_pending(5);
    a.record_field(5, OutputField::Name, "DP-5".to_string());
    a.add_pending(5);
    assert_eq!(a.pending.len(), 1);
    assert_eq!(a.pending[0].name, Some("DP-5".to_string()));
}
