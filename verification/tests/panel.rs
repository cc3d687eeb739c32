//! Tests of the control-surface state: selection matching, cycling,
//! validation, and session configuration.

use ctrlassist::mux_manager::{choose_virtual_info, MuxConfig};
use ctrlassist::mux_modes::ModeType;
use ctrlassist::panel::{ControllerInfo, FocusedSection, MuxStatus, TrayConfig, TrayState};
use ctrlassist::translate::VirtualGamepadInfo;
use ctrlassist::{HideType, RumbleTarget, SpoofTarget};

fn pads() -> Vec<ControllerInfo> {
    vec![
        ControllerInfo { id: 10, name: "Alpha Pad".to_string() },
        ControllerInfo { id: 11, name: "Beta Pad".to_string() },
        ControllerInfo { id: 12, name: "Gamma Pad".to_string() },
    ]
}

#[test]
fn saved_names_are_matched_best_effort() {
    let config = TrayConfig {
        primary_name: Some("Beta Pad".to_string()),
        assist_name: Some("Vanished Pad".to_string()),
        ..TrayConfig::default()
    };
    let s = TrayState::new(pads(), config);
    // The saved primary still exists; the saved assist fell back to the
    // second detected controller.
    assert_eq!(s.selected_primary, Some(11));
    assert_eq!(s.selected_assist, Some(11));
    assert_eq!(s.status, MuxStatus::Stopped);
}

#[test]
fn no_saved_names_preselect_first_two() {
    let s = TrayState::new(pads(), TrayConfig::default());
    assert_eq!(s.selected_primary, Some(10));
    assert_eq!(s.selected_assist, Some(11));
}

#[test]
fn empty_controller_list_selects_nothing() {
    let s = TrayState::new(Vec::new(), TrayConfig::default());
    assert_eq!(s.selected_primary, None);
    assert_eq!(s.selected_assist, None);
    assert!(!s.is_valid_for_start());
    assert_eq!(s.get_primary_name(), "None");
    assert_eq!(s.get_assist_name(), "None");
}

#[test]
fn validity_needs_two_distinct_controllers_and_a_stopped_mux() {
    let mut s = TrayState::new(pads(), TrayConfig::default());
    assert!(s.is_valid_for_start());
    s.selected_assist = s.selected_primary;
    assert!(!s.is_valid_for_start());
    s.selected_assist = Some(11);
    s.status = MuxStatus::Running;
    assert!(!s.is_valid_for_start());
}

#[test]
fn names_resolve_for_display() {
    let s = TrayState::new(pads(), TrayConfig::default());
    assert_eq!(s.get_primary_name(), "Alpha Pad");
    assert_eq!(s.get_assist_name(), "Beta Pad");
}

#[test]
fn to_config_round_trips_names_and_settings() {
    let mut s = TrayState::new(pads(), TrayConfig::default());
    s.selected_primary = Some(12);
    s.mode = ModeType::Toggle;
    s.rumble = RumbleTarget::Assist;
    let c = s.to_config();
    assert_eq!(c.primary_name, Some("Gamma Pad".to_string()));
    assert_eq!(c.assist_name, Some("Beta Pad".to_string()));
    assert_eq!(c.mode, ModeType::Toggle);
    assert_eq!(c.rumble, RumbleTarget::Assist);
    // Feeding the config back restores the selections.
    let s2 = TrayState::new(pads(), c);
    assert_eq!(s2.selected_primary, Some(12));
    assert_eq!(s2.selected_assist, Some(11));
}

#[test]
fn cycling_selections_wraps_and_respects_running() {
    let mut s = TrayState::new(pads(), TrayConfig::default());
    s.cycle_primary();
    assert_eq!(s.selected_primary, Some(11));
    s.cycle_primary();
    assert_eq!(s.selected_primary, Some(12));
    s.cycle_primary();
    assert_eq!(s.selected_primary, Some(10));
    s.status = MuxStatus::Running;
    s.cycle_primary();
    assert_eq!(s.selected_primary, Some(10));
    s.status = MuxStatus::Stopped;
    s.cycle_assist();
    assert_eq!(s.selected_assist, Some(12));
}

#[test]
fn cycling_settings() {
    let mut s = TrayState::new(pads(), TrayConfig::default());
    s.cycle_mode();
    assert_eq!(s.mode, ModeType::Average);
    s.cycle_mode();
    assert_eq!(s.mode, ModeType::Toggle);
    s.cycle_mode();
    assert_eq!(s.mode, ModeType::Priority);

    s.cycle_hide();
    assert_eq!(s.hide, HideType::Steam);
    s.cycle_spoof();
    assert_eq!(s.spoof, SpoofTarget::Primary);
    s.cycle_rumble();
    assert_eq!(s.rumble, RumbleTarget::Primary);
    s.cycle_rumble();
    assert_eq!(s.rumble, RumbleTarget::Assist);
    s.cycle_rumble();
    assert_eq!(s.rumble, RumbleTarget::Off);
    s.cycle_rumble();
    assert_eq!(s.rumble, RumbleTarget::Both);

    // Hide and spoof are fixed while running; mode and rumble stay live.
    s.status = MuxStatus::Running;
    s.cycle_hide();
    assert_eq!(s.hide, HideType::Steam);
    s.cycle_spoof();
    assert_eq!(s.spoof, SpoofTarget::Primary);
    s.cycle_mode();
    assert_eq!(s.mode, ModeType::Average);
    s.cycle_rumble();
    assert_eq!(s.rumble, RumbleTarget::Primary);
}

#[test]
fn refreshing_controllers_fixes_stale_selections() {
    let mut s = TrayState::new(pads(), TrayConfig::default());
    s.selected_primary = Some(12);
    s.selected_assist = Some(10);
    // Controller 12 vanished; 10 survives.
    s.set_controllers(vec![
        ControllerInfo { id: 10, name: "Alpha Pad".to_string() },
        ControllerInfo { id: 13, name: "Delta Pad".to_string() },
    ]);
    assert_eq!(s.selected_primary, Some(10));
    assert_eq!(s.selected_assist, Some(10));
    // Everything vanished.
    s.set_controllers(Vec::new());
    assert_eq!(s.selected_primary, None);
    assert_eq!(s.selected_assist, None);
}

#[test]
fn focus_cycles_through_every_section_and_back() {
    let start = FocusedSection::PrimaryController;
    let mut f = start;
    for _ in 0..7 {
        f = f.next();
    }
    assert_eq!(f, start);
    for _ in 0..7 {
        f = f.prev();
    }
    assert_eq!(f, start);
    assert_eq!(FocusedSection::Mode.next(), FocusedSection::Hide);
    assert_eq!(FocusedSection::Mode.prev(), FocusedSection::AssistController);
    assert_eq!(start.prev(), FocusedSection::StartStop);
}

#[test]
fn session_config_validity() {
    let c = MuxConfig {
        primary_id: 0,
        assist_id: 1,
        mode: ModeType::Priority,
        hide: HideType::Off,
        spoof: SpoofTarget::Off,
        rumble: RumbleTarget::Both,
    };
    assert!(c.is_valid());
    let c = MuxConfig { assist_id: 0, ..c };
    assert!(!c.is_valid());
}

#[test]
fn virtual_identity_follows_the_spoof_choice() {
    let p = VirtualGamepadInfo {
        name: "Alpha Pad".to_string(),
        vendor_id: Some(0x054c),
        product_id: Some(0x0ce6),
    };
    let a = VirtualGamepadInfo {
        name: "Beta Pad".to_string(),
        vendor_id: Some(0x045e),
        product_id: Some(0x02ea),
    };
    let r = choose_virtual_info(SpoofTarget::Primary, &p, &a);
    assert_eq!(r.name, "Alpha Pad");
    assert_eq!(r.vendor_id, Some(0x054c));
    let r = choose_virtual_info(SpoofTarget::Assist, &p, &a);
    assert_eq!(r.name, "Beta Pad");
    assert_eq!(r.product_id, Some(0x02ea));
    let r = choose_virtual_info(SpoofTarget::Off, &p, &a);
    assert_eq!(r.name, "CtrlAssist Virtual Gamepad");
    assert_eq!(r.vendor_id, None);
    assert_eq!(r.product_id, None);
}

#[test]
fn default_config() {
    let c = TrayConfig::default();
    assert_eq!(c.mode, ModeType::Priority);
    assert_eq!(c.hide, HideType::Off);
    assert_eq!(c.spoof, SpoofTarget::Off);
    assert_eq!(c.rumble, RumbleTarget::Both);
    assert_eq!(ctrlassist::dux_modes::ModeType::default(), ctrlassist::dux_modes::ModeType::Unicast);
}
