use game_core::notices::{phase_banner_label_for, PhaseBannerAction, PhaseBannerTracker, PhotosensitivityWarningState};
use game_core::protocol::RoundPhase;
use game_core::settings::{
    apply_loaded_preferences, apply_placement_timer_selection, apply_settings_action, persist_preferences, clamp_ui_scale_percent, close_settings_panel,
    next_ui_scale_percent, open_pending_settings_request_at_safe_boundary, placement_timer_label,
    request_settings_open, settings_texts, AccessibilityPreferences, AccessibilityPreferencesPayload,
    ColorblindMode, PlacementTimerMultiplier, PreferenceStorageBackend, PreferenceStorageError,
    PreferenceValidationError, SettingsControlAction, SettingsEntrySource, SettingsFocusOrder,
    SettingsPanelMode, SettingsPanelState, SettingsPendingRequest, SettingsSessionLifecycle,
    SettingsStatusFooterState,
};

#[test]
fn colorblind_mode_cycles() {
    assert_eq!(ColorblindMode::Off.next(), ColorblindMode::Protanopia);
    assert_eq!(ColorblindMode::Tritanopia.next(), ColorblindMode::Off);
    assert_eq!(ColorblindMode::Deuteranopia.label(), "Deuteranopia");
}

#[test]
fn ui_scale_cycles_within_range() {
    assert_eq!(clamp_ui_scale_percent(10), 75);
    assert_eq!(clamp_ui_scale_percent(200), 150);
    assert_eq!(next_ui_scale_percent(75), 100);
    assert_eq!(next_ui_scale_percent(125), 150);
    assert_eq!(next_ui_scale_percent(150), 75);
    assert_eq!(next_ui_scale_percent(140), 150);
}

#[test]
fn timer_multiplier_from_ratio() {
    let mut prefs = AccessibilityPreferences::default();
    assert_eq!(prefs.try_set_placement_timer_multiplier_from_ratio(3, 2), Ok(()));
    assert_eq!(prefs.placement_timer_multiplier_request, PlacementTimerMultiplier::X1_5);
    assert_eq!(
        prefs.try_set_placement_timer_multiplier_from_ratio(5, 4),
        Err(PreferenceValidationError::InvalidPlacementTimerMultiplier)
    );
    assert_eq!(prefs.placement_timer_multiplier_request, PlacementTimerMultiplier::X1_5);
    assert_eq!(prefs.try_set_placement_timer_multiplier_from_ratio(2, 0), Err(PreferenceValidationError::InvalidPlacementTimerMultiplier));
    assert_eq!(placement_timer_label(PlacementTimerMultiplier::X1_5), "1.5x");
}

#[test]
fn settings_open_waits_for_a_safe_phase() {
    let mut panel = SettingsPanelState::new();
    let mut pending = SettingsPendingRequest::new();
    request_settings_open(SettingsEntrySource::SafeInGame, RoundPhase::Placement, &mut panel, &mut pending);
    assert_eq!(panel.mode, SettingsPanelMode::Closed);
    assert_eq!(pending.source, Some(SettingsEntrySource::SafeInGame));
    assert_eq!(pending.requested_during_phase, Some(RoundPhase::Placement));
    open_pending_settings_request_at_safe_boundary(RoundPhase::Resolution, &mut panel, &mut pending);
    assert_eq!(panel.mode, SettingsPanelMode::Closed);
    open_pending_settings_request_at_safe_boundary(RoundPhase::DraftShop, &mut panel, &mut pending);
    assert_eq!(panel.mode, SettingsPanelMode::Open);
    assert_eq!(panel.source, Some(SettingsEntrySource::SafeInGame));
    assert_eq!(pending.source, None);
    let mut focus: SettingsFocusOrder<u32> = SettingsFocusOrder::new();
    focus.set_entities(vec![1, 2, 3]);
    focus.focus_next();
    assert_eq!(focus.focused_entity(), Some(2));
    close_settings_panel(&mut panel, &mut focus);
    assert_eq!(panel.mode, SettingsPanelMode::Closed);
    assert_eq!(panel.last_closed_source, Some(SettingsEntrySource::SafeInGame));
    assert_eq!(focus.focused_entity(), None);
}

#[test]
fn focus_order_wraps_and_clamps() {
    let mut focus: SettingsFocusOrder<u32> = SettingsFocusOrder::new();
    focus.set_entities(vec![10, 20]);
    focus.focus_next();
    focus.focus_next();
    assert_eq!(focus.focused_index, 0);
    focus.focused_index = 5;
    focus.set_entities(vec![1, 2, 3]);
    assert_eq!(focus.focused_index, 2);
}

#[test]
fn timer_choice_is_sent_only_from_lobby_before_session() {
    let mut prefs = AccessibilityPreferences::default();
    let out = apply_settings_action(SettingsControlAction::SelectPlacementTimer(PlacementTimerMultiplier::X2), &mut prefs, RoundPhase::Lobby, false);
    assert!(out.persist);
    assert_eq!(out.send_timer, Some(PlacementTimerMultiplier::X2));
    let out = apply_settings_action(SettingsControlAction::SelectPlacementTimer(PlacementTimerMultiplier::X3), &mut prefs, RoundPhase::Lobby, true);
    assert_eq!(out.send_timer, None);
    assert_eq!(prefs.placement_timer_multiplier_request, PlacementTimerMultiplier::X3);
    let out = apply_settings_action(SettingsControlAction::CycleMenuUiScale, &mut prefs, RoundPhase::Placement, true);
    assert!(out.persist && !out.close);
    assert_eq!(prefs.menu_ui_scale_percent, 125);
    let out = apply_settings_action(SettingsControlAction::Close, &mut prefs, RoundPhase::Placement, true);
    assert!(out.close && !out.persist);
}

#[test]
fn settings_copy() {
    let mut prefs = AccessibilityPreferences::default();
    prefs.reduced_motion = true;
    let texts = settings_texts(&prefs, PlacementTimerMultiplier::X1);
    assert_eq!(texts.colorblind, "Colorblind mode: Off");
    assert_eq!(texts.reduced_motion, "Reduced motion: On");
    assert_eq!(texts.effective_timer, "Effective room timer: 1x");
    assert_eq!(texts.menu_scale, "Menu UI scale: 100%");
    assert_eq!(texts.hud_scale, "HUD UI scale: 100%");
}

#[test]
fn storage_backends() {
    let mut memory = PreferenceStorageBackend::InMemory { payload: None };
    assert_eq!(memory.load_payload(), Ok(None));
    assert_eq!(memory.save_payload("x".to_string()), Ok(()));
    assert_eq!(memory.load_payload(), Ok(Some("x".to_string())));
    let mut failing = PreferenceStorageBackend::FailWrites { payload: Some("y".to_string()) };
    assert_eq!(failing.save_payload("z".to_string()), Err(PreferenceStorageError::WriteFailed));
    assert_eq!(failing.load_payload(), Ok(Some("y".to_string())));
    let mut none = PreferenceStorageBackend::Unavailable;
    assert_eq!(none.load_payload(), Ok(None));
    assert_eq!(none.save_payload("z".to_string()), Err(PreferenceStorageError::WriteFailed));
}

#[test]
fn payload_version_is_checked() {
    let prefs = AccessibilityPreferences::default();
    let payload = AccessibilityPreferencesPayload::from_preferences(prefs);
    assert_eq!(payload.version, 1);
    assert_eq!(payload.into_preferences(), Ok(prefs));
    let stale = AccessibilityPreferencesPayload { version: 2, preferences: prefs };
    assert_eq!(stale.into_preferences(), Err(PreferenceStorageError::DecodeFailed));
}

#[test]
fn loaded_preferences_and_save_status() {
    let mut prefs = AccessibilityPreferences::default();
    let mut status = SettingsStatusFooterState::new();
    let mut loaded = AccessibilityPreferences::default();
    loaded.reduced_motion = true;
    apply_loaded_preferences(Ok(Some(loaded)), false, &mut prefs, &mut status);
    assert!(prefs.reduced_motion);
    apply_loaded_preferences(Ok(None), true, &mut prefs, &mut status);
    assert!(status.save_warning);
    assert_eq!(status.message, "Preferences active for this session; save failed");
    status.record_save(true);
    assert!(!status.save_warning);
    assert_eq!(status.message, "Preferences saved");
}

#[test]
fn session_lifecycle_follows_phases() {
    let mut lifecycle = SettingsSessionLifecycle { session_ready: false };
    lifecycle.track(RoundPhase::DraftInitial);
    assert!(lifecycle.session_ready);
    lifecycle.track(RoundPhase::Placement);
    assert!(lifecycle.session_ready);
    lifecycle.track(RoundPhase::Lobby);
    assert!(!lifecycle.session_ready);
}

#[test]
fn phase_banner_labels_and_changes() {
    assert_eq!(phase_banner_label_for(RoundPhase::DraftAuction), Some("AUCTION"));
    assert_eq!(phase_banner_label_for(RoundPhase::GameOver), None);
    let mut tracker = PhaseBannerTracker::new();
    assert_eq!(tracker.observe(RoundPhase::Placement), PhaseBannerAction::Replace(Some(RoundPhase::Placement)));
    assert_eq!(tracker.observe(RoundPhase::Placement), PhaseBannerAction::Keep);
    assert_eq!(tracker.observe(RoundPhase::Lobby), PhaseBannerAction::Replace(None));
}

#[test]
fn photosensitivity_warning_acknowledged_once() {
    let mut warning = PhotosensitivityWarningState::new();
    assert!(!warning.is_acknowledged());
    warning.acknowledge();
    assert!(warning.is_acknowledged());
}

#[test]
fn persisting_to_memory_saves_and_reports_saved() {
    let mut storage = PreferenceStorageBackend::InMemory { payload: None };
    let mut status = SettingsStatusFooterState::new();
    persist_preferences(&mut storage, Ok("{\"version\":1}".to_string()), &mut status);
    assert!(!status.save_warning);
    assert_eq!(status.message, "Preferences saved");
    match storage {
        PreferenceStorageBackend::InMemory { payload } => assert_eq!(payload.as_deref(), Some("{\"version\":1}")),
        _ => panic!("memory storage expected"),
    }
}

#[test]
fn persisting_warns_when_the_write_or_encoding_fails() {
    let mut storage = PreferenceStorageBackend::FailWrites { payload: None };
    let mut status = SettingsStatusFooterState::new();
    persist_preferences(&mut storage, Ok("x".to_string()), &mut status);
    assert!(status.save_warning);
    assert_eq!(status.message, "Preferences active for this session; save failed");

    let mut memory = PreferenceStorageBackend::InMemory { payload: None };
    let mut status = SettingsStatusFooterState::new();
    persist_preferences(&mut memory, Err(PreferenceStorageError::EncodeFailed), &mut status);
    assert!(status.save_warning);
    assert!(matches!(memory, PreferenceStorageBackend::InMemory { payload: None }));
}

#[test]
fn timer_selection_is_sent_only_from_the_lobby_before_the_session() {
    let mut preferences = AccessibilityPreferences::default();
    let sent = apply_placement_timer_selection(PlacementTimerMultiplier::X2, &mut preferences, RoundPhase::Lobby, false);
    assert_eq!(sent, Some(PlacementTimerMultiplier::X2));
    assert_eq!(preferences.placement_timer_multiplier_request, PlacementTimerMultiplier::X2);
    let sent = apply_placement_timer_selection(PlacementTimerMultiplier::X3, &mut preferences, RoundPhase::Lobby, true);
    assert_eq!(sent, None);
    assert_eq!(preferences.placement_timer_multiplier_request, PlacementTimerMultiplier::X3);
    let sent = apply_placement_timer_selection(PlacementTimerMultiplier::X1, &mut preferences, RoundPhase::Placement, false);
    assert_eq!(sent, None);
}
