//! Accessibility preferences and the settings panel: what each control
//! changes, when the full panel may open, and the copy it shows.

use vstd::prelude::*;
use vstd::string::*;

use crate::protocol::RoundPhase;
use crate::text::{decimal, push_decimal};

verus! {

/// Version tag of the stored preferences payload.
pub const ACCESSIBILITY_PREFERENCES_PAYLOAD_VERSION: u32 = 1;
pub const UI_SCALE_MIN_PERCENT: u8 = 75;
pub const UI_SCALE_MAX_PERCENT: u8 = 150;
pub const UI_SCALE_STEP_PERCENT: u8 = 25;

/// Colour-vision filter.
#[derive(Clone, Copy, Debug, PartialEq, Eq, Structural)]
pub enum ColorblindMode {
    Off,
    Protanopia,
    Deuteranopia,
    Tritanopia,
}

impl ColorblindMode {
    /// The next mode, cycling back to `Off`.
    pub fn next(self) -> (r: Self)
        ensures
            r == (match self {
                ColorblindMode::Off => ColorblindMode::Protanopia,
                ColorblindMode::Protanopia => ColorblindMode::Deuteranopia,
                ColorblindMode::Deuteranopia => ColorblindMode::Tritanopia,
                ColorblindMode::Tritanopia => ColorblindMode::Off,
            }),
    {
        match self {
            ColorblindMode::Off => ColorblindMode::Protanopia,
            ColorblindMode::Protanopia => ColorblindMode::Deuteranopia,
            ColorblindMode::Deuteranopia => ColorblindMode::Tritanopia,
            ColorblindMode::Tritanopia => ColorblindMode::Off,
        }
    }

    pub open spec fn spec_label(self) -> Seq<char> {
        match self {
            ColorblindMode::Off => "Off"@,
            ColorblindMode::Protanopia => "Protanopia"@,
            ColorblindMode::Deuteranopia => "Deuteranopia"@,
            ColorblindMode::Tritanopia => "Tritanopia"@,
        }
    }

    pub fn label(self) -> (r: &'static str)
        ensures
            r@ == self.spec_label(),
    {
        match self {
            ColorblindMode::Off => "Off",
            ColorblindMode::Protanopia => "Protanopia",
            ColorblindMode::Deuteranopia => "Deuteranopia",
            ColorblindMode::Tritanopia => "Tritanopia",
        }
    }
}

/// How much longer than standard the placement timer runs.
#[derive(Clone, Copy, Debug, PartialEq, Eq, Structural)]
pub enum PlacementTimerMultiplier {
    X1,
    X1_5,
    X2,
    X3,
}

/// The multiplier equal to the ratio `numerator / denominator`.
pub open spec fn spec_multiplier_for_ratio(numerator: u32, denominator: u32) -> Option<PlacementTimerMultiplier> {
    if denominator == 0 {
        None
    } else if numerator == denominator {
        Some(PlacementTimerMultiplier::X1)
    } else if 2 * numerator == 3 * denominator {
        Some(PlacementTimerMultiplier::X1_5)
    } else if numerator == 2 * denominator {
        Some(PlacementTimerMultiplier::X2)
    } else if numerator == 3 * denominator {
        Some(PlacementTimerMultiplier::X3)
    } else {
        None
    }
}

/// The multiplier as a ratio (numerator, denominator).
pub open spec fn multiplier_ratio(m: PlacementTimerMultiplier) -> (int, int) {
    match m {
        PlacementTimerMultiplier::X1 => (1, 1),
        PlacementTimerMultiplier::X1_5 => (3, 2),
        PlacementTimerMultiplier::X2 => (2, 1),
        PlacementTimerMultiplier::X3 => (3, 1),
    }
}

/// `ms` stretched by the multiplier, rounded down and capped at `u32::MAX`.
pub open spec fn spec_apply_to_ms(m: PlacementTimerMultiplier, ms: u32) -> u32 {
    let v = ms as int * multiplier_ratio(m).0 / multiplier_ratio(m).1;
    if v > u32::MAX {
        u32::MAX
    } else {
        v as u32
    }
}

impl PlacementTimerMultiplier {
    /// The multiplier equal to the ratio `numerator / denominator`, if it is
    /// one of the standard ones.
    pub fn from_standard_ratio(numerator: u32, denominator: u32) -> (r: Option<Self>)
        ensures
            r == spec_multiplier_for_ratio(numerator, denominator),
    {
        if denominator == 0 {
            return None;
        }
        let n = numerator as u64;
        let d = denominator as u64;
        if n == d {
            Some(PlacementTimerMultiplier::X1)
        } else if 2 * n == 3 * d {
            Some(PlacementTimerMultiplier::X1_5)
        } else if n == 2 * d {
            Some(PlacementTimerMultiplier::X2)
        } else if n == 3 * d {
            Some(PlacementTimerMultiplier::X3)
        } else {
            None
        }
    }

    /// `ms` stretched by this multiplier, rounded down and capped at
    /// `u32::MAX`.
    pub fn apply_to_ms(self, ms: u32) -> (r: u32)
        ensures
            r == spec_apply_to_ms(self, ms),
    {
        let wide = ms as u64;
        let v: u64 = match self {
            PlacementTimerMultiplier::X1 => {
                assert(wide as int * 1 / 1 == wide as int);
                wide
            },
            PlacementTimerMultiplier::X1_5 => wide * 3 / 2,
            PlacementTimerMultiplier::X2 => {
                assert(wide as int * 2 / 1 == wide as int * 2);
                wide * 2
            },
            PlacementTimerMultiplier::X3 => {
                assert(wide as int * 3 / 1 == wide as int * 3);
                wide * 3
            },
        };
        assert(v as int == ms as int * multiplier_ratio(self).0 / multiplier_ratio(self).1);
        if v > u32::MAX as u64 {
            u32::MAX
        } else {
            v as u32
        }
    }

    /// The standard values in the order the settings panel offers them.
    pub fn standard_value(index: usize) -> (r: Self)
        requires
            index < 4,
        ensures
            index == 0 ==> r == PlacementTimerMultiplier::X1,
            index == 1 ==> r == PlacementTimerMultiplier::X1_5,
            index == 2 ==> r == PlacementTimerMultiplier::X2,
            index == 3 ==> r == PlacementTimerMultiplier::X3,
    {
        if index == 0 {
            PlacementTimerMultiplier::X1
        } else if index == 1 {
            PlacementTimerMultiplier::X1_5
        } else if index == 2 {
            PlacementTimerMultiplier::X2
        } else {
            PlacementTimerMultiplier::X3
        }
    }
}

pub open spec fn spec_timer_label(m: PlacementTimerMultiplier) -> Seq<char> {
    match m {
        PlacementTimerMultiplier::X1 => "1x"@,
        PlacementTimerMultiplier::X1_5 => "1.5x"@,
        PlacementTimerMultiplier::X2 => "2x"@,
        PlacementTimerMultiplier::X3 => "3x"@,
    }
}

pub fn placement_timer_label(multiplier: PlacementTimerMultiplier) -> (r: &'static str)
    ensures
        r@ == spec_timer_label(multiplier),
{
    match multiplier {
        PlacementTimerMultiplier::X1 => "1x",
        PlacementTimerMultiplier::X1_5 => "1.5x",
        PlacementTimerMultiplier::X2 => "2x",
        PlacementTimerMultiplier::X3 => "3x",
    }
}

/// A UI scale kept within the supported range.
pub open spec fn spec_clamp_scale(percent: u8) -> u8 {
    if percent < UI_SCALE_MIN_PERCENT {
        UI_SCALE_MIN_PERCENT
    } else if percent > UI_SCALE_MAX_PERCENT {
        UI_SCALE_MAX_PERCENT
    } else {
        percent
    }
}

pub fn clamp_ui_scale_percent(percent: u8) -> (r: u8)
    ensures
        r == spec_clamp_scale(percent),
{
    if percent < UI_SCALE_MIN_PERCENT {
        UI_SCALE_MIN_PERCENT
    } else if percent > UI_SCALE_MAX_PERCENT {
        UI_SCALE_MAX_PERCENT
    } else {
        percent
    }
}

/// The next UI scale: one step up, back to the minimum past the maximum.
pub open spec fn spec_next_scale(current: u8) -> u8 {
    if current >= UI_SCALE_MAX_PERCENT {
        UI_SCALE_MIN_PERCENT
    } else {
        spec_clamp_scale(if current + UI_SCALE_STEP_PERCENT <= 255 {
            (current + UI_SCALE_STEP_PERCENT) as u8
        } else {
            255
        })
    }
}

pub fn next_ui_scale_percent(current: u8) -> (r: u8)
    ensures
        r == spec_next_scale(current),
{
    if current >= UI_SCALE_MAX_PERCENT {
        UI_SCALE_MIN_PERCENT
    } else {
        let stepped = if current <= 255 - UI_SCALE_STEP_PERCENT {
            current + UI_SCALE_STEP_PERCENT
        } else {
            255
        };
        clamp_ui_scale_percent(stepped)
    }
}

/// The player's accessibility preferences.
#[derive(Clone, Copy, Debug, PartialEq, Eq, Structural)]
pub struct AccessibilityPreferences {
    pub colorblind_mode: ColorblindMode,
    pub reduced_motion: bool,
    pub placement_timer_multiplier_request: PlacementTimerMultiplier,
    pub menu_ui_scale_percent: u8,
    pub hud_ui_scale_percent: u8,
}

/// A preference that cannot be set.
#[derive(Clone, Copy, Debug, PartialEq, Eq, Structural)]
pub enum PreferenceValidationError {
    InvalidPlacementTimerMultiplier,
}

impl AccessibilityPreferences {
    pub open spec fn spec_default() -> Self {
        AccessibilityPreferences {
            colorblind_mode: ColorblindMode::Off,
            reduced_motion: false,
            placement_timer_multiplier_request: PlacementTimerMultiplier::X1,
            menu_ui_scale_percent: 100,
            hud_ui_scale_percent: 100,
        }
    }

    pub fn set_menu_ui_scale_percent(&mut self, percent: u8)
        ensures
            *final(self) == (AccessibilityPreferences {
                menu_ui_scale_percent: spec_clamp_scale(percent),
                ..*old(self)
            }),
    {
        self.menu_ui_scale_percent = clamp_ui_scale_percent(percent);
    }

    pub fn set_hud_ui_scale_percent(&mut self, percent: u8)
        ensures
            *final(self) == (AccessibilityPreferences { hud_ui_scale_percent: spec_clamp_scale(percent), ..*old(self) }),
    {
        self.hud_ui_scale_percent = clamp_ui_scale_percent(percent);
    }

    /// Request the placement timer multiplier equal to a ratio; a ratio that
    /// is no standard multiplier is refused and changes nothing.
    pub fn try_set_placement_timer_multiplier_from_ratio(&mut self, numerator: u32, denominator: u32) -> (r: Result<(), PreferenceValidationError>)
        ensures
            match spec_multiplier_for_ratio(numerator, denominator) {
                Some(m) => r is Ok && *final(self) == (AccessibilityPreferences {
                    placement_timer_multiplier_request: m,
                    ..*old(self)
                }),
                None => r == Err::<(), PreferenceValidationError>(PreferenceValidationError::InvalidPlacementTimerMultiplier)
                    && *final(self) == *old(self),
            },
    {
        match PlacementTimerMultiplier::from_standard_ratio(numerator, denominator) {
            Some(m) => {
                self.placement_timer_multiplier_request = m;
                Ok(())
            },
            None => Err(PreferenceValidationError::InvalidPlacementTimerMultiplier),
        }
    }
}

impl Default for AccessibilityPreferences {
    fn default() -> (r: Self)
        ensures
            r == Self::spec_default(),
    {
        AccessibilityPreferences {
            colorblind_mode: ColorblindMode::Off,
            reduced_motion: false,
            placement_timer_multiplier_request: PlacementTimerMultiplier::X1,
            menu_ui_scale_percent: 100,
            hud_ui_scale_percent: 100,
        }
    }
}

/// Why stored preferences could not be read or written.
#[derive(Clone, Copy, Debug, PartialEq, Eq, Structural)]
pub enum PreferenceStorageError {
    Unavailable,
    WriteFailed,
    EncodeFailed,
    DecodeFailed,
}

/// Stored preferences with their version tag.
#[derive(Clone, Copy, Debug, PartialEq, Eq, Structural)]
pub struct AccessibilityPreferencesPayload {
    pub version: u32,
    pub preferences: AccessibilityPreferences,
}

impl AccessibilityPreferencesPayload {
    /// The payload that stores `preferences` under the current version.
    pub fn from_preferences(preferences: AccessibilityPreferences) -> (p: Self)
        ensures
            p == (AccessibilityPreferencesPayload { version: ACCESSIBILITY_PREFERENCES_PAYLOAD_VERSION, preferences }),
    {
        AccessibilityPreferencesPayload { version: ACCESSIBILITY_PREFERENCES_PAYLOAD_VERSION, preferences }
    }

    /// The stored preferences, accepted only under the current version.
    pub fn into_preferences(self) -> (r: Result<AccessibilityPreferences, PreferenceStorageError>)
        ensures
            self.version == ACCESSIBILITY_PREFERENCES_PAYLOAD_VERSION ==> r == Ok::<
                AccessibilityPreferences,
                PreferenceStorageError,
            >(self.preferences),
            self.version != ACCESSIBILITY_PREFERENCES_PAYLOAD_VERSION ==> r == Err::<
                AccessibilityPreferences,
                PreferenceStorageError,
            >(PreferenceStorageError::DecodeFailed),
    {
        if self.version != ACCESSIBILITY_PREFERENCES_PAYLOAD_VERSION {
            return Err(PreferenceStorageError::DecodeFailed);
        }
        Ok(self.preferences)
    }
}

/// Where preferences are stored. Browser storage is reached by the client
/// shell; the other kinds are handled here.
pub enum PreferenceStorageBackend {
    BrowserLocalStorage,
    InMemory { payload: Option<String> },
    Unavailable,
    FailWrites { payload: Option<String> },
}

impl PreferenceStorageBackend {
    /// The stored payload of a backend handled here.
    pub fn load_payload(&self) -> (r: Result<Option<String>, PreferenceStorageError>)
        ensures
            match self {
                PreferenceStorageBackend::InMemory { payload } | PreferenceStorageBackend::FailWrites { payload } => {
                    r is Ok && (r->Ok_0 is Some <==> payload is Some) && (payload matches Some(p) ==> r->Ok_0->0@ == p@)
                },
                PreferenceStorageBackend::Unavailable => r is Ok && r->Ok_0 is None,
                PreferenceStorageBackend::BrowserLocalStorage => r == Err::<Option<String>, PreferenceStorageError>(
                    PreferenceStorageError::Unavailable,
                ),
            },
    {
        match self {
            PreferenceStorageBackend::InMemory { payload } | PreferenceStorageBackend::FailWrites { payload } => {
                match payload {
                    Some(p) => Ok(Some(p.clone())),
                    None => Ok(None),
                }
            },
            PreferenceStorageBackend::Unavailable => Ok(None),
            PreferenceStorageBackend::BrowserLocalStorage => Err(PreferenceStorageError::Unavailable),
        }
    }

    /// Store a payload in a backend handled here: memory keeps it, the others
    /// refuse the write.
    pub fn save_payload(&mut self, payload: String) -> (r: Result<(), PreferenceStorageError>)
        ensures
            match *old(self) {
                PreferenceStorageBackend::InMemory { .. } => r is Ok && (*final(self) matches PreferenceStorageBackend::InMemory {
                    payload: Some(p),
                } && p@ == payload@),
                PreferenceStorageBackend::BrowserLocalStorage => r == Err::<(), PreferenceStorageError>(
                    PreferenceStorageError::Unavailable,
                ),
                _ => r == Err::<(), PreferenceStorageError>(PreferenceStorageError::WriteFailed),
            },
    {
        match self {
            PreferenceStorageBackend::InMemory { .. } => {
                *self = PreferenceStorageBackend::InMemory { payload: Some(payload) };
                Ok(())
            },
            PreferenceStorageBackend::BrowserLocalStorage => Err(PreferenceStorageError::Unavailable),
            _ => Err(PreferenceStorageError::WriteFailed),
        }
    }
}

/// Where the settings panel was opened from.
#[derive(Clone, Copy, Debug, PartialEq, Eq, Structural)]
pub enum SettingsEntrySource {
    Title,
    Lobby,
    SafeInGame,
    GameOver,
    Help,
}

#[derive(Clone, Copy, Debug, PartialEq, Eq, Structural)]
pub enum SettingsPanelMode {
    Closed,
    Open,
}

/// Whether the settings panel is open, and from where.
#[derive(Clone, Copy, Debug, PartialEq, Eq, Structural)]
pub struct SettingsPanelState {
    pub mode: SettingsPanelMode,
    pub source: Option<SettingsEntrySource>,
    pub last_closed_source: Option<SettingsEntrySource>,
}

/// A request to open the panel, held while the phase forbids it.
#[derive(Clone, Copy, Debug, PartialEq, Eq, Structural)]
pub struct SettingsPendingRequest {
    pub source: Option<SettingsEntrySource>,
    pub requested_during_phase: Option<RoundPhase>,
}

/// The full panel may not open during placement, the auction or resolution.
pub open spec fn spec_unsafe_phase(phase: RoundPhase) -> bool {
    phase == RoundPhase::Placement || phase == RoundPhase::DraftAuction || phase == RoundPhase::Resolution
}

pub fn unsafe_phase_for_full_settings(phase: RoundPhase) -> (r: bool)
    ensures
        r == spec_unsafe_phase(phase),
{
    match phase {
        RoundPhase::Placement | RoundPhase::DraftAuction | RoundPhase::Resolution => true,
        _ => false,
    }
}

impl SettingsPanelState {
    pub fn new() -> (s: Self)
        ensures
            s == (SettingsPanelState { mode: SettingsPanelMode::Closed, source: None, last_closed_source: None }),
    {
        SettingsPanelState { mode: SettingsPanelMode::Closed, source: None, last_closed_source: None }
    }
}

impl SettingsPendingRequest {
    pub fn new() -> (s: Self)
        ensures
            s == (SettingsPendingRequest { source: None, requested_during_phase: None }),
    {
        SettingsPendingRequest { source: None, requested_during_phase: None }
    }
}

/// Panel and waiting request after asking to open from `source`.
pub open spec fn spec_request_open(
    source: SettingsEntrySource,
    phase: RoundPhase,
    panel: SettingsPanelState,
    pending: SettingsPendingRequest,
) -> (SettingsPanelState, SettingsPendingRequest) {
    if spec_unsafe_phase(phase) {
        (panel, SettingsPendingRequest { source: Some(source), requested_during_phase: Some(phase) })
    } else {
        (
            SettingsPanelState { mode: SettingsPanelMode::Open, source: Some(source), ..panel },
            SettingsPendingRequest { source: None, requested_during_phase: None },
        )
    }
}

/// Panel and waiting request after checking for a waiting request.
pub open spec fn spec_open_pending(
    phase: RoundPhase,
    panel: SettingsPanelState,
    pending: SettingsPendingRequest,
) -> (SettingsPanelState, SettingsPendingRequest) {
    if pending.source is Some && !spec_unsafe_phase(phase) {
        (
            SettingsPanelState { mode: SettingsPanelMode::Open, source: pending.source, ..panel },
            SettingsPendingRequest { source: None, requested_during_phase: None },
        )
    } else {
        (panel, pending)
    }
}

/// Ask to open the panel from `source`: during an unsafe phase the request
/// waits, otherwise the panel opens and any waiting request is dropped.
pub fn request_settings_open(
    source: SettingsEntrySource,
    phase: RoundPhase,
    panel_state: &mut SettingsPanelState,
    pending_request: &mut SettingsPendingRequest,
)
    ensures
        (*final(panel_state), *final(pending_request)) == spec_request_open(source, phase, *old(panel_state), *old(pending_request)),
{
    if unsafe_phase_for_full_settings(phase) {
        pending_request.source = Some(source);
        pending_request.requested_during_phase = Some(phase);
        return;
    }
    panel_state.mode = SettingsPanelMode::Open;
    panel_state.source = Some(source);
    pending_request.source = None;
    pending_request.requested_during_phase = None;
}

/// Open a waiting request once the phase allows it.
pub fn open_pending_settings_request_at_safe_boundary(
    phase: RoundPhase,
    panel_state: &mut SettingsPanelState,
    pending_request: &mut SettingsPendingRequest,
)
    ensures
        (*final(panel_state), *final(pending_request)) == spec_open_pending(phase, *old(panel_state), *old(pending_request)),
{
    let source = match pending_request.source {
        Some(s) => s,
        None => {
            return;
        },
    };
    if unsafe_phase_for_full_settings(phase) {
        return;
    }
    panel_state.mode = SettingsPanelMode::Open;
    panel_state.source = Some(source);
    pending_request.source = None;
    pending_request.requested_during_phase = None;
}

/// The order in which keyboard focus walks the panel's controls.
pub struct SettingsFocusOrder<T> {
    pub entities: Vec<T>,
    pub focused_index: usize,
}

impl<T: Copy> SettingsFocusOrder<T> {
    pub fn new() -> (s: Self)
        ensures
            s.entities@.len() == 0,
            s.focused_index == 0,
    {
        SettingsFocusOrder { entities: Vec::new(), focused_index: 0 }
    }

    /// The focused control, if any.
    pub fn focused_entity(&self) -> (r: Option<T>)
        ensures
            self.focused_index < self.entities@.len() ==> r == Some(self.entities@[self.focused_index as int]),
            self.focused_index >= self.entities@.len() ==> r is None,
    {
        if self.focused_index < self.entities.len() {
            Some(self.entities[self.focused_index])
        } else {
            None
        }
    }

    /// Replace the controls, keeping the focus position within them.
    pub fn set_entities(&mut self, entities: Vec<T>)
        ensures
            final(self).entities@ == entities@,
            entities@.len() == 0 ==> final(self).focused_index == 0,
            entities@.len() > 0 ==> final(self).focused_index == (if old(self).focused_index < entities@.len() {
                old(self).focused_index as int
            } else {
                entities@.len() - 1
            }),
    {
        self.entities = entities;
        if self.entities.len() == 0 {
            self.focused_index = 0;
        } else if self.focused_index > self.entities.len() - 1 {
            self.focused_index = self.entities.len() - 1;
        }
    }

    /// Move focus to the next control, wrapping around.
    pub fn focus_next(&mut self)
        requires
            old(self).focused_index < usize::MAX,
        ensures
            final(self).entities@ == old(self).entities@,
            old(self).entities@.len() == 0 ==> final(self).focused_index == 0,
            old(self).entities@.len() > 0 ==> final(self).focused_index == (old(self).focused_index + 1) % (old(
                self,
            ).entities@.len() as int),
    {
        if self.entities.len() == 0 {
            self.focused_index = 0;
            return;
        }
        self.focused_index = (self.focused_index + 1) % self.entities.len();
    }
}


/// Close the panel, remembering where it was opened from.
pub fn close_settings_panel<T: Copy>(panel_state: &mut SettingsPanelState, focus_order: &mut SettingsFocusOrder<T>)
    ensures
        *final(panel_state) == (SettingsPanelState {
            mode: SettingsPanelMode::Closed,
            source: None,
            last_closed_source: old(panel_state).source,
        }),
        final(focus_order).entities@.len() == 0,
        final(focus_order).focused_index == 0,
{
    panel_state.mode = SettingsPanelMode::Closed;
    panel_state.last_closed_source = panel_state.source;
    panel_state.source = None;
    focus_order.set_entities(Vec::new());
}

/// The line at the foot of the panel.
pub struct SettingsStatusFooterState {
    pub save_warning: bool,
    pub message: String,
}

impl SettingsStatusFooterState {
    pub fn new() -> (s: Self)
        ensures
            !s.save_warning,
            s.message@.len() == 0,
    {
        SettingsStatusFooterState { save_warning: false, message: String::new() }
    }

    pub fn set_saved(&mut self)
        ensures
            !final(self).save_warning,
            final(self).message@ == "Preferences saved"@,
    {
        self.save_warning = false;
        self.message = String::from_str("Preferences saved");
    }

    pub fn set_save_warning(&mut self)
        ensures
            final(self).save_warning,
            final(self).message@ == "Preferences active for this session; save failed"@,
    {
        self.save_warning = true;
        self.message = String::from_str("Preferences active for this session; save failed");
    }

    /// Record the outcome of saving the preferences.
    pub fn record_save(&mut self, saved: bool)
        ensures
            final(self).save_warning == !saved,
            saved ==> final(self).message@ == "Preferences saved"@,
            !saved ==> final(self).message@ == "Preferences active for this session; save failed"@,
    {
        if saved {
            self.set_saved();
        } else {
            self.set_save_warning();
        }
    }
}

/// Store encoded preferences and report the outcome on the footer.
///
/// `encoded` is the serialized payload of the preferences, or the error of
/// encoding them. It is written to the backend; the footer says "saved" when
/// the write succeeded and warns otherwise (encoding failed or the backend
/// refused the write, which leaves the backend unchanged).
pub fn persist_preferences(
    storage: &mut PreferenceStorageBackend,
    encoded: Result<String, PreferenceStorageError>,
    status: &mut SettingsStatusFooterState,
)
    ensures
        match encoded {
            Ok(p) => match *old(storage) {
                PreferenceStorageBackend::InMemory { .. } => (*final(storage) matches PreferenceStorageBackend::InMemory {
                    payload: Some(q),
                } && q@ == p@) && !final(status).save_warning && final(status).message@ == "Preferences saved"@,
                _ => *final(storage) == *old(storage) && final(status).save_warning
                    && final(status).message@ == "Preferences active for this session; save failed"@,
            },
            Err(_) => *final(storage) == *old(storage) && final(status).save_warning
                && final(status).message@ == "Preferences active for this session; save failed"@,
        },
{
    let payload = match encoded {
        Ok(p) => p,
        Err(_) => {
            status.set_save_warning();
            return;
        },
    };
    let ghost before = *storage;
    let saved = match storage {
        PreferenceStorageBackend::InMemory { .. } => storage.save_payload(payload).is_ok(),
        _ => false,
    };
    assert(!(before is InMemory) ==> *storage == before);
    status.record_save(saved);
}

/// Record a placement-timer choice in the preferences, and give the
/// multiplier to send to the server when the choice is made in the lobby
/// before the session starts.
pub fn apply_placement_timer_selection(
    multiplier: PlacementTimerMultiplier,
    preferences: &mut AccessibilityPreferences,
    phase: RoundPhase,
    session_ready: bool,
) -> (r: Option<PlacementTimerMultiplier>)
    ensures
        *final(preferences) == (AccessibilityPreferences {
            placement_timer_multiplier_request: multiplier,
            ..*old(preferences)
        }),
        r == (if phase == RoundPhase::Lobby && !session_ready { Some(multiplier) } else { None }),
{
    preferences.placement_timer_multiplier_request = multiplier;
    if phase != RoundPhase::Lobby || session_ready {
        return None;
    }
    Some(multiplier)
}

/// Apply the preferences read at start-up: loaded ones replace the current
/// ones and clear the footer; a read error, or no storage at all, warns that
/// saving will fail.
pub fn apply_loaded_preferences(
    loaded: Result<Option<AccessibilityPreferences>, PreferenceStorageError>,
    storage_unavailable: bool,
    preferences: &mut AccessibilityPreferences,
    status: &mut SettingsStatusFooterState,
)
    ensures
        match loaded {
            Ok(Some(p)) => *final(preferences) == p && final(status).message@.len() == 0 && final(status).save_warning
                == old(status).save_warning,
            Ok(None) => *final(preferences) == *old(preferences) && if storage_unavailable {
                final(status).save_warning && final(status).message@
                    == "Preferences active for this session; save failed"@
            } else {
                final(status).save_warning == old(status).save_warning && final(status).message@ == old(status).message@
            },
            Err(_) => *final(preferences) == *old(preferences) && final(status).save_warning && final(status).message@
                == "Preferences active for this session; save failed"@,
        },
{
    match loaded {
        Ok(Some(p)) => {
            *preferences = p;
            status.message = String::new();
        },
        Ok(None) => {
            if storage_unavailable {
                status.set_save_warning();
            }
        },
        Err(_) => status.set_save_warning(),
    }
}

/// Whether a session is under way, for requests that only the lobby may send.
#[derive(Clone, Copy, Debug, PartialEq, Eq, Structural)]
pub struct SettingsSessionLifecycle {
    pub session_ready: bool,
}

impl SettingsSessionLifecycle {
    /// A draft phase marks the session ready; the lobby clears it.
    pub fn track(&mut self, phase: RoundPhase)
        ensures
            final(self).session_ready == (if phase == RoundPhase::DraftInitial || phase == RoundPhase::DraftShop {
                true
            } else if phase == RoundPhase::Lobby {
                false
            } else {
                old(self).session_ready
            }),
    {
        match phase {
            RoundPhase::DraftInitial | RoundPhase::DraftShop => {
                self.session_ready = true;
            },
            RoundPhase::Lobby => {
                self.session_ready = false;
            },
            _ => {},
        }
    }
}

#[derive(Clone, Copy, Debug, PartialEq, Eq, Structural)]
pub enum SettingsCategory {
    Accessibility,
}

/// What a settings control does.
#[derive(Clone, Copy, Debug, PartialEq, Eq, Structural)]
pub enum SettingsControlAction {
    Close,
    SelectCategory(SettingsCategory),
    CycleColorblindMode,
    ToggleReducedMotion,
    SelectPlacementTimer(PlacementTimerMultiplier),
    CycleMenuUiScale,
    CycleHudUiScale,
}

/// What follows a settings action: closing the panel, saving the
/// preferences, and sending the lobby's timer request.
#[derive(Clone, Copy, Debug, PartialEq, Eq, Structural)]
pub struct SettingsActionOutcome {
    pub close: bool,
    pub persist: bool,
    pub send_timer: Option<PlacementTimerMultiplier>,
}

/// Apply a settings action to the preferences. Every change is saved; a
/// timer choice is also sent to the server while in the lobby before the
/// session starts.
pub fn apply_settings_action(
    action: SettingsControlAction,
    preferences: &mut AccessibilityPreferences,
    phase: RoundPhase,
    session_ready: bool,
) -> (r: SettingsActionOutcome)
    ensures
        match action {
            SettingsControlAction::Close => r == (SettingsActionOutcome { close: true, persist: false, send_timer: None })
                && *final(preferences) == *old(preferences),
            SettingsControlAction::SelectCategory(_) => r == (SettingsActionOutcome {
                close: false,
                persist: false,
                send_timer: None,
            }) && *final(preferences) == *old(preferences),
            SettingsControlAction::CycleColorblindMode => r == (SettingsActionOutcome {
                close: false,
                persist: true,
                send_timer: None,
            }) && *final(preferences) == (AccessibilityPreferences {
                colorblind_mode: match old(preferences).colorblind_mode {
                    ColorblindMode::Off => ColorblindMode::Protanopia,
                    ColorblindMode::Protanopia => ColorblindMode::Deuteranopia,
                    ColorblindMode::Deuteranopia => ColorblindMode::Tritanopia,
                    ColorblindMode::Tritanopia => ColorblindMode::Off,
                },
                ..*old(preferences)
            }),
            SettingsControlAction::ToggleReducedMotion => r == (SettingsActionOutcome {
                close: false,
                persist: true,
                send_timer: None,
            }) && *final(preferences) == (AccessibilityPreferences {
                reduced_motion: !old(preferences).reduced_motion,
                ..*old(preferences)
            }),
            SettingsControlAction::SelectPlacementTimer(m) => r == (SettingsActionOutcome {
                close: false,
                persist: true,
                send_timer: if phase == RoundPhase::Lobby && !session_ready {
                    Some(m)
                } else {
                    None
                },
            }) && *final(preferences) == (AccessibilityPreferences {
                placement_timer_multiplier_request: m,
                ..*old(preferences)
            }),
            SettingsControlAction::CycleMenuUiScale => r == (SettingsActionOutcome {
                close: false,
                persist: true,
                send_timer: None,
            }) && *final(preferences) == (AccessibilityPreferences {
                menu_ui_scale_percent: spec_clamp_scale(spec_next_scale(old(preferences).menu_ui_scale_percent)),
                ..*old(preferences)
            }),
            SettingsControlAction::CycleHudUiScale => r == (SettingsActionOutcome {
                close: false,
                persist: true,
                send_timer: None,
            }) && *final(preferences) == (AccessibilityPreferences {
                hud_ui_scale_percent: spec_clamp_scale(spec_next_scale(old(preferences).hud_ui_scale_percent)),
                ..*old(preferences)
            }),
        },
{
    match action {
        SettingsControlAction::Close => SettingsActionOutcome { close: true, persist: false, send_timer: None },
        SettingsControlAction::SelectCategory(_) => SettingsActionOutcome {
            close: false,
            persist: false,
            send_timer: None,
        },
        SettingsControlAction::CycleColorblindMode => {
            preferences.colorblind_mode = preferences.colorblind_mode.next();
            SettingsActionOutcome { close: false, persist: true, send_timer: None }
        },
        SettingsControlAction::ToggleReducedMotion => {
            preferences.reduced_motion = !preferences.reduced_motion;
            SettingsActionOutcome { close: false, persist: true, send_timer: None }
        },
        SettingsControlAction::SelectPlacementTimer(m) => {
            let send_timer = apply_placement_timer_selection(m, preferences, phase, session_ready);
            SettingsActionOutcome { close: false, persist: true, send_timer }
        },
        SettingsControlAction::CycleMenuUiScale => {
            let next = next_ui_scale_percent(preferences.menu_ui_scale_percent);
            preferences.set_menu_ui_scale_percent(next);
            SettingsActionOutcome { close: false, persist: true, send_timer: None }
        },
        SettingsControlAction::CycleHudUiScale => {
            let next = next_ui_scale_percent(preferences.hud_ui_scale_percent);
            preferences.set_hud_ui_scale_percent(next);
            SettingsActionOutcome { close: false, persist: true, send_timer: None }
        },
    }
}

/// The copy of the panel's controls.
pub struct SettingsTexts {
    pub colorblind: String,
    pub reduced_motion: String,
    pub effective_timer: String,
    pub menu_scale: String,
    pub hud_scale: String,
}

pub fn settings_texts(preferences: &AccessibilityPreferences, effective: PlacementTimerMultiplier) -> (t: SettingsTexts)
    ensures
        t.colorblind@ == "Colorblind mode: "@ + preferences.colorblind_mode.spec_label(),
        t.reduced_motion@ == "Reduced motion: "@ + (if preferences.reduced_motion {
            "On"@
        } else {
            "Off"@
        }),
        t.effective_timer@ == "Effective room timer: "@ + spec_timer_label(effective),
        t.menu_scale@ == "Menu UI scale: "@ + decimal(preferences.menu_ui_scale_percent as nat) + "%"@,
        t.hud_scale@ == "HUD UI scale: "@ + decimal(preferences.hud_ui_scale_percent as nat) + "%"@,
{
    let mut colorblind = String::from_str("Colorblind mode: ");
    colorblind.append(preferences.colorblind_mode.label());
    let mut reduced_motion = String::from_str("Reduced motion: ");
    reduced_motion.append(if preferences.reduced_motion {
        "On"
    } else {
        "Off"
    });
    let mut effective_timer = String::from_str("Effective room timer: ");
    effective_timer.append(placement_timer_label(effective));
    let mut menu_scale = String::from_str("Menu UI scale: ");
    push_decimal(&mut menu_scale, preferences.menu_ui_scale_percent as u32);
    menu_scale.append("%");
    let mut hud_scale = String::from_str("HUD UI scale: ");
    push_decimal(&mut hud_scale, preferences.hud_ui_scale_percent as u32);
    hud_scale.append("%");
    proof {
        assert(menu_scale@ =~= "Menu UI scale: "@ + decimal(preferences.menu_ui_scale_percent as nat) + "%"@);
        assert(hud_scale@ =~= "HUD UI scale: "@ + decimal(preferences.hud_ui_scale_percent as nat) + "%"@);
    }
    SettingsTexts { colorblind, reduced_motion, effective_timer, menu_scale, hud_scale }
}

/// The UI scale always stays within its supported range whatever the
/// control does.
pub proof fn law_ui_scale_stays_in_range(current: u8)
    ensures
        UI_SCALE_MIN_PERCENT <= spec_clamp_scale(current) <= UI_SCALE_MAX_PERCENT,
        UI_SCALE_MIN_PERCENT <= spec_next_scale(current) <= UI_SCALE_MAX_PERCENT,
        UI_SCALE_MIN_PERCENT <= current <= UI_SCALE_MAX_PERCENT ==> spec_clamp_scale(current) == current,
{
}

/// A request made during an unsafe phase opens the panel at the next safe
/// phase, from the same source, and leaves nothing waiting.
pub proof fn law_deferred_open_happens_at_safe_phase(
    source: SettingsEntrySource,
    unsafe_phase: RoundPhase,
    safe_phase: RoundPhase,
    panel: SettingsPanelState,
    pending: SettingsPendingRequest,
)
    requires
        spec_unsafe_phase(unsafe_phase),
        !spec_unsafe_phase(safe_phase),
    ensures
        ({
            let (p1, q1) = spec_request_open(source, unsafe_phase, panel, pending);
            let (p2, q2) = spec_open_pending(safe_phase, p1, q1);
            &&& p1 == panel
            &&& p2.mode == SettingsPanelMode::Open
            &&& p2.source == Some(source)
            &&& q2.source is None
        }),
{
}

} // verus!
