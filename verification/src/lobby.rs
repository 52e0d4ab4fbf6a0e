//! The lobby: creating and joining rooms, choosing and confirming a class,
//! bot seats, and the copy the lobby panel shows.

use vstd::prelude::*;
use vstd::string::*;

use crate::card::{ClassId, PlayerId};
use crate::room_code::{
    code_char_str, is_empty_text, normalize_room_code_char, normalize_room_code_text,
    spec_is_alnum, spec_normalized_code, spec_upper, ROOM_CODE_MAX,
};
use crate::text::{decimal, push_decimal};

verus! {

/// Room format.
#[derive(Clone, Copy, Debug, PartialEq, Eq, Structural)]
pub enum GameMode {
    OneVOne,
}

/// Flavour of a bot seat.
#[derive(Clone, Copy, Debug, PartialEq, Eq, Structural)]
pub enum BotKind {
    Default,
}

/// One seat of a room.
#[derive(Clone, Copy, Debug, PartialEq, Eq, Structural)]
pub struct SessionSlot {
    pub slot: u8,
    pub player_id: Option<PlayerId>,
    pub is_bot: bool,
}

/// One joinable room as listed by the server.
#[derive(Clone, Debug)]
pub struct RoomListEntry {
    pub room_code: String,
    pub mode: GameMode,
    pub slots_filled: u8,
    pub slots_max: u8,
    pub first_open_slot: Option<u8>,
}

/// What the lobby knows of the session.
pub struct LobbyViewState {
    pub local_player_id: Option<PlayerId>,
    pub session_id: Option<String>,
    pub room_code: Option<String>,
    pub mode: GameMode,
    pub slots: Vec<SessionSlot>,
    pub selected_class: ClassId,
    pub locked_class: Option<ClassId>,
    pub revealed_classes: Vec<(PlayerId, ClassId)>,
    pub status: String,
    pub room_list: Vec<RoomListEntry>,
}

/// What the player entered in the lobby.
pub struct LobbyInputState {
    pub join_room_code: String,
    pub requested_slot: u8,
    pub selected_class: ClassId,
    pub room_code_focused: bool,
    pub room_code_selected: bool,
    pub create_in_flight: bool,
    pub join_in_flight: bool,
    pub class_confirm_in_flight: bool,
}

/// A request the lobby sends to the server.
pub enum LobbyCommand {
    CreateRoom,
    JoinRoom { room_code: String, requested_slot: u8 },
    RefreshRooms,
    SelectClass { class_id: ClassId },
    ConfirmClass { class_id: ClassId },
    AddBot { slot: u8, bot_kind: BotKind },
    RemoveBot { slot: u8 },
    CreateBotRoom { mode: GameMode, bot_kind: BotKind },
}

/// A request as the model sees it: the room code by its characters.
pub enum LobbyRequest {
    CreateRoom,
    JoinRoom { room_code: Seq<char>, requested_slot: u8 },
    RefreshRooms,
    SelectClass { class_id: ClassId },
    ConfirmClass { class_id: ClassId },
    AddBot { slot: u8, bot_kind: BotKind },
    RemoveBot { slot: u8 },
    CreateBotRoom { mode: GameMode, bot_kind: BotKind },
}

impl View for LobbyCommand {
    type V = LobbyRequest;

    open spec fn view(&self) -> LobbyRequest {
        match self {
            LobbyCommand::CreateRoom => LobbyRequest::CreateRoom,
            LobbyCommand::JoinRoom { room_code, requested_slot } => LobbyRequest::JoinRoom {
                room_code: room_code@,
                requested_slot: *requested_slot,
            },
            LobbyCommand::RefreshRooms => LobbyRequest::RefreshRooms,
            LobbyCommand::SelectClass { class_id } => LobbyRequest::SelectClass { class_id: *class_id },
            LobbyCommand::ConfirmClass { class_id } => LobbyRequest::ConfirmClass { class_id: *class_id },
            LobbyCommand::AddBot { slot, bot_kind } => LobbyRequest::AddBot { slot: *slot, bot_kind: *bot_kind },
            LobbyCommand::RemoveBot { slot } => LobbyRequest::RemoveBot { slot: *slot },
            LobbyCommand::CreateBotRoom { mode, bot_kind } => LobbyRequest::CreateBotRoom {
                mode: *mode,
                bot_kind: *bot_kind,
            },
        }
    }
}

/// The request an optional command stands for.
pub open spec fn requested(cmd: Option<LobbyCommand>) -> Option<LobbyRequest> {
    match cmd {
        Some(c) => Some(c@),
        None => None,
    }
}

/// The requests a list of commands stands for, in order.
pub open spec fn requests(cmds: Seq<LobbyCommand>) -> Seq<LobbyRequest> {
    cmds.map_values(|c: LobbyCommand| c@)
}

/// What the lobby's controls read and write: the whole input, the status
/// line, the class the lobby previews, and whether a room was joined.
#[verifier::ext_equal]
pub struct LobbyForm {
    pub code: Seq<char>,
    pub requested_slot: u8,
    pub selected_class: ClassId,
    pub focused: bool,
    pub selected: bool,
    pub create_in_flight: bool,
    pub join_in_flight: bool,
    pub confirm_in_flight: bool,
    pub status: Seq<char>,
    pub lobby_class: ClassId,
    pub in_room: bool,
}

pub open spec fn lobby_form(input: LobbyInputState, lobby: LobbyViewState) -> LobbyForm {
    LobbyForm {
        code: input.join_room_code@,
        requested_slot: input.requested_slot,
        selected_class: input.selected_class,
        focused: input.room_code_focused,
        selected: input.room_code_selected,
        create_in_flight: input.create_in_flight,
        join_in_flight: input.join_in_flight,
        confirm_in_flight: input.class_confirm_in_flight,
        status: lobby.status@,
        lobby_class: lobby.selected_class,
        in_room: lobby.session_id is Some,
    }
}

/// `after` keeps everything of `before` but its status line and previewed
/// class.
pub open spec fn lobby_kept(before: LobbyViewState, after: LobbyViewState) -> bool {
    after == (LobbyViewState { status: after.status, selected_class: after.selected_class, ..before })
}

/// Create a room: one request at a time.
pub open spec fn create_step(f: LobbyForm) -> (LobbyForm, Option<LobbyRequest>) {
    if f.create_in_flight {
        (LobbyForm { status: "Create already pending"@, ..f }, None)
    } else {
        (LobbyForm { create_in_flight: true, status: "Creating room"@, ..f }, Some(LobbyRequest::CreateRoom))
    }
}

/// Join the room whose code is in the field: one request at a time; the
/// field is rewritten to the normalised code, and an empty one is refused.
pub open spec fn join_step(f: LobbyForm) -> (LobbyForm, Option<LobbyRequest>) {
    if f.join_in_flight {
        (LobbyForm { status: "Join already pending"@, ..f }, None)
    } else {
        let code = spec_normalized_code(f.code);
        if code.len() == 0 {
            (LobbyForm { code, status: "Enter a room code before joining"@, ..f }, None)
        } else {
            (
                LobbyForm { code, join_in_flight: true, status: "Joining "@ + code, ..f },
                Some(LobbyRequest::JoinRoom { room_code: code, requested_slot: f.requested_slot }),
            )
        }
    }
}

/// Join a listed room at the given seat: one request at a time.
pub open spec fn join_row_step(f: LobbyForm, room_code: Seq<char>, slot: u8) -> (LobbyForm, Option<LobbyRequest>) {
    if f.join_in_flight {
        (LobbyForm { status: "Join already pending"@, ..f }, None)
    } else {
        (
            LobbyForm { requested_slot: slot, join_in_flight: true, status: "Joining "@ + room_code, ..f },
            Some(LobbyRequest::JoinRoom { room_code, requested_slot: slot }),
        )
    }
}

/// Preview a class.
pub open spec fn select_step(f: LobbyForm, class_id: ClassId) -> (LobbyForm, Option<LobbyRequest>) {
    (
        LobbyForm {
            selected_class: class_id,
            lobby_class: class_id,
            status: "Previewing "@ + spec_class_name(class_id),
            ..f
        },
        Some(LobbyRequest::SelectClass { class_id }),
    )
}

/// Confirm the selected class: only inside a room, one request at a time.
pub open spec fn confirm_step(f: LobbyForm) -> (LobbyForm, Option<LobbyRequest>) {
    if !f.in_room {
        (LobbyForm { status: "Create or join a room before confirming class"@, ..f }, None)
    } else if f.confirm_in_flight {
        (LobbyForm { status: "Class confirm already pending"@, ..f }, None)
    } else {
        (
            LobbyForm {
                confirm_in_flight: true,
                status: "Confirming "@ + spec_class_name(f.selected_class),
                ..f
            },
            Some(LobbyRequest::ConfirmClass { class_id: f.selected_class }),
        )
    }
}

/// Ask for the room list again.
pub open spec fn refresh_step(f: LobbyForm) -> (LobbyForm, Option<LobbyRequest>) {
    (LobbyForm { status: "Refreshing rooms"@, ..f }, Some(LobbyRequest::RefreshRooms))
}

/// Add a bot at a seat, once in a room.
pub open spec fn add_bot_step(f: LobbyForm, slot: u8) -> (LobbyForm, Option<LobbyRequest>) {
    if !f.in_room {
        (LobbyForm { status: "Create or join a room before adding a bot"@, ..f }, None)
    } else {
        (
            LobbyForm { status: "Adding bot to seat "@ + decimal(slot as nat), ..f },
            Some(LobbyRequest::AddBot { slot, bot_kind: BotKind::Default }),
        )
    }
}

/// Remove the bot at a seat, once in a room.
pub open spec fn remove_bot_step(f: LobbyForm, slot: u8) -> (LobbyForm, Option<LobbyRequest>) {
    if !f.in_room {
        (LobbyForm { status: "Create or join a room before removing a bot"@, ..f }, None)
    } else {
        (
            LobbyForm { status: "Removing bot from seat "@ + decimal(slot as nat), ..f },
            Some(LobbyRequest::RemoveBot { slot }),
        )
    }
}

/// Create a room with a bot opponent, only outside any room.
pub open spec fn create_bot_room_step(f: LobbyForm) -> (LobbyForm, Option<LobbyRequest>) {
    if f.in_room {
        (LobbyForm { status: "Already in a room; leave it before creating a soak room"@, ..f }, None)
    } else {
        (
            LobbyForm { status: "Creating 2-bot soak room"@, ..f },
            Some(LobbyRequest::CreateBotRoom { mode: GameMode::OneVOne, bot_kind: BotKind::Default }),
        )
    }
}

/// Run one step after others: its form replaces theirs, and its request,
/// if any, follows theirs.
pub open spec fn then_step(
    acc: (LobbyForm, Seq<LobbyRequest>),
    step: (LobbyForm, Option<LobbyRequest>),
) -> (LobbyForm, Seq<LobbyRequest>) {
    (
        step.0,
        match step.1 {
            Some(r) => acc.1.push(r),
            None => acc.1,
        },
    )
}

/// A class's name.
pub open spec fn spec_class_name(c: ClassId) -> Seq<char> {
    match c {
        ClassId::Iop => "Iop"@,
        ClassId::Cra => "Cra"@,
        ClassId::Ecaflip => "Ecaflip"@,
        ClassId::Sacrier => "Sacrier"@,
        ClassId::Sadida => "Sadida"@,
        ClassId::Xelor => "Xelor"@,
        ClassId::Neutral => "Neutral"@,
    }
}

pub fn class_name(c: ClassId) -> (s: &'static str)
    ensures
        s@ == spec_class_name(c),
{
    match c {
        ClassId::Iop => "Iop",
        ClassId::Cra => "Cra",
        ClassId::Ecaflip => "Ecaflip",
        ClassId::Sacrier => "Sacrier",
        ClassId::Sadida => "Sadida",
        ClassId::Xelor => "Xelor",
        ClassId::Neutral => "Neutral",
    }
}

impl LobbyViewState {
    /// A lobby before the handshake.
    pub fn new() -> (l: Self)
        ensures
            l.local_player_id is None,
            l.session_id is None,
            l.room_code is None,
            l.slots@.len() == 0,
            l.selected_class == ClassId::Iop,
            l.locked_class is None,
            l.revealed_classes@.len() == 0,
            l.status@ == "Connecting"@,
            l.room_list@.len() == 0,
    {
        LobbyViewState {
            local_player_id: None,
            session_id: None,
            room_code: None,
            mode: GameMode::OneVOne,
            slots: Vec::new(),
            selected_class: ClassId::Iop,
            locked_class: None,
            revealed_classes: Vec::new(),
            status: String::from_str("Connecting"),
            room_list: Vec::new(),
        }
    }
}

impl LobbyInputState {
    /// Fresh input, with a room code read from `preset_room_code`.
    pub fn new(preset_room_code: &str) -> (i: Self)
        ensures
            i.join_room_code@ == spec_normalized_code(preset_room_code@),
            i.requested_slot == 1,
            i.selected_class == ClassId::Iop,
            !i.room_code_focused,
            !i.room_code_selected,
            !i.create_in_flight,
            !i.join_in_flight,
            !i.class_confirm_in_flight,
    {
        LobbyInputState {
            join_room_code: normalize_room_code_text(preset_room_code),
            requested_slot: 1,
            selected_class: ClassId::Iop,
            room_code_focused: false,
            room_code_selected: false,
            create_in_flight: false,
            join_in_flight: false,
            class_confirm_in_flight: false,
        }
    }
}

/// Type one room-code character: a selected code is replaced; a full code
/// takes no more. Returns whether the character was added.
pub fn push_room_code_char(input: &mut LobbyInputState, value: char) -> (added: bool)
    requires
        spec_is_alnum(value),
    ensures
        ({
            let base = if old(input).room_code_selected {
                Seq::<char>::empty()
            } else {
                old(input).join_room_code@
            };
            &&& !final(input).room_code_selected
            &&& added == (base.len() < ROOM_CODE_MAX)
            &&& final(input).join_room_code@ == (if added {
                base.push(spec_upper(value))
            } else {
                base
            })
        }),
        final(input).room_code_focused == old(input).room_code_focused,
        final(input).requested_slot == old(input).requested_slot,
        final(input).join_in_flight == old(input).join_in_flight,
        final(input).selected_class == old(input).selected_class,
        final(input).create_in_flight == old(input).create_in_flight,
        final(input).class_confirm_in_flight == old(input).class_confirm_in_flight,
{
    if input.room_code_selected {
        input.join_room_code = String::new();
        input.room_code_selected = false;
    }
    if input.join_room_code.as_str().unicode_len() >= ROOM_CODE_MAX {
        return false;
    }
    input.join_room_code.append(code_char_str(value));
    true
}

/// Backspace in the room-code field: a selected code is cleared, otherwise
/// the last character goes.
pub fn room_code_backspace(input: &mut LobbyInputState)
    ensures
        old(input).room_code_selected ==> final(input).join_room_code@.len() == 0 && !final(input).room_code_selected,
        !old(input).room_code_selected ==> final(input).join_room_code@ == (if old(input).join_room_code@.len() == 0 {
            old(input).join_room_code@
        } else {
            old(input).join_room_code@.drop_last()
        }) && !final(input).room_code_selected,
        final(input).room_code_focused == old(input).room_code_focused,
        final(input).requested_slot == old(input).requested_slot,
        final(input).selected_class == old(input).selected_class,
        final(input).join_in_flight == old(input).join_in_flight,
        final(input).create_in_flight == old(input).create_in_flight,
        final(input).class_confirm_in_flight == old(input).class_confirm_in_flight,
{
    if input.room_code_selected {
        input.join_room_code = String::new();
        input.room_code_selected = false;
        return;
    }
    let n = input.join_room_code.as_str().unicode_len();
    if n > 0 {
        let kept = String::from_str(input.join_room_code.as_str().substring_char(0, n - 1));
        input.join_room_code = kept;
        assert(input.join_room_code@ =~= old(input).join_room_code@.drop_last());
    }
}

/// Set the lobby status line to a fixed text.
/// `after` differs from `before` in its status line at most.
pub open spec fn only_status_changed(before: LobbyViewState, after: LobbyViewState) -> bool {
    after == (LobbyViewState { status: after.status, ..before })
}

fn set_status(lobby: &mut LobbyViewState, text: &str)
    ensures
        final(lobby).status@ == text@,
        only_status_changed(*old(lobby), *final(lobby)),
{
    lobby.status = String::from_str(text);
}

/// The create button: one request at a time.
pub fn request_create_room(input: &mut LobbyInputState, lobby: &mut LobbyViewState) -> (cmd: Option<LobbyCommand>)
    ensures
        ({
            let s = create_step(lobby_form(*old(input), *old(lobby)));
            lobby_form(*final(input), *final(lobby)) == s.0 && requested(cmd) == s.1
        }),
        only_status_changed(*old(lobby), *final(lobby)),
        old(input).create_in_flight ==> cmd is None && final(lobby).status@ == "Create already pending"@
            && final(input).create_in_flight,
        !old(input).create_in_flight ==> (cmd matches Some(LobbyCommand::CreateRoom)) && final(lobby).status@
            == "Creating room"@ && final(input).create_in_flight,
        final(input).join_in_flight == old(input).join_in_flight,
        final(input).join_room_code@ == old(input).join_room_code@,
        final(input).room_code_focused == old(input).room_code_focused,
        final(input).room_code_selected == old(input).room_code_selected,
        final(input).requested_slot == old(input).requested_slot,
        final(input).selected_class == old(input).selected_class,
        final(input).class_confirm_in_flight == old(input).class_confirm_in_flight,
{
    if input.create_in_flight {
        set_status(lobby, "Create already pending");
        return None;
    }
    input.create_in_flight = true;
    set_status(lobby, "Creating room");
    Some(LobbyCommand::CreateRoom)
}

/// The join button: one request at a time, with a room code read from the
/// field (which is rewritten to that code); an empty code asks for one.
pub fn request_join_room(input: &mut LobbyInputState, lobby: &mut LobbyViewState) -> (cmd: Option<LobbyCommand>)
    ensures
        ({
            let s = join_step(lobby_form(*old(input), *old(lobby)));
            lobby_form(*final(input), *final(lobby)) == s.0 && requested(cmd) == s.1
        }),
        only_status_changed(*old(lobby), *final(lobby)),
        old(input).join_in_flight ==> cmd is None && final(lobby).status@ == "Join already pending"@
            && final(input).join_room_code@ == old(input).join_room_code@,
        !old(input).join_in_flight ==> {
            let code = spec_normalized_code(old(input).join_room_code@);
            &&& final(input).join_room_code@ == code
            &&& code.len() == 0 ==> cmd is None && final(lobby).status@ == "Enter a room code before joining"@
                && !final(input).join_in_flight
            &&& code.len() > 0 ==> (cmd matches Some(LobbyCommand::JoinRoom { room_code, requested_slot }) && room_code@
                == code && requested_slot == old(input).requested_slot) && final(lobby).status@ == "Joining "@ + code
                && final(input).join_in_flight
        },
        final(input).requested_slot == old(input).requested_slot,
        final(input).create_in_flight == old(input).create_in_flight,
        final(input).room_code_focused == old(input).room_code_focused,
        final(input).room_code_selected == old(input).room_code_selected,
        final(input).selected_class == old(input).selected_class,
        final(input).class_confirm_in_flight == old(input).class_confirm_in_flight,
{
    if input.join_in_flight {
        set_status(lobby, "Join already pending");
        return None;
    }
    let code = normalize_room_code_text(input.join_room_code.as_str());
    input.join_room_code = code.clone();
    if is_empty_text(&code) {
        set_status(lobby, "Enter a room code before joining");
        return None;
    }
    input.join_in_flight = true;
    let mut status = String::from_str("Joining ");
    status.append(code.as_str());
    lobby.status = status;
    Some(LobbyCommand::JoinRoom { room_code: code, requested_slot: input.requested_slot })
}

/// A row of the room list, as clicked.
pub struct LobbyRoomListRow {
    pub room_code: String,
    pub requested_slot: u8,
}

/// A click on a room-list row: join that room at its open seat.
pub fn request_join_room_from_row(row: &LobbyRoomListRow, input: &mut LobbyInputState, lobby: &mut LobbyViewState) -> (cmd: Option<LobbyCommand>)
    ensures
        ({
            let s = join_row_step(lobby_form(*old(input), *old(lobby)), row.room_code@, row.requested_slot);
            lobby_form(*final(input), *final(lobby)) == s.0 && requested(cmd) == s.1
        }),
        only_status_changed(*old(lobby), *final(lobby)),
        old(input).join_in_flight ==> cmd is None && final(lobby).status@ == "Join already pending"@
            && final(input).requested_slot == old(input).requested_slot,
        !old(input).join_in_flight ==> (cmd matches Some(LobbyCommand::JoinRoom { room_code, requested_slot })
            && room_code@ == row.room_code@ && requested_slot == row.requested_slot) && final(input).requested_slot
            == row.requested_slot && final(input).join_in_flight && final(lobby).status@ == "Joining "@ + row.room_code@,
        final(input).room_code_focused == old(input).room_code_focused,
        final(input).room_code_selected == old(input).room_code_selected,
        final(input).join_room_code@ == old(input).join_room_code@,
{
    if input.join_in_flight {
        set_status(lobby, "Join already pending");
        return None;
    }
    input.requested_slot = row.requested_slot;
    input.join_in_flight = true;
    let mut status = String::from_str("Joining ");
    status.append(row.room_code.as_str());
    lobby.status = status;
    Some(LobbyCommand::JoinRoom { room_code: row.room_code.clone(), requested_slot: row.requested_slot })
}

/// The refresh button.
pub fn request_refresh_rooms(lobby: &mut LobbyViewState) -> (cmd: LobbyCommand)
    ensures
        only_status_changed(*old(lobby), *final(lobby)),
        cmd matches LobbyCommand::RefreshRooms,
        final(lobby).status@ == "Refreshing rooms"@,
{
    set_status(lobby, "Refreshing rooms");
    LobbyCommand::RefreshRooms
}

/// Preview a class.
pub fn request_select_class(class_id: ClassId, input: &mut LobbyInputState, lobby: &mut LobbyViewState) -> (cmd: LobbyCommand)
    ensures
        ({
            let s = select_step(lobby_form(*old(input), *old(lobby)), class_id);
            lobby_form(*final(input), *final(lobby)) == s.0 && requested(Some(cmd)) == s.1
        }),
        (cmd matches LobbyCommand::SelectClass { class_id: c } && c == class_id),
        final(input).selected_class == class_id,
        *final(lobby) == (LobbyViewState { selected_class: class_id, status: final(lobby).status, ..*old(lobby) }),
        final(lobby).status@ == "Previewing "@ + spec_class_name(class_id),
        final(input).class_confirm_in_flight == old(input).class_confirm_in_flight,
        final(input).room_code_focused == old(input).room_code_focused,
        final(input).room_code_selected == old(input).room_code_selected,
        final(input).requested_slot == old(input).requested_slot,
        final(input).join_room_code@ == old(input).join_room_code@,
        final(input).create_in_flight == old(input).create_in_flight,
        final(input).join_in_flight == old(input).join_in_flight,
{
    input.selected_class = class_id;
    lobby.selected_class = class_id;
    let mut status = String::from_str("Previewing ");
    status.append(class_name(class_id));
    lobby.status = status;
    LobbyCommand::SelectClass { class_id }
}

/// Confirm the selected class: only inside a room, one request at a time.
pub fn request_confirm_class(input: &mut LobbyInputState, lobby: &mut LobbyViewState) -> (cmd: Option<LobbyCommand>)
    ensures
        ({
            let s = confirm_step(lobby_form(*old(input), *old(lobby)));
            lobby_form(*final(input), *final(lobby)) == s.0 && requested(cmd) == s.1
        }),
        only_status_changed(*old(lobby), *final(lobby)),
        old(lobby).session_id is None ==> cmd is None && final(lobby).status@
            == "Create or join a room before confirming class"@ && final(input).class_confirm_in_flight
            == old(input).class_confirm_in_flight,
        old(lobby).session_id is Some && old(input).class_confirm_in_flight ==> cmd is None && final(lobby).status@
            == "Class confirm already pending"@ && final(input).class_confirm_in_flight,
        old(lobby).session_id is Some && !old(input).class_confirm_in_flight ==> (cmd matches Some(
            LobbyCommand::ConfirmClass { class_id },
        ) && class_id == old(input).selected_class) && final(input).class_confirm_in_flight && final(lobby).status@
            == "Confirming "@ + spec_class_name(old(input).selected_class),
        final(input).selected_class == old(input).selected_class,
        final(input).room_code_focused == old(input).room_code_focused,
        final(input).room_code_selected == old(input).room_code_selected,
        final(input).requested_slot == old(input).requested_slot,
        final(input).join_room_code@ == old(input).join_room_code@,
        final(input).create_in_flight == old(input).create_in_flight,
        final(input).join_in_flight == old(input).join_in_flight,
{
    if lobby.session_id.is_none() {
        set_status(lobby, "Create or join a room before confirming class");
        return None;
    }
    if input.class_confirm_in_flight {
        set_status(lobby, "Class confirm already pending");
        return None;
    }
    input.class_confirm_in_flight = true;
    let mut status = String::from_str("Confirming ");
    status.append(class_name(input.selected_class));
    lobby.status = status;
    Some(LobbyCommand::ConfirmClass { class_id: input.selected_class })
}

/// Add a bot at `slot`, once in a room.
pub fn request_add_bot(slot: u8, bot_kind: BotKind, lobby: &mut LobbyViewState) -> (cmd: Option<LobbyCommand>)
    ensures
        only_status_changed(*old(lobby), *final(lobby)),
        old(lobby).session_id is None ==> cmd is None && final(lobby).status@
            == "Create or join a room before adding a bot"@,
        old(lobby).session_id is Some ==> (cmd matches Some(LobbyCommand::AddBot { slot: s, bot_kind: k }) && s == slot
            && k == bot_kind) && final(lobby).status@ == "Adding bot to seat "@ + decimal(slot as nat),
{
    if lobby.session_id.is_none() {
        set_status(lobby, "Create or join a room before adding a bot");
        return None;
    }
    let mut status = String::from_str("Adding bot to seat ");
    push_decimal(&mut status, slot as u32);
    lobby.status = status;
    Some(LobbyCommand::AddBot { slot, bot_kind })
}

/// Remove the bot at `slot`, once in a room.
pub fn request_remove_bot(slot: u8, lobby: &mut LobbyViewState) -> (cmd: Option<LobbyCommand>)
    ensures
        only_status_changed(*old(lobby), *final(lobby)),
        old(lobby).session_id is None ==> cmd is None && final(lobby).status@
            == "Create or join a room before removing a bot"@,
        old(lobby).session_id is Some ==> (cmd matches Some(LobbyCommand::RemoveBot { slot: s }) && s == slot)
            && final(lobby).status@ == "Removing bot from seat "@ + decimal(slot as nat),
{
    if lobby.session_id.is_none() {
        set_status(lobby, "Create or join a room before removing a bot");
        return None;
    }
    let mut status = String::from_str("Removing bot from seat ");
    push_decimal(&mut status, slot as u32);
    lobby.status = status;
    Some(LobbyCommand::RemoveBot { slot })
}

/// Create a room with a bot opponent; only outside any room.
pub fn request_create_bot_room(mode: GameMode, bot_kind: BotKind, lobby: &mut LobbyViewState) -> (cmd: Option<LobbyCommand>)
    ensures
        only_status_changed(*old(lobby), *final(lobby)),
        old(lobby).session_id is Some ==> cmd is None && final(lobby).status@
            == "Already in a room; leave it before creating a soak room"@,
        old(lobby).session_id is None ==> (cmd matches Some(LobbyCommand::CreateBotRoom { mode: m, bot_kind: k })
            && m == mode && k == bot_kind) && final(lobby).status@ == "Creating 2-bot soak room"@,
{
    if lobby.session_id.is_some() {
        set_status(lobby, "Already in a room; leave it before creating a soak room");
        return None;
    }
    set_status(lobby, "Creating 2-bot soak room");
    Some(LobbyCommand::CreateBotRoom { mode, bot_kind })
}

/// A character with the Unicode `White_Space` property, the whitespace
/// that `str::trim` removes.
pub open spec fn is_white_space(c: char) -> bool {
    ||| ('\u{9}' <= c && c <= '\u{d}')
    ||| c == ' '
    ||| c == '\u{85}'
    ||| c == '\u{a0}'
    ||| c == '\u{1680}'
    ||| ('\u{2000}' <= c && c <= '\u{200a}')
    ||| c == '\u{2028}'
    ||| c == '\u{2029}'
    ||| c == '\u{202f}'
    ||| c == '\u{205f}'
    ||| c == '\u{3000}'
}

/// `s` without its leading whitespace.
pub open spec fn trim_start_chars(s: Seq<char>) -> Seq<char>
    decreases s.len(),
{
    if s.len() > 0 && is_white_space(s[0]) {
        trim_start_chars(s.drop_first())
    } else {
        s
    }
}

/// `s` without its trailing whitespace.
pub open spec fn trim_end_chars(s: Seq<char>) -> Seq<char>
    decreases s.len(),
{
    if s.len() > 0 && is_white_space(s.last()) {
        trim_end_chars(s.drop_last())
    } else {
        s
    }
}

/// `s` with leading and trailing whitespace removed.
pub open spec fn trimmed_text(s: Seq<char>) -> Seq<char> {
    trim_end_chars(trim_start_chars(s))
}

/// `str::trim`: the text without its leading and trailing whitespace.
///
/// Trusted: std documents that `trim` removes leading and trailing
/// characters with the Unicode `White_Space` property.
#[verifier::external_body]
fn trim_str(s: &str) -> (r: &str)
    ensures
        r@ == trimmed_text(s@),
{
    s.trim()
}

/// The debug controls are on only for the value `"1"`, surrounding
/// whitespace aside.
pub fn debug_ui_enabled_from(value: Option<&str>) -> (r: bool)
    ensures
        r == (value matches Some(v) && trimmed_text(v@) == seq!['1']),
{
    match value {
        Some(v) => {
            let t = trim_str(v);
            if t.unicode_len() == 1 {
                let c = t.get_char(0);
                proof {
                    if c == '1' {
                        assert(t@ =~= seq!['1']);
                    }
                }
                c == '1'
            } else {
                false
            }
        },
        None => false,
    }
}

/// The handshake answer from the server.
pub fn apply_lobby_handshake(lobby: &mut LobbyViewState, player_id: PlayerId)
    ensures
        *final(lobby) == (LobbyViewState {
            local_player_id: Some(player_id),
            status: final(lobby).status,
            ..*old(lobby)
        }),
        final(lobby).status@ == "Connected as player "@ + decimal(player_id.0 as nat),
{
    lobby.local_player_id = Some(player_id);
    let mut status = String::from_str("Connected as player ");
    push_decimal_u64(&mut status, player_id.0);
    lobby.status = status;
}

/// The room was created.
pub fn apply_room_created(lobby: &mut LobbyViewState, session_id: String, room_code: String, mode: GameMode, slots: Vec<SessionSlot>)
    ensures
        *final(lobby) == (LobbyViewState {
            session_id: Some(session_id),
            room_code: Some(room_code),
            mode,
            slots,
            status: final(lobby).status,
            ..*old(lobby)
        }),
        final(lobby).status@ == "Room "@ + room_code@ + " created"@,
{
    let mut status = String::from_str("Room ");
    status.append(room_code.as_str());
    status.append(" created");
    lobby.status = status;
    lobby.session_id = Some(session_id);
    lobby.room_code = Some(room_code);
    lobby.mode = mode;
    lobby.slots = slots;
}

/// The room was joined.
pub fn apply_join_ack(lobby: &mut LobbyViewState, session_id: String, mode: GameMode, slots: Vec<SessionSlot>)
    ensures
        *final(lobby) == (LobbyViewState {
            session_id: Some(session_id),
            mode,
            slots,
            status: final(lobby).status,
            ..*old(lobby)
        }),
        final(lobby).status@ == "Joined room"@,
{
    lobby.session_id = Some(session_id);
    lobby.mode = mode;
    lobby.slots = slots;
    lobby.status = String::from_str("Joined room");
}

/// The server's list of joinable rooms replaces the one shown.
pub fn apply_room_list(lobby: &mut LobbyViewState, rooms: Vec<RoomListEntry>)
    ensures
        *final(lobby) == (LobbyViewState { room_list: rooms, ..*old(lobby) }),
{
    lobby.room_list = rooms;
}

/// The seats changed.
pub fn apply_slot_update(lobby: &mut LobbyViewState, slots: Vec<SessionSlot>)
    ensures
        *final(lobby) == (LobbyViewState { slots, status: final(lobby).status, ..*old(lobby) }),
        final(lobby).status@ == "Lobby slots updated"@,
{
    lobby.slots = slots;
    lobby.status = String::from_str("Lobby slots updated");
}

/// The local class is locked.
pub fn apply_class_locked(lobby: &mut LobbyViewState, class_id: ClassId)
    ensures
        *final(lobby) == (LobbyViewState {
            locked_class: Some(class_id),
            status: final(lobby).status,
            ..*old(lobby)
        }),
        final(lobby).status@ == "Class locked: "@ + spec_class_name(class_id),
{
    lobby.locked_class = Some(class_id);
    let mut status = String::from_str("Class locked: ");
    status.append(class_name(class_id));
    lobby.status = status;
}

/// Every player's class is revealed.
pub fn apply_classes_revealed(lobby: &mut LobbyViewState, player_class_map: Vec<(PlayerId, ClassId)>)
    ensures
        *final(lobby) == (LobbyViewState {
            revealed_classes: player_class_map,
            status: final(lobby).status,
            ..*old(lobby)
        }),
        final(lobby).status@ == "All classes confirmed"@,
{
    lobby.revealed_classes = player_class_map;
    lobby.status = String::from_str("All classes confirmed");
}

/// The class locks already applied, so that a repeated lock is applied once.
pub struct ClassLockedSeen {
    pub keys: Vec<ClassId>,
}

impl ClassLockedSeen {
    pub fn new() -> (s: Self)
        ensures
            s.keys@.len() == 0,
    {
        ClassLockedSeen { keys: Vec::new() }
    }

    /// Record `key`; returns whether it was new.
    pub fn check_and_insert(&mut self, key: ClassId) -> (fresh: bool)
        ensures
            fresh == !old(self).keys@.contains(key),
            final(self).keys@ == (if fresh {
                old(self).keys@.push(key)
            } else {
                old(self).keys@
            }),
    {
        let mut i: usize = 0;
        while i < self.keys.len()
            invariant
                0 <= i <= self.keys@.len(),
                self.keys@ == old(self).keys@,
                forall|j: int| 0 <= j < i ==> self.keys@[j] != key,
            decreases self.keys@.len() - i,
        {
            if self.keys[i] == key {
                return false;
            }
            i = i + 1;
        }
        self.keys.push(key);
        true
    }
}

/// A class lock from the server, applied once: a repeat changes nothing.
/// The first one locks the class and ends the pending confirm.
pub fn apply_class_locked_drain(
    seen: &mut ClassLockedSeen,
    lobby: &mut LobbyViewState,
    input: &mut LobbyInputState,
    class_id: ClassId,
)
    ensures
        final(seen).keys@ == (if old(seen).keys@.contains(class_id) {
            old(seen).keys@
        } else {
            old(seen).keys@.push(class_id)
        }),
        old(seen).keys@.contains(class_id) ==> *final(lobby) == *old(lobby) && *final(input) == *old(input),
        !old(seen).keys@.contains(class_id) ==> {
            &&& *final(lobby) == (LobbyViewState {
                locked_class: Some(class_id),
                status: final(lobby).status,
                ..*old(lobby)
            })
            &&& final(lobby).status@ == "Class locked: "@ + spec_class_name(class_id)
            &&& *final(input) == (LobbyInputState { class_confirm_in_flight: false, ..*old(input) })
        },
{
    if !seen.check_and_insert(class_id) {
        return;
    }
    apply_class_locked(lobby, class_id);
    input.class_confirm_in_flight = false;
}

/// A message from the server to the lobby, with each refusal's reason as
/// its printed name.
pub enum LobbyServerMessage {
    Handshake { player_id: PlayerId },
    HandshakeRejected { server_version: u32, client_version: u32 },
    RoomCreated { session_id: String, room_code: String, mode: GameMode, slots: Vec<SessionSlot> },
    CreateRoomRejected { reason: String },
    JoinAck { session_id: String, mode: GameMode, slots: Vec<SessionSlot> },
    JoinRejected { reason: String },
    SlotUpdated { slots: Vec<SessionSlot> },
    ClassLocked { class_id: ClassId },
    ClassesRevealed { player_class_map: Vec<(PlayerId, ClassId)> },
    ConfirmClassRejected { reason: String },
    RoomList { rooms: Vec<RoomListEntry> },
    BotActionRejected { reason: String },
}

/// Set the status line to `prefix` followed by `reason`.
fn set_status_with(lobby: &mut LobbyViewState, prefix: &str, reason: &str)
    ensures
        final(lobby).status@ == prefix@ + reason@,
        only_status_changed(*old(lobby), *final(lobby)),
{
    let mut status = String::from_str(prefix);
    status.append(reason);
    lobby.status = status;
}

/// Apply one server message to the lobby. A refusal shows its reason and
/// ends the pending request it answers; a created or joined room ends the
/// pending create or join. Returns whether the seats were replaced (the
/// team map then follows them).
#[verifier::rlimit(60)]
pub fn apply_lobby_message(
    seen: &mut ClassLockedSeen,
    lobby: &mut LobbyViewState,
    input: &mut LobbyInputState,
    msg: LobbyServerMessage,
) -> (seats_changed: bool)
    ensures
        seats_changed == (msg is RoomCreated || msg is JoinAck || msg is SlotUpdated),
        !(msg is ClassLocked) ==> final(seen).keys@ == old(seen).keys@,
        match msg {
            LobbyServerMessage::Handshake { player_id } => {
                &&& *final(lobby) == (LobbyViewState {
                    local_player_id: Some(player_id),
                    status: final(lobby).status,
                    ..*old(lobby)
                })
                &&& final(lobby).status@ == "Connected as player "@ + decimal(player_id.0 as nat)
                &&& *final(input) == *old(input)
            },
            LobbyServerMessage::HandshakeRejected { server_version, client_version } => {
                &&& only_status_changed(*old(lobby), *final(lobby))
                &&& final(lobby).status@ == "Handshake rejected: server "@ + decimal(server_version as nat)
                    + " client "@ + decimal(client_version as nat)
                &&& *final(input) == *old(input)
            },
            LobbyServerMessage::RoomCreated { session_id, room_code, mode, slots } => {
                &&& *final(lobby) == (LobbyViewState {
                    session_id: Some(session_id),
                    room_code: Some(room_code),
                    mode,
                    slots,
                    status: final(lobby).status,
                    ..*old(lobby)
                })
                &&& final(lobby).status@ == "Room "@ + room_code@ + " created"@
                &&& *final(input) == (LobbyInputState { create_in_flight: false, ..*old(input) })
            },
            LobbyServerMessage::CreateRoomRejected { reason } => {
                &&& only_status_changed(*old(lobby), *final(lobby))
                &&& final(lobby).status@ == "Create rejected: "@ + reason@
                &&& *final(input) == (LobbyInputState { create_in_flight: false, ..*old(input) })
            },
            LobbyServerMessage::JoinAck { session_id, mode, slots } => {
                &&& *final(lobby) == (LobbyViewState {
                    session_id: Some(session_id),
                    mode,
                    slots,
                    status: final(lobby).status,
                    ..*old(lobby)
                })
                &&& final(lobby).status@ == "Joined room"@
                &&& *final(input) == (LobbyInputState { join_in_flight: false, ..*old(input) })
            },
            LobbyServerMessage::JoinRejected { reason } => {
                &&& only_status_changed(*old(lobby), *final(lobby))
                &&& final(lobby).status@ == "Join rejected: "@ + reason@
                &&& *final(input) == (LobbyInputState { join_in_flight: false, ..*old(input) })
            },
            LobbyServerMessage::SlotUpdated { slots } => {
                &&& *final(lobby) == (LobbyViewState { slots, status: final(lobby).status, ..*old(lobby) })
                &&& final(lobby).status@ == "Lobby slots updated"@
                &&& *final(input) == *old(input)
            },
            LobbyServerMessage::ClassLocked { class_id } => {
                &&& final(seen).keys@ == (if old(seen).keys@.contains(class_id) {
                    old(seen).keys@
                } else {
                    old(seen).keys@.push(class_id)
                })
                &&& old(seen).keys@.contains(class_id) ==> *final(lobby) == *old(lobby) && *final(input)
                    == *old(input)
                &&& !old(seen).keys@.contains(class_id) ==> {
                    &&& *final(lobby) == (LobbyViewState {
                        locked_class: Some(class_id),
                        status: final(lobby).status,
                        ..*old(lobby)
                    })
                    &&& final(lobby).status@ == "Class locked: "@ + spec_class_name(class_id)
                    &&& *final(input) == (LobbyInputState { class_confirm_in_flight: false, ..*old(input) })
                }
            },
            LobbyServerMessage::ClassesRevealed { player_class_map } => {
                &&& *final(lobby) == (LobbyViewState {
                    revealed_classes: player_class_map,
                    status: final(lobby).status,
                    ..*old(lobby)
                })
                &&& final(lobby).status@ == "All classes confirmed"@
                &&& *final(input) == *old(input)
            },
            LobbyServerMessage::ConfirmClassRejected { reason } => {
                &&& only_status_changed(*old(lobby), *final(lobby))
                &&& final(lobby).status@ == "Class confirm rejected: "@ + reason@
                &&& *final(input) == (LobbyInputState { class_confirm_in_flight: false, ..*old(input) })
            },
            LobbyServerMessage::RoomList { rooms } => {
                &&& *final(lobby) == (LobbyViewState { room_list: rooms, ..*old(lobby) })
                &&& *final(input) == *old(input)
            },
            LobbyServerMessage::BotActionRejected { reason } => {
                &&& only_status_changed(*old(lobby), *final(lobby))
                &&& final(lobby).status@ == "Bot action rejected: "@ + reason@
                &&& *final(input) == *old(input)
            },
        },
{
    match msg {
        LobbyServerMessage::Handshake { player_id } => {
            apply_lobby_handshake(lobby, player_id);
            false
        },
        LobbyServerMessage::HandshakeRejected { server_version, client_version } => {
            let mut status = String::from_str("Handshake rejected: server ");
            push_decimal_u64(&mut status, server_version as u64);
            status.append(" client ");
            push_decimal_u64(&mut status, client_version as u64);
            lobby.status = status;
            false
        },
        LobbyServerMessage::RoomCreated { session_id, room_code, mode, slots } => {
            apply_room_created(lobby, session_id, room_code, mode, slots);
            input.create_in_flight = false;
            true
        },
        LobbyServerMessage::CreateRoomRejected { reason } => {
            set_status_with(lobby, "Create rejected: ", reason.as_str());
            input.create_in_flight = false;
            false
        },
        LobbyServerMessage::JoinAck { session_id, mode, slots } => {
            apply_join_ack(lobby, session_id, mode, slots);
            input.join_in_flight = false;
            true
        },
        LobbyServerMessage::JoinRejected { reason } => {
            set_status_with(lobby, "Join rejected: ", reason.as_str());
            input.join_in_flight = false;
            false
        },
        LobbyServerMessage::SlotUpdated { slots } => {
            apply_slot_update(lobby, slots);
            true
        },
        LobbyServerMessage::ClassLocked { class_id } => {
            apply_class_locked_drain(seen, lobby, input, class_id);
            false
        },
        LobbyServerMessage::ClassesRevealed { player_class_map } => {
            apply_classes_revealed(lobby, player_class_map);
            false
        },
        LobbyServerMessage::ConfirmClassRejected { reason } => {
            set_status_with(lobby, "Class confirm rejected: ", reason.as_str());
            input.class_confirm_in_flight = false;
            false
        },
        LobbyServerMessage::RoomList { rooms } => {
            apply_room_list(lobby, rooms);
            false
        },
        LobbyServerMessage::BotActionRejected { reason } => {
            set_status_with(lobby, "Bot action rejected: ", reason.as_str());
            false
        },
    }
}

/// Decimal text of a 64-bit number.
pub fn push_decimal_u64(s: &mut String, n: u64)
    ensures
        final(s)@ == old(s)@ + decimal(n as nat),
    decreases n,
{
    if n >= 10 {
        push_decimal_u64(s, n / 10);
    }
    push_decimal(s, (n % 10) as u32);
    proof {
        if n >= 10 {
            assert(old(s)@ + decimal((n / 10) as nat) + decimal((n % 10) as nat) =~= old(s)@ + decimal(n as nat));
        } else {
            assert(old(s)@ + decimal((n % 10) as nat) =~= old(s)@ + decimal(n as nat));
        }
    }
}


/// Number of seats taken by a player.
pub open spec fn joined_count(slots: Seq<SessionSlot>) -> nat
    decreases slots.len(),
{
    if slots.len() == 0 {
        0
    } else {
        joined_count(slots.drop_last()) + if slots.last().player_id is Some {
            1nat
        } else {
            0nat
        }
    }
}

proof fn lemma_joined_count_bound(slots: Seq<SessionSlot>)
    ensures
        joined_count(slots) <= slots.len(),
    decreases slots.len(),
{
    if slots.len() > 0 {
        lemma_joined_count_bound(slots.drop_last());
    }
}

fn count_joined(slots: &Vec<SessionSlot>) -> (n: usize)
    ensures
        n == joined_count(slots@),
{
    let mut n: usize = 0;
    let mut i: usize = 0;
    while i < slots.len()
        invariant
            0 <= i <= slots@.len(),
            n == joined_count(slots@.take(i as int)),
            n <= i,
        decreases slots@.len() - i,
    {
        proof {
            assert(slots@.take(i + 1).drop_last() =~= slots@.take(i as int));
        }
        if slots[i].player_id.is_some() {
            n = n + 1;
        }
        i = i + 1;
    }
    proof {
        assert(slots@.take(slots@.len() as int) =~= slots@);
    }
    n
}

/// The lobby's two-line status banner.
pub open spec fn spec_status_copy(lobby: LobbyViewState, input: LobbyInputState) -> Seq<char> {
    let room = match lobby.room_code {
        Some(r) => r@,
        None => "----"@,
    };
    let total = if lobby.slots@.len() > 1 {
        lobby.slots@.len()
    } else {
        1
    };
    let locked = match lobby.locked_class {
        Some(c) => spec_class_name(c),
        None => "not confirmed"@,
    };
    let slot_segment = if input.join_room_code@.len() == 0 {
        "Slot "@ + decimal(input.requested_slot as nat)
    } else {
        "Joining "@ + input.join_room_code@ + " · Slot "@ + decimal(input.requested_slot as nat)
    };
    lobby.status@ + "  ·  Room: "@ + room + "  ·  Players: "@ + decimal(joined_count(lobby.slots@)) + "/"@ + decimal(
        total as nat,
    ) + "\n"@ + slot_segment + "  ·  Class: "@ + spec_class_name(input.selected_class) + "  ·  "@ + locked
}

fn status_first_line(lobby: &LobbyViewState) -> (s: String)
    ensures
        s@ == lobby.status@ + "  ·  Room: "@ + (match lobby.room_code {
            Some(r) => r@,
            None => "----"@,
        }) + "  ·  Players: "@ + decimal(joined_count(lobby.slots@)) + "/"@ + decimal(
            (if lobby.slots@.len() > 1 {
                lobby.slots@.len()
            } else {
                1
            }) as nat,
        ),
{
    let joined = count_joined(&lobby.slots);
    let total: usize = if lobby.slots.len() > 1 {
        lobby.slots.len()
    } else {
        1
    };
    let mut s = lobby.status.clone();
    s.append("  ·  Room: ");
    match &lobby.room_code {
        Some(r) => s.append(r.as_str()),
        None => s.append("----"),
    }
    let ghost a = s@;
    s.append("  ·  Players: ");
    push_decimal_u64(&mut s, joined as u64);
    let ghost b = s@;
    s.append("/");
    push_decimal_u64(&mut s, total as u64);
    proof {
        assert(b =~= a + "  ·  Players: "@ + decimal(joined_count(lobby.slots@)));
        assert(s@ =~= b + "/"@ + decimal(total as nat));
    }
    s
}

fn status_second_line(lobby: &LobbyViewState, input: &LobbyInputState) -> (s: String)
    ensures
        s@ == (if input.join_room_code@.len() == 0 {
            "Slot "@ + decimal(input.requested_slot as nat)
        } else {
            "Joining "@ + input.join_room_code@ + " · Slot "@ + decimal(input.requested_slot as nat)
        }) + "  ·  Class: "@ + spec_class_name(input.selected_class) + "  ·  "@ + (match lobby.locked_class {
            Some(c) => spec_class_name(c),
            None => "not confirmed"@,
        }),
{
    let mut s = String::new();
    if is_empty_text(&input.join_room_code) {
        s.append("Slot ");
        push_decimal(&mut s, input.requested_slot as u32);
    } else {
        s.append("Joining ");
        s.append(input.join_room_code.as_str());
        s.append(" · Slot ");
        push_decimal(&mut s, input.requested_slot as u32);
    }
    let ghost seg = s@;
    s.append("  ·  Class: ");
    s.append(class_name(input.selected_class));
    s.append("  ·  ");
    let ghost mid = s@;
    match lobby.locked_class {
        Some(c) => s.append(class_name(c)),
        None => s.append("not confirmed"),
    }
    proof {
        assert(mid =~= seg + "  ·  Class: "@ + spec_class_name(input.selected_class) + "  ·  "@);
    }
    s
}

pub fn lobby_status_copy(lobby: &LobbyViewState, input: &LobbyInputState) -> (s: String)
    ensures
        s@ == spec_status_copy(*lobby, *input),
{
    let mut s = status_first_line(lobby);
    let second = status_second_line(lobby, input);
    s.append("\n");
    s.append(second.as_str());
    s
}

/// The seat of the local player, if it holds one.
pub open spec fn local_seat(slots: Seq<SessionSlot>, local: Option<PlayerId>) -> Option<u8> {
    match local {
        Some(p) => if exists|i: int| 0 <= i < slots.len() && slots[i].player_id == Some(p) {
            Some(
                slots[choose|i: int|
                    0 <= i < slots.len() && slots[i].player_id == Some(p) && forall|j: int|
                        0 <= j < i ==> slots[j].player_id != Some(p)].slot,
            )
        } else {
            None
        },
        None => None,
    }
}

fn find_local_seat(slots: &Vec<SessionSlot>, local: Option<PlayerId>) -> (r: Option<u8>)
    ensures
        r == local_seat(slots@, local),
{
    let p = match local {
        Some(p) => p,
        None => {
            return None;
        },
    };
    let mut i: usize = 0;
    while i < slots.len()
        invariant
            0 <= i <= slots@.len(),
            local == Some(p),
            forall|j: int| 0 <= j < i ==> slots@[j].player_id != Some(p),
        decreases slots@.len() - i,
    {
        let here = match slots[i].player_id {
            Some(q) => q.0 == p.0,
            None => false,
        };
        if here {
            proof {
                assert(slots@[i as int].player_id == Some(p));
                let k = choose|k: int|
                    0 <= k < slots@.len() && slots@[k].player_id == Some(p) && forall|j: int|
                        0 <= j < k ==> slots@[j].player_id != Some(p);
                if k < i {
                } else if k > i {
                    assert(slots@[i as int].player_id != Some(p));
                }
            }
            return Some(slots[i].slot);
        }
        i = i + 1;
    }
    None
}

/// The label on the local player's seat, "You · {class}{*} · slot N": the
/// class, starred once confirmed, and the seat number (the server's once
/// known, else the requested one).
pub open spec fn spec_own_slot_label(lobby: LobbyViewState, input: LobbyInputState) -> Seq<char> {
    let seat = match local_seat(lobby.slots@, lobby.local_player_id) {
        Some(s) => s,
        None => input.requested_slot,
    };
    "You · "@ + spec_class_name(input.selected_class) + (if lobby.locked_class is Some {
        "*"@
    } else {
        Seq::empty()
    }) + " · slot "@ + decimal(seat as nat)
}

pub fn lobby_own_slot_label_text(lobby: &LobbyViewState, input: &LobbyInputState) -> (s: String)
    ensures
        s@ == spec_own_slot_label(*lobby, *input),
{
    let seat = match find_local_seat(&lobby.slots, lobby.local_player_id) {
        Some(s) => s,
        None => input.requested_slot,
    };
    let mut s = String::from_str("You · ");
    s.append(class_name(input.selected_class));
    let ghost before_marker = s@;
    if lobby.locked_class.is_some() {
        s.append("*");
    }
    let ghost after_marker = s@;
    s.append(" · slot ");
    push_decimal(&mut s, seat as u32);
    proof {
        let marker = if lobby.locked_class is Some {
            "*"@
        } else {
            Seq::<char>::empty()
        };
        assert(after_marker =~= before_marker + marker);
    }
    s
}

/// The first revealed class that is not the local player's.
pub open spec fn opponent_class(revealed: Seq<(PlayerId, ClassId)>, local: Option<PlayerId>) -> Option<ClassId>
    decreases revealed.len(),
{
    if revealed.len() == 0 {
        None
    } else if Some(revealed[0].0) != local {
        Some(revealed[0].1)
    } else {
        opponent_class(revealed.drop_first(), local)
    }
}

pub fn lobby_opponent_slot_label_text(lobby: &LobbyViewState) -> (s: String)
    ensures
        s@ == (match opponent_class(lobby.revealed_classes@, lobby.local_player_id) {
            Some(c) => "Opp · "@ + spec_class_name(c),
            None => "Opp · waiting"@,
        }),
{
    let ghost rv = lobby.revealed_classes@;
    let ghost local = lobby.local_player_id;
    proof {
        assert(rv.skip(0) =~= rv);
    }
    let mut i: usize = 0;
    while i < lobby.revealed_classes.len()
        invariant
            rv == lobby.revealed_classes@,
            local == lobby.local_player_id,
            0 <= i <= rv.len(),
            opponent_class(rv, local) == opponent_class(rv.skip(i as int), local),
        decreases rv.len() - i,
    {
        let (player, class) = lobby.revealed_classes[i];
        let is_local = match lobby.local_player_id {
            Some(l) => l.0 == player.0,
            None => false,
        };
        proof {
            assert(rv.skip(i as int)[0] == rv[i as int]);
            assert(rv.skip(i as int).drop_first() =~= rv.skip(i + 1));
        }
        if !is_local {
            let mut s = String::from_str("Opp · ");
            s.append(class_name(class));
            return s;
        }
        i = i + 1;
    }
    proof {
        assert(rv.skip(i as int).len() == 0);
    }
    String::from_str("Opp · waiting")
}

/// The identity panel under the class picker.
pub open spec fn spec_identity_text(lobby: LobbyViewState, input: LobbyInputState) -> Seq<char> {
    match lobby.locked_class {
        Some(c) => "Confirmed: "@ + spec_class_name(c) + "\nWaiting for opponent"@,
        None => if lobby.session_id is None {
            "Selected: "@ + spec_class_name(input.selected_class) + "\nCreate or join a room, then confirm"@
        } else {
            "Selected: "@ + spec_class_name(input.selected_class) + "\nConfirm this class to continue"@
        },
    }
}

pub fn lobby_selected_class_identity_text(lobby: &LobbyViewState, input: &LobbyInputState) -> (s: String)
    ensures
        s@ == spec_identity_text(*lobby, *input),
{
    match lobby.locked_class {
        Some(c) => {
            let mut s = String::from_str("Confirmed: ");
            s.append(class_name(c));
            s.append("\nWaiting for opponent");
            s
        },
        None => {
            let mut s = String::from_str("Selected: ");
            s.append(class_name(input.selected_class));
            if lobby.session_id.is_none() {
                s.append("\nCreate or join a room, then confirm");
            } else {
                s.append("\nConfirm this class to continue");
            }
            s
        },
    }
}

/// The confirm button's copy once no confirmation is in flight.
pub fn lobby_confirm_button_text(lobby: &LobbyViewState) -> (s: &'static str)
    ensures
        s@ == (if lobby.locked_class is None {
            "Confirm your class to continue"@
        } else if lobby.revealed_classes@.len() == 0 {
            "Waiting for opponent..."@
        } else {
            "All players confirmed"@
        }),
{
    if lobby.locked_class.is_none() {
        "Confirm your class to continue"
    } else if lobby.revealed_classes.len() == 0 {
        "Waiting for opponent..."
    } else {
        "All players confirmed"
    }
}

/// The label of a room-list row, "CODE · OneVOne · filled/max": the code
/// first, as the player types it to join.
pub open spec fn spec_room_row_label(e: RoomListEntry) -> Seq<char> {
    e.room_code@ + " · OneVOne · "@ + decimal(e.slots_filled as nat) + "/"@ + decimal(e.slots_max as nat)
}

pub fn format_room_list_row_label(entry: &RoomListEntry) -> (s: String)
    ensures
        s@ == spec_room_row_label(*entry),
{
    let mut s = String::new();
    s.append(entry.room_code.as_str());
    s.append(" · OneVOne · ");
    push_decimal(&mut s, entry.slots_filled as u32);
    s.append("/");
    push_decimal(&mut s, entry.slots_max as u32);
    s
}

/// A bot control offered next to a seat.
#[derive(Clone, Copy, Debug, PartialEq, Eq, Structural)]
pub enum LobbyBotSlotControl {
    AddBot { slot: u8 },
    RemoveBot { slot: u8 },
}

pub open spec fn control_slot(c: LobbyBotSlotControl) -> u8 {
    match c {
        LobbyBotSlotControl::AddBot { slot } => slot,
        LobbyBotSlotControl::RemoveBot { slot } => slot,
    }
}

fn control_key(c: LobbyBotSlotControl) -> (r: u8)
    ensures
        r == control_slot(c),
{
    match c {
        LobbyBotSlotControl::AddBot { slot } => slot,
        LobbyBotSlotControl::RemoveBot { slot } => slot,
    }
}

/// The control for one seat: none on the local player's seat or a human's;
/// remove on a bot's seat; add on an empty one.
pub open spec fn seat_control(s: SessionSlot, local: Option<PlayerId>) -> Option<LobbyBotSlotControl> {
    if local is Some && s.player_id == local {
        None
    } else if s.is_bot {
        Some(LobbyBotSlotControl::RemoveBot { slot: s.slot })
    } else if s.player_id is None {
        Some(LobbyBotSlotControl::AddBot { slot: s.slot })
    } else {
        None
    }
}

/// The seat controls in seat order, before sorting.
pub open spec fn seat_controls(slots: Seq<SessionSlot>, local: Option<PlayerId>) -> Seq<LobbyBotSlotControl>
    decreases slots.len(),
{
    if slots.len() == 0 {
        Seq::empty()
    } else {
        let r = seat_controls(slots.drop_last(), local);
        match seat_control(slots.last(), local) {
            Some(c) => r.push(c),
            None => r,
        }
    }
}

/// `r` is `controls` stably sorted by seat number.
pub open spec fn sorted_by_seat(controls: Seq<LobbyBotSlotControl>, r: Seq<LobbyBotSlotControl>) -> bool {
    exists|pos: Seq<int>|
        {
            &&& pos.len() == controls.len()
            &&& r.len() == controls.len()
            &&& forall|k: int| 0 <= k < pos.len() ==> 0 <= #[trigger] pos[k] < controls.len()
            &&& forall|k: int, l: int| 0 <= k < l < pos.len() ==> pos[k] != pos[l]
            &&& forall|k: int| 0 <= k < pos.len() ==> #[trigger] r[k] == controls[pos[k]]
            &&& forall|k: int, l: int|
                0 <= k < l < pos.len() ==> control_slot(#[trigger] r[k]) < control_slot(#[trigger] r[l]) || (
                control_slot(r[k]) == control_slot(r[l]) && pos[k] < pos[l])
        }
}

/// The bot controls for the seats, in seat order.
pub fn lobby_bot_controls_for_slots(slots: &Vec<SessionSlot>, local_player_id: Option<PlayerId>) -> (r: Vec<LobbyBotSlotControl>)
    ensures
        sorted_by_seat(seat_controls(slots@, local_player_id), r@),
{
    let ghost controls0 = seat_controls(slots@, local_player_id);
    let mut controls: Vec<LobbyBotSlotControl> = Vec::new();
    let mut i: usize = 0;
    while i < slots.len()
        invariant
            0 <= i <= slots@.len(),
            controls@ == seat_controls(slots@.take(i as int), local_player_id),
        decreases slots@.len() - i,
    {
        proof {
            assert(slots@.take(i + 1).drop_last() =~= slots@.take(i as int));
        }
        let s = slots[i];
        let own = match (local_player_id, s.player_id) {
            (Some(l), Some(p)) => l.0 == p.0,
            _ => false,
        };
        if !own {
            if s.is_bot {
                controls.push(LobbyBotSlotControl::RemoveBot { slot: s.slot });
            } else if s.player_id.is_none() {
                controls.push(LobbyBotSlotControl::AddBot { slot: s.slot });
            }
        }
        i = i + 1;
    }
    proof {
        assert(slots@.take(slots@.len() as int) =~= slots@);
    }
    let n = controls.len();
    let mut sorted: Vec<LobbyBotSlotControl> = Vec::new();
    let ghost mut pos: Seq<int> = Seq::empty();
    let mut k: usize = 0;
    while k < n
        invariant
            n == controls@.len(),
            controls@ == controls0,
            0 <= k <= n,
            sorted@.len() == k,
            pos.len() == k,
            forall|a: int| 0 <= a < k ==> 0 <= #[trigger] pos[a] < k,
            forall|a: int, b: int| 0 <= a < b < k ==> pos[a] != pos[b],
            forall|a: int| 0 <= a < k ==> #[trigger] sorted@[a] == controls@[pos[a]],
            forall|a: int, b: int|
                0 <= a < b < k ==> control_slot(#[trigger] sorted@[a]) < control_slot(#[trigger] sorted@[b]) || (
                control_slot(sorted@[a]) == control_slot(sorted@[b]) && pos[a] < pos[b]),
        decreases n - k,
    {
        let c = controls[k];
        let key = control_key(c);
        let mut j: usize = 0;
        while j < k && control_key(sorted[j]) <= key
            invariant
                0 <= j <= k,
                sorted@.len() == k,
                key == control_slot(c),
                forall|a: int| 0 <= a < j ==> control_slot(#[trigger] sorted@[a]) <= key,
            decreases k - j,
        {
            j = j + 1;
        }
        proof {
            if j < k {
                assert(control_slot(sorted@[j as int]) > key);
                assert forall|a: int| j <= a < k implies control_slot(#[trigger] sorted@[a]) > key by {
                    if a > j {
                        assert(control_slot(sorted@[j as int]) < control_slot(sorted@[a]) || control_slot(sorted@[j as int])
                            == control_slot(sorted@[a]));
                    }
                }
            }
        }
        let ghost before = sorted@;
        let ghost pos_before = pos;
        sorted.insert(j, c);
        proof {
            pos = pos_before.insert(j as int, k as int);
            assert(sorted@ == before.insert(j as int, c));
            assert forall|a: int| 0 <= a < k + 1 implies 0 <= #[trigger] pos[a] < k + 1 by {
                if a < j {
                    assert(pos[a] == pos_before[a]);
                } else if a > j {
                    assert(pos[a] == pos_before[a - 1]);
                }
            }
            assert forall|a: int, b: int| 0 <= a < b < k + 1 implies pos[a] != pos[b] by {
                if a < j && b < j {
                } else if a < j && b == j {
                    assert(pos_before[a] < k);
                } else if a < j && b > j {
                    assert(pos[b] == pos_before[b - 1]);
                } else if a == j {
                    assert(pos[b] == pos_before[b - 1]);
                    assert(pos_before[b - 1] < k);
                } else {
                    assert(pos[a] == pos_before[a - 1]);
                    assert(pos[b] == pos_before[b - 1]);
                }
            }
            assert forall|a: int| 0 <= a < k + 1 implies #[trigger] sorted@[a] == controls@[pos[a]] by {
                if a < j {
                    assert(sorted@[a] == before[a]);
                } else if a > j {
                    assert(sorted@[a] == before[a - 1]);
                }
            }
            assert forall|a: int, b: int|
                0 <= a < b < k + 1 implies control_slot(#[trigger] sorted@[a]) < control_slot(#[trigger] sorted@[b]) || (
                control_slot(sorted@[a]) == control_slot(sorted@[b]) && pos[a] < pos[b]) by {
                if a < j && b < j {
                    assert(sorted@[a] == before[a]);
                    assert(sorted@[b] == before[b]);
                } else if a < j && b == j {
                    assert(sorted@[a] == before[a]);
                    assert(pos_before[a] < k);
                } else if a < j && b > j {
                    assert(sorted@[a] == before[a]);
                    assert(sorted@[b] == before[b - 1]);
                    assert(control_slot(before[a]) <= key);
                    assert(control_slot(before[b - 1]) > key);
                } else if a == j {
                    assert(sorted@[b] == before[b - 1]);
                    assert(control_slot(before[b - 1]) > key);
                } else {
                    assert(sorted@[a] == before[a - 1]);
                    assert(sorted@[b] == before[b - 1]);
                }
            }
        }
        k = k + 1;
    }
    proof {
        assert(sorted_by_seat(controls0, sorted@)) by {
            assert(pos.len() == controls0.len());
        }
    }
    sorted
}

/// How the confirm button is drawn.
#[derive(Clone, Copy, Debug, PartialEq, Eq, Structural)]
pub enum LobbyConfirmButtonStyleState {
    Disabled,
    Enabled,
    Hovered,
    Pressed,
    InFlight,
    Waiting,
    Confirmed,
}

/// Pointer state over a button.
#[derive(Clone, Copy, Debug, PartialEq, Eq, Structural)]
pub enum PointerInteraction {
    Pressed,
    Hovered,
    Idle,
}

/// The confirm button's look: revealed classes, then a locked class, then a
/// confirmation in flight, then no room, then the pointer.
pub fn lobby_confirm_button_style_state(lobby: &LobbyViewState, input: &LobbyInputState, interaction: PointerInteraction) -> (r: LobbyConfirmButtonStyleState)
    ensures
        r == (if lobby.revealed_classes@.len() > 0 {
            LobbyConfirmButtonStyleState::Confirmed
        } else if lobby.locked_class is Some {
            LobbyConfirmButtonStyleState::Waiting
        } else if input.class_confirm_in_flight {
            LobbyConfirmButtonStyleState::InFlight
        } else if lobby.session_id is None {
            LobbyConfirmButtonStyleState::Disabled
        } else {
            match interaction {
                PointerInteraction::Pressed => LobbyConfirmButtonStyleState::Pressed,
                PointerInteraction::Hovered => LobbyConfirmButtonStyleState::Hovered,
                PointerInteraction::Idle => LobbyConfirmButtonStyleState::Enabled,
            }
        }),
{
    if lobby.revealed_classes.len() > 0 {
        return LobbyConfirmButtonStyleState::Confirmed;
    }
    if lobby.locked_class.is_some() {
        return LobbyConfirmButtonStyleState::Waiting;
    }
    if input.class_confirm_in_flight {
        return LobbyConfirmButtonStyleState::InFlight;
    }
    if lobby.session_id.is_none() {
        return LobbyConfirmButtonStyleState::Disabled;
    }
    match interaction {
        PointerInteraction::Pressed => LobbyConfirmButtonStyleState::Pressed,
        PointerInteraction::Hovered => LobbyConfirmButtonStyleState::Hovered,
        PointerInteraction::Idle => LobbyConfirmButtonStyleState::Enabled,
    }
}

/// How a class-picker cell is drawn.
#[derive(Clone, Copy, Debug, PartialEq, Eq, Structural)]
pub enum LobbyClassPickerCellStyle {
    Locked,
    Selected,
    Selectable,
    Unavailable,
}

pub fn lobby_class_picker_cell_style(class_id: ClassId, selected_class: ClassId, selectable: bool, locked_class: Option<ClassId>) -> (r: LobbyClassPickerCellStyle)
    ensures
        r == (if selectable && locked_class == Some(class_id) {
            LobbyClassPickerCellStyle::Locked
        } else if selectable && class_id == selected_class {
            LobbyClassPickerCellStyle::Selected
        } else if selectable {
            LobbyClassPickerCellStyle::Selectable
        } else {
            LobbyClassPickerCellStyle::Unavailable
        }),
{
    let locked = match locked_class {
        Some(c) => c == class_id,
        None => false,
    };
    if selectable && locked {
        LobbyClassPickerCellStyle::Locked
    } else if selectable && class_id == selected_class {
        LobbyClassPickerCellStyle::Selected
    } else if selectable {
        LobbyClassPickerCellStyle::Selectable
    } else {
        LobbyClassPickerCellStyle::Unavailable
    }
}

/// The classes a player may pick, in picker order.
pub fn lobby_class_options() -> (r: [ClassId; 6])
    ensures
        r@ == seq![ClassId::Iop, ClassId::Cra, ClassId::Sacrier, ClassId::Xelor, ClassId::Ecaflip, ClassId::Sadida],
{
    [ClassId::Iop, ClassId::Cra, ClassId::Sacrier, ClassId::Xelor, ClassId::Ecaflip, ClassId::Sadida]
}

/// Every class, the neutral one last.
pub fn lobby_all_class_ids() -> (r: [ClassId; 7])
    ensures
        r@ == seq![
            ClassId::Iop,
            ClassId::Cra,
            ClassId::Sacrier,
            ClassId::Xelor,
            ClassId::Ecaflip,
            ClassId::Sadida,
            ClassId::Neutral,
        ],
{
    [ClassId::Iop, ClassId::Cra, ClassId::Sacrier, ClassId::Xelor, ClassId::Ecaflip, ClassId::Sadida, ClassId::Neutral]
}


/// The room code, selection flag and whether anything was added, after
/// typing `chars` (characters that are not letters or digits are skipped).
pub open spec fn typed_code(code: Seq<char>, selected: bool, chars: Seq<char>) -> (Seq<char>, bool, bool)
    decreases chars.len(),
{
    if chars.len() == 0 {
        (code, selected, false)
    } else {
        let prev = typed_code(code, selected, chars.drop_last());
        let c = chars.last();
        if !spec_is_alnum(c) {
            prev
        } else {
            let base = if prev.1 {
                Seq::<char>::empty()
            } else {
                prev.0
            };
            if base.len() < ROOM_CODE_MAX {
                (base.push(spec_upper(c)), false, true)
            } else {
                (base, false, prev.2)
            }
        }
    }
}

/// Type `chars` into the room-code field. Returns whether any was added.
pub fn type_room_code_chars(input: &mut LobbyInputState, chars: &Vec<char>) -> (added: bool)
    ensures
        ({
            let r = typed_code(old(input).join_room_code@, old(input).room_code_selected, chars@);
            &&& final(input).join_room_code@ == r.0
            &&& final(input).room_code_selected == r.1
            &&& added == r.2
        }),
        final(input).room_code_focused == old(input).room_code_focused,
        final(input).requested_slot == old(input).requested_slot,
        final(input).join_in_flight == old(input).join_in_flight,
        final(input).selected_class == old(input).selected_class,
        final(input).create_in_flight == old(input).create_in_flight,
        final(input).class_confirm_in_flight == old(input).class_confirm_in_flight,
{
    let mut added = false;
    let mut i: usize = 0;
    while i < chars.len()
        invariant
            0 <= i <= chars@.len(),
            ({
                let r = typed_code(old(input).join_room_code@, old(input).room_code_selected, chars@.take(i as int));
                &&& input.join_room_code@ == r.0
                &&& input.room_code_selected == r.1
                &&& added == r.2
            }),
            input.room_code_focused == old(input).room_code_focused,
            input.requested_slot == old(input).requested_slot,
            input.join_in_flight == old(input).join_in_flight,
            input.selected_class == old(input).selected_class,
            input.create_in_flight == old(input).create_in_flight,
            input.class_confirm_in_flight == old(input).class_confirm_in_flight,
        decreases chars@.len() - i,
    {
        proof {
            assert(chars@.take(i + 1).drop_last() =~= chars@.take(i as int));
        }
        let c = chars[i];
        match normalize_room_code_char(c) {
            Some(_) => {
                if push_room_code_char(input, c) {
                    added = true;
                }
            },
            None => {},
        }
        i = i + 1;
    }
    proof {
        assert(chars@.take(chars@.len() as int) =~= chars@);
    }
    added
}

/// The keys pressed in the lobby this frame.
pub struct LobbyKeys {
    /// Text typed, in order.
    pub typed: Vec<char>,
    /// Letter and digit keys pressed, as characters, in keyboard-map order.
    pub code_keys: Vec<char>,
    pub backspace: bool,
    pub escape: bool,
    pub enter: bool,
    pub key_c: bool,
    pub key_j: bool,
    /// A seat key (0 to 3).
    pub slot_key: Option<u8>,
    /// A class hotkey.
    pub class_key: Option<ClassId>,
}

/// Backspace in the room-code field: a selected code is cleared, otherwise
/// the last character goes.
pub open spec fn backspace_code(f: LobbyForm) -> LobbyForm {
    if f.selected {
        LobbyForm { code: Seq::empty(), selected: false, ..f }
    } else if f.code.len() == 0 {
        f
    } else {
        LobbyForm { code: f.code.drop_last(), ..f }
    }
}

/// The keys while the room-code field has focus: typed text (or, with none
/// added, the letter and digit keys) edits the code, then Backspace
/// deletes, Escape leaves the field, and Enter leaves it and joins.
pub open spec fn keys_in_field(f: LobbyForm, keys: LobbyKeys) -> (LobbyForm, Seq<LobbyRequest>) {
    let t = typed_code(f.code, f.selected, keys.typed@);
    let k = if t.2 {
        t
    } else {
        typed_code(t.0, t.1, keys.code_keys@)
    };
    let f1 = LobbyForm { code: k.0, selected: k.1, ..f };
    let f2 = if keys.backspace {
        backspace_code(f1)
    } else {
        f1
    };
    let f3 = if keys.escape || keys.enter {
        LobbyForm { focused: false, selected: false, ..f2 }
    } else {
        f2
    };
    if keys.enter {
        then_step((f3, Seq::empty()), join_step(f3))
    } else {
        (f3, Seq::empty())
    }
}

/// The keys elsewhere, in this order: a seat key picks the seat, a class
/// hotkey previews the class, C creates a room, J joins and Enter confirms
/// the class.
pub open spec fn keys_outside_field(f: LobbyForm, keys: LobbyKeys) -> (LobbyForm, Seq<LobbyRequest>) {
    let f0 = match keys.slot_key {
        Some(s) => LobbyForm { requested_slot: s, ..f },
        None => f,
    };
    let a0 = (f0, Seq::<LobbyRequest>::empty());
    let a1 = match keys.class_key {
        Some(c) => then_step(a0, select_step(a0.0, c)),
        None => a0,
    };
    let a2 = if keys.key_c {
        then_step(a1, create_step(a1.0))
    } else {
        a1
    };
    let a3 = if keys.key_j {
        then_step(a2, join_step(a2.0))
    } else {
        a2
    };
    if keys.enter {
        then_step(a3, confirm_step(a3.0))
    } else {
        a3
    }
}

/// The form and the requests after one frame of keys.
pub open spec fn keyboard_step(f: LobbyForm, keys: LobbyKeys) -> (LobbyForm, Seq<LobbyRequest>) {
    if f.focused {
        keys_in_field(f, keys)
    } else {
        keys_outside_field(f, keys)
    }
}

/// Keyboard input in the lobby. In the room-code field, typed text (or,
/// with none, the letter and digit keys) edits the code, Backspace deletes,
/// Escape leaves the field and Enter leaves it and joins. Elsewhere the seat
/// keys pick a seat, the class hotkeys preview a class, C creates a room, J
/// joins and Enter confirms the class. Returns the requests to send, in
/// order.
pub fn lobby_keyboard_input(input: &mut LobbyInputState, lobby: &mut LobbyViewState, keys: &LobbyKeys) -> (cmds: Vec<LobbyCommand>)
    ensures
        ({
            let r = keyboard_step(lobby_form(*old(input), *old(lobby)), *keys);
            &&& lobby_form(*final(input), *final(lobby)) == r.0
            &&& requests(cmds@) == r.1
        }),
        lobby_kept(*old(lobby), *final(lobby)),
{
    if input.room_code_focused {
        keyboard_in_field(input, lobby, keys)
    } else {
        keyboard_outside_field(input, lobby, keys)
    }
}

#[verifier::rlimit(60)]
fn keyboard_in_field(input: &mut LobbyInputState, lobby: &mut LobbyViewState, keys: &LobbyKeys) -> (cmds: Vec<LobbyCommand>)
    ensures
        ({
            let r = keys_in_field(lobby_form(*old(input), *old(lobby)), *keys);
            &&& lobby_form(*final(input), *final(lobby)) == r.0
            &&& requests(cmds@) == r.1
        }),
        lobby_kept(*old(lobby), *final(lobby)),
{
    let mut cmds: Vec<LobbyCommand> = Vec::new();
    let typed_any = type_room_code_chars(input, &keys.typed);
    if !typed_any {
        type_room_code_chars(input, &keys.code_keys);
    }
    if keys.backspace {
        room_code_backspace(input);
    }
    if keys.escape {
        input.room_code_focused = false;
        input.room_code_selected = false;
    }
    if keys.enter {
        input.room_code_focused = false;
        input.room_code_selected = false;
        let ghost before = lobby_form(*input, *lobby);
        match request_join_room(input, lobby) {
            Some(c) => cmds.push(c),
            None => {},
        }
        proof {
            assert(requests(cmds@) =~= then_step((before, Seq::empty()), join_step(before)).1);
        }
    } else {
        proof {
            assert(requests(cmds@) =~= Seq::<LobbyRequest>::empty());
        }
    }
    cmds
}

#[verifier::rlimit(60)]
fn keyboard_outside_field(input: &mut LobbyInputState, lobby: &mut LobbyViewState, keys: &LobbyKeys) -> (cmds: Vec<LobbyCommand>)
    ensures
        ({
            let r = keys_outside_field(lobby_form(*old(input), *old(lobby)), *keys);
            &&& lobby_form(*final(input), *final(lobby)) == r.0
            &&& requests(cmds@) == r.1
        }),
        lobby_kept(*old(lobby), *final(lobby)),
{
    let mut cmds: Vec<LobbyCommand> = Vec::new();
    match keys.slot_key {
        Some(s) => {
            input.requested_slot = s;
        },
        None => {},
    }
    let ghost mut acc = (lobby_form(*input, *lobby), Seq::<LobbyRequest>::empty());
    proof {
        assert(requests(cmds@) =~= acc.1);
    }
    match keys.class_key {
        Some(c) => {
            let cmd = request_select_class(c, input, lobby);
            cmds.push(cmd);
            proof {
                acc = then_step(acc, select_step(acc.0, c));
                assert(requests(cmds@) =~= acc.1);
            }
        },
        None => {},
    }
    if keys.key_c {
        match request_create_room(input, lobby) {
            Some(c) => cmds.push(c),
            None => {},
        }
        proof {
            acc = then_step(acc, create_step(acc.0));
            assert(requests(cmds@) =~= acc.1);
        }
    }
    if keys.key_j {
        match request_join_room(input, lobby) {
            Some(c) => cmds.push(c),
            None => {},
        }
        proof {
            acc = then_step(acc, join_step(acc.0));
            assert(requests(cmds@) =~= acc.1);
        }
    }
    if keys.enter {
        match request_confirm_class(input, lobby) {
            Some(c) => cmds.push(c),
            None => {},
        }
        proof {
            acc = then_step(acc, confirm_step(acc.0));
            assert(requests(cmds@) =~= acc.1);
        }
    }
    cmds
}


/// A lobby control that was pressed.
pub enum LobbyButton {
    RoomCodeField,
    CreateRoom,
    JoinRoom,
    RequestedSlot(u8),
    Class(ClassId),
    ConfirmClass,
    RefreshRooms,
    RoomListRow(LobbyRoomListRow),
    AddBot(u8),
    RemoveBot(u8),
    CreateBotRoom,
}

/// What a press on a control does to the form, and the request it sends.
pub open spec fn button_step(f: LobbyForm, button: LobbyButton) -> (LobbyForm, Option<LobbyRequest>) {
    match button {
        LobbyButton::RoomCodeField => (LobbyForm { focused: true, selected: f.code.len() > 0, ..f }, None),
        _ => {
            let g = LobbyForm { focused: false, selected: false, ..f };
            match button {
                LobbyButton::CreateRoom => create_step(g),
                LobbyButton::JoinRoom => join_step(g),
                LobbyButton::RequestedSlot(slot) => (LobbyForm { requested_slot: slot, ..g }, None),
                LobbyButton::Class(class_id) => select_step(g, class_id),
                LobbyButton::ConfirmClass => confirm_step(g),
                LobbyButton::RefreshRooms => refresh_step(g),
                LobbyButton::RoomListRow(row) => join_row_step(g, row.room_code@, row.requested_slot),
                LobbyButton::AddBot(slot) => add_bot_step(g, slot),
                LobbyButton::RemoveBot(slot) => remove_bot_step(g, slot),
                LobbyButton::CreateBotRoom => create_bot_room_step(g),
                LobbyButton::RoomCodeField => (g, None),
            }
        },
    }
}

/// A press on a lobby control. The room-code field takes focus (selecting
/// a code already typed); any other control leaves the field and acts.
#[verifier::rlimit(60)]
pub fn lobby_button_pressed(button: &LobbyButton, input: &mut LobbyInputState, lobby: &mut LobbyViewState) -> (cmd: Option<LobbyCommand>)
    ensures
        ({
            let r = button_step(lobby_form(*old(input), *old(lobby)), *button);
            &&& lobby_form(*final(input), *final(lobby)) == r.0
            &&& requested(cmd) == r.1
        }),
        lobby_kept(*old(lobby), *final(lobby)),
{
    match button {
        LobbyButton::RoomCodeField => {
            input.room_code_focused = true;
            input.room_code_selected = !is_empty_text(&input.join_room_code);
            return None;
        },
        _ => {},
    }
    input.room_code_focused = false;
    input.room_code_selected = false;
    match button {
        LobbyButton::RoomCodeField => None,
        LobbyButton::CreateRoom => request_create_room(input, lobby),
        LobbyButton::JoinRoom => request_join_room(input, lobby),
        LobbyButton::RequestedSlot(slot) => {
            input.requested_slot = *slot;
            None
        },
        LobbyButton::Class(class_id) => Some(request_select_class(*class_id, input, lobby)),
        LobbyButton::ConfirmClass => request_confirm_class(input, lobby),
        LobbyButton::RefreshRooms => Some(request_refresh_rooms(lobby)),
        LobbyButton::RoomListRow(row) => request_join_room_from_row(row, input, lobby),
        LobbyButton::AddBot(slot) => request_add_bot(*slot, BotKind::Default, lobby),
        LobbyButton::RemoveBot(slot) => request_remove_bot(*slot, lobby),
        LobbyButton::CreateBotRoom => request_create_bot_room(GameMode::OneVOne, BotKind::Default, lobby),
    }
}

/// Which piece of lobby copy to render.
#[derive(Clone, Copy, Debug, PartialEq, Eq, Structural)]
pub enum LobbyDynamicText {
    RoomCode,
    Slot(u8),
    Class(ClassId),
    Create,
    Join,
    Confirm,
    OwnSlot,
    OpponentSlot,
    Refresh,
    RoomListEmpty,
    SelectedClassIdentity,
    AddBot(u8),
    RemoveBot(u8),
    CreateBotRoom,
}

/// The room-code field's copy: the code (dashes when empty), bracketed when
/// selected, with a caret while typing, and the field's state.
pub open spec fn spec_room_code_copy(input: LobbyInputState) -> Seq<char> {
    let code = if input.join_room_code@.len() == 0 {
        "--------"@
    } else {
        input.join_room_code@
    };
    let focus = if input.room_code_focused {
        if input.room_code_selected {
            "selected"@
        } else {
            "typing"@
        }
    } else {
        "idle"@
    };
    let rendered = if input.room_code_selected {
        "["@ + code + "]"@
    } else if input.room_code_focused {
        code + "|"@
    } else {
        code
    };
    "Type room code: "@ + rendered + " - "@ + focus
}

fn room_code_copy(input: &LobbyInputState) -> (s: String)
    ensures
        s@ == spec_room_code_copy(*input),
{
    let code: &str = if is_empty_text(&input.join_room_code) {
        "--------"
    } else {
        input.join_room_code.as_str()
    };
    let mut s = String::from_str("Type room code: ");
    let ghost head = s@;
    if input.room_code_selected {
        s.append("[");
        s.append(code);
        s.append("]");
    } else if input.room_code_focused {
        s.append(code);
        s.append("|");
    } else {
        s.append(code);
    }
    let ghost rendered_end = s@;
    s.append(" - ");
    if input.room_code_focused {
        if input.room_code_selected {
            s.append("selected");
        } else {
            s.append("typing");
        }
    } else {
        s.append("idle");
    }
    proof {
        let c = if input.join_room_code@.len() == 0 {
            "--------"@
        } else {
            input.join_room_code@
        };
        let rendered = if input.room_code_selected {
            "["@ + c + "]"@
        } else if input.room_code_focused {
            c + "|"@
        } else {
            c
        };
        assert(rendered_end =~= head + rendered);
    }
    s
}

/// One piece of lobby copy.
pub open spec fn spec_dynamic_copy(role: LobbyDynamicText, lobby: LobbyViewState, input: LobbyInputState) -> Seq<char> {
    match role {
        LobbyDynamicText::RoomCode => spec_room_code_copy(input),
        LobbyDynamicText::Slot(slot) => "Seat "@ + decimal(slot as nat) + if input.requested_slot == slot {
            " *"@
        } else {
            Seq::empty()
        },
        LobbyDynamicText::Class(c) => spec_class_name(c) + if input.selected_class == c {
            " *"@
        } else {
            Seq::empty()
        },
        LobbyDynamicText::Create => if input.create_in_flight {
            "Creating..."@
        } else {
            "Create Room"@
        },
        LobbyDynamicText::Join => if input.join_in_flight {
            "Joining..."@
        } else if input.join_room_code@.len() == 0 {
            "Join Room"@
        } else {
            "Join "@ + input.join_room_code@
        },
        LobbyDynamicText::Confirm => if input.class_confirm_in_flight {
            "Confirming..."@
        } else if lobby.locked_class is None {
            "Confirm your class to continue"@
        } else if lobby.revealed_classes@.len() == 0 {
            "Waiting for opponent..."@
        } else {
            "All players confirmed"@
        },
        LobbyDynamicText::OwnSlot => spec_own_slot_label(lobby, input),
        LobbyDynamicText::OpponentSlot => match opponent_class(lobby.revealed_classes@, lobby.local_player_id) {
            Some(c) => "Opp · "@ + spec_class_name(c),
            None => "Opp · waiting"@,
        },
        LobbyDynamicText::Refresh => "Refresh Rooms"@,
        LobbyDynamicText::RoomListEmpty => if lobby.room_list@.len() == 0 {
            "No joinable rooms. Create a room to host."@
        } else {
            Seq::empty()
        },
        LobbyDynamicText::SelectedClassIdentity => spec_identity_text(lobby, input),
        LobbyDynamicText::AddBot(slot) => "Add Bot (seat "@ + decimal(slot as nat) + ")"@,
        LobbyDynamicText::RemoveBot(slot) => "Remove Bot (seat "@ + decimal(slot as nat) + ")"@,
        LobbyDynamicText::CreateBotRoom => "Create 2-Bot Soak Room"@,
    }
}

pub fn lobby_dynamic_copy(role: LobbyDynamicText, lobby: &LobbyViewState, input: &LobbyInputState) -> (s: String)
    ensures
        s@ == spec_dynamic_copy(role, *lobby, *input),
{
    match role {
        LobbyDynamicText::RoomCode => room_code_copy(input),
        LobbyDynamicText::Slot(slot) => {
            let mut s = String::from_str("Seat ");
            push_decimal(&mut s, slot as u32);
            let ghost head = s@;
            if input.requested_slot == slot {
                s.append(" *");
            }
            proof {
                assert(s@ =~= head + if input.requested_slot == slot {
                    " *"@
                } else {
                    Seq::<char>::empty()
                });
            }
            s
        },
        LobbyDynamicText::Class(c) => {
            let mut s = String::from_str(class_name(c));
            let ghost head = s@;
            if input.selected_class == c {
                s.append(" *");
            }
            proof {
                assert(s@ =~= head + if input.selected_class == c {
                    " *"@
                } else {
                    Seq::<char>::empty()
                });
            }
            s
        },
        LobbyDynamicText::Create => if input.create_in_flight {
            String::from_str("Creating...")
        } else {
            String::from_str("Create Room")
        },
        LobbyDynamicText::Join => if input.join_in_flight {
            String::from_str("Joining...")
        } else if is_empty_text(&input.join_room_code) {
            String::from_str("Join Room")
        } else {
            let mut s = String::from_str("Join ");
            s.append(input.join_room_code.as_str());
            s
        },
        LobbyDynamicText::Confirm => if input.class_confirm_in_flight {
            String::from_str("Confirming...")
        } else {
            String::from_str(lobby_confirm_button_text(lobby))
        },
        LobbyDynamicText::OwnSlot => lobby_own_slot_label_text(lobby, input),
        LobbyDynamicText::OpponentSlot => lobby_opponent_slot_label_text(lobby),
        LobbyDynamicText::Refresh => String::from_str("Refresh Rooms"),
        LobbyDynamicText::RoomListEmpty => if lobby.room_list.len() == 0 {
            String::from_str("No joinable rooms. Create a room to host.")
        } else {
            String::new()
        },
        LobbyDynamicText::SelectedClassIdentity => lobby_selected_class_identity_text(lobby, input),
        LobbyDynamicText::AddBot(slot) => {
            let mut s = String::from_str("Add Bot (seat ");
            push_decimal(&mut s, slot as u32);
            s.append(")");
            s
        },
        LobbyDynamicText::RemoveBot(slot) => {
            let mut s = String::from_str("Remove Bot (seat ");
            push_decimal(&mut s, slot as u32);
            s.append(")");
            s
        },
        LobbyDynamicText::CreateBotRoom => String::from_str("Create 2-Bot Soak Room"),
    }
}

/// Asking for the room list happens once per handshake: again only after the
/// local identity was lost and came back.
#[derive(Clone, Copy, Debug, PartialEq, Eq, Structural)]
pub struct InitialRoomListRequest {
    pub already_requested: bool,
}

/// One poll: without a local player nothing is asked and the latch opens;
/// with one, the list is asked for when the latch is open, and it closes.
pub open spec fn room_list_poll(before: InitialRoomListRequest, has_local_player: bool, ask: bool, after: InitialRoomListRequest) -> bool {
    if has_local_player {
        ask == !before.already_requested && after.already_requested
    } else {
        !ask && !after.already_requested
    }
}

impl InitialRoomListRequest {
    /// Whether to ask for the room list this frame.
    pub fn poll(&mut self, has_local_player: bool) -> (ask: bool)
        ensures
            room_list_poll(*old(self), has_local_player, ask, *final(self)),
    {
        if !has_local_player {
            self.already_requested = false;
            return false;
        }
        if self.already_requested {
            return false;
        }
        self.already_requested = true;
        true
    }
}


/// Which lobby sections are shown: the room browser and the requested-seat
/// row only before the player is in a room, and the debug bot-room button
/// only before that and only with the debug surfaces on.
#[derive(Clone, Copy, Debug, PartialEq, Eq, Structural)]
pub struct LobbySections {
    pub create_bot_room: bool,
    pub room_browser: bool,
    pub requested_slot_row: bool,
}

/// The lobby sections shown for `lobby`, with the debug surfaces on or off.
pub fn lobby_visible_sections(lobby: &LobbyViewState, debug_ui_enabled: bool) -> (r: LobbySections)
    ensures
        r == (LobbySections {
            create_bot_room: lobby.session_id is None && debug_ui_enabled,
            room_browser: lobby.session_id is None,
            requested_slot_row: lobby.session_id is None,
        }),
{
    let outside_room = lobby.session_id.is_none();
    LobbySections {
        create_bot_room: outside_room && debug_ui_enabled,
        room_browser: outside_room,
        requested_slot_row: outside_room,
    }
}

/// The room list is asked for once per handshake: two polls in a row with a
/// local player never both ask, and the first poll with a local player
/// after it was lost asks again.
pub proof fn law_room_list_requested_once_per_handshake(
    r0: InitialRoomListRequest,
    r1: InitialRoomListRequest,
    r2: InitialRoomListRequest,
    has1: bool,
    ask1: bool,
    has2: bool,
    ask2: bool,
)
    requires
        room_list_poll(r0, has1, ask1, r1),
        room_list_poll(r1, has2, ask2, r2),
    ensures
        has1 && has2 ==> !(ask1 && ask2),
        has1 && has2 ==> !ask2,
        !has1 && has2 ==> ask2,
{
}

/// The local player's seat and seats held by humans get no bot control; an
/// add control only ever sits on an empty seat.
pub proof fn law_bot_controls_only_on_bot_or_empty_seats(s: SessionSlot, local: Option<PlayerId>)
    ensures
        (local is Some && s.player_id == local) ==> seat_control(s, local) is None,
        (s.player_id is Some && !s.is_bot) ==> seat_control(s, local) is None,
        (seat_control(s, local) matches Some(LobbyBotSlotControl::AddBot { .. })) ==> s.player_id is None && !s.is_bot,
        (seat_control(s, local) matches Some(LobbyBotSlotControl::RemoveBot { .. })) ==> s.is_bot,
{
}

} // verus!
