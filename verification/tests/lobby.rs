use game_core::card::{ClassId, PlayerId};
use game_core::lobby::{
    apply_class_locked, apply_classes_revealed, apply_room_list, lobby_visible_sections, LobbySections, apply_join_ack, apply_lobby_handshake, apply_room_created,
    debug_ui_enabled_from, format_room_list_row_label, lobby_bot_controls_for_slots, lobby_button_pressed,
    lobby_class_options, lobby_confirm_button_style_state, lobby_confirm_button_text, lobby_dynamic_copy,
    lobby_keyboard_input, lobby_opponent_slot_label_text, lobby_own_slot_label_text,
    lobby_selected_class_identity_text, lobby_status_copy, push_room_code_char, request_add_bot,
    request_confirm_class, request_create_bot_room, request_create_room, request_join_room, room_code_backspace,
    BotKind, GameMode, InitialRoomListRequest, LobbyBotSlotControl, LobbyButton, LobbyCommand,
    LobbyConfirmButtonStyleState, LobbyDynamicText, LobbyInputState, LobbyKeys, LobbyRoomListRow, LobbyViewState,
    PointerInteraction, RoomListEntry, SessionSlot,
};
use game_core::lobby::{apply_lobby_message, ClassLockedSeen, LobbyServerMessage};
use game_core::room_code::normalize_room_code_text;

fn keys() -> LobbyKeys {
    LobbyKeys {
        typed: vec![],
        code_keys: vec![],
        backspace: false,
        escape: false,
        enter: false,
        key_c: false,
        key_j: false,
        slot_key: None,
        class_key: None,
    }
}

fn slot(slot: u8, player: Option<u64>, is_bot: bool) -> SessionSlot {
    SessionSlot { slot, player_id: player.map(PlayerId), is_bot }
}

#[test]
fn room_code_text_is_normalized() {
    assert_eq!(normalize_room_code_text("ab-c 12"), "ABC12");
    assert_eq!(normalize_room_code_text("abcdefghijk"), "ABCDEFGH");
    assert_eq!(normalize_room_code_text("é!?"), "");
    assert_eq!(LobbyInputState::new(" q7 ").join_room_code, "Q7");
}

#[test]
fn room_code_typing_and_backspace() {
    let mut input = LobbyInputState::new("");
    assert!(push_room_code_char(&mut input, 'a'));
    assert!(push_room_code_char(&mut input, '9'));
    assert_eq!(input.join_room_code, "A9");
    input.room_code_selected = true;
    assert!(push_room_code_char(&mut input, 'z'));
    assert_eq!(input.join_room_code, "Z");
    for _ in 0..10 {
        push_room_code_char(&mut input, 'x');
    }
    assert_eq!(input.join_room_code, "ZXXXXXXX");
    room_code_backspace(&mut input);
    assert_eq!(input.join_room_code, "ZXXXXXX");
    input.room_code_selected = true;
    room_code_backspace(&mut input);
    assert_eq!(input.join_room_code, "");
    room_code_backspace(&mut input);
    assert_eq!(input.join_room_code, "");
}

#[test]
fn join_needs_a_code_and_one_request_at_a_time() {
    let mut input = LobbyInputState::new("");
    let mut lobby = LobbyViewState::new();
    assert!(request_join_room(&mut input, &mut lobby).is_none());
    assert_eq!(lobby.status, "Enter a room code before joining");
    input.join_room_code = "ab1".to_string();
    match request_join_room(&mut input, &mut lobby) {
        Some(LobbyCommand::JoinRoom { room_code, requested_slot }) => {
            assert_eq!(room_code, "AB1");
            assert_eq!(requested_slot, 1);
        }
        _ => panic!("expected a join request"),
    }
    assert_eq!(lobby.status, "Joining AB1");
    assert!(request_join_room(&mut input, &mut lobby).is_none());
    assert_eq!(lobby.status, "Join already pending");
}

#[test]
fn create_and_confirm_gating() {
    let mut input = LobbyInputState::new("");
    let mut lobby = LobbyViewState::new();
    assert!(matches!(request_create_room(&mut input, &mut lobby), Some(LobbyCommand::CreateRoom)));
    assert!(request_create_room(&mut input, &mut lobby).is_none());
    assert_eq!(lobby.status, "Create already pending");
    assert!(request_confirm_class(&mut input, &mut lobby).is_none());
    assert_eq!(lobby.status, "Create or join a room before confirming class");
    apply_room_created(&mut lobby, "s1".to_string(), "ROOM1".to_string(), GameMode::OneVOne, vec![]);
    assert_eq!(lobby.status, "Room ROOM1 created");
    input.selected_class = ClassId::Xelor;
    assert!(matches!(request_confirm_class(&mut input, &mut lobby), Some(LobbyCommand::ConfirmClass { class_id: ClassId::Xelor })));
    assert_eq!(lobby.status, "Confirming Xelor");
    assert!(request_confirm_class(&mut input, &mut lobby).is_none());
    assert_eq!(lobby.status, "Class confirm already pending");
}

#[test]
fn bot_requests_need_the_right_session_state() {
    let mut lobby = LobbyViewState::new();
    assert!(request_add_bot(2, BotKind::Default, &mut lobby).is_none());
    assert_eq!(lobby.status, "Create or join a room before adding a bot");
    assert!(request_create_bot_room(GameMode::OneVOne, BotKind::Default, &mut lobby).is_some());
    apply_join_ack(&mut lobby, "s".to_string(), GameMode::OneVOne, vec![]);
    assert!(matches!(request_add_bot(2, BotKind::Default, &mut lobby), Some(LobbyCommand::AddBot { slot: 2, .. })));
    assert_eq!(lobby.status, "Adding bot to seat 2");
    assert!(request_create_bot_room(GameMode::OneVOne, BotKind::Default, &mut lobby).is_none());
}

#[test]
fn bot_controls_sorted_by_seat_and_skip_players() {
    let slots = vec![slot(3, None, false), slot(1, Some(5), false), slot(2, None, true), slot(0, Some(6), false)];
    let controls = lobby_bot_controls_for_slots(&slots, Some(PlayerId(5)));
    assert_eq!(
        controls,
        vec![LobbyBotSlotControl::RemoveBot { slot: 2 }, LobbyBotSlotControl::AddBot { slot: 3 }]
    );
    assert_eq!(lobby_bot_controls_for_slots(&vec![], None), vec![]);
}

#[test]
fn status_copy_two_lines() {
    let mut lobby = LobbyViewState::new();
    let input = LobbyInputState::new("");
    assert_eq!(
        lobby_status_copy(&lobby, &input),
        "Connecting  ·  Room: ----  ·  Players: 0/1\nSlot 1  ·  Class: Iop  ·  not confirmed"
    );
    apply_room_created(&mut lobby, "s".to_string(), "XY".to_string(), GameMode::OneVOne, vec![slot(1, Some(3), false), slot(2, None, false)]);
    apply_class_locked(&mut lobby, ClassId::Cra);
    let mut input = LobbyInputState::new("ab");
    input.requested_slot = 2;
    assert_eq!(
        lobby_status_copy(&lobby, &input),
        "Class locked: Cra  ·  Room: XY  ·  Players: 1/2\nJoining AB · Slot 2  ·  Class: Iop  ·  Cra"
    );
}

#[test]
fn slot_labels() {
    let mut lobby = LobbyViewState::new();
    let input = LobbyInputState::new("");
    apply_lobby_handshake(&mut lobby, PlayerId(42));
    assert_eq!(lobby.status, "Connected as player 42");
    assert_eq!(lobby_own_slot_label_text(&lobby, &input), "You · Iop · slot 1");
    lobby.slots = vec![slot(2, Some(42), false)];
    apply_class_locked(&mut lobby, ClassId::Iop);
    assert_eq!(lobby_own_slot_label_text(&lobby, &input), "You · Iop* · slot 2");
    assert_eq!(lobby_opponent_slot_label_text(&lobby), "Opp · waiting");
    assert_eq!(lobby_confirm_button_text(&lobby), "Waiting for opponent...");
    apply_classes_revealed(&mut lobby, vec![(PlayerId(42), ClassId::Iop), (PlayerId(9), ClassId::Sadida)]);
    assert_eq!(lobby_opponent_slot_label_text(&lobby), "Opp · Sadida");
    assert_eq!(lobby_confirm_button_text(&lobby), "All players confirmed");
    assert_eq!(lobby_selected_class_identity_text(&lobby, &input), "Confirmed: Iop\nWaiting for opponent");
}

#[test]
fn room_list_row_label() {
    let entry = RoomListEntry {
        room_code: "ABCD".to_string(),
        mode: GameMode::OneVOne,
        slots_filled: 1,
        slots_max: 2,
        first_open_slot: Some(2),
    };
    assert_eq!(format_room_list_row_label(&entry), "ABCD · OneVOne · 1/2");
    let full = RoomListEntry { first_open_slot: None, slots_filled: 2, ..entry };
    assert_eq!(format_room_list_row_label(&full), "ABCD · OneVOne · 2/2");
}

#[test]
fn dynamic_copy_pieces() {
    let lobby = LobbyViewState::new();
    let mut input = LobbyInputState::new("");
    assert_eq!(lobby_dynamic_copy(LobbyDynamicText::RoomCode, &lobby, &input), "Type room code: -------- - idle");
    input.join_room_code = "AB".to_string();
    input.room_code_focused = true;
    assert_eq!(lobby_dynamic_copy(LobbyDynamicText::RoomCode, &lobby, &input), "Type room code: AB| - typing");
    input.room_code_selected = true;
    assert_eq!(lobby_dynamic_copy(LobbyDynamicText::RoomCode, &lobby, &input), "Type room code: [AB] - selected");
    assert_eq!(lobby_dynamic_copy(LobbyDynamicText::Slot(1), &lobby, &input), "Seat 1 *");
    assert_eq!(lobby_dynamic_copy(LobbyDynamicText::Class(ClassId::Cra), &lobby, &input), "Cra");
    assert_eq!(lobby_dynamic_copy(LobbyDynamicText::Join, &lobby, &input), "Join AB");
    assert_eq!(lobby_dynamic_copy(LobbyDynamicText::AddBot(3), &lobby, &input), "Add Bot (seat 3)");
    assert_eq!(lobby_dynamic_copy(LobbyDynamicText::RoomListEmpty, &lobby, &input), "No joinable rooms. Create a room to host.");
    assert_eq!(lobby_dynamic_copy(LobbyDynamicText::Confirm, &lobby, &input), "Confirm your class to continue");
}

#[test]
fn keyboard_in_room_code_field() {
    let mut input = LobbyInputState::new("");
    let mut lobby = LobbyViewState::new();
    input.room_code_focused = true;
    let mut k = keys();
    k.typed = vec!['a', '-', 'b'];
    k.code_keys = vec!['Q'];
    let cmds = lobby_keyboard_input(&mut input, &mut lobby, &k);
    assert!(cmds.is_empty());
    assert_eq!(input.join_room_code, "AB");
    let mut k = keys();
    k.code_keys = vec!['C'];
    k.enter = true;
    let cmds = lobby_keyboard_input(&mut input, &mut lobby, &k);
    assert_eq!(cmds.len(), 1);
    assert!(!input.room_code_focused);
    assert!(input.join_in_flight);
    assert_eq!(lobby.status, "Joining ABC");
}

#[test]
fn keyboard_hotkeys_outside_field() {
    let mut input = LobbyInputState::new("");
    let mut lobby = LobbyViewState::new();
    let mut k = keys();
    k.slot_key = Some(3);
    k.class_key = Some(ClassId::Ecaflip);
    k.key_c = true;
    let cmds = lobby_keyboard_input(&mut input, &mut lobby, &k);
    assert_eq!(input.requested_slot, 3);
    assert_eq!(input.selected_class, ClassId::Ecaflip);
    assert_eq!(cmds.len(), 2);
    assert!(matches!(cmds[0], LobbyCommand::SelectClass { class_id: ClassId::Ecaflip }));
    assert!(matches!(cmds[1], LobbyCommand::CreateRoom));
}

#[test]
fn buttons_focus_and_act() {
    let mut input = LobbyInputState::new("zz");
    let mut lobby = LobbyViewState::new();
    assert!(lobby_button_pressed(&LobbyButton::RoomCodeField, &mut input, &mut lobby).is_none());
    assert!(input.room_code_focused && input.room_code_selected);
    assert!(lobby_button_pressed(&LobbyButton::RequestedSlot(2), &mut input, &mut lobby).is_none());
    assert!(!input.room_code_focused);
    assert_eq!(input.requested_slot, 2);
    let row = LobbyRoomListRow { room_code: "ROOM".to_string(), requested_slot: 1 };
    match lobby_button_pressed(&LobbyButton::RoomListRow(row), &mut input, &mut lobby) {
        Some(LobbyCommand::JoinRoom { room_code, requested_slot }) => {
            assert_eq!(room_code, "ROOM");
            assert_eq!(requested_slot, 1);
        }
        _ => panic!("expected a join request"),
    }
    assert_eq!(input.requested_slot, 1);
    assert!(matches!(lobby_button_pressed(&LobbyButton::RefreshRooms, &mut input, &mut lobby), Some(LobbyCommand::RefreshRooms)));
    assert_eq!(lobby.status, "Refreshing rooms");
}

#[test]
fn confirm_button_styles() {
    let mut lobby = LobbyViewState::new();
    let mut input = LobbyInputState::new("");
    assert_eq!(lobby_confirm_button_style_state(&lobby, &input, PointerInteraction::Hovered), LobbyConfirmButtonStyleState::Disabled);
    lobby.session_id = Some("s".to_string());
    assert_eq!(lobby_confirm_button_style_state(&lobby, &input, PointerInteraction::Hovered), LobbyConfirmButtonStyleState::Hovered);
    input.class_confirm_in_flight = true;
    assert_eq!(lobby_confirm_button_style_state(&lobby, &input, PointerInteraction::Idle), LobbyConfirmButtonStyleState::InFlight);
    lobby.locked_class = Some(ClassId::Iop);
    assert_eq!(lobby_confirm_button_style_state(&lobby, &input, PointerInteraction::Idle), LobbyConfirmButtonStyleState::Waiting);
}

#[test]
fn debug_flag_only_for_one() {
    assert!(debug_ui_enabled_from(Some("1")));
    assert!(debug_ui_enabled_from(Some(" 1\n")));
    assert!(!debug_ui_enabled_from(Some("true")));
    assert!(!debug_ui_enabled_from(Some("0")));
    assert!(!debug_ui_enabled_from(None));
}

#[test]
fn initial_room_list_requested_once_per_identity() {
    let mut request = InitialRoomListRequest { already_requested: false };
    assert!(!request.poll(false));
    assert!(request.poll(true));
    assert!(!request.poll(true));
    assert!(!request.poll(false));
    assert!(request.poll(true));
    assert_eq!(lobby_class_options().len(), 6);
}

#[test]
fn room_list_replaces_the_shown_rooms() {
    let mut lobby = LobbyViewState::new();
    let entry = RoomListEntry {
        room_code: "ROOM1".to_string(),
        mode: GameMode::OneVOne,
        slots_filled: 1,
        slots_max: 2,
        first_open_slot: Some(2),
    };
    apply_room_list(&mut lobby, vec![entry.clone(), entry.clone()]);
    assert_eq!(lobby.room_list.len(), 2);
    apply_room_list(&mut lobby, vec![]);
    assert!(lobby.room_list.is_empty());
}

#[test]
fn documented_row_label_example() {
    let entry = RoomListEntry {
        room_code: "ABCDEF".to_string(),
        mode: GameMode::OneVOne,
        slots_filled: 1,
        slots_max: 2,
        first_open_slot: Some(2),
    };
    assert_eq!(format_room_list_row_label(&entry), "ABCDEF · OneVOne · 1/2");
}

#[test]
fn sections_before_and_after_joining_a_room() {
    let mut lobby = LobbyViewState::new();
    assert_eq!(
        lobby_visible_sections(&lobby, true),
        LobbySections { create_bot_room: true, room_browser: true, requested_slot_row: true }
    );
    assert_eq!(
        lobby_visible_sections(&lobby, false),
        LobbySections { create_bot_room: false, room_browser: true, requested_slot_row: true }
    );
    apply_join_ack(&mut lobby, "S1".to_string(), GameMode::OneVOne, vec![]);
    assert_eq!(
        lobby_visible_sections(&lobby, true),
        LobbySections { create_bot_room: false, room_browser: false, requested_slot_row: false }
    );
}

#[test]
fn debug_flag_ignores_unicode_whitespace() {
    assert!(debug_ui_enabled_from(Some("\u{3000}1\u{a0}")));
    assert!(debug_ui_enabled_from(Some("\t1\r\n")));
    assert!(!debug_ui_enabled_from(Some("1 1")));
}

#[test]
fn keyboard_outside_field_sends_all_requests_in_order() {
    let mut input = LobbyInputState::new("ab");
    let mut lobby = LobbyViewState::new();
    lobby.session_id = Some("s".to_string());
    let mut k = keys();
    k.class_key = Some(ClassId::Cra);
    k.key_c = true;
    k.key_j = true;
    k.enter = true;
    let cmds = lobby_keyboard_input(&mut input, &mut lobby, &k);
    assert_eq!(cmds.len(), 4);
    assert!(matches!(cmds[0], LobbyCommand::SelectClass { class_id: ClassId::Cra }));
    assert!(matches!(cmds[1], LobbyCommand::CreateRoom));
    match &cmds[2] {
        LobbyCommand::JoinRoom { room_code, requested_slot } => {
            assert_eq!(room_code, "AB");
            assert_eq!(*requested_slot, 1);
        }
        _ => panic!("expected a join request"),
    }
    assert!(matches!(cmds[3], LobbyCommand::ConfirmClass { class_id: ClassId::Cra }));
    assert!(input.create_in_flight && input.join_in_flight && input.class_confirm_in_flight);
    assert_eq!(lobby.status, "Confirming Cra");
    assert_eq!(lobby.selected_class, ClassId::Cra);
    // A second frame: every request is already pending.
    let cmds = lobby_keyboard_input(&mut input, &mut lobby, &k);
    assert_eq!(cmds.len(), 1);
    assert_eq!(lobby.status, "Class confirm already pending");
}

#[test]
fn keyboard_backspace_and_escape_in_field() {
    let mut input = LobbyInputState::new("abc");
    let mut lobby = LobbyViewState::new();
    input.room_code_focused = true;
    let mut k = keys();
    k.backspace = true;
    let cmds = lobby_keyboard_input(&mut input, &mut lobby, &k);
    assert!(cmds.is_empty());
    assert_eq!(input.join_room_code, "AB");
    assert!(input.room_code_focused);
    let mut k = keys();
    k.escape = true;
    lobby_keyboard_input(&mut input, &mut lobby, &k);
    assert!(!input.room_code_focused);
    assert_eq!(lobby.status, "Connecting");
}

#[test]
fn a_code_longer_than_the_field_takes_no_more_characters() {
    let mut input = LobbyInputState::new("");
    input.join_room_code = "ABCDEFGHIJ".to_string();
    assert!(!push_room_code_char(&mut input, 'k'));
    assert_eq!(input.join_room_code, "ABCDEFGHIJ");
    let mut lobby = LobbyViewState::new();
    input.room_code_focused = true;
    let mut k = keys();
    k.typed = vec!['z'];
    k.backspace = true;
    let cmds = lobby_keyboard_input(&mut input, &mut lobby, &k);
    assert!(cmds.is_empty());
    assert_eq!(input.join_room_code, "ABCDEFGHI");
}

#[test]
fn create_button_marks_the_request_pending() {
    let mut input = LobbyInputState::new("");
    let mut lobby = LobbyViewState::new();
    assert!(matches!(lobby_button_pressed(&LobbyButton::CreateRoom, &mut input, &mut lobby), Some(LobbyCommand::CreateRoom)));
    assert!(input.create_in_flight);
    assert_eq!(lobby.status, "Creating room");
    assert!(lobby_button_pressed(&LobbyButton::CreateRoom, &mut input, &mut lobby).is_none());
    assert_eq!(lobby.status, "Create already pending");
    assert!(lobby_button_pressed(&LobbyButton::JoinRoom, &mut input, &mut lobby).is_none());
    assert_eq!(lobby.status, "Enter a room code before joining");
    assert!(!input.join_in_flight);
}

#[test]
fn server_refusals_show_their_reason_and_end_the_pending_request() {
    let mut seen = ClassLockedSeen::new();
    let mut input = LobbyInputState::new("");
    let mut lobby = LobbyViewState::new();
    input.create_in_flight = true;
    input.join_in_flight = true;
    input.class_confirm_in_flight = true;
    let msg = LobbyServerMessage::CreateRoomRejected { reason: "AlreadyInRoom".to_string() };
    assert!(!apply_lobby_message(&mut seen, &mut lobby, &mut input, msg));
    assert_eq!(lobby.status, "Create rejected: AlreadyInRoom");
    assert!(!input.create_in_flight && input.join_in_flight);
    let msg = LobbyServerMessage::JoinRejected { reason: "RoomFull".to_string() };
    apply_lobby_message(&mut seen, &mut lobby, &mut input, msg);
    assert_eq!(lobby.status, "Join rejected: RoomFull");
    assert!(!input.join_in_flight);
    let msg = LobbyServerMessage::ConfirmClassRejected { reason: "NotInRoom".to_string() };
    apply_lobby_message(&mut seen, &mut lobby, &mut input, msg);
    assert_eq!(lobby.status, "Class confirm rejected: NotInRoom");
    assert!(!input.class_confirm_in_flight);
    let msg = LobbyServerMessage::HandshakeRejected { server_version: 7, client_version: 12 };
    apply_lobby_message(&mut seen, &mut lobby, &mut input, msg);
    assert_eq!(lobby.status, "Handshake rejected: server 7 client 12");
    let msg = LobbyServerMessage::BotActionRejected { reason: "SlotOccupied".to_string() };
    apply_lobby_message(&mut seen, &mut lobby, &mut input, msg);
    assert_eq!(lobby.status, "Bot action rejected: SlotOccupied");
}

#[test]
fn created_and_joined_rooms_end_the_pending_request() {
    let mut seen = ClassLockedSeen::new();
    let mut input = LobbyInputState::new("");
    let mut lobby = LobbyViewState::new();
    input.create_in_flight = true;
    input.join_in_flight = true;
    let msg = LobbyServerMessage::RoomCreated {
        session_id: "s1".to_string(),
        room_code: "ABCD".to_string(),
        mode: GameMode::OneVOne,
        slots: vec![slot(0, Some(1), false)],
    };
    assert!(apply_lobby_message(&mut seen, &mut lobby, &mut input, msg));
    assert_eq!(lobby.status, "Room ABCD created");
    assert!(!input.create_in_flight && input.join_in_flight);
    let msg = LobbyServerMessage::JoinAck { session_id: "s1".to_string(), mode: GameMode::OneVOne, slots: vec![] };
    assert!(apply_lobby_message(&mut seen, &mut lobby, &mut input, msg));
    assert!(!input.join_in_flight);
    let msg = LobbyServerMessage::RoomList { rooms: vec![] };
    assert!(!apply_lobby_message(&mut seen, &mut lobby, &mut input, msg));
}

#[test]
fn a_repeated_class_lock_is_applied_once() {
    let mut seen = ClassLockedSeen::new();
    let mut input = LobbyInputState::new("");
    let mut lobby = LobbyViewState::new();
    input.class_confirm_in_flight = true;
    apply_lobby_message(&mut seen, &mut lobby, &mut input, LobbyServerMessage::ClassLocked { class_id: ClassId::Iop });
    assert_eq!(lobby.locked_class, Some(ClassId::Iop));
    assert_eq!(lobby.status, "Class locked: Iop");
    assert!(!input.class_confirm_in_flight);
    lobby.status = "Other".to_string();
    input.class_confirm_in_flight = true;
    apply_lobby_message(&mut seen, &mut lobby, &mut input, LobbyServerMessage::ClassLocked { class_id: ClassId::Iop });
    assert_eq!(lobby.status, "Other");
    assert!(input.class_confirm_in_flight);
}
