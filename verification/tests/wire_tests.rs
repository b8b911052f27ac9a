use eve_l_preview::config::{default_profiles, GlobalSettings, PersistentState};
use eve_l_preview::tables::NameTable;
use eve_l_preview::wire::{
    accept_length, decode_length, frame_message, handle_request, PreviewRequest, PreviewResponse,
    MAX_MESSAGE_SIZE,
};

fn daemon_state() -> PersistentState {
    PersistentState {
        profile: default_profiles().pop().unwrap(),
        global: GlobalSettings {
            hide_when_no_focus: false,
            snap_threshold: 15,
            hotkey_require_eve_focus: true,
            minimize_clients_on_switch: false,
            preserve_thumbnail_position_on_swap: false,
            default_thumbnail_width: 250,
            default_thumbnail_height: 141,
        },
        character_positions: NameTable::new(),
    }
}

#[test]
fn frame_prefixes_payload_with_le_length() {
    let payload = vec![0xAAu8, 0xBB, 0xCC];
    let frame = frame_message(&payload).unwrap();
    assert_eq!(frame, vec![3, 0, 0, 0, 0xAA, 0xBB, 0xCC]);
}

#[test]
fn frame_empty_payload() {
    let frame = frame_message(&Vec::new()).unwrap();
    assert_eq!(frame, vec![0, 0, 0, 0]);
}

#[test]
fn frame_length_uses_all_four_bytes() {
    let payload = vec![7u8; 0x01020304 % 100000];
    let frame = frame_message(&payload).unwrap();
    let n = payload.len() as u32;
    assert_eq!(frame[0], (n % 256) as u8);
    assert_eq!(frame[1], ((n / 256) % 256) as u8);
    assert_eq!(frame[2], ((n / 65536) % 256) as u8);
    assert_eq!(frame[3], (n / 16777216) as u8);
    assert_eq!(decode_length(frame[0], frame[1], frame[2], frame[3]), n);
}

#[test]
fn frame_rejects_oversized_payload() {
    let payload = vec![0u8; MAX_MESSAGE_SIZE + 1];
    assert!(frame_message(&payload).is_err());
    // Exactly at the bound is still accepted.
    let payload = vec![0u8; MAX_MESSAGE_SIZE];
    assert!(frame_message(&payload).is_ok());
}

#[test]
fn declared_length_gate() {
    assert!(accept_length(0));
    assert!(accept_length(MAX_MESSAGE_SIZE as u32));
    assert!(!accept_length(MAX_MESSAGE_SIZE as u32 + 1));
    assert!(!accept_length(u32::MAX));
}

#[test]
fn length_round_trip() {
    for n in [0u32, 1, 255, 256, 65535, 10 * 1024 * 1024] {
        let b = [
            (n % 256) as u8,
            ((n / 256) % 256) as u8,
            ((n / 65536) % 256) as u8,
            (n / 16777216) as u8,
        ];
        assert_eq!(decode_length(b[0], b[1], b[2], b[3]), n);
    }
}

#[test]
fn control_requests_drive_the_daemon_state() {
    let mut state = daemon_state();

    let (resp, stop) = handle_request(&mut state, PreviewRequest::Ping);
    assert!(matches!(resp, Some(PreviewResponse::Pong)));
    assert!(!stop);

    let (resp, stop) = handle_request(&mut state, PreviewRequest::GetPositions);
    match resp {
        Some(PreviewResponse::Positions(t)) => assert_eq!(t.len(), 0),
        other => panic!("unexpected response: {:?}", other),
    }
    assert!(!stop);

    let mut pushed = default_profiles().pop().unwrap();
    pushed.name = "pushed".to_string();
    let new_global = GlobalSettings { snap_threshold: 99, ..state.global };
    let (resp, stop) = handle_request(
        &mut state,
        PreviewRequest::SetProfile { profile: pushed, global: new_global },
    );
    assert!(matches!(resp, Some(PreviewResponse::Ready)));
    assert!(!stop);
    assert_eq!(state.profile.name, "pushed");
    assert_eq!(state.global.snap_threshold, 99);

    // Only a shutdown request stops the control service.
    let (resp, stop) = handle_request(&mut state, PreviewRequest::Shutdown);
    assert!(resp.is_none());
    assert!(stop);
}
