use rustsdlretro_core::api::{
    capture_frame, capture_wanted, png_frame_message, step_capture_mode, AllInputs, ApiReply, ApiState, CaptureMode,
    CapturedFrame, ClientMessage, InputSnapshot,
};

fn flash(r: &ApiReply) -> Option<(String, u64)> {
    match r {
        ApiReply::Flash { message, duration_ms } => Some((message.clone(), *duration_ms)),
        _ => None,
    }
}

#[test]
fn snapshot_buttons_follow_libretro_ids() {
    let mut s = InputSnapshot::released();
    s.a = true;
    s.up = true;
    assert_eq!(s.get_button(8), 1);
    assert_eq!(s.get_button(4), 1);
    assert_eq!(s.get_button(0), 0);
    assert_eq!(s.get_button(12), 0);
    let mut all = AllInputs::released();
    all.get_mut(2).b = true;
    assert_eq!(all.get_state(2, 0), 1);
    assert_eq!(all.get_state(1, 0), 0);
    all.get_mut(7).start = true;
    assert_eq!(all.get(0).start, true);
}

#[test]
fn web_input_is_read_back() {
    let mut api = ApiState::new();
    let mut buttons = InputSnapshot::released();
    buttons.right = true;
    let r = api.handle_message(ClientMessage::Input { port: 1, buttons });
    assert!(matches!(r, ApiReply::Nothing));
    assert_eq!(api.get_input_state(1, 7), 1);
    assert_eq!(api.get_input_state(0, 7), 0);
    assert_eq!(*api.get_input_snapshot(1), buttons);
}

#[test]
fn step_pauses_and_is_consumed_once() {
    let mut api = ApiState::new();
    assert!(api.is_running());
    let r = api.handle_message(ClientMessage::Step);
    assert!(matches!(r, ApiReply::FrameDone));
    assert!(!api.is_running());
    assert!(api.consume_frame_step());
    assert!(!api.consume_frame_step());
    assert!(matches!(api.handle_message(ClientMessage::Play), ApiReply::Status));
    assert!(api.is_running());
    assert!(matches!(api.handle_message(ClientMessage::Pause), ApiReply::Status));
    assert!(!api.is_running());
}

#[test]
fn save_and_load_requests_are_flagged_once() {
    let mut api = ApiState::new();
    let r = api.handle_message(ClientMessage::SaveState);
    assert_eq!(flash(&r), Some(("Save Requested".to_string(), 2000)));
    assert!(api.take_save_request());
    assert!(!api.take_save_request());
    let r = api.handle_message(ClientMessage::LoadState);
    assert_eq!(flash(&r), Some(("Load Requested".to_string(), 2000)));
    assert!(api.take_load_request());
    assert!(!api.take_load_request());
}

#[test]
fn option_changes_keep_latest_per_key() {
    let mut api = ApiState::new();
    let r = api.handle_message(ClientMessage::SetOption { key: "a".to_string(), value: "1".to_string() });
    assert_eq!(flash(&r), Some(("Option Updated".to_string(), 1500)));
    api.queue_option_change("b".to_string(), "2".to_string());
    api.queue_option_change("a".to_string(), "3".to_string());
    assert_eq!(
        api.take_pending_options(),
        vec![("b".to_string(), "2".to_string()), ("a".to_string(), "3".to_string())]
    );
    assert!(api.take_pending_options().is_empty());
}

#[test]
fn capture_converts_to_rgba() {
    // 2x1 XRGB8888, little-endian, pitch with padding
    let frame: Vec<u8> = vec![0x33, 0x22, 0x11, 0x00, 0x03, 0x02, 0x01, 0x00, 0xEE, 0xEE];
    let c = capture_frame(&frame, 2, 1, 10, 32);
    assert_eq!(c.width, 2);
    assert_eq!(c.height, 1);
    assert_eq!(c.pixels, vec![0x11, 0x22, 0x33, 0xFF, 0x01, 0x02, 0x03, 0xFF]);
    // 1x2 RGB565: pure red and pure blue
    let frame565: Vec<u8> = vec![0x00, 0xF8, 0x1F, 0x00];
    let c = capture_frame(&frame565, 1, 2, 2, 16);
    assert_eq!(c.pixels, vec![0xFF, 0x00, 0x00, 0xFF, 0x00, 0x00, 0xFF, 0xFF]);
}

#[test]
fn frame_message_is_header_then_png() {
    let f = CapturedFrame::new(300, 2);
    assert_eq!(f.pixels.len(), 300 * 2 * 4);
    let m = png_frame_message(&f).unwrap();
    assert_eq!(&m[..4], &[1, 44, 0, 2]);
    assert_eq!(&m[4..12], &[0x89, b'P', b'N', b'G', 0x0D, 0x0A, 0x1A, 0x0A]);
    assert!(m.len() > 12);
}

#[test]
fn frame_message_refuses_mismatched_buffer() {
    let f = CapturedFrame { width: 3, height: 2, pixels: vec![0; 3 * 2 * 4 - 1] };
    assert!(png_frame_message(&f).is_none());
    let huge = CapturedFrame { width: u32::MAX, height: u32::MAX, pixels: Vec::new() };
    assert!(png_frame_message(&huge).is_none());
    let wide = CapturedFrame { width: 0x4000_0000, height: 1, pixels: Vec::new() };
    assert!(png_frame_message(&wide).is_none());
}

#[test]
fn frame_message_refuses_empty_image() {
    let f = CapturedFrame { width: 0x4000_0000, height: 0, pixels: Vec::new() };
    assert!(png_frame_message(&f).is_none());
    let g = CapturedFrame::new(0, 5);
    assert!(png_frame_message(&g).is_none());
}

#[test]
fn capture_modes() {
    assert_eq!(step_capture_mode(CaptureMode::Idle), CaptureMode::SingleStep);
    assert_eq!(step_capture_mode(CaptureMode::Continuous), CaptureMode::Continuous);
    assert!(!capture_wanted(CaptureMode::Idle));
    assert!(capture_wanted(CaptureMode::SingleStep));
}
