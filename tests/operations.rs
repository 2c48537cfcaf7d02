use yainput::error::YAError;
use yainput::native::{Button, Coordinate, Direction, Key};
use yainput::ops::{
    after_ascii_attempt, clipboard_get, clipboard_set, clipboard_write_outcome, enter_text,
    input_outcome, key_action_with_code, key_action_with_platform_code, key_ascii_action,
    key_unicode_action, mouse_button, move_mouse, InputRequest, Step,
};
use yainput::platform::Platform;
use yainput::session::{Access, DeviceSlot};
use yainput::symbols::{CButton, CCoordinate, CDirection};

#[test]
fn error_codes_are_stable() {
    assert_eq!(YAError::Success.code(), 0);
    assert_eq!(YAError::PlatformError.code(), -1);
    assert_eq!(YAError::ClipboardError.code(), -2);
    assert_eq!(YAError::InvalidInput.code(), -3);
}

#[test]
fn unicode_out_of_range_is_invalid_input() {
    assert_eq!(key_unicode_action(0x110000, CDirection::Press), Err(YAError::InvalidInput));
    assert_eq!(key_unicode_action(0xD800, CDirection::Press), Err(YAError::InvalidInput));
    assert_eq!(key_unicode_action(0xDFFF, CDirection::Click), Err(YAError::InvalidInput));
}

#[test]
fn unicode_scalar_is_injected_literally() {
    assert_eq!(
        key_unicode_action(0x41, CDirection::Press),
        Ok(InputRequest::Key { key: Key::Unicode('A'), direction: Direction::Press })
    );
    assert_eq!(
        key_unicode_action(0x20AC, CDirection::Release),
        Ok(InputRequest::Key { key: Key::Unicode('€'), direction: Direction::Release })
    );
    assert_eq!(
        key_unicode_action(0x10FFFF, CDirection::Click),
        Ok(InputRequest::Key { key: Key::Unicode('\u{10FFFF}'), direction: Direction::Click })
    );
}

#[test]
fn ascii_a_goes_through_dedicated_key_on_windows() {
    let first = key_ascii_action('A' as u32, CDirection::Press, Platform::Windows);
    assert_eq!(first, Ok(InputRequest::Key { key: Key::A, direction: Direction::Press }));
    assert_eq!(
        after_ascii_attempt('A' as u32, CDirection::Press, Platform::Windows, Access::Done),
        Step::Finish(YAError::Success)
    );
}

#[test]
fn ascii_a_is_typed_literally_elsewhere() {
    for p in [Platform::MacOs, Platform::Unix] {
        let first = key_ascii_action('A' as u32, CDirection::Press, p);
        assert_eq!(first, Ok(InputRequest::Key { key: Key::Unicode('A'), direction: Direction::Press }));
        assert_eq!(after_ascii_attempt('A' as u32, CDirection::Press, p, Access::Done), Step::Finish(YAError::Success));
    }
}

#[test]
fn ascii_dedicated_failure_falls_back_to_literal() {
    assert_eq!(
        after_ascii_attempt('z' as u32, CDirection::Click, Platform::Windows, Access::Failed),
        Step::Perform(InputRequest::Key { key: Key::Unicode('z'), direction: Direction::Click })
    );
    assert_eq!(
        after_ascii_attempt('5' as u32, CDirection::Press, Platform::Windows, Access::Unavailable),
        Step::Perform(InputRequest::Key { key: Key::Unicode('5'), direction: Direction::Press })
    );
    assert_eq!(
        after_ascii_attempt('z' as u32, CDirection::Click, Platform::Unix, Access::Failed),
        Step::Finish(YAError::PlatformError)
    );
    assert_eq!(
        after_ascii_attempt(0x7F, CDirection::Click, Platform::Windows, Access::Done),
        Step::Finish(YAError::InvalidInput)
    );
}

#[test]
fn ascii_without_dedicated_key_on_windows() {
    assert_eq!(
        key_ascii_action('!' as u32, CDirection::Press, Platform::Windows),
        Ok(InputRequest::Key { key: Key::Unicode('!'), direction: Direction::Press })
    );
    assert_eq!(
        key_ascii_action(' ' as u32, CDirection::Press, Platform::Windows),
        Ok(InputRequest::Key { key: Key::Space, direction: Direction::Press })
    );
    assert_eq!(
        key_ascii_action('9' as u32, CDirection::Release, Platform::Windows),
        Ok(InputRequest::Key { key: Key::Num9, direction: Direction::Release })
    );
    assert_eq!(
        after_ascii_attempt('!' as u32, CDirection::Press, Platform::Windows, Access::Failed),
        Step::Finish(YAError::PlatformError)
    );
}

#[test]
fn ascii_outside_printable_range_is_invalid_input() {
    assert_eq!(key_ascii_action(0x1F, CDirection::Press, Platform::Unix), Err(YAError::InvalidInput));
    assert_eq!(key_ascii_action(0x7F, CDirection::Press, Platform::Windows), Err(YAError::InvalidInput));
    assert_eq!(key_ascii_action(0xE9, CDirection::Press, Platform::MacOs), Err(YAError::InvalidInput));
}

#[test]
fn absolute_then_relative_moves() {
    assert_eq!(
        move_mouse(100, 100, CCoordinate::Abs),
        InputRequest::Move { x: 100, y: 100, coordinate: Coordinate::Abs }
    );
    assert_eq!(
        move_mouse(10, -10, CCoordinate::Rel),
        InputRequest::Move { x: 10, y: -10, coordinate: Coordinate::Rel }
    );
}

#[test]
fn mouse_button_requests() {
    assert_eq!(
        mouse_button(CButton::Back, CDirection::Click, Platform::MacOs),
        InputRequest::Button { button: Button::Left, direction: Direction::Click }
    );
    assert_eq!(
        mouse_button(CButton::Forward, CDirection::Press, Platform::Unix),
        InputRequest::Button { button: Button::Forward, direction: Direction::Press }
    );
}

#[test]
fn raw_codes() {
    assert_eq!(
        key_action_with_platform_code(0xFF0D, CDirection::Click),
        InputRequest::Key { key: Key::Other(0xFF0D), direction: Direction::Click }
    );
    assert_eq!(
        key_action_with_code(65, CDirection::Press),
        Ok(InputRequest::Key { key: Key::Unicode('A'), direction: Direction::Press })
    );
    assert_eq!(
        key_action_with_code(0, CDirection::Press),
        Ok(InputRequest::Key { key: Key::Unicode('\0'), direction: Direction::Press })
    );
    assert_eq!(key_action_with_code(-1, CDirection::Press), Err(YAError::InvalidInput));
    assert_eq!(key_action_with_code(-128, CDirection::Release), Err(YAError::InvalidInput));
}

#[test]
fn enter_text_checks_its_input() {
    assert_eq!(enter_text(None), Err(YAError::InvalidInput));
    assert_eq!(enter_text(Some(&[0x68, 0xFF, 0x69][..])), Err(YAError::InvalidInput));
    assert_eq!(enter_text(Some(&[0xED, 0xA0, 0x80][..])), Err(YAError::InvalidInput));
    assert_eq!(
        enter_text(Some("grüße".as_bytes())),
        Ok(InputRequest::Text { text: String::from("grüße") })
    );
    assert_eq!(enter_text(Some(&[][..])), Ok(InputRequest::Text { text: String::new() }));
}

#[test]
fn clipboard_round_trip_keeps_bytes() {
    let bytes = "naïve ☃ text".as_bytes();
    let written = clipboard_set(Some(bytes)).unwrap();
    assert_eq!(written, "naïve ☃ text");
    let read = clipboard_get(Some(written)).unwrap();
    assert_eq!(read.as_bytes(), bytes);
}

#[test]
fn clipboard_set_checks_its_input() {
    assert_eq!(clipboard_set(None), Err(YAError::InvalidInput));
    assert_eq!(clipboard_set(Some(&[0xC3][..])), Err(YAError::InvalidInput));
}

#[test]
fn clipboard_get_rejects_nul_and_failures() {
    assert_eq!(clipboard_get(None), None);
    assert_eq!(clipboard_get(Some(String::from("a\0b"))), None);
    assert_eq!(clipboard_get(Some(String::new())), Some(String::new()));
}

#[test]
fn outcomes_map_to_codes() {
    assert_eq!(input_outcome(Access::Done), YAError::Success);
    assert_eq!(input_outcome(Access::Failed), YAError::PlatformError);
    assert_eq!(input_outcome(Access::Unavailable), YAError::PlatformError);
    assert_eq!(clipboard_write_outcome(Access::Done), YAError::Success);
    assert_eq!(clipboard_write_outcome(Access::Failed), YAError::ClipboardError);
    assert_eq!(clipboard_write_outcome(Access::Unavailable), YAError::ClipboardError);
}

#[test]
fn failed_open_is_retried_on_next_access() {
    let mut slot: DeviceSlot<u32> = DeviceSlot::new();
    assert!(slot.needs_open());
    // permission not granted yet
    assert!(!slot.record_open(Err::<u32, ()>(())));
    assert!(slot.device().is_none());
    assert_eq!(input_outcome(Access::Unavailable), YAError::PlatformError);
    // the next call opens again, and now succeeds
    assert!(slot.needs_open());
    assert!(slot.record_open(Ok::<u32, ()>(7)));
    assert!(!slot.needs_open());
    let d = slot.device().unwrap();
    *d += 1;
    assert_eq!(slot.device().copied(), Some(8));
    assert_eq!(input_outcome(Access::Done), YAError::Success);
}

#[test]
fn ready_slot_keeps_its_handle() {
    let mut slot: DeviceSlot<u32> = DeviceSlot::new();
    assert!(slot.record_open(Ok::<u32, ()>(1)));
    assert!(slot.record_open(Ok::<u32, ()>(2)));
    assert!(slot.record_open(Err::<u32, ()>(())));
    assert_eq!(slot.device().copied(), Some(1));
}
