use yainput::error::YAError;
use yainput::native::{Button, Coordinate, Direction, Key};
use yainput::ops::{key_action, InputRequest};
use yainput::platform::{Availability, Platform};
use yainput::symbols::{CButton, CCoordinate, CDirection, CKey};

const PLATFORMS: [Platform; 3] = [Platform::Windows, Platform::MacOs, Platform::Unix];

#[test]
fn directions_and_coordinates_always_translate() {
    assert_eq!(CDirection::Press.cast(), Direction::Press);
    assert_eq!(CDirection::Release.cast(), Direction::Release);
    assert_eq!(CDirection::Click.cast(), Direction::Click);
    assert_eq!(CCoordinate::Abs.cast(), Coordinate::Abs);
    assert_eq!(CCoordinate::Rel.cast(), Coordinate::Rel);
}

#[test]
fn buttons_translate_on_every_platform() {
    for p in PLATFORMS {
        assert_eq!(CButton::Left.cast(p), Button::Left);
        assert_eq!(CButton::Middle.cast(p), Button::Middle);
        assert_eq!(CButton::Right.cast(p), Button::Right);
        assert_eq!(CButton::ScrollUp.cast(p), Button::ScrollUp);
        assert_eq!(CButton::ScrollDown.cast(p), Button::ScrollDown);
        assert_eq!(CButton::ScrollLeft.cast(p), Button::ScrollLeft);
        assert_eq!(CButton::ScrollRight.cast(p), Button::ScrollRight);
    }
}

#[test]
fn back_and_forward_degrade_on_macos() {
    assert_eq!(CButton::Back.cast(Platform::MacOs), Button::Left);
    assert_eq!(CButton::Forward.cast(Platform::MacOs), Button::Right);
    assert_eq!(CButton::Back.cast(Platform::Windows), Button::Back);
    assert_eq!(CButton::Forward.cast(Platform::Unix), Button::Forward);
}

#[test]
fn letters_and_digits_per_platform() {
    assert_eq!(CKey::A.cast(Platform::Windows), Ok(Key::A));
    assert_eq!(CKey::Num0.cast(Platform::Windows), Ok(Key::Num0));
    assert_eq!(CKey::A.cast(Platform::MacOs), Ok(Key::Unicode('a')));
    assert_eq!(CKey::Z.cast(Platform::MacOs), Ok(Key::Unicode('z')));
    assert_eq!(CKey::Num7.cast(Platform::MacOs), Ok(Key::Unicode('7')));
    assert!(CKey::A.cast(Platform::Unix).is_err());
    assert!(CKey::Num9.cast(Platform::Unix).is_err());
}

#[test]
fn renamed_keys_translate_to_backend_names() {
    for p in PLATFORMS {
        assert_eq!(CKey::Escape_k.cast(p), Ok(Key::Escape));
        assert_eq!(CKey::F20.cast(p), Ok(Key::F20));
        assert_eq!(CKey::Return.cast(p), Ok(Key::Return));
    }
    assert_eq!(CKey::Sleep_k.cast(Platform::Windows), Ok(Key::Sleep));
    assert_eq!(CKey::None_k.cast(Platform::Windows), Ok(Key::None_k));
    assert!(CKey::Sleep_k.cast(Platform::Unix).is_err());
}

#[test]
fn platform_specific_keys() {
    assert_eq!(CKey::Linefeed.cast(Platform::Unix), Ok(Key::Linefeed));
    assert!(CKey::Linefeed.cast(Platform::Windows).is_err());
    assert!(CKey::Linefeed.cast(Platform::MacOs).is_err());
    assert_eq!(CKey::Eject.cast(Platform::MacOs), Ok(Key::Eject));
    assert!(CKey::Eject.cast(Platform::Unix).is_err());
    assert_eq!(CKey::Insert.cast(Platform::Windows), Ok(Key::Insert));
    assert_eq!(CKey::Insert.cast(Platform::Unix), Ok(Key::Insert));
    assert!(CKey::Insert.cast(Platform::MacOs).is_err());
    assert_eq!(CKey::Numpad5.cast(Platform::Windows), Ok(Key::Numpad5));
    assert!(CKey::Numpad5.cast(Platform::Unix).is_err());
    assert_eq!(CKey::F35.cast(Platform::Unix), Ok(Key::F35));
    assert!(CKey::F21.cast(Platform::MacOs).is_err());
}

#[test]
fn reserved_key_never_translates() {
    assert_eq!(CKey::Command.availability(), Availability::Reserved);
    for p in PLATFORMS {
        assert!(CKey::Command.cast(p).is_err());
        assert_eq!(key_action(CKey::Command, CDirection::Click, p), Err(YAError::InvalidInput));
    }
}

#[test]
fn unsupported_key_action_is_invalid_input() {
    assert_eq!(key_action(CKey::A, CDirection::Press, Platform::Unix), Err(YAError::InvalidInput));
    assert_eq!(
        key_action(CKey::GamepadA, CDirection::Press, Platform::MacOs),
        Err(YAError::InvalidInput)
    );
    assert_eq!(
        key_action(CKey::Power, CDirection::Release, Platform::Windows),
        Err(YAError::InvalidInput)
    );
}

#[test]
fn supported_key_action_requests_the_key() {
    assert_eq!(
        key_action(CKey::F1, CDirection::Press, Platform::Unix),
        Ok(InputRequest::Key { key: Key::F1, direction: Direction::Press })
    );
    assert_eq!(
        key_action(CKey::B, CDirection::Click, Platform::MacOs),
        Ok(InputRequest::Key { key: Key::Unicode('b'), direction: Direction::Click })
    );
}

#[test]
fn availability_queries() {
    assert!(Availability::Everywhere.is_available_on(Platform::Unix));
    assert!(!Availability::Alphanumeric.is_available_on(Platform::Unix));
    assert!(Availability::Alphanumeric.is_available_on(Platform::MacOs));
    assert!(!Availability::WindowsAndUnix.is_available_on(Platform::MacOs));
    assert!(!Availability::Reserved.is_available_on(Platform::Windows));
    assert_eq!(CKey::F25.availability(), Availability::UnixOnly);
}
