use vstd::prelude::*;

use crate::native::{Button, Coordinate, Direction, Key};
use crate::platform::{available_on, Availability, Platform};

verus! {

/// Whether a pointer movement is absolute or relative, as callers name it.
#[derive(Debug, Clone, Copy, PartialEq, Eq, Structural)]
pub enum CCoordinate {
    Abs,
    Rel,
}

/// The backend's coordinate mode for each symbolic one.
pub open spec fn coordinate_of(c: CCoordinate) -> Coordinate {
    match c {
        CCoordinate::Abs => Coordinate::Abs,
        CCoordinate::Rel => Coordinate::Rel,
    }
}

impl CCoordinate {
    /// The backend's coordinate mode; defined for every value on every platform.
    pub fn cast(&self) -> (r: Coordinate)
        ensures
            r == coordinate_of(*self),
    {
        match self {
            CCoordinate::Abs => Coordinate::Abs,
            CCoordinate::Rel => Coordinate::Rel,
        }
    }
}

/// A mouse button or scroll step, as callers name it.
#[derive(Debug, Clone, Copy, PartialEq, Eq, Structural)]
pub enum CButton {
    Left,
    Middle,
    Right,
    Back,
    Forward,
    ScrollUp,
    ScrollDown,
    ScrollLeft,
    ScrollRight,
}

/// The backend's button for `b` on `p`. macOS has no back and forward
/// buttons: there they fall back to the left and right buttons.
pub open spec fn button_of(p: Platform, b: CButton) -> Button {
    match b {
        CButton::Left => Button::Left,
        CButton::Middle => Button::Middle,
        CButton::Right => Button::Right,
        CButton::Back => if p == Platform::MacOs { Button::Left } else { Button::Back },
        CButton::Forward => if p == Platform::MacOs { Button::Right } else { Button::Forward },
        CButton::ScrollUp => Button::ScrollUp,
        CButton::ScrollDown => Button::ScrollDown,
        CButton::ScrollLeft => Button::ScrollLeft,
        CButton::ScrollRight => Button::ScrollRight,
    }
}

impl CButton {
    /// The backend's button on `platform`; defined for every button on every
    /// platform.
    pub fn cast(&self, platform: Platform) -> (r: Button)
        ensures
            r == button_of(platform, *self),
    {
        let on_mac = matches!(platform, Platform::MacOs);
        match self {
            CButton::Left => Button::Left,
            CButton::Middle => Button::Middle,
            CButton::Right => Button::Right,
            CButton::Back => if on_mac { Button::Left } else { Button::Back },
            CButton::Forward => if on_mac { Button::Right } else { Button::Forward },
            CButton::ScrollUp => Button::ScrollUp,
            CButton::ScrollDown => Button::ScrollDown,
            CButton::ScrollLeft => Button::ScrollLeft,
            CButton::ScrollRight => Button::ScrollRight,
        }
    }
}

/// Press, release, or click (press and release as one unit), as callers name it.
#[derive(Debug, Clone, Copy, PartialEq, Eq, Structural)]
pub enum CDirection {
    Press,
    Release,
    Click,
}

/// The backend's direction for each symbolic one.
pub open spec fn direction_of(d: CDirection) -> Direction {
    match d {
        CDirection::Press => Direction::Press,
        CDirection::Release => Direction::Release,
        CDirection::Click => Direction::Click,
    }
}

impl CDirection {
    /// The backend's direction; defined for every value on every platform.
    pub fn cast(&self) -> (r: Direction)
        ensures
            r == direction_of(*self),
    {
        match self {
            CDirection::Press => Direction::Press,
            CDirection::Release => Direction::Release,
            CDirection::Click => Direction::Click,
        }
    }
}

/// A platform-independent key identifier, stable across the ABI.
#[allow(non_camel_case_types)]
#[derive(Debug, Clone, Copy, PartialEq, Eq, Structural)]
pub enum CKey {
    Num0,
    Num1,
    Num2,
    Num3,
    Num4,
    Num5,
    Num6,
    Num7,
    Num8,
    Num9,
    A,
    B,
    C,
    D,
    E,
    F,
    G,
    H,
    I,
    J,
    K,
    L,
    M,
    N,
    O,
    P,
    Q,
    R,
    S,
    T,
    U,
    V,
    W,
    X,
    Y,
    Z,
    AbntC1,
    AbntC2,
    Accept,
    Add,
    Alt,
    Apps,
    Attn,
    Backspace,
    Break,
    Begin,
    BrightnessDown,
    BrightnessUp,
    BrowserBack,
    BrowserFavorites,
    BrowserForward,
    BrowserHome,
    BrowserRefresh,
    BrowserSearch,
    BrowserStop,
    Cancel,
    CapsLock,
    Clear,
    Command,
    ContrastUp,
    ContrastDown,
    Control,
    Convert,
    Crsel,
    DBEAlphanumeric,
    DBECodeinput,
    DBEDetermineString,
    DBEEnterDLGConversionMode,
    DBEEnterIMEConfigMode,
    DBEEnterWordRegisterMode,
    DBEFlushString,
    DBEHiragana,
    DBEKatakana,
    DBENoCodepoint,
    DBENoRoman,
    DBERoman,
    DBESBCSChar,
    DBESChar,
    Decimal,
    Delete,
    Divide,
    DownArrow,
    Eject,
    End,
    Ereof,
    Escape_k,
    Execute,
    Exsel,
    F1,
    F2,
    F3,
    F4,
    F5,
    F6,
    F7,
    F8,
    F9,
    F10,
    F11,
    F12,
    F13,
    F14,
    F15,
    F16,
    F17,
    F18,
    F19,
    F20,
    F21,
    F22,
    F23,
    F24,
    F25,
    F26,
    F27,
    F28,
    F29,
    F30,
    F31,
    F32,
    F33,
    F34,
    F35,
    Function,
    Final,
    Find,
    GamepadA,
    GamepadB,
    GamepadDPadDown,
    GamepadDPadLeft,
    GamepadDPadRight,
    GamepadDPadUp,
    GamepadLeftShoulder,
    GamepadLeftThumbstickButton,
    GamepadLeftThumbstickDown,
    GamepadLeftThumbstickLeft,
    GamepadLeftThumbstickRight,
    GamepadLeftThumbstickUp,
    GamepadLeftTrigger,
    GamepadMenu,
    GamepadRightShoulder,
    GamepadRightThumbstickButton,
    GamepadRightThumbstickDown,
    GamepadRightThumbstickLeft,
    GamepadRightThumbstickRight,
    GamepadRightThumbstickUp,
    GamepadRightTrigger,
    GamepadView,
    GamepadX,
    GamepadY,
    Hangeul,
    Hangul,
    Hanja,
    Help,
    Home,
    Ico00,
    IcoClear,
    IcoHelp,
    IlluminationDown,
    IlluminationUp,
    IlluminationToggle,
    IMEOff,
    IMEOn,
    Insert,
    Junja,
    Kana,
    Kanji,
    LaunchApp1,
    LaunchApp2,
    LaunchMail,
    LaunchMediaSelect,
    Launchpad,
    LaunchPanel,
    LButton,
    LControl,
    LeftArrow,
    Linefeed,
    LMenu,
    LShift,
    LWin,
    MButton,
    MediaFast,
    MediaNextTrack,
    MediaPlayPause,
    MediaPrevTrack,
    MediaRewind,
    MediaStop,
    Meta,
    MissionControl,
    ModeChange,
    Multiply,
    NavigationAccept,
    NavigationCancel,
    NavigationDown,
    NavigationLeft,
    NavigationMenu,
    NavigationRight,
    NavigationUp,
    NavigationView,
    NoName,
    NonConvert,
    None_k,
    Numlock,
    Numpad0,
    Numpad1,
    Numpad2,
    Numpad3,
    Numpad4,
    Numpad5,
    Numpad6,
    Numpad7,
    Numpad8,
    Numpad9,
    OEM1,
    OEM102,
    OEM2,
    OEM3,
    OEM4,
    OEM5,
    OEM6,
    OEM7,
    OEM8,
    OEMAttn,
    OEMAuto,
    OEMAx,
    OEMBacktab,
    OEMClear,
    OEMComma,
    OEMCopy,
    OEMCusel,
    OEMEnlw,
    OEMFinish,
    OEMFJJisho,
    OEMFJLoya,
    OEMFJMasshou,
    OEMFJRoya,
    OEMFJTouroku,
    OEMJump,
    OEMMinus,
    OEMNECEqual,
    OEMPA1,
    OEMPA2,
    OEMPA3,
    OEMPeriod,
    OEMPlus,
    OEMReset,
    OEMWsctrl,
    Option,
    PA1,
    Packet,
    PageDown,
    PageUp,
    Pause,
    Play,
    Power,
    PrintScr,
    Processkey,
    RButton,
    RCommand,
    RControl,
    Redo,
    Return,
    RightArrow,
    RMenu,
    ROption,
    RShift,
    RWin,
    Scroll,
    ScrollLock,
    Select,
    ScriptSwitch,
    Separator,
    Shift,
    ShiftLock,
    Sleep_k,
    Space,
    Subtract,
    Tab,
    Undo,
    UpArrow,
    VidMirror,
    VolumeDown,
    VolumeMute,
    VolumeUp,
    MicMute,
    XButton1,
    XButton2,
    Zoom,
}

/// On which platforms each symbolic key translates.
pub open spec fn key_availability(k: CKey) -> Availability {
    match k {
        CKey::Alt | CKey::Backspace | CKey::CapsLock | CKey::Control | CKey::Delete
        | CKey::DownArrow | CKey::End | CKey::Escape_k | CKey::F1 | CKey::F2 | CKey::F3
        | CKey::F4 | CKey::F5 | CKey::F6 | CKey::F7 | CKey::F8 | CKey::F9 | CKey::F10
        | CKey::F11 | CKey::F12 | CKey::F13 | CKey::F14 | CKey::F15 | CKey::F16 | CKey::F17
        | CKey::F18 | CKey::F19 | CKey::F20 | CKey::Help | CKey::Home | CKey::LControl
        | CKey::LeftArrow | CKey::LShift | CKey::MediaNextTrack | CKey::MediaPlayPause
        | CKey::MediaPrevTrack | CKey::Meta | CKey::Option | CKey::PageDown | CKey::PageUp
        | CKey::RControl | CKey::Return | CKey::RightArrow | CKey::RShift | CKey::Shift
        | CKey::Space | CKey::Tab | CKey::UpArrow | CKey::VolumeDown | CKey::VolumeMute
        | CKey::VolumeUp => Availability::Everywhere,
        CKey::AbntC1 | CKey::AbntC2 | CKey::Accept | CKey::Add | CKey::Apps | CKey::Attn
        | CKey::BrowserBack | CKey::BrowserFavorites | CKey::BrowserForward
        | CKey::BrowserHome | CKey::BrowserRefresh | CKey::BrowserSearch | CKey::BrowserStop
        | CKey::Convert | CKey::Crsel | CKey::DBEAlphanumeric | CKey::DBECodeinput
        | CKey::DBEDetermineString | CKey::DBEEnterDLGConversionMode
        | CKey::DBEEnterIMEConfigMode | CKey::DBEEnterWordRegisterMode | CKey::DBEFlushString
        | CKey::DBEHiragana | CKey::DBEKatakana | CKey::DBENoCodepoint | CKey::DBENoRoman
        | CKey::DBERoman | CKey::DBESBCSChar | CKey::DBESChar | CKey::Decimal | CKey::Divide
        | CKey::Ereof | CKey::Exsel | CKey::Final | CKey::GamepadA | CKey::GamepadB
        | CKey::GamepadDPadDown | CKey::GamepadDPadLeft | CKey::GamepadDPadRight
        | CKey::GamepadDPadUp | CKey::GamepadLeftShoulder | CKey::GamepadLeftThumbstickButton
        | CKey::GamepadLeftThumbstickDown | CKey::GamepadLeftThumbstickLeft
        | CKey::GamepadLeftThumbstickRight | CKey::GamepadLeftThumbstickUp
        | CKey::GamepadLeftTrigger | CKey::GamepadMenu | CKey::GamepadRightShoulder
        | CKey::GamepadRightThumbstickButton | CKey::GamepadRightThumbstickDown
        | CKey::GamepadRightThumbstickLeft | CKey::GamepadRightThumbstickRight
        | CKey::GamepadRightThumbstickUp | CKey::GamepadRightTrigger | CKey::GamepadView
        | CKey::GamepadX | CKey::GamepadY | CKey::Hangeul | CKey::Ico00 | CKey::IcoClear
        | CKey::IcoHelp | CKey::IMEOff | CKey::IMEOn | CKey::Junja | CKey::Kana
        | CKey::LaunchApp1 | CKey::LaunchApp2 | CKey::LaunchMail | CKey::LaunchMediaSelect
        | CKey::LButton | CKey::LWin | CKey::MButton | CKey::Multiply | CKey::NavigationAccept
        | CKey::NavigationCancel | CKey::NavigationDown | CKey::NavigationLeft
        | CKey::NavigationMenu | CKey::NavigationRight | CKey::NavigationUp
        | CKey::NavigationView | CKey::NoName | CKey::NonConvert | CKey::None_k | CKey::Numpad0
        | CKey::Numpad1 | CKey::Numpad2 | CKey::Numpad3 | CKey::Numpad4 | CKey::Numpad5
        | CKey::Numpad6 | CKey::Numpad7 | CKey::Numpad8 | CKey::Numpad9 | CKey::OEM1
        | CKey::OEM102 | CKey::OEM2 | CKey::OEM3 | CKey::OEM4 | CKey::OEM5 | CKey::OEM6
        | CKey::OEM7 | CKey::OEM8 | CKey::OEMAttn | CKey::OEMAuto | CKey::OEMAx
        | CKey::OEMBacktab | CKey::OEMClear | CKey::OEMComma | CKey::OEMCopy | CKey::OEMCusel
        | CKey::OEMEnlw | CKey::OEMFinish | CKey::OEMFJJisho | CKey::OEMFJLoya
        | CKey::OEMFJMasshou | CKey::OEMFJRoya | CKey::OEMFJTouroku | CKey::OEMJump
        | CKey::OEMMinus | CKey::OEMNECEqual | CKey::OEMPA1 | CKey::OEMPA2 | CKey::OEMPA3
        | CKey::OEMPeriod | CKey::OEMPlus | CKey::OEMReset | CKey::OEMWsctrl | CKey::PA1
        | CKey::Packet | CKey::Play | CKey::Processkey | CKey::RButton | CKey::RMenu
        | CKey::RWin | CKey::Scroll | CKey::Separator | CKey::Sleep_k | CKey::Subtract
        | CKey::XButton1 | CKey::XButton2 | CKey::Zoom => Availability::WindowsOnly,
        CKey::BrightnessDown | CKey::BrightnessUp | CKey::ContrastUp | CKey::ContrastDown
        | CKey::Eject | CKey::Function | CKey::IlluminationDown | CKey::IlluminationUp
        | CKey::IlluminationToggle | CKey::Launchpad | CKey::LaunchPanel | CKey::MediaFast
        | CKey::MediaRewind | CKey::MissionControl | CKey::Power | CKey::RCommand
        | CKey::ROption | CKey::VidMirror => Availability::MacOsOnly,
        CKey::Break | CKey::Begin | CKey::F25 | CKey::F26 | CKey::F27 | CKey::F28 | CKey::F29
        | CKey::F30 | CKey::F31 | CKey::F32 | CKey::F33 | CKey::F34 | CKey::F35 | CKey::Find
        | CKey::Linefeed | CKey::Redo | CKey::ScrollLock | CKey::ScriptSwitch
        | CKey::ShiftLock | CKey::Undo | CKey::MicMute => Availability::UnixOnly,
        CKey::Cancel | CKey::Clear | CKey::Execute | CKey::F21 | CKey::F22 | CKey::F23
        | CKey::F24 | CKey::Hangul | CKey::Hanja | CKey::Insert | CKey::Kanji | CKey::LMenu
        | CKey::MediaStop | CKey::ModeChange | CKey::Numlock | CKey::Pause | CKey::PrintScr
        | CKey::Select => Availability::WindowsAndUnix,
        CKey::Num0 | CKey::Num1 | CKey::Num2 | CKey::Num3 | CKey::Num4 | CKey::Num5
        | CKey::Num6 | CKey::Num7 | CKey::Num8 | CKey::Num9 | CKey::A | CKey::B | CKey::C
        | CKey::D | CKey::E | CKey::F | CKey::G | CKey::H | CKey::I | CKey::J | CKey::K
        | CKey::L | CKey::M | CKey::N | CKey::O | CKey::P | CKey::Q | CKey::R | CKey::S
        | CKey::T | CKey::U | CKey::V | CKey::W | CKey::X | CKey::Y | CKey::Z => Availability::Alphanumeric,
        CKey::Command => Availability::Reserved,
    }
}

/// The backend's dedicated key of the same name, where there is one.
pub open spec fn key_name(k: CKey) -> Option<Key> {
    match k {
        CKey::Num0 => Some(Key::Num0),
        CKey::Num1 => Some(Key::Num1),
        CKey::Num2 => Some(Key::Num2),
        CKey::Num3 => Some(Key::Num3),
        CKey::Num4 => Some(Key::Num4),
        CKey::Num5 => Some(Key::Num5),
        CKey::Num6 => Some(Key::Num6),
        CKey::Num7 => Some(Key::Num7),
        CKey::Num8 => Some(Key::Num8),
        CKey::Num9 => Some(Key::Num9),
        CKey::A => Some(Key::A),
        CKey::B => Some(Key::B),
        CKey::C => Some(Key::C),
        CKey::D => Some(Key::D),
        CKey::E => Some(Key::E),
        CKey::F => Some(Key::F),
        CKey::G => Some(Key::G),
        CKey::H => Some(Key::H),
        CKey::I => Some(Key::I),
        CKey::J => Some(Key::J),
        CKey::K => Some(Key::K),
        CKey::L => Some(Key::L),
        CKey::M => Some(Key::M),
        CKey::N => Some(Key::N),
        CKey::O => Some(Key::O),
        CKey::P => Some(Key::P),
        CKey::Q => Some(Key::Q),
        CKey::R => Some(Key::R),
        CKey::S => Some(Key::S),
        CKey::T => Some(Key::T),
        CKey::U => Some(Key::U),
        CKey::V => Some(Key::V),
        CKey::W => Some(Key::W),
        CKey::X => Some(Key::X),
        CKey::Y => Some(Key::Y),
        CKey::Z => Some(Key::Z),
        CKey::AbntC1 => Some(Key::AbntC1),
        CKey::AbntC2 => Some(Key::AbntC2),
        CKey::Accept => Some(Key::Accept),
        CKey::Add => Some(Key::Add),
        CKey::Alt => Some(Key::Alt),
        CKey::Apps => Some(Key::Apps),
        CKey::Attn => Some(Key::Attn),
        CKey::Backspace => Some(Key::Backspace),
        CKey::Break => Some(Key::Break),
        CKey::Begin => Some(Key::Begin),
        CKey::BrightnessDown => Some(Key::BrightnessDown),
        CKey::BrightnessUp => Some(Key::BrightnessUp),
        CKey::BrowserBack => Some(Key::BrowserBack),
        CKey::BrowserFavorites => Some(Key::BrowserFavorites),
        CKey::BrowserForward => Some(Key::BrowserForward),
        CKey::BrowserHome => Some(Key::BrowserHome),
        CKey::BrowserRefresh => Some(Key::BrowserRefresh),
        CKey::BrowserSearch => Some(Key::BrowserSearch),
        CKey::BrowserStop => Some(Key::BrowserStop),
        CKey::Cancel => Some(Key::Cancel),
        CKey::CapsLock => Some(Key::CapsLock),
        CKey::Clear => Some(Key::Clear),
        CKey::ContrastUp => Some(Key::ContrastUp),
        CKey::ContrastDown => Some(Key::ContrastDown),
        CKey::Control => Some(Key::Control),
        CKey::Convert => Some(Key::Convert),
        CKey::Crsel => Some(Key::Crsel),
        CKey::DBEAlphanumeric => Some(Key::DBEAlphanumeric),
        CKey::DBECodeinput => Some(Key::DBECodeinput),
        CKey::DBEDetermineString => Some(Key::DBEDetermineString),
        CKey::DBEEnterDLGConversionMode => Some(Key::DBEEnterDLGConversionMode),
        CKey::DBEEnterIMEConfigMode => Some(Key::DBEEnterIMEConfigMode),
        CKey::DBEEnterWordRegisterMode => Some(Key::DBEEnterWordRegisterMode),
        CKey::DBEFlushString => Some(Key::DBEFlushString),
        CKey::DBEHiragana => Some(Key::DBEHiragana),
        CKey::DBEKatakana => Some(Key::DBEKatakana),
        CKey::DBENoCodepoint => Some(Key::DBENoCodepoint),
        CKey::DBENoRoman => Some(Key::DBENoRoman),
        CKey::DBERoman => Some(Key::DBERoman),
        CKey::DBESBCSChar => Some(Key::DBESBCSChar),
        CKey::DBESChar => Some(Key::DBESChar),
        CKey::Decimal => Some(Key::Decimal),
        CKey::Delete => Some(Key::Delete),
        CKey::Divide => Some(Key::Divide),
        CKey::DownArrow => Some(Key::DownArrow),
        CKey::Eject => Some(Key::Eject),
        CKey::End => Some(Key::End),
        CKey::Ereof => Some(Key::Ereof),
        CKey::Escape_k => Some(Key::Escape),
        CKey::Execute => Some(Key::Execute),
        CKey::Exsel => Some(Key::Exsel),
        CKey::F1 => Some(Key::F1),
        CKey::F2 => Some(Key::F2),
        CKey::F3 => Some(Key::F3),
        CKey::F4 => Some(Key::F4),
        CKey::F5 => Some(Key::F5),
        CKey::F6 => Some(Key::F6),
        CKey::F7 => Some(Key::F7),
        CKey::F8 => Some(Key::F8),
        CKey::F9 => Some(Key::F9),
        CKey::F10 => Some(Key::F10),
        CKey::F11 => Some(Key::F11),
        CKey::F12 => Some(Key::F12),
        CKey::F13 => Some(Key::F13),
        CKey::F14 => Some(Key::F14),
        CKey::F15 => Some(Key::F15),
        CKey::F16 => Some(Key::F16),
        CKey::F17 => Some(Key::F17),
        CKey::F18 => Some(Key::F18),
        CKey::F19 => Some(Key::F19),
        CKey::F20 => Some(Key::F20),
        CKey::F21 => Some(Key::F21),
        CKey::F22 => Some(Key::F22),
        CKey::F23 => Some(Key::F23),
        CKey::F24 => Some(Key::F24),
        CKey::F25 => Some(Key::F25),
        CKey::F26 => Some(Key::F26),
        CKey::F27 => Some(Key::F27),
        CKey::F28 => Some(Key::F28),
        CKey::F29 => Some(Key::F29),
        CKey::F30 => Some(Key::F30),
        CKey::F31 => Some(Key::F31),
        CKey::F32 => Some(Key::F32),
        CKey::F33 => Some(Key::F33),
        CKey::F34 => Some(Key::F34),
        CKey::F35 => Some(Key::F35),
        CKey::Function => Some(Key::Function),
        CKey::Final => Some(Key::Final),
        CKey::Find => Some(Key::Find),
        CKey::GamepadA => Some(Key::GamepadA),
        CKey::GamepadB => Some(Key::GamepadB),
        CKey::GamepadDPadDown => Some(Key::GamepadDPadDown),
        CKey::GamepadDPadLeft => Some(Key::GamepadDPadLeft),
        CKey::GamepadDPadRight => Some(Key::GamepadDPadRight),
        CKey::GamepadDPadUp => Some(Key::GamepadDPadUp),
        CKey::GamepadLeftShoulder => Some(Key::GamepadLeftShoulder),
        CKey::GamepadLeftThumbstickButton => Some(Key::GamepadLeftThumbstickButton),
        CKey::GamepadLeftThumbstickDown => Some(Key::GamepadLeftThumbstickDown),
        CKey::GamepadLeftThumbstickLeft => Some(Key::GamepadLeftThumbstickLeft),
        CKey::GamepadLeftThumbstickRight => Some(Key::GamepadLeftThumbstickRight),
        CKey::GamepadLeftThumbstickUp => Some(Key::GamepadLeftThumbstickUp),
        CKey::GamepadLeftTrigger => Some(Key::GamepadLeftTrigger),
        CKey::GamepadMenu => Some(Key::GamepadMenu),
        CKey::GamepadRightShoulder => Some(Key::GamepadRightShoulder),
        CKey::GamepadRightThumbstickButton => Some(Key::GamepadRightThumbstickButton),
        CKey::GamepadRightThumbstickDown => Some(Key::GamepadRightThumbstickDown),
        CKey::GamepadRightThumbstickLeft => Some(Key::GamepadRightThumbstickLeft),
        CKey::GamepadRightThumbstickRight => Some(Key::GamepadRightThumbstickRight),
        CKey::GamepadRightThumbstickUp => Some(Key::GamepadRightThumbstickUp),
        CKey::GamepadRightTrigger => Some(Key::GamepadRightTrigger),
        CKey::GamepadView => Some(Key::GamepadView),
        CKey::GamepadX => Some(Key::GamepadX),
        CKey::GamepadY => Some(Key::GamepadY),
        CKey::Hangeul => Some(Key::Hangeul),
        CKey::Hangul => Some(Key::Hangul),
        CKey::Hanja => Some(Key::Hanja),
        CKey::Help => Some(Key::Help),
        CKey::Home => Some(Key::Home),
        CKey::Ico00 => Some(Key::Ico00),
        CKey::IcoClear => Some(Key::IcoClear),
        CKey::IcoHelp => Some(Key::IcoHelp),
        CKey::IlluminationDown => Some(Key::IlluminationDown),
        CKey::IlluminationUp => Some(Key::IlluminationUp),
        CKey::IlluminationToggle => Some(Key::IlluminationToggle),
        CKey::IMEOff => Some(Key::IMEOff),
        CKey::IMEOn => Some(Key::IMEOn),
        CKey::Insert => Some(Key::Insert),
        CKey::Junja => Some(Key::Junja),
        CKey::Kana => Some(Key::Kana),
        CKey::Kanji => Some(Key::Kanji),
        CKey::LaunchApp1 => Some(Key::LaunchApp1),
        CKey::LaunchApp2 => Some(Key::LaunchApp2),
        CKey::LaunchMail => Some(Key::LaunchMail),
        CKey::LaunchMediaSelect => Some(Key::LaunchMediaSelect),
        CKey::Launchpad => Some(Key::Launchpad),
        CKey::LaunchPanel => Some(Key::LaunchPanel),
        CKey::LButton => Some(Key::LButton),
        CKey::LControl => Some(Key::LControl),
        CKey::LeftArrow => Some(Key::LeftArrow),
        CKey::Linefeed => Some(Key::Linefeed),
        CKey::LMenu => Some(Key::LMenu),
        CKey::LShift => Some(Key::LShift),
        CKey::LWin => Some(Key::LWin),
        CKey::MButton => Some(Key::MButton),
        CKey::MediaFast => Some(Key::MediaFast),
        CKey::MediaNextTrack => Some(Key::MediaNextTrack),
        CKey::MediaPlayPause => Some(Key::MediaPlayPause),
        CKey::MediaPrevTrack => Some(Key::MediaPrevTrack),
        CKey::MediaRewind => Some(Key::MediaRewind),
        CKey::MediaStop => Some(Key::MediaStop),
        CKey::Meta => Some(Key::Meta),
        CKey::MissionControl => Some(Key::MissionControl),
        CKey::ModeChange => Some(Key::ModeChange),
        CKey::Multiply => Some(Key::Multiply),
        CKey::NavigationAccept => Some(Key::NavigationAccept),
        CKey::NavigationCancel => Some(Key::NavigationCancel),
        CKey::NavigationDown => Some(Key::NavigationDown),
        CKey::NavigationLeft => Some(Key::NavigationLeft),
        CKey::NavigationMenu => Some(Key::NavigationMenu),
        CKey::NavigationRight => Some(Key::NavigationRight),
        CKey::NavigationUp => Some(Key::NavigationUp),
        CKey::NavigationView => Some(Key::NavigationView),
        CKey::NoName => Some(Key::NoName),
        CKey::NonConvert => Some(Key::NonConvert),
        CKey::None_k => Some(Key::None_k),
        CKey::Numlock => Some(Key::Numlock),
        CKey::Numpad0 => Some(Key::Numpad0),
        CKey::Numpad1 => Some(Key::Numpad1),
        CKey::Numpad2 => Some(Key::Numpad2),
        CKey::Numpad3 => Some(Key::Numpad3),
        CKey::Numpad4 => Some(Key::Numpad4),
        CKey::Numpad5 => Some(Key::Numpad5),
        CKey::Numpad6 => Some(Key::Numpad6),
        CKey::Numpad7 => Some(Key::Numpad7),
        CKey::Numpad8 => Some(Key::Numpad8),
        CKey::Numpad9 => Some(Key::Numpad9),
        CKey::OEM1 => Some(Key::OEM1),
        CKey::OEM102 => Some(Key::OEM102),
        CKey::OEM2 => Some(Key::OEM2),
        CKey::OEM3 => Some(Key::OEM3),
        CKey::OEM4 => Some(Key::OEM4),
        CKey::OEM5 => Some(Key::OEM5),
        CKey::OEM6 => Some(Key::OEM6),
        CKey::OEM7 => Some(Key::OEM7),
        CKey::OEM8 => Some(Key::OEM8),
        CKey::OEMAttn => Some(Key::OEMAttn),
        CKey::OEMAuto => Some(Key::OEMAuto),
        CKey::OEMAx => Some(Key::OEMAx),
        CKey::OEMBacktab => Some(Key::OEMBacktab),
        CKey::OEMClear => Some(Key::OEMClear),
        CKey::OEMComma => Some(Key::OEMComma),
        CKey::OEMCopy => Some(Key::OEMCopy),
        CKey::OEMCusel => Some(Key::OEMCusel),
        CKey::OEMEnlw => Some(Key::OEMEnlw),
        CKey::OEMFinish => Some(Key::OEMFinish),
        CKey::OEMFJJisho => Some(Key::OEMFJJisho),
        CKey::OEMFJLoya => Some(Key::OEMFJLoya),
        CKey::OEMFJMasshou => Some(Key::OEMFJMasshou),
        CKey::OEMFJRoya => Some(Key::OEMFJRoya),
        CKey::OEMFJTouroku => Some(Key::OEMFJTouroku),
        CKey::OEMJump => Some(Key::OEMJump),
        CKey::OEMMinus => Some(Key::OEMMinus),
        CKey::OEMNECEqual => Some(Key::OEMNECEqual),
        CKey::OEMPA1 => Some(Key::OEMPA1),
        CKey::OEMPA2 => Some(Key::OEMPA2),
        CKey::OEMPA3 => Some(Key::OEMPA3),
        CKey::OEMPeriod => Some(Key::OEMPeriod),
        CKey::OEMPlus => Some(Key::OEMPlus),
        CKey::OEMReset => Some(Key::OEMReset),
        CKey::OEMWsctrl => Some(Key::OEMWsctrl),
        CKey::Option => Some(Key::Option),
        CKey::PA1 => Some(Key::PA1),
        CKey::Packet => Some(Key::Packet),
        CKey::PageDown => Some(Key::PageDown),
        CKey::PageUp => Some(Key::PageUp),
        CKey::Pause => Some(Key::Pause),
        CKey::Play => Some(Key::Play),
        CKey::Power => Some(Key::Power),
        CKey::PrintScr => Some(Key::PrintScr),
        CKey::Processkey => Some(Key::Processkey),
        CKey::RButton => Some(Key::RButton),
        CKey::RCommand => Some(Key::RCommand),
        CKey::RControl => Some(Key::RControl),
        CKey::Redo => Some(Key::Redo),
        CKey::Return => Some(Key::Return),
        CKey::RightArrow => Some(Key::RightArrow),
        CKey::RMenu => Some(Key::RMenu),
        CKey::ROption => Some(Key::ROption),
        CKey::RShift => Some(Key::RShift),
        CKey::RWin => Some(Key::RWin),
        CKey::Scroll => Some(Key::Scroll),
        CKey::ScrollLock => Some(Key::ScrollLock),
        CKey::Select => Some(Key::Select),
        CKey::ScriptSwitch => Some(Key::ScriptSwitch),
        CKey::Separator => Some(Key::Separator),
        CKey::Shift => Some(Key::Shift),
        CKey::ShiftLock => Some(Key::ShiftLock),
        CKey::Sleep_k => Some(Key::Sleep),
        CKey::Space => Some(Key::Space),
        CKey::Subtract => Some(Key::Subtract),
        CKey::Tab => Some(Key::Tab),
        CKey::Undo => Some(Key::Undo),
        CKey::UpArrow => Some(Key::UpArrow),
        CKey::VidMirror => Some(Key::VidMirror),
        CKey::VolumeDown => Some(Key::VolumeDown),
        CKey::VolumeMute => Some(Key::VolumeMute),
        CKey::VolumeUp => Some(Key::VolumeUp),
        CKey::MicMute => Some(Key::MicMute),
        CKey::XButton1 => Some(Key::XButton1),
        CKey::XButton2 => Some(Key::XButton2),
        CKey::Zoom => Some(Key::Zoom),
        _ => None,
    }
}

/// The character that a letter or digit key types (letters in lower case).
pub open spec fn key_char(k: CKey) -> char {
    match k {
        CKey::Num0 => '0',
        CKey::Num1 => '1',
        CKey::Num2 => '2',
        CKey::Num3 => '3',
        CKey::Num4 => '4',
        CKey::Num5 => '5',
        CKey::Num6 => '6',
        CKey::Num7 => '7',
        CKey::Num8 => '8',
        CKey::Num9 => '9',
        CKey::A => 'a',
        CKey::B => 'b',
        CKey::C => 'c',
        CKey::D => 'd',
        CKey::E => 'e',
        CKey::F => 'f',
        CKey::G => 'g',
        CKey::H => 'h',
        CKey::I => 'i',
        CKey::J => 'j',
        CKey::K => 'k',
        CKey::L => 'l',
        CKey::M => 'm',
        CKey::N => 'n',
        CKey::O => 'o',
        CKey::P => 'p',
        CKey::Q => 'q',
        CKey::R => 'r',
        CKey::S => 's',
        CKey::T => 't',
        CKey::U => 'u',
        CKey::V => 'v',
        CKey::W => 'w',
        CKey::X => 'x',
        CKey::Y => 'y',
        CKey::Z => 'z',
        _ => ' ',
    }
}

/// The backend key that `k` translates to on `p`, or `None` where `k` has no
/// equivalent there. Letters and digits become their literal character on
/// macOS and dedicated keys on Windows.
pub open spec fn native_key(p: Platform, k: CKey) -> Option<Key> {
    if !available_on(key_availability(k), p) {
        None
    } else if key_availability(k) == Availability::Alphanumeric && p == Platform::MacOs {
        Some(Key::Unicode(key_char(k)))
    } else {
        key_name(k)
    }
}

impl CKey {
    /// On which platforms this key translates.
    pub fn availability(&self) -> (r: Availability)
        ensures
            r == key_availability(*self),
    {
        match self {
            CKey::Alt | CKey::Backspace | CKey::CapsLock | CKey::Control | CKey::Delete
            | CKey::DownArrow | CKey::End | CKey::Escape_k | CKey::F1 | CKey::F2 | CKey::F3
            | CKey::F4 | CKey::F5 | CKey::F6 | CKey::F7 | CKey::F8 | CKey::F9 | CKey::F10
            | CKey::F11 | CKey::F12 | CKey::F13 | CKey::F14 | CKey::F15 | CKey::F16
            | CKey::F17 | CKey::F18 | CKey::F19 | CKey::F20 | CKey::Help | CKey::Home
            | CKey::LControl | CKey::LeftArrow | CKey::LShift | CKey::MediaNextTrack
            | CKey::MediaPlayPause | CKey::MediaPrevTrack | CKey::Meta | CKey::Option
            | CKey::PageDown | CKey::PageUp | CKey::RControl | CKey::Return | CKey::RightArrow
            | CKey::RShift | CKey::Shift | CKey::Space | CKey::Tab | CKey::UpArrow
            | CKey::VolumeDown | CKey::VolumeMute | CKey::VolumeUp => Availability::Everywhere,
            CKey::AbntC1 | CKey::AbntC2 | CKey::Accept | CKey::Add | CKey::Apps | CKey::Attn
            | CKey::BrowserBack | CKey::BrowserFavorites | CKey::BrowserForward
            | CKey::BrowserHome | CKey::BrowserRefresh | CKey::BrowserSearch
            | CKey::BrowserStop | CKey::Convert | CKey::Crsel | CKey::DBEAlphanumeric
            | CKey::DBECodeinput | CKey::DBEDetermineString | CKey::DBEEnterDLGConversionMode
            | CKey::DBEEnterIMEConfigMode | CKey::DBEEnterWordRegisterMode
            | CKey::DBEFlushString | CKey::DBEHiragana | CKey::DBEKatakana
            | CKey::DBENoCodepoint | CKey::DBENoRoman | CKey::DBERoman | CKey::DBESBCSChar
            | CKey::DBESChar | CKey::Decimal | CKey::Divide | CKey::Ereof | CKey::Exsel
            | CKey::Final | CKey::GamepadA | CKey::GamepadB | CKey::GamepadDPadDown
            | CKey::GamepadDPadLeft | CKey::GamepadDPadRight | CKey::GamepadDPadUp
            | CKey::GamepadLeftShoulder | CKey::GamepadLeftThumbstickButton
            | CKey::GamepadLeftThumbstickDown | CKey::GamepadLeftThumbstickLeft
            | CKey::GamepadLeftThumbstickRight | CKey::GamepadLeftThumbstickUp
            | CKey::GamepadLeftTrigger | CKey::GamepadMenu | CKey::GamepadRightShoulder
            | CKey::GamepadRightThumbstickButton | CKey::GamepadRightThumbstickDown
            | CKey::GamepadRightThumbstickLeft | CKey::GamepadRightThumbstickRight
            | CKey::GamepadRightThumbstickUp | CKey::GamepadRightTrigger | CKey::GamepadView
            | CKey::GamepadX | CKey::GamepadY | CKey::Hangeul | CKey::Ico00 | CKey::IcoClear
            | CKey::IcoHelp | CKey::IMEOff | CKey::IMEOn | CKey::Junja | CKey::Kana
            | CKey::LaunchApp1 | CKey::LaunchApp2 | CKey::LaunchMail | CKey::LaunchMediaSelect
            | CKey::LButton | CKey::LWin | CKey::MButton | CKey::Multiply
            | CKey::NavigationAccept | CKey::NavigationCancel | CKey::NavigationDown
            | CKey::NavigationLeft | CKey::NavigationMenu | CKey::NavigationRight
            | CKey::NavigationUp | CKey::NavigationView | CKey::NoName | CKey::NonConvert
            | CKey::None_k | CKey::Numpad0 | CKey::Numpad1 | CKey::Numpad2 | CKey::Numpad3
            | CKey::Numpad4 | CKey::Numpad5 | CKey::Numpad6 | CKey::Numpad7 | CKey::Numpad8
            | CKey::Numpad9 | CKey::OEM1 | CKey::OEM102 | CKey::OEM2 | CKey::OEM3 | CKey::OEM4
            | CKey::OEM5 | CKey::OEM6 | CKey::OEM7 | CKey::OEM8 | CKey::OEMAttn
            | CKey::OEMAuto | CKey::OEMAx | CKey::OEMBacktab | CKey::OEMClear | CKey::OEMComma
            | CKey::OEMCopy | CKey::OEMCusel | CKey::OEMEnlw | CKey::OEMFinish
            | CKey::OEMFJJisho | CKey::OEMFJLoya | CKey::OEMFJMasshou | CKey::OEMFJRoya
            | CKey::OEMFJTouroku | CKey::OEMJump | CKey::OEMMinus | CKey::OEMNECEqual
            | CKey::OEMPA1 | CKey::OEMPA2 | CKey::OEMPA3 | CKey::OEMPeriod | CKey::OEMPlus
            | CKey::OEMReset | CKey::OEMWsctrl | CKey::PA1 | CKey::Packet | CKey::Play
            | CKey::Processkey | CKey::RButton | CKey::RMenu | CKey::RWin | CKey::Scroll
            | CKey::Separator | CKey::Sleep_k | CKey::Subtract | CKey::XButton1
            | CKey::XButton2 | CKey::Zoom => Availability::WindowsOnly,
            CKey::BrightnessDown | CKey::BrightnessUp | CKey::ContrastUp | CKey::ContrastDown
            | CKey::Eject | CKey::Function | CKey::IlluminationDown | CKey::IlluminationUp
            | CKey::IlluminationToggle | CKey::Launchpad | CKey::LaunchPanel | CKey::MediaFast
            | CKey::MediaRewind | CKey::MissionControl | CKey::Power | CKey::RCommand
            | CKey::ROption | CKey::VidMirror => Availability::MacOsOnly,
            CKey::Break | CKey::Begin | CKey::F25 | CKey::F26 | CKey::F27 | CKey::F28
            | CKey::F29 | CKey::F30 | CKey::F31 | CKey::F32 | CKey::F33 | CKey::F34
            | CKey::F35 | CKey::Find | CKey::Linefeed | CKey::Redo | CKey::ScrollLock
            | CKey::ScriptSwitch | CKey::ShiftLock | CKey::Undo | CKey::MicMute => Availability::UnixOnly,
            CKey::Cancel | CKey::Clear | CKey::Execute | CKey::F21 | CKey::F22 | CKey::F23
            | CKey::F24 | CKey::Hangul | CKey::Hanja | CKey::Insert | CKey::Kanji
            | CKey::LMenu | CKey::MediaStop | CKey::ModeChange | CKey::Numlock | CKey::Pause
            | CKey::PrintScr | CKey::Select => Availability::WindowsAndUnix,
            CKey::Num0 | CKey::Num1 | CKey::Num2 | CKey::Num3 | CKey::Num4 | CKey::Num5
            | CKey::Num6 | CKey::Num7 | CKey::Num8 | CKey::Num9 | CKey::A | CKey::B | CKey::C
            | CKey::D | CKey::E | CKey::F | CKey::G | CKey::H | CKey::I | CKey::J | CKey::K
            | CKey::L | CKey::M | CKey::N | CKey::O | CKey::P | CKey::Q | CKey::R | CKey::S
            | CKey::T | CKey::U | CKey::V | CKey::W | CKey::X | CKey::Y | CKey::Z => Availability::Alphanumeric,
            CKey::Command => Availability::Reserved,
        }
    }

    /// The backend's dedicated key of the same name, where there is one.
    pub fn name(&self) -> (r: Option<Key>)
        ensures
            r == key_name(*self),
    {
        match self {
            CKey::Num0 => Some(Key::Num0),
            CKey::Num1 => Some(Key::Num1),
            CKey::Num2 => Some(Key::Num2),
            CKey::Num3 => Some(Key::Num3),
            CKey::Num4 => Some(Key::Num4),
            CKey::Num5 => Some(Key::Num5),
            CKey::Num6 => Some(Key::Num6),
            CKey::Num7 => Some(Key::Num7),
            CKey::Num8 => Some(Key::Num8),
            CKey::Num9 => Some(Key::Num9),
            CKey::A => Some(Key::A),
            CKey::B => Some(Key::B),
            CKey::C => Some(Key::C),
            CKey::D => Some(Key::D),
            CKey::E => Some(Key::E),
            CKey::F => Some(Key::F),
            CKey::G => Some(Key::G),
            CKey::H => Some(Key::H),
            CKey::I => Some(Key::I),
            CKey::J => Some(Key::J),
            CKey::K => Some(Key::K),
            CKey::L => Some(Key::L),
            CKey::M => Some(Key::M),
            CKey::N => Some(Key::N),
            CKey::O => Some(Key::O),
            CKey::P => Some(Key::P),
            CKey::Q => Some(Key::Q),
            CKey::R => Some(Key::R),
            CKey::S => Some(Key::S),
            CKey::T => Some(Key::T),
            CKey::U => Some(Key::U),
            CKey::V => Some(Key::V),
            CKey::W => Some(Key::W),
            CKey::X => Some(Key::X),
            CKey::Y => Some(Key::Y),
            CKey::Z => Some(Key::Z),
            CKey::AbntC1 => Some(Key::AbntC1),
            CKey::AbntC2 => Some(Key::AbntC2),
            CKey::Accept => Some(Key::Accept),
            CKey::Add => Some(Key::Add),
            CKey::Alt => Some(Key::Alt),
            CKey::Apps => Some(Key::Apps),
            CKey::Attn => Some(Key::Attn),
            CKey::Backspace => Some(Key::Backspace),
            CKey::Break => Some(Key::Break),
            CKey::Begin => Some(Key::Begin),
            CKey::BrightnessDown => Some(Key::BrightnessDown),
            CKey::BrightnessUp => Some(Key::BrightnessUp),
            CKey::BrowserBack => Some(Key::BrowserBack),
            CKey::BrowserFavorites => Some(Key::BrowserFavorites),
            CKey::BrowserForward => Some(Key::BrowserForward),
            CKey::BrowserHome => Some(Key::BrowserHome),
            CKey::BrowserRefresh => Some(Key::BrowserRefresh),
            CKey::BrowserSearch => Some(Key::BrowserSearch),
            CKey::BrowserStop => Some(Key::BrowserStop),
            CKey::Cancel => Some(Key::Cancel),
            CKey::CapsLock => Some(Key::CapsLock),
            CKey::Clear => Some(Key::Clear),
            CKey::ContrastUp => Some(Key::ContrastUp),
            CKey::ContrastDown => Some(Key::ContrastDown),
            CKey::Control => Some(Key::Control),
            CKey::Convert => Some(Key::Convert),
            CKey::Crsel => Some(Key::Crsel),
            CKey::DBEAlphanumeric => Some(Key::DBEAlphanumeric),
            CKey::DBECodeinput => Some(Key::DBECodeinput),
            CKey::DBEDetermineString => Some(Key::DBEDetermineString),
            CKey::DBEEnterDLGConversionMode => Some(Key::DBEEnterDLGConversionMode),
            CKey::DBEEnterIMEConfigMode => Some(Key::DBEEnterIMEConfigMode),
            CKey::DBEEnterWordRegisterMode => Some(Key::DBEEnterWordRegisterMode),
            CKey::DBEFlushString => Some(Key::DBEFlushString),
            CKey::DBEHiragana => Some(Key::DBEHiragana),
            CKey::DBEKatakana => Some(Key::DBEKatakana),
            CKey::DBENoCodepoint => Some(Key::DBENoCodepoint),
            CKey::DBENoRoman => Some(Key::DBENoRoman),
            CKey::DBERoman => Some(Key::DBERoman),
            CKey::DBESBCSChar => Some(Key::DBESBCSChar),
            CKey::DBESChar => Some(Key::DBESChar),
            CKey::Decimal => Some(Key::Decimal),
            CKey::Delete => Some(Key::Delete),
            CKey::Divide => Some(Key::Divide),
            CKey::DownArrow => Some(Key::DownArrow),
            CKey::Eject => Some(Key::Eject),
            CKey::End => Some(Key::End),
            CKey::Ereof => Some(Key::Ereof),
            CKey::Escape_k => Some(Key::Escape),
            CKey::Execute => Some(Key::Execute),
            CKey::Exsel => Some(Key::Exsel),
            CKey::F1 => Some(Key::F1),
            CKey::F2 => Some(Key::F2),
            CKey::F3 => Some(Key::F3),
            CKey::F4 => Some(Key::F4),
            CKey::F5 => Some(Key::F5),
            CKey::F6 => Some(Key::F6),
            CKey::F7 => Some(Key::F7),
            CKey::F8 => Some(Key::F8),
            CKey::F9 => Some(Key::F9),
            CKey::F10 => Some(Key::F10),
            CKey::F11 => Some(Key::F11),
            CKey::F12 => Some(Key::F12),
            CKey::F13 => Some(Key::F13),
            CKey::F14 => Some(Key::F14),
            CKey::F15 => Some(Key::F15),
            CKey::F16 => Some(Key::F16),
            CKey::F17 => Some(Key::F17),
            CKey::F18 => Some(Key::F18),
            CKey::F19 => Some(Key::F19),
            CKey::F20 => Some(Key::F20),
            CKey::F21 => Some(Key::F21),
            CKey::F22 => Some(Key::F22),
            CKey::F23 => Some(Key::F23),
            CKey::F24 => Some(Key::F24),
            CKey::F25 => Some(Key::F25),
            CKey::F26 => Some(Key::F26),
            CKey::F27 => Some(Key::F27),
            CKey::F28 => Some(Key::F28),
            CKey::F29 => Some(Key::F29),
            CKey::F30 => Some(Key::F30),
            CKey::F31 => Some(Key::F31),
            CKey::F32 => Some(Key::F32),
            CKey::F33 => Some(Key::F33),
            CKey::F34 => Some(Key::F34),
            CKey::F35 => Some(Key::F35),
            CKey::Function => Some(Key::Function),
            CKey::Final => Some(Key::Final),
            CKey::Find => Some(Key::Find),
            CKey::GamepadA => Some(Key::GamepadA),
            CKey::GamepadB => Some(Key::GamepadB),
            CKey::GamepadDPadDown => Some(Key::GamepadDPadDown),
            CKey::GamepadDPadLeft => Some(Key::GamepadDPadLeft),
            CKey::GamepadDPadRight => Some(Key::GamepadDPadRight),
            CKey::GamepadDPadUp => Some(Key::GamepadDPadUp),
            CKey::GamepadLeftShoulder => Some(Key::GamepadLeftShoulder),
            CKey::GamepadLeftThumbstickButton => Some(Key::GamepadLeftThumbstickButton),
            CKey::GamepadLeftThumbstickDown => Some(Key::GamepadLeftThumbstickDown),
            CKey::GamepadLeftThumbstickLeft => Some(Key::GamepadLeftThumbstickLeft),
            CKey::GamepadLeftThumbstickRight => Some(Key::GamepadLeftThumbstickRight),
            CKey::GamepadLeftThumbstickUp => Some(Key::GamepadLeftThumbstickUp),
            CKey::GamepadLeftTrigger => Some(Key::GamepadLeftTrigger),
            CKey::GamepadMenu => Some(Key::GamepadMenu),
            CKey::GamepadRightShoulder => Some(Key::GamepadRightShoulder),
            CKey::GamepadRightThumbstickButton => Some(Key::GamepadRightThumbstickButton),
            CKey::GamepadRightThumbstickDown => Some(Key::GamepadRightThumbstickDown),
            CKey::GamepadRightThumbstickLeft => Some(Key::GamepadRightThumbstickLeft),
            CKey::GamepadRightThumbstickRight => Some(Key::GamepadRightThumbstickRight),
            CKey::GamepadRightThumbstickUp => Some(Key::GamepadRightThumbstickUp),
            CKey::GamepadRightTrigger => Some(Key::GamepadRightTrigger),
            CKey::GamepadView => Some(Key::GamepadView),
            CKey::GamepadX => Some(Key::GamepadX),
            CKey::GamepadY => Some(Key::GamepadY),
            CKey::Hangeul => Some(Key::Hangeul),
            CKey::Hangul => Some(Key::Hangul),
            CKey::Hanja => Some(Key::Hanja),
            CKey::Help => Some(Key::Help),
            CKey::Home => Some(Key::Home),
            CKey::Ico00 => Some(Key::Ico00),
            CKey::IcoClear => Some(Key::IcoClear),
            CKey::IcoHelp => Some(Key::IcoHelp),
            CKey::IlluminationDown => Some(Key::IlluminationDown),
            CKey::IlluminationUp => Some(Key::IlluminationUp),
            CKey::IlluminationToggle => Some(Key::IlluminationToggle),
            CKey::IMEOff => Some(Key::IMEOff),
            CKey::IMEOn => Some(Key::IMEOn),
            CKey::Insert => Some(Key::Insert),
            CKey::Junja => Some(Key::Junja),
            CKey::Kana => Some(Key::Kana),
            CKey::Kanji => Some(Key::Kanji),
            CKey::LaunchApp1 => Some(Key::LaunchApp1),
            CKey::LaunchApp2 => Some(Key::LaunchApp2),
            CKey::LaunchMail => Some(Key::LaunchMail),
            CKey::LaunchMediaSelect => Some(Key::LaunchMediaSelect),
            CKey::Launchpad => Some(Key::Launchpad),
            CKey::LaunchPanel => Some(Key::LaunchPanel),
            CKey::LButton => Some(Key::LButton),
            CKey::LControl => Some(Key::LControl),
            CKey::LeftArrow => Some(Key::LeftArrow),
            CKey::Linefeed => Some(Key::Linefeed),
            CKey::LMenu => Some(Key::LMenu),
            CKey::LShift => Some(Key::LShift),
            CKey::LWin => Some(Key::LWin),
            CKey::MButton => Some(Key::MButton),
            CKey::MediaFast => Some(Key::MediaFast),
            CKey::MediaNextTrack => Some(Key::MediaNextTrack),
            CKey::MediaPlayPause => Some(Key::MediaPlayPause),
            CKey::MediaPrevTrack => Some(Key::MediaPrevTrack),
            CKey::MediaRewind => Some(Key::MediaRewind),
            CKey::MediaStop => Some(Key::MediaStop),
            CKey::Meta => Some(Key::Meta),
            CKey::MissionControl => Some(Key::MissionControl),
            CKey::ModeChange => Some(Key::ModeChange),
            CKey::Multiply => Some(Key::Multiply),
            CKey::NavigationAccept => Some(Key::NavigationAccept),
            CKey::NavigationCancel => Some(Key::NavigationCancel),
            CKey::NavigationDown => Some(Key::NavigationDown),
            CKey::NavigationLeft => Some(Key::NavigationLeft),
            CKey::NavigationMenu => Some(Key::NavigationMenu),
            CKey::NavigationRight => Some(Key::NavigationRight),
            CKey::NavigationUp => Some(Key::NavigationUp),
            CKey::NavigationView => Some(Key::NavigationView),
            CKey::NoName => Some(Key::NoName),
            CKey::NonConvert => Some(Key::NonConvert),
            CKey::None_k => Some(Key::None_k),
            CKey::Numlock => Some(Key::Numlock),
            CKey::Numpad0 => Some(Key::Numpad0),
            CKey::Numpad1 => Some(Key::Numpad1),
            CKey::Numpad2 => Some(Key::Numpad2),
            CKey::Numpad3 => Some(Key::Numpad3),
            CKey::Numpad4 => Some(Key::Numpad4),
            CKey::Numpad5 => Some(Key::Numpad5),
            CKey::Numpad6 => Some(Key::Numpad6),
            CKey::Numpad7 => Some(Key::Numpad7),
            CKey::Numpad8 => Some(Key::Numpad8),
            CKey::Numpad9 => Some(Key::Numpad9),
            CKey::OEM1 => Some(Key::OEM1),
            CKey::OEM102 => Some(Key::OEM102),
            CKey::OEM2 => Some(Key::OEM2),
            CKey::OEM3 => Some(Key::OEM3),
            CKey::OEM4 => Some(Key::OEM4),
            CKey::OEM5 => Some(Key::OEM5),
            CKey::OEM6 => Some(Key::OEM6),
            CKey::OEM7 => Some(Key::OEM7),
            CKey::OEM8 => Some(Key::OEM8),
            CKey::OEMAttn => Some(Key::OEMAttn),
            CKey::OEMAuto => Some(Key::OEMAuto),
            CKey::OEMAx => Some(Key::OEMAx),
            CKey::OEMBacktab => Some(Key::OEMBacktab),
            CKey::OEMClear => Some(Key::OEMClear),
            CKey::OEMComma => Some(Key::OEMComma),
            CKey::OEMCopy => Some(Key::OEMCopy),
            CKey::OEMCusel => Some(Key::OEMCusel),
            CKey::OEMEnlw => Some(Key::OEMEnlw),
            CKey::OEMFinish => Some(Key::OEMFinish),
            CKey::OEMFJJisho => Some(Key::OEMFJJisho),
            CKey::OEMFJLoya => Some(Key::OEMFJLoya),
            CKey::OEMFJMasshou => Some(Key::OEMFJMasshou),
            CKey::OEMFJRoya => Some(Key::OEMFJRoya),
            CKey::OEMFJTouroku => Some(Key::OEMFJTouroku),
            CKey::OEMJump => Some(Key::OEMJump),
            CKey::OEMMinus => Some(Key::OEMMinus),
            CKey::OEMNECEqual => Some(Key::OEMNECEqual),
            CKey::OEMPA1 => Some(Key::OEMPA1),
            CKey::OEMPA2 => Some(Key::OEMPA2),
            CKey::OEMPA3 => Some(Key::OEMPA3),
            CKey::OEMPeriod => Some(Key::OEMPeriod),
            CKey::OEMPlus => Some(Key::OEMPlus),
            CKey::OEMReset => Some(Key::OEMReset),
            CKey::OEMWsctrl => Some(Key::OEMWsctrl),
            CKey::Option => Some(Key::Option),
            CKey::PA1 => Some(Key::PA1),
            CKey::Packet => Some(Key::Packet),
            CKey::PageDown => Some(Key::PageDown),
            CKey::PageUp => Some(Key::PageUp),
            CKey::Pause => Some(Key::Pause),
            CKey::Play => Some(Key::Play),
            CKey::Power => Some(Key::Power),
            CKey::PrintScr => Some(Key::PrintScr),
            CKey::Processkey => Some(Key::Processkey),
            CKey::RButton => Some(Key::RButton),
            CKey::RCommand => Some(Key::RCommand),
            CKey::RControl => Some(Key::RControl),
            CKey::Redo => Some(Key::Redo),
            CKey::Return => Some(Key::Return),
            CKey::RightArrow => Some(Key::RightArrow),
            CKey::RMenu => Some(Key::RMenu),
            CKey::ROption => Some(Key::ROption),
            CKey::RShift => Some(Key::RShift),
            CKey::RWin => Some(Key::RWin),
            CKey::Scroll => Some(Key::Scroll),
            CKey::ScrollLock => Some(Key::ScrollLock),
            CKey::Select => Some(Key::Select),
            CKey::ScriptSwitch => Some(Key::ScriptSwitch),
            CKey::Separator => Some(Key::Separator),
            CKey::Shift => Some(Key::Shift),
            CKey::ShiftLock => Some(Key::ShiftLock),
            CKey::Sleep_k => Some(Key::Sleep),
            CKey::Space => Some(Key::Space),
            CKey::Subtract => Some(Key::Subtract),
            CKey::Tab => Some(Key::Tab),
            CKey::Undo => Some(Key::Undo),
            CKey::UpArrow => Some(Key::UpArrow),
            CKey::VidMirror => Some(Key::VidMirror),
            CKey::VolumeDown => Some(Key::VolumeDown),
            CKey::VolumeMute => Some(Key::VolumeMute),
            CKey::VolumeUp => Some(Key::VolumeUp),
            CKey::MicMute => Some(Key::MicMute),
            CKey::XButton1 => Some(Key::XButton1),
            CKey::XButton2 => Some(Key::XButton2),
            CKey::Zoom => Some(Key::Zoom),
            _ => None,
        }
    }

    /// The character that a letter or digit key types.
    pub fn literal_char(&self) -> (r: char)
        ensures
            r == key_char(*self),
    {
        match self {
            CKey::Num0 => '0',
            CKey::Num1 => '1',
            CKey::Num2 => '2',
            CKey::Num3 => '3',
            CKey::Num4 => '4',
            CKey::Num5 => '5',
            CKey::Num6 => '6',
            CKey::Num7 => '7',
            CKey::Num8 => '8',
            CKey::Num9 => '9',
            CKey::A => 'a',
            CKey::B => 'b',
            CKey::C => 'c',
            CKey::D => 'd',
            CKey::E => 'e',
            CKey::F => 'f',
            CKey::G => 'g',
            CKey::H => 'h',
            CKey::I => 'i',
            CKey::J => 'j',
            CKey::K => 'k',
            CKey::L => 'l',
            CKey::M => 'm',
            CKey::N => 'n',
            CKey::O => 'o',
            CKey::P => 'p',
            CKey::Q => 'q',
            CKey::R => 'r',
            CKey::S => 's',
            CKey::T => 't',
            CKey::U => 'u',
            CKey::V => 'v',
            CKey::W => 'w',
            CKey::X => 'x',
            CKey::Y => 'y',
            CKey::Z => 'z',
            _ => ' ',
        }
    }

    /// The backend key for this key on `platform`, or an error where the
    /// platform has no equivalent.
    pub fn cast(&self, platform: Platform) -> (r: Result<Key, &'static str>)
        ensures
            match r {
                Ok(key) => native_key(platform, *self) == Some(key),
                Err(_) => native_key(platform, *self).is_none(),
            },
    {
        let a = self.availability();
        if !a.is_available_on(platform) {
            return Err("Not support this key in this platform.");
        }
        let alnum_on_mac = matches!(a, Availability::Alphanumeric) && matches!(platform, Platform::MacOs);
        if alnum_on_mac {
            return Ok(Key::Unicode(self.literal_char()));
        }
        match self.name() {
            Some(key) => Ok(key),
            None => Err("Not support this key in this platform."),
        }
    }
}

/// A key that the platform does not support is never translated: its
/// translation is `None`, whatever the key.
pub proof fn lemma_unsupported_key_untranslated(p: Platform, k: CKey)
    requires
        !available_on(key_availability(k), p),
    ensures
        native_key(p, k).is_none(),
{
}

/// Every key that the platform supports has a translation there.
pub proof fn lemma_supported_key_translated(p: Platform, k: CKey)
    requires
        available_on(key_availability(k), p),
    ensures
        native_key(p, k).is_some(),
{
}

} // verus!
