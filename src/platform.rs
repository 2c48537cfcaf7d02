use vstd::prelude::*;

verus! {

/// The operating system whose input backend a translation targets.
#[derive(Debug, Clone, Copy, PartialEq, Eq, Structural)]
pub enum Platform {
    Windows,
    MacOs,
    /// Any Unix other than macOS (X11 and friends).
    Unix,
}

/// On which platforms a symbolic key has an equivalent in the backend.
#[derive(Debug, Clone, Copy, PartialEq, Eq, Structural)]
pub enum Availability {
    /// Every platform.
    Everywhere,
    /// Windows only.
    WindowsOnly,
    /// macOS only.
    MacOsOnly,
    /// Unix other than macOS only.
    UnixOnly,
    /// Windows and Unix, not macOS.
    WindowsAndUnix,
    /// Letters and digits: a dedicated key on Windows, the literal character
    /// on macOS, nothing on other Unix.
    Alphanumeric,
    /// Deliberately never mapped.
    Reserved,
}

/// Whether keys of availability `a` translate on platform `p`.
pub open spec fn available_on(a: Availability, p: Platform) -> bool {
    match a {
        Availability::Everywhere => true,
        Availability::WindowsOnly => p == Platform::Windows,
        Availability::MacOsOnly => p == Platform::MacOs,
        Availability::UnixOnly => p == Platform::Unix,
        Availability::WindowsAndUnix => p != Platform::MacOs,
        Availability::Alphanumeric => p != Platform::Unix,
        Availability::Reserved => false,
    }
}

impl Availability {
    /// Whether keys of this availability translate on `p`.
    pub fn is_available_on(&self, p: Platform) -> (r: bool)
        ensures
            r == available_on(*self, p),
    {
        match self {
            Availability::Everywhere => true,
            Availability::WindowsOnly => matches!(p, Platform::Windows),
            Availability::MacOsOnly => matches!(p, Platform::MacOs),
            Availability::UnixOnly => matches!(p, Platform::Unix),
            Availability::WindowsAndUnix => !matches!(p, Platform::MacOs),
            Availability::Alphanumeric => !matches!(p, Platform::Unix),
            Availability::Reserved => false,
        }
    }
}

} // verus!
