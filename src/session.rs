use vstd::prelude::*;

verus! {

/// A per-thread slot for one device handle (the input backend or the
/// clipboard). It starts empty; an open attempt that succeeds fills it for
/// good, and one that fails leaves it empty, so that the next access tries
/// again from scratch instead of staying failed.
pub struct DeviceSlot<D> {
    handle: Option<D>,
}

impl<D> DeviceSlot<D> {
    /// The handle held, if the slot is ready.
    pub closed spec fn held(&self) -> Option<D> {
        self.handle
    }

    /// An empty slot: no device has been opened yet.
    pub fn new() -> (s: Self)
        ensures
            s.held().is_none(),
    {
        DeviceSlot { handle: None }
    }

    /// Whether an access must first open the device.
    pub fn needs_open(&self) -> (r: bool)
        ensures
            r == self.held().is_none(),
    {
        self.handle.is_none()
    }

    /// Records the result of an attempt to open the device, and tells whether
    /// the slot now holds a handle. A slot that already holds one keeps it.
    pub fn record_open<E>(&mut self, opened: Result<D, E>) -> (r: bool)
        ensures
            r == final(self).held().is_some(),
            old(self).held().is_some() ==> final(self).held() == old(self).held(),
            old(self).held().is_none() ==> match opened {
                Ok(d) => final(self).held() == Some(d),
                Err(_) => final(self).held().is_none(),
            },
    {
        if self.handle.is_some() {
            return true;
        }
        match opened {
            Ok(d) => {
                self.handle = Some(d);
                true
            },
            Err(_) => false,
        }
    }

    /// Exclusive access to the handle for the length of one operation, or
    /// `None` while the slot is empty.
    pub fn device(&mut self) -> (r: Option<&mut D>)
        ensures
            r.is_some() == old(self).held().is_some(),
            r matches Some(d) ==> (Some(*d) == old(self).held() && final(self).held() == Some(
                *final(d),
            )),
            r.is_none() ==> final(self).held().is_none(),
    {
        self.handle.as_mut()
    }
}

/// How one guarded access to a device ended.
#[derive(Debug, Clone, Copy, PartialEq, Eq, Structural)]
pub enum Access {
    /// The device could not be opened; the operation did not run.
    Unavailable,
    /// The operation ran and the device refused it.
    Failed,
    /// The operation ran and the device carried it out.
    Done,
}

} // verus!
