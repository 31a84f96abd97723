//! The slot that holds the shared LV2 plugin host while it is running.
use vstd::prelude::*;
use vstd::string::*;

verus! {

/// Holds the shared plugin host, or nothing before it starts and after it
/// shuts down.
pub struct HostSlot<H> {
    host: Option<H>,
}

impl<H> HostSlot<H> {
    /// The host held, if any.
    pub closed spec fn current(self) -> Option<H> {
        self.host
    }

    /// A slot holding no host.
    pub fn empty() -> (r: Self)
        ensures
            r.current() is None,
    {
        HostSlot { host: None }
    }

    /// Put a host into the slot, replacing any held before.
    pub fn init(&mut self, host: H)
        ensures
            final(self).current() == Some(host),
    {
        self.host = Some(host);
    }

    /// The host held, if any.
    pub fn host(&self) -> (r: Option<&H>)
        ensures
            r matches Some(h) ==> self.current() == Some(*h),
            r is None <==> self.current() is None,
    {
        self.host.as_ref()
    }
}

/// Whether the slot holds a host.
pub fn is_initialized<H>(slot: &HostSlot<H>) -> (r: bool)
    ensures
        r == slot.current() is Some,
{
    slot.host.is_some()
}

/// Drop the host, if any.
pub fn shutdown<H>(slot: &mut HostSlot<H>)
    ensures
        final(slot).current() is None,
{
    slot.host = None;
}

/// Run `f` on the host held: its result, or, for a slot holding no host,
/// the error "Plugin host not initialized" without calling `f`.
pub fn with_host<H, R, F: FnOnce(&H) -> R>(slot: &HostSlot<H>, f: F) -> (r: Result<R, String>)
    requires
        slot.current() matches Some(h) ==> f.requires((&h,)),
    ensures
        match slot.current() {
            Some(h) => r matches Ok(v) && f.ensures((&h,), v),
            None => r matches Err(m) && m@ == "Plugin host not initialized"@,
        },
{
    match &slot.host {
        Some(h) => Ok(f(h)),
        None => Err(String::from_str("Plugin host not initialized")),
    }
}

} // verus!
