use vstd::prelude::*;

verus! {

/// A process-wide call of the native layer that takes no argument.
#[derive(Debug, Clone, Copy, PartialEq, Eq, Structural)]
pub enum SubsystemCall {
    Initialize,
    Shutdown,
}

/// The initialized native layer. The program makes one, on the main thread,
/// after the native initialize call, and keeps it until every driver and
/// device is done with. It owes one native shutdown, made through `shutdown`.
///
/// After `reload` the drivers and devices made before it are stale: the
/// native layer gives no way to tell, and this type does not track them.
pub struct Ao {
    live: bool,
}

impl Ao {
    /// Whether the native shutdown is still owed.
    pub closed spec fn spec_is_live(&self) -> bool {
        self.live
    }

    /// Records that the native layer was initialized.
    pub fn new() -> (r: Ao)
        ensures
            r.spec_is_live(),
    {
        Ao { live: true }
    }

    /// Whether the native shutdown is still owed.
    pub fn is_live(&self) -> (r: bool)
        ensures
            r == self.spec_is_live(),
    {
        self.live
    }

    /// The native calls that reload the layer, in order: shutdown, then
    /// initialize. The layer is live afterwards.
    pub fn reload(&mut self) -> (r: Vec<SubsystemCall>)
        ensures
            r@ == seq![SubsystemCall::Shutdown, SubsystemCall::Initialize],
            final(self).spec_is_live(),
    {
        self.live = true;
        let mut calls: Vec<SubsystemCall> = Vec::new();
        calls.push(SubsystemCall::Shutdown);
        calls.push(SubsystemCall::Initialize);
        calls
    }

    /// Whether the native shutdown is to be made now: it is owed while the
    /// layer is live, and is marked as made, so a second call says no.
    pub fn shutdown(&mut self) -> (r: bool)
        ensures
            r == old(self).spec_is_live(),
            !final(self).spec_is_live(),
    {
        let owed = self.live;
        self.live = false;
        owed
    }
}

} // verus!
