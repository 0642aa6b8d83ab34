use vstd::prelude::*;

verus! {

/// The errors a link store or a shorten operation can report.
///
/// `HostlessUrl`: the origin URL has no host component, so no shortcut can
/// be derived from it. `NotFound`: an update or delete named an id that the
/// store does not hold. `LockPoisoned`: the shared store's lock was left in
/// an inconsistent state by a failure elsewhere; surfaced by concurrent
/// front ends, never produced by the verified core itself.
#[derive(Clone, Copy, Debug, PartialEq, Eq, Structural)]
pub enum LinkError {
    HostlessUrl,
    NotFound,
    LockPoisoned,
}

} // verus!
