//! Registration phases of a push session and the readiness derived from them.
use vstd::prelude::*;

verus! {

/// How far a push session has come in registering with the service.
#[derive(Clone, Copy, Debug, PartialEq, Eq, Structural)]
pub enum RegistrationPhase {
    WantsUserPass,
    WantsValidator,
    WantsRegister,
    Registered,
}

/// A session may receive and send only once it is registered.
pub open spec fn ready_in(phase: RegistrationPhase) -> bool {
    phase is Registered
}

/// Reports whether a session in `phase` is ready to receive and send:
/// true exactly for `Registered`.
pub fn is_ready(phase: RegistrationPhase) -> (r: bool)
    ensures
        r == ready_in(phase),
{
    match phase {
        RegistrationPhase::Registered => true,
        _ => false,
    }
}

} // verus!
