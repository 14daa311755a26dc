//! The device's enumeration state and the SET_ADDRESS transition rule.

use crate::fault::Fault;
use crate::request::Address;
use vstd::prelude::*;

verus! {

/// How far enumeration has progressed (the address states of USB 2.0 §9.1).
///
/// The engine starts in `Default`, moves to `Addressed` when the host
/// assigns an address, and treats `Configured` as terminal for address
/// changes. There is no terminal state otherwise: the engine runs
/// indefinitely across bus resets.
#[derive(Clone, Copy, Debug, PartialEq, Eq, Structural)]
pub enum DeviceState {
    /// No address assigned.
    Default,
    /// An address assigned, the device not yet configured.
    Addressed(Address),
    /// An active configuration; address reassignment is illegal here.
    Configured,
}

impl DeviceState {
    /// Well-formedness: an assigned address is always a valid one.
    pub open spec fn wf(self) -> bool {
        match self {
            DeviceState::Addressed(a) => a.wf(),
            _ => true,
        }
    }
}

/// The SET_ADDRESS transition rule.
///
/// From `Default` or `Addressed`, `Some(a)` moves to `Addressed(a)` and
/// `None` returns to `Default`. From `Configured` the request is illegal
/// per the protocol, and the engine refuses to guess: the transition is a
/// fatal fault and the state is left untouched.
pub open spec fn apply_set_address(s: DeviceState, address: Option<Address>) -> Result<
    DeviceState,
    Fault,
> {
    match s {
        DeviceState::Configured => Err(Fault::IllegalStateTransition),
        _ => match address {
            Some(a) => Ok(DeviceState::Addressed(a)),
            None => Ok(DeviceState::Default),
        },
    }
}

/// Applies a parsed SET_ADDRESS request to the device state.
///
/// The postconditions spell the rule out:
/// - from any state but `Configured`, `Some(a)` yields `Addressed(a)`;
/// - from any state but `Configured`, `None` yields `Default`;
/// - from `Configured` the call is a fatal `IllegalStateTransition` and
///   the state does not change.
pub fn set_device_address(state: &mut DeviceState, address: Option<Address>) -> (r: Result<
    (),
    Fault,
>)
    requires
        old(state).wf(),
        address matches Some(a) ==> a.wf(),
    ensures
        final(state).wf(),
        !((*old(state)) is Configured) && address is Some ==> r is Ok && *final(state)
            == DeviceState::Addressed(address->Some_0),
        !((*old(state)) is Configured) && address is None ==> r is Ok && *final(state)
            == DeviceState::Default,
        (*old(state)) is Configured ==> r == Err::<(), Fault>(Fault::IllegalStateTransition)
            && *final(state) == *old(state),
        r is Ok <==> apply_set_address(*old(state), address) is Ok,
{
    match state {
        DeviceState::Configured => Err(Fault::IllegalStateTransition),
        _ => {
            match address {
                Some(a) => {
                    *state = DeviceState::Addressed(a);
                },
                None => {
                    *state = DeviceState::Default;
                },
            }
            Ok(())
        },
    }
}

} // verus!
