//! The control-transfer dispatcher: from hardware events to responses.
//!
//! The surrounding firmware reads the peripheral's registers and queues
//! one [`Event`] per hardware condition; the dispatcher consumes the
//! queue, drives the parser and the device state, and hands back the
//! [`Action`] the hardware layer must perform for each event.

use crate::fault::Fault;
use crate::request::{parsed, DescriptorKind, Request, SetupPacket};
use crate::state::{apply_set_address, set_device_address, DeviceState};
use vstd::prelude::*;
use vstd::seq_lib::*;

verus! {

/// A discrete hardware event on endpoint 0.
///
/// A setup event carries the raw packet as read from the registers at the
/// moment the event was delivered, so the engine never touches hardware
/// itself.
#[derive(Clone, Copy, Debug, PartialEq, Eq, Structural)]
pub enum Event {
    /// The host reset the bus.
    UsbReset,
    /// The setup stage of a control transfer completed; the raw packet is
    /// ready.
    UsbEp0Setup(SetupPacket),
    /// The data stage of a control transfer completed.
    UsbEp0DataDone,
}

/// The hardware-level response the dispatcher decided on for one event.
#[derive(Clone, Copy, Debug, PartialEq, Eq, Structural)]
pub enum Action {
    /// The event is absorbed; no response beyond acknowledging it.
    Acknowledge,
    /// Answer GET_DESCRIPTOR for the device descriptor with at most
    /// `length` bytes. Reaching this response is the bring-up milestone
    /// this engine aims at; producing the descriptor's bytes is the
    /// hardware layer's concern.
    SendDeviceDescriptor { length: u16 },
}

/// What one event does to the device: the next state and the response, or
/// a fatal fault (in which case the state is left as it was).
///
/// Two policy choices are deliberate and documented rather than left open:
/// a bus reset returns enumeration to `Default`, and a data-stage
/// completion is acknowledged without a state change.
pub open spec fn step(s: DeviceState, e: Event) -> Result<(DeviceState, Action), Fault> {
    match e {
        Event::UsbReset => Ok((DeviceState::Default, Action::Acknowledge)),
        Event::UsbEp0DataDone => Ok((s, Action::Acknowledge)),
        Event::UsbEp0Setup(p) => match p.parsed() {
            Err(e) => Err(Fault::Parse(e)),
            Ok(Request::GetDescriptor { descriptor: DescriptorKind::Device, length }) => Ok(
                (s, Action::SendDeviceDescriptor { length }),
            ),
            Ok(Request::GetDescriptor { .. }) => Err(Fault::UnsupportedRequest),
            Ok(Request::SetAddress { address }) => match apply_set_address(s, address) {
                Ok(s2) => Ok((s2, Action::Acknowledge)),
                Err(f) => Err(f),
            },
        },
    }
}

/// Handles one hardware event: parses the setup packet if there is one,
/// applies the protocol rules, and returns the response to perform, or the
/// fatal fault on which the device must stop.
///
/// The result and the new state are exactly what [`step`] says; on a fault
/// the state is untouched.
pub fn on_event(state: &mut DeviceState, event: Event) -> (r: Result<Action, Fault>)
    requires
        old(state).wf(),
    ensures
        final(state).wf(),
        match step(*old(state), event) {
            Ok((s2, a)) => r == Ok::<Action, Fault>(a) && *final(state) == s2,
            Err(f) => r == Err::<Action, Fault>(f) && *final(state) == *old(state),
        },
{
    match event {
        Event::UsbReset => {
            *state = DeviceState::Default;
            Ok(Action::Acknowledge)
        },
        Event::UsbEp0DataDone => Ok(Action::Acknowledge),
        Event::UsbEp0Setup(packet) => {
            let parse_result = Request::parse(
                packet.bmrequesttype,
                packet.brequest,
                packet.wvalue,
                packet.windex,
                packet.wlength,
            );
            match parse_result {
                Err(e) => Err(Fault::Parse(e)),
                Ok(request) => match request {
                    Request::GetDescriptor { descriptor: DescriptorKind::Device, length } => Ok(
                        Action::SendDeviceDescriptor { length },
                    ),
                    Request::GetDescriptor { .. } => Err(Fault::UnsupportedRequest),
                    Request::SetAddress { address } => match set_device_address(state, address) {
                        Ok(_) => Ok(Action::Acknowledge),
                        Err(f) => Err(f),
                    },
                },
            }
        },
    }
}

/// The queue of pending hardware events, in delivery order.
///
/// On real hardware this is fed from the peripheral's interrupt flags; in
/// tests it is filled by hand. `None` from [`EventQueue::next_event`]
/// means no event is pending.
pub struct EventQueue {
    events: Vec<Event>,
}

impl View for EventQueue {
    type V = Seq<Event>;

    closed spec fn view(&self) -> Seq<Event> {
        self.events@
    }
}

impl EventQueue {
    /// An empty queue.
    pub fn new() -> (q: EventQueue)
        ensures
            q@ == Seq::<Event>::empty(),
    {
        EventQueue { events: Vec::new() }
    }

    /// Appends an event behind all pending ones.
    pub fn push(&mut self, event: Event)
        ensures
            final(self)@ == old(self)@.push(event),
    {
        self.events.push(event);
    }

    /// Takes the oldest pending event out, or reports that none is left.
    pub fn next_event(&mut self) -> (r: Option<Event>)
        ensures
            old(self)@.len() == 0 ==> r is None && final(self)@ == old(self)@,
            old(self)@.len() > 0 ==> r == Some::<Event>(old(self)@[0])
                && final(self)@ == old(self)@.drop_first(),
    {
        if self.events.len() == 0 {
            None
        } else {
            let e = self.events.remove(0);
            proof {
                assert(old(self)@.remove(0) =~= old(self)@.drop_first());
            }
            Some(e)
        }
    }

    /// How many events are pending.
    pub fn len(&self) -> (n: usize)
        ensures
            n == self@.len(),
    {
        self.events.len()
    }
}

/// The outcome of draining a sequence of events: the state the device ends
/// in, the responses decided on (one per handled event, in order), the
/// fault that stopped the run if one did, and the events left unhandled
/// behind such a fault.
pub ghost struct DrainOutcome {
    pub state: DeviceState,
    pub actions: Seq<Action>,
    pub fault: Option<Fault>,
    pub remaining: Seq<Event>,
}

/// What draining a queue of events does, one [`step`] at a time, strictly
/// in delivery order, stopping at the first fault.
pub open spec fn drain(s: DeviceState, events: Seq<Event>) -> DrainOutcome
    decreases events.len(),
{
    if events.len() == 0 {
        DrainOutcome { state: s, actions: Seq::empty(), fault: None, remaining: Seq::empty() }
    } else {
        match step(s, events[0]) {
            Ok((s2, a)) => {
                let rest = drain(s2, events.drop_first());
                DrainOutcome {
                    state: rest.state,
                    actions: seq![a] + rest.actions,
                    fault: rest.fault,
                    remaining: rest.remaining,
                }
            },
            Err(f) => DrainOutcome {
                state: s,
                actions: Seq::empty(),
                fault: Some(f),
                remaining: events.drop_first(),
            },
        }
    }
}

/// Accounting for a drain: a faultless run answers every event, one action
/// per event, and leaves nothing pending; a run stopped by a fault has
/// answered the events before the faulting one and leaves exactly the ones
/// after it.
pub proof fn lemma_drain_accounts_for_events(s: DeviceState, events: Seq<Event>)
    ensures
        ({
            let out = drain(s, events);
            &&& out.fault is None ==> out.actions.len() == events.len() && out.remaining.len() == 0
            &&& out.fault is Some ==> out.actions.len() + 1 + out.remaining.len() == events.len()
        }),
    decreases events.len(),
{
    if events.len() > 0 {
        match step(s, events[0]) {
            Ok((s2, _)) => {
                lemma_drain_accounts_for_events(s2, events.drop_first());
            },
            Err(_) => {},
        }
    }
}

/// Drains every event pending at the time of the call, strictly in
/// delivery order, and returns once [`EventQueue::next_event`] yields
/// none: the responses decided on, or the first fatal fault.
///
/// The postcondition ties the run to [`drain`] over the events that were
/// pending when the call was made: a faultless run returns every response
/// in order and empties the queue; a faulted run stops at the faulting
/// event, leaves the state as the fault found it, and leaves the later
/// events pending.
pub fn drain_events(state: &mut DeviceState, queue: &mut EventQueue) -> (r: Result<
    Vec<Action>,
    Fault,
>)
    requires
        old(state).wf(),
    ensures
        final(state).wf(),
        ({
            let out = drain(*old(state), old(queue)@);
            &&& *final(state) == out.state
            &&& final(queue)@ == out.remaining
            &&& match r {
                Ok(actions) => out.fault is None && actions@ == out.actions,
                Err(f) => out.fault == Some(f),
            }
        }),
{
    let mut actions: Vec<Action> = Vec::new();
    loop
        invariant
            state.wf(),
            ({
                let out0 = drain(*old(state), old(queue)@);
                let rest = drain(*state, queue@);
                &&& out0.state == rest.state
                &&& out0.actions == actions@ + rest.actions
                &&& out0.fault == rest.fault
                &&& out0.remaining == rest.remaining
            }),
        decreases queue@.len(),
    {
        let next = queue.next_event();
        match next {
            None => {
                proof {
                    assert(actions@ + drain(*state, queue@).actions =~= actions@);
                }
                return Ok(actions);
            },
            Some(event) => {
                match on_event(state, event) {
                    Ok(action) => {
                        actions.push(action);
                        proof {
                            assert(drain(*old(state), old(queue)@).actions =~= actions@ + drain(
                                *state,
                                queue@,
                            ).actions);
                        }
                    },
                    Err(fault) => {
                        return Err(fault);
                    },
                }
            },
        }
    }
}

} // verus!
