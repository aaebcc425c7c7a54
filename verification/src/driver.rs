//! The driver: which packet goes out next, and what a write's outcome
//! means for the rest of the plan.
//!
//! The driver never touches the device. Its caller asks for the next
//! action, performs it, and reports back what happened:
//!
//! 1. ask [`Driver::next_action`];
//! 2. on [`Action::Write`], write the packet, hand the outcome to
//!    [`Driver::handle`], then pause for the step's delay;
//! 3. on [`Action::Finish`], stop and read the [`Driver::status`].
//!
//! A failed write ends the effect at once: nothing more is offered for
//! writing. A request to cancel, made between two steps, replaces what is
//! left of the plan by one last packet that switches the light off.

use vstd::prelude::*;
use crate::codec::encode;
use crate::codec::encode_spec;
use crate::effects::plan_view;
use crate::effects::EffectStep;
use crate::state::BlyncControl;
use crate::state::LightState;

verus! {

/// What the caller reports to the driver.
#[derive(Debug, PartialEq, Eq)]
pub enum Event<E> {
    /// The last packet was written; the device took this many bytes.
    Written(usize),
    /// The last packet could not be written.
    Failed(E),
    /// The effect is to be cancelled.
    Cancel,
}

/// What the driver asks of the caller.
#[derive(Clone, Copy, Debug, PartialEq, Eq)]
pub enum Action {
    /// Write this packet, then pause for this many milliseconds.
    Write { packet: [u8; 10], delay_ms: u64 },
    /// Nothing is left to do.
    Finish,
}

/// Where an effect stands.
#[derive(Debug, PartialEq, Eq)]
pub enum Status<E> {
    /// Steps of the plan are still to be written.
    Running,
    /// The effect was cancelled; the packet that switches the light off
    /// is still to be written.
    Cancelling,
    /// Every step of the plan was written.
    Completed,
    /// The effect was cancelled and the light switched off.
    Cancelled,
    /// A write failed with this error; the effect was abandoned.
    Failed(E),
}

/// The driver as contracts see it.
pub struct DriverView<E> {
    /// The steps of the plan.
    pub plan: Seq<(LightState, u64)>,
    /// How many steps of the plan were written.
    pub written: nat,
    /// Where the effect stands.
    pub status: Status<E>,
}

impl<E> DriverView<E> {
    /// Running drivers have a step left; completed ones have none.
    pub open spec fn consistent(self) -> bool {
        &&& self.written <= self.plan.len()
        &&& self.status is Running ==> self.written < self.plan.len()
        &&& self.status is Completed ==> self.written == self.plan.len()
    }

    /// The driver of a fresh plan.
    pub open spec fn start(plan: Seq<(LightState, u64)>) -> DriverView<E> {
        DriverView {
            plan,
            written: 0,
            status: if plan.len() == 0 {
                Status::Completed
            } else {
                Status::Running
            },
        }
    }

    /// The state and pause that are to be written next, if any.
    pub open spec fn pending(self) -> Option<(LightState, u64)> {
        match self.status {
            Status::Running => Some(self.plan[self.written as int]),
            Status::Cancelling => Some((LightState::dark(), 0u64)),
            _ => None,
        }
    }

    /// The driver after an event.
    ///
    /// While running, a write moves on to the next step, a failure ends
    /// the effect, and a cancellation leaves only the final switch-off.
    /// While cancelling, the outcome of that last write decides. Once the
    /// effect has ended, events change nothing.
    pub open spec fn after(self, event: Event<E>) -> DriverView<E> {
        match self.status {
            Status::Running => match event {
                Event::Written(_) => DriverView {
                    written: self.written + 1,
                    status: if self.written + 1 == self.plan.len() {
                        Status::Completed
                    } else {
                        Status::Running
                    },
                    ..self
                },
                Event::Failed(reason) => DriverView { status: Status::Failed(reason), ..self },
                Event::Cancel => DriverView { status: Status::Cancelling, ..self },
            },
            Status::Cancelling => match event {
                Event::Written(_) => DriverView { status: Status::Cancelled, ..self },
                Event::Failed(reason) => DriverView { status: Status::Failed(reason), ..self },
                Event::Cancel => self,
            },
            _ => self,
        }
    }

    /// The driver after a list of events, taken in order.
    pub open spec fn after_all(self, events: Seq<Event<E>>) -> DriverView<E>
        decreases events.len(),
    {
        if events.len() == 0 {
            self
        } else {
            self.after(events[0]).after_all(events.subrange(1, events.len() as int))
        }
    }

    /// Whether the effect has ended, one way or another.
    pub open spec fn ended(self) -> bool {
        self.status is Completed || self.status is Cancelled || self.status is Failed
    }
}

/// Runs one plan, one write at a time.
pub struct Driver<E> {
    plan: Vec<EffectStep>,
    written: usize,
    status: Status<E>,
}

impl<E> View for Driver<E> {
    type V = DriverView<E>;

    closed spec fn view(&self) -> DriverView<E> {
        DriverView {
            plan: plan_view(self.plan@),
            written: self.written as nat,
            status: self.status,
        }
    }
}

impl<E> Driver<E> {
    #[verifier::type_invariant]
    pub open spec fn well_formed(self) -> bool {
        self@.consistent()
    }

    /// Takes a plan. Nothing of it is written yet.
    pub fn new(plan: Vec<EffectStep>) -> (driver: Driver<E>)
        ensures
            driver@ == DriverView::<E>::start(plan_view(plan@)),
    {
        let status = if plan.len() == 0 {
            Status::Completed
        } else {
            Status::Running
        };
        Driver { plan, written: 0, status }
    }

    /// What to do now: write the pending packet, or finish.
    ///
    /// The packet is the encoding of the pending state. Asking twice
    /// without reporting an event in between gives the same answer.
    pub fn next_action(&self) -> (action: Action)
        ensures
            self@.consistent(),
            match self@.pending() {
                Some(step) => action matches Action::Write { packet, delay_ms } && packet@
                    == encode_spec(step.0) && delay_ms == step.1,
                None => action == Action::Finish,
            },
    {
        proof {
            use_type_invariant(self);
        }
        match &self.status {
            Status::Running => {
                let step = self.plan[self.written];
                Action::Write { packet: encode(&step.state), delay_ms: step.delay_ms }
            },
            Status::Cancelling => {
                let dark = BlyncControl::turned_off();
                Action::Write { packet: encode(&dark), delay_ms: 0 }
            },
            _ => Action::Finish,
        }
    }

    /// Takes note of an event and gives the driver as it stands after it.
    pub fn handle(self, event: Event<E>) -> (next: Driver<E>)
        ensures
            next@ == self@.after(event),
    {
        proof {
            use_type_invariant(&self);
            assert(self@.plan.len() == self.plan@.len());
        }
        let Driver { plan, written, status } = self;
        match status {
            Status::Running => match event {
                Event::Written(_) => {
                    let total = plan.len();
                    let status = if written + 1 == total {
                        Status::Completed
                    } else {
                        Status::Running
                    };
                    Driver { plan, written: written + 1, status }
                },
                Event::Failed(reason) => Driver { plan, written, status: Status::Failed(reason) },
                Event::Cancel => Driver { plan, written, status: Status::Cancelling },
            },
            Status::Cancelling => match event {
                Event::Written(_) => Driver { plan, written, status: Status::Cancelled },
                Event::Failed(reason) => Driver { plan, written, status: Status::Failed(reason) },
                Event::Cancel => Driver { plan, written, status: Status::Cancelling },
            },
            status => Driver { plan, written, status },
        }
    }

    /// Where the effect stands.
    pub fn status(&self) -> (status: &Status<E>)
        ensures
            *status == self@.status,
    {
        &self.status
    }

    /// How many steps of the plan were written.
    pub fn written(&self) -> (count: usize)
        ensures
            count == self@.written,
    {
        self.written
    }

    /// Gives up the driver for the final word on its effect.
    pub fn into_status(self) -> (status: Status<E>)
        ensures
            status == self@.status,
    {
        self.status
    }
}

/// An event leaves a consistent driver consistent.
pub proof fn lemma_after_consistent<E>(view: DriverView<E>, event: Event<E>)
    requires
        view.consistent(),
    ensures
        view.after(event).consistent(),
        view.after(event).plan == view.plan,
{
}

/// Once an effect has ended nothing is pending and no event changes
/// anything: after a failure no further write is asked for.
pub proof fn lemma_ended_is_final<E>(view: DriverView<E>, events: Seq<Event<E>>)
    requires
        view.ended(),
    ensures
        view.pending() is None,
        view.after_all(events) == view,
    decreases events.len(),
{
    if events.len() > 0 {
        lemma_ended_is_final(view.after(events[0]), events.subrange(1, events.len() as int));
    }
}

/// While every write succeeds the steps go out in the order of the plan:
/// after `events.len()` successful writes that many more steps are
/// written, and the next pending step is the one that follows them.
pub proof fn lemma_writes_in_order<E>(view: DriverView<E>, events: Seq<Event<E>>)
    requires
        view.consistent(),
        view.status is Running,
        view.written + events.len() <= view.plan.len(),
        forall|i: int| 0 <= i < events.len() ==> events[i] is Written,
    ensures
        view.after_all(events).plan == view.plan,
        view.after_all(events).written == view.written + events.len(),
        view.written + events.len() < view.plan.len() ==> view.after_all(events).status is Running
            && view.after_all(events).pending() == Some(
            view.plan[(view.written + events.len()) as int],
        ),
        view.written + events.len() == view.plan.len() ==> view.after_all(events).status
            is Completed,
    decreases events.len(),
{
    if events.len() > 0 {
        let rest = events.subrange(1, events.len() as int);
        let next = view.after(events[0]);
        assert(events[0] is Written);
        assert forall|i: int| 0 <= i < rest.len() implies rest[i] is Written by {
            assert(rest[i] == events[i + 1]);
        }
        if next.status is Running {
            lemma_writes_in_order(next, rest);
        } else {
            assert(rest.len() == 0);
        }
    }
}

/// A failed write ends the effect for good. If the first `failed_at`
/// writes succeed and the next one fails, then exactly `failed_at` steps
/// count as written, the failure is the final status, and nothing is
/// pending, whatever is reported afterwards.
pub proof fn lemma_failure_aborts<E>(
    plan: Seq<(LightState, u64)>,
    events: Seq<Event<E>>,
    failed_at: int,
    reason: E,
)
    requires
        0 <= failed_at < events.len(),
        failed_at < plan.len(),
        forall|i: int| 0 <= i < failed_at ==> events[i] is Written,
        events[failed_at] == Event::Failed(reason),
    ensures
        DriverView::<E>::start(plan).after_all(events) == (DriverView {
            plan,
            written: failed_at as nat,
            status: Status::Failed(reason),
        }),
        DriverView::<E>::start(plan).after_all(events).pending() is None,
{
    let start = DriverView::<E>::start(plan);
    let before = events.subrange(0, failed_at);
    let rest = events.subrange(failed_at, events.len() as int);
    lemma_after_all_split(start, events, failed_at);
    lemma_writes_in_order(start, before);
    let reached = start.after_all(before);
    assert(reached.status is Running);
    assert(reached == DriverView { plan, written: failed_at as nat, status: Status::<E>::Running });
    assert(rest[0] == events[failed_at]);
    let failed = reached.after(rest[0]);
    lemma_ended_is_final(failed, rest.subrange(1, rest.len() as int));
}

/// Handling a list of events is handling its first part and then the
/// rest.
pub proof fn lemma_after_all_split<E>(view: DriverView<E>, events: Seq<Event<E>>, at: int)
    requires
        0 <= at <= events.len(),
    ensures
        view.after_all(events) == view.after_all(events.subrange(0, at)).after_all(
            events.subrange(at, events.len() as int),
        ),
    decreases at,
{
    if at == 0 {
        assert(events.subrange(0, events.len() as int) =~= events);
    } else {
        let tail = events.subrange(1, events.len() as int);
        lemma_after_all_split(view.after(events[0]), tail, at - 1);
        assert(tail.subrange(0, at - 1) =~= events.subrange(0, at).subrange(1, at));
        assert(tail.subrange(at - 1, tail.len() as int) =~= events.subrange(
            at,
            events.len() as int,
        ));
        assert(events.subrange(0, at)[0] == events[0]);
    }
}

} // verus!
