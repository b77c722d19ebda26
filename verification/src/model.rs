//! The channel's bookkeeping as a transition system, and what holds of every
//! run of it.
//!
//! A `send` is three atomic steps: the transport accepts the message, the
//! sender adds one to the counter, and the sender writes the readiness bit if
//! its addition calls for that. A `try_recv` that finds a message is five: the
//! transport hands the message out, the receiver loads the counter, writes the
//! bit if the load calls for it, subtracts one, and writes the bit if the
//! subtraction calls for it. `register` is two: it creates the registration
//! and seeds its bit from the counter, and it publishes the setter to the
//! senders. Steps of different handles interleave freely. In particular a
//! message may be received before its sender has counted it, and the counter
//! then wraps below zero until the sender catches up; and a sender may find no
//! setter although a registration is already under way.
//!
//! The runs described here are those in which the polling engine accepts
//! the registration and every write, and in which fewer than `usize::MAX - 1` messages wait in the
//! transport or wait to be counted at any one time.

use vstd::prelude::*;
use crate::readiness::{
    initial_readiness, signal_after_decrement, signal_after_increment, signal_before_decrement,
    Readiness,
};

verus! {

/// How far the receiver has got with the message it took last.
pub enum ReceiverPhase {
    /// Between two calls, or after a call that found nothing.
    Idle,
    /// The transport has handed out a message.
    Taken,
    /// The counter has been loaded and read `first`.
    Loaded { first: usize },
    /// The write ahead of the subtraction is done, where one was due.
    Cleared { first: usize },
    /// The subtraction is done and replaced `second`.
    Subtracted { first: usize, second: usize },
}

/// How far the one registration of the receiver has got.
pub enum Stage {
    /// `register` has not been called.
    Unregistered,
    /// The registration exists and its bit is seeded; the senders cannot
    /// reach the setter yet.
    Seeded,
    /// The setter is published: every handle writes through it.
    Published,
}

/// One atomic step of some handle.
pub enum Step {
    /// The transport accepts a message from a sender.
    Accept,
    /// A sender whose message was accepted adds one to the counter.
    Count,
    /// A sender whose addition called for it writes `Readable`.
    Signal,
    /// The transport hands the oldest message to the receiver.
    Take,
    /// The receiver loads the counter.
    Load,
    /// The receiver writes what the loaded value calls for, if anything.
    Clear,
    /// The receiver subtracts one from the counter.
    Subtract,
    /// The receiver writes what the subtraction calls for, if anything, and
    /// returns.
    Settle,
    /// `register` creates the registration, loads the counter and seeds the
    /// bit.
    Seed,
    /// `register` publishes the setter and returns.
    Publish,
}

/// The state of one channel between two atomic steps.
pub struct World {
    /// Messages that the transport has accepted.
    pub sent: nat,
    /// Messages that the transport has handed out.
    pub received: nat,
    /// Accepted messages whose sender has not yet added to the counter.
    pub uncounted: nat,
    /// Senders that have added to the counter and still owe a write of
    /// `Readable`.
    pub owed_readable: nat,
    /// The shared counter, as the machine holds it.
    pub counter: usize,
    /// Where the receiver stands.
    pub receiver: ReceiverPhase,
    /// Where the registration stands.
    pub stage: Stage,
    /// The readiness bit of the registration, once there is one.
    pub readiness: Readiness,
    /// Whether some sender's write of `Readable` found no setter while a
    /// registration that was seeded `Empty` awaited publication.
    pub missed: bool,
}

/// What `fetch_add(1)` leaves in the counter.
pub open spec fn succ(counter: usize) -> usize {
    if counter == usize::MAX {
        0
    } else {
        (counter + 1) as usize
    }
}

/// What `fetch_sub(1)` leaves in the counter.
pub open spec fn pred(counter: usize) -> usize {
    if counter == 0 {
        usize::MAX
    } else {
        (counter - 1) as usize
    }
}

/// A channel as `ctl_pair` makes it.
pub open spec fn init() -> World {
    World {
        sent: 0,
        received: 0,
        uncounted: 0,
        owed_readable: 0,
        counter: 0,
        receiver: ReceiverPhase::Idle,
        stage: Stage::Unregistered,
        readiness: Readiness::Empty,
        missed: false,
    }
}

impl World {
    /// The world after a handle has tried to write `signal`: the bit changes
    /// only if there is a signal and the setter has been published.
    pub open spec fn write(self, signal: Option<Readiness>) -> World {
        match signal {
            Some(readiness) if self.stage is Published => World { readiness, ..self },
            _ => self,
        }
    }

    /// Whether `step` can be taken. The receiver is one thread: it takes no
    /// message while it registers, and does not register while it receives.
    pub open spec fn enabled(self, step: Step) -> bool {
        match step {
            Step::Accept => self.sent - self.received < usize::MAX - 1 && self.uncounted
                < usize::MAX - 1,
            Step::Count => self.uncounted > 0,
            Step::Signal => self.owed_readable > 0,
            Step::Take => self.receiver is Idle && !(self.stage is Seeded) && self.received
                < self.sent,
            Step::Load => self.receiver is Taken,
            Step::Clear => self.receiver is Loaded,
            Step::Subtract => self.receiver is Cleared,
            Step::Settle => self.receiver is Subtracted,
            Step::Seed => self.receiver is Idle && self.stage is Unregistered,
            Step::Publish => self.stage is Seeded,
        }
    }

    /// The world after `step`.
    pub open spec fn apply(self, step: Step) -> World {
        match step {
            Step::Accept => World { sent: self.sent + 1, uncounted: self.uncounted + 1, ..self },
            Step::Count => World {
                uncounted: (self.uncounted - 1) as nat,
                counter: succ(self.counter),
                owed_readable: if signal_after_increment(self.counter) == Some(
                    Readiness::Readable,
                ) {
                    self.owed_readable + 1
                } else {
                    self.owed_readable
                },
                ..self
            },
            Step::Signal => World {
                owed_readable: (self.owed_readable - 1) as nat,
                missed: self.missed || (self.stage is Seeded && self.readiness
                    == Readiness::Empty),
                ..self
            }.write(Some(Readiness::Readable)),
            Step::Take => World {
                received: self.received + 1,
                receiver: ReceiverPhase::Taken,
                ..self
            },
            Step::Load => World { receiver: ReceiverPhase::Loaded { first: self.counter }, ..self },
            Step::Clear => match self.receiver {
                ReceiverPhase::Loaded { first } => World {
                    receiver: ReceiverPhase::Cleared { first },
                    ..self
                }.write(signal_before_decrement(first)),
                _ => self,
            },
            Step::Subtract => match self.receiver {
                ReceiverPhase::Cleared { first } => World {
                    receiver: ReceiverPhase::Subtracted { first, second: self.counter },
                    counter: pred(self.counter),
                    ..self
                },
                _ => self,
            },
            Step::Settle => match self.receiver {
                ReceiverPhase::Subtracted { first, second } => World {
                    receiver: ReceiverPhase::Idle,
                    ..self
                }.write(signal_after_decrement(first, second)),
                _ => self,
            },
            Step::Seed => World {
                stage: Stage::Seeded,
                readiness: initial_readiness(self.counter),
                ..self
            },
            Step::Publish => World { stage: Stage::Published, ..self },
        }
    }

    /// No call is under way: every accepted message has been counted, every
    /// sender has written what it owed, and the receiver is between calls.
    pub open spec fn at_rest(self) -> bool {
        &&& self.uncounted == 0
        &&& self.owed_readable == 0
        &&& self.receiver is Idle
        &&& !(self.stage is Seeded)
    }

    /// No call is under way, no write was missed, the counter reads the
    /// messages that wait, and the bit of a registered channel says whether
    /// any does.
    pub open spec fn settled(self) -> bool {
        &&& self.at_rest()
        &&& !self.missed
        &&& self.received <= self.sent
        &&& self.counter == self.sent - self.received
        &&& self.stage is Published ==> (self.readiness == Readiness::Readable <==> self.counter
            > 0)
    }

    /// Messages that the transport has accepted and not yet handed out.
    pub open spec fn unread(self) -> int {
        self.sent - self.received
    }

    /// Additions to the counter less subtractions from it.
    pub open spec fn balance(self) -> int {
        self.sent - self.uncounted - self.received + match self.receiver {
            ReceiverPhase::Taken
            | ReceiverPhase::Loaded { .. }
            | ReceiverPhase::Cleared { .. } => 1int,
            _ => 0int,
        }
    }

    /// The bit says `Readable`, or some handle is bound to write that, or
    /// nothing is counted.
    pub open spec fn covered(self) -> bool {
        ||| self.readiness == Readiness::Readable
        ||| self.balance() <= 0
        ||| self.owed_readable > 0
        ||| match self.receiver {
            ReceiverPhase::Loaded { first } | ReceiverPhase::Cleared { first } => first == 1,
            ReceiverPhase::Subtracted { first, second } => first == 1 && second > 1,
            _ => false,
        }
    }

    /// What every step keeps.
    pub open spec fn inv(self) -> bool {
        &&& self.received <= self.sent
        &&& self.unread() <= usize::MAX - 1
        &&& self.uncounted <= usize::MAX - 1
        &&& self.counter == if self.balance() >= 0 {
            self.balance()
        } else {
            self.balance() + usize::MAX + 1
        }
        &&& self.stage is Seeded ==> self.receiver is Idle
        &&& self.stage is Unregistered ==> !self.missed
        &&& !(self.stage is Unregistered) ==> self.covered() || self.missed
    }
}

/// Whether each of `steps` can be taken in its turn, starting from a fresh
/// channel.
pub open spec fn feasible(steps: Seq<Step>) -> bool
    decreases steps.len(),
{
    steps.len() > 0 ==> feasible(steps.drop_last()) && run(steps.drop_last()).enabled(steps.last())
}

/// The world that `steps` lead to from a fresh channel.
pub open spec fn run(steps: Seq<Step>) -> World
    decreases steps.len(),
{
    if steps.len() == 0 {
        init()
    } else {
        run(steps.drop_last()).apply(steps.last())
    }
}

proof fn lemma_step_keeps_inv(w: World, step: Step)
    requires
        w.inv(),
        w.enabled(step),
    ensures
        w.apply(step).inv(),
{
}

proof fn lemma_run_keeps_inv(steps: Seq<Step>)
    requires
        feasible(steps),
    ensures
        run(steps).inv(),
    decreases steps.len(),
{
    if steps.len() > 0 {
        lemma_run_keeps_inv(steps.drop_last());
        lemma_step_keeps_inv(run(steps.drop_last()), steps.last());
    }
}

proof fn lemma_one_more_step(steps: Seq<Step>, step: Step)
    requires
        feasible(steps),
        run(steps).enabled(step),
    ensures
        feasible(steps.push(step)),
        run(steps.push(step)) == run(steps).apply(step),
{
    assert(steps.push(step).drop_last() =~= steps);
}

/// However sends and receives interleave, the transport has handed out no
/// more messages than it accepted, and whenever no call is under way the
/// counter reads exactly the number of messages that wait in the transport:
/// none is lost from the count and none is counted twice. In particular the
/// counter is back at zero exactly when every message has been received.
pub proof fn law_counter_is_backlog(steps: Seq<Step>)
    requires
        feasible(steps),
    ensures
        run(steps).received <= run(steps).sent,
        run(steps).at_rest() ==> run(steps).counter == run(steps).sent - run(steps).received,
        run(steps).at_rest() ==> (run(steps).counter == 0 <==> run(steps).received == run(
            steps,
        ).sent),
{
    lemma_run_keeps_inv(steps);
}

/// The steps of `n` calls of `try_recv` that each find a message, one call
/// after the other.
pub open spec fn receives(n: nat) -> Seq<Step>
    decreases n,
{
    if n == 0 {
        Seq::<Step>::empty()
    } else {
        seq![Step::Take, Step::Load, Step::Clear, Step::Subtract, Step::Settle] + receives(
            (n - 1) as nat,
        )
    }
}

/// Once sending has stopped, draining catches up: from any world in which
/// no call is under way, receiving as many times as messages wait is
/// possible, and leaves as many messages received as were sent, with the
/// counter at zero.
pub proof fn law_draining_catches_up(steps: Seq<Step>)
    requires
        feasible(steps),
        run(steps).at_rest(),
    ensures
        feasible(steps + receives(run(steps).unread() as nat)),
        run(steps + receives(run(steps).unread() as nat)).at_rest(),
        run(steps + receives(run(steps).unread() as nat)).sent == run(steps).sent,
        run(steps + receives(run(steps).unread() as nat)).received == run(steps).sent,
        run(steps + receives(run(steps).unread() as nat)).counter == 0,
    decreases run(steps).unread(),
{
    lemma_run_keeps_inv(steps);
    let n = run(steps).unread() as nat;
    if n == 0 {
        assert(steps + receives(0) =~= steps);
    } else {
        lemma_one_more_step(steps, Step::Take);
        let s1 = steps.push(Step::Take);
        lemma_one_more_step(s1, Step::Load);
        let s2 = s1.push(Step::Load);
        lemma_one_more_step(s2, Step::Clear);
        let s3 = s2.push(Step::Clear);
        lemma_one_more_step(s3, Step::Subtract);
        let s4 = s3.push(Step::Subtract);
        lemma_one_more_step(s4, Step::Settle);
        let s5 = s4.push(Step::Settle);
        assert(run(s5).unread() == n - 1);
        law_draining_catches_up(s5);
        assert(steps + receives(n) =~= s5 + receives((n - 1) as nat));
    }
}

/// No wakeup is lost for good: however sends and receives interleave with
/// each other and with the registration, once no call is under way a
/// registered channel with messages counted shows `Readable`. The one way
/// round this is a sender whose write of `Readable` found no setter while
/// `register` stood between seeding the bit `Empty` and publishing the
/// setter.
pub proof fn law_no_lost_wakeup(steps: Seq<Step>)
    requires
        feasible(steps),
    ensures
        run(steps).at_rest() && run(steps).stage is Published && run(steps).counter > 0 && !run(
            steps,
        ).missed ==> run(steps).readiness == Readiness::Readable,
{
    lemma_run_keeps_inv(steps);
}

/// A registration that nothing interrupts misses no write: where `Publish`
/// follows `Seed` at once, in a run that had missed none before, none is
/// missed after.
pub proof fn law_prompt_registration_misses_nothing(steps: Seq<Step>)
    requires
        feasible(steps),
        run(steps).enabled(Step::Seed),
    ensures
        feasible(steps.push(Step::Seed).push(Step::Publish)),
        run(steps.push(Step::Seed).push(Step::Publish)).stage is Published,
        !run(steps.push(Step::Seed).push(Step::Publish)).missed,
{
    lemma_run_keeps_inv(steps);
    lemma_one_more_step(steps, Step::Seed);
    lemma_one_more_step(steps.push(Step::Seed), Step::Publish);
}

/// Registering while no call is under way shows `Readable` if messages wait
/// in the transport, and `Empty` if none does.
pub proof fn law_registration_shows_backlog(steps: Seq<Step>)
    requires
        feasible(steps),
        run(steps).at_rest(),
        run(steps).enabled(Step::Seed),
    ensures
        run(steps).apply(Step::Seed).readiness == if run(steps).sent > run(steps).received {
            Readiness::Readable
        } else {
            Readiness::Empty
        },
        run(steps).apply(Step::Seed).apply(Step::Publish).readiness == run(steps).apply(
            Step::Seed,
        ).readiness,
{
    lemma_run_keeps_inv(steps);
}

/// A whole call of one handle, run from start to end with no step of
/// another call in between.
pub enum Call {
    /// A `send` or `try_send` that the transport accepts.
    Send,
    /// A `try_recv`.
    Receive,
    /// A `register`.
    Register,
}

/// The steps of `call` when it starts in `w` and nothing interrupts it. A
/// `try_recv` that finds no message and a `register` that is refused take
/// none.
pub open spec fn steps_of(call: Call, w: World) -> Seq<Step> {
    match call {
        Call::Send => if signal_after_increment(w.counter) is Some {
            seq![Step::Accept, Step::Count, Step::Signal]
        } else {
            seq![Step::Accept, Step::Count]
        },
        Call::Receive => if w.received < w.sent {
            seq![Step::Take, Step::Load, Step::Clear, Step::Subtract, Step::Settle]
        } else {
            Seq::<Step>::empty()
        },
        Call::Register => if w.stage is Unregistered {
            seq![Step::Seed, Step::Publish]
        } else {
            Seq::<Step>::empty()
        },
    }
}

/// The steps of `calls`, made one after the other on a fresh channel.
pub open spec fn script(calls: Seq<Call>) -> Seq<Step>
    decreases calls.len(),
{
    if calls.len() == 0 {
        Seq::<Step>::empty()
    } else {
        script(calls.drop_last()) + steps_of(calls.last(), run(script(calls.drop_last())))
    }
}

proof fn lemma_unraced_send(steps: Seq<Step>)
    requires
        feasible(steps),
        run(steps).settled(),
        run(steps).sent - run(steps).received < usize::MAX - 1,
    ensures
        feasible(steps + steps_of(Call::Send, run(steps))),
        run(steps + steps_of(Call::Send, run(steps))).settled(),
        run(steps + steps_of(Call::Send, run(steps))).sent == run(steps).sent + 1,
{
    let w = run(steps);
    lemma_one_more_step(steps, Step::Accept);
    let s1 = steps.push(Step::Accept);
    lemma_one_more_step(s1, Step::Count);
    let s2 = s1.push(Step::Count);
    if signal_after_increment(w.counter) is Some {
        lemma_one_more_step(s2, Step::Signal);
        assert(steps + steps_of(Call::Send, w) =~= s2.push(Step::Signal));
    } else {
        assert(steps + steps_of(Call::Send, w) =~= s2);
    }
}

proof fn lemma_unraced_receive(steps: Seq<Step>)
    requires
        feasible(steps),
        run(steps).settled(),
    ensures
        feasible(steps + steps_of(Call::Receive, run(steps))),
        run(steps + steps_of(Call::Receive, run(steps))).settled(),
        run(steps + steps_of(Call::Receive, run(steps))).sent == run(steps).sent,
{
    let w = run(steps);
    if w.received < w.sent {
        lemma_one_more_step(steps, Step::Take);
        let s1 = steps.push(Step::Take);
        lemma_one_more_step(s1, Step::Load);
        let s2 = s1.push(Step::Load);
        assert(run(s2).receiver == ReceiverPhase::Loaded { first: w.counter });
        lemma_one_more_step(s2, Step::Clear);
        let s3 = s2.push(Step::Clear);
        assert(run(s3).receiver == ReceiverPhase::Cleared { first: w.counter });
        lemma_one_more_step(s3, Step::Subtract);
        let s4 = s3.push(Step::Subtract);
        assert(run(s4).receiver == ReceiverPhase::Subtracted {
            first: w.counter,
            second: w.counter,
        });
        lemma_one_more_step(s4, Step::Settle);
        assert(steps + steps_of(Call::Receive, w) =~= s4.push(Step::Settle));
    } else {
        assert(steps + steps_of(Call::Receive, w) =~= steps);
    }
}

proof fn lemma_unraced_register(steps: Seq<Step>)
    requires
        feasible(steps),
        run(steps).settled(),
    ensures
        feasible(steps + steps_of(Call::Register, run(steps))),
        run(steps + steps_of(Call::Register, run(steps))).settled(),
        run(steps + steps_of(Call::Register, run(steps))).sent == run(steps).sent,
{
    let w = run(steps);
    if w.stage is Unregistered {
        lemma_one_more_step(steps, Step::Seed);
        let s1 = steps.push(Step::Seed);
        lemma_one_more_step(s1, Step::Publish);
        assert(steps + steps_of(Call::Register, w) =~= s1.push(Step::Publish));
    } else {
        assert(steps + steps_of(Call::Register, w) =~= steps);
    }
}

/// Where calls do not overlap, the bit is exact: after any sequence of
/// sends, receives and registrations made one after the other, the counter
/// reads the messages that wait, and a registered channel shows `Readable`
/// if there are any and `Empty` if there is none. In particular the receive
/// that takes the last message leaves the bit `Empty`, whether the channel
/// was registered before that drain or is registered after it.
pub proof fn law_unraced_calls_keep_the_bit_exact(calls: Seq<Call>)
    requires
        calls.len() < usize::MAX - 1,
    ensures
        feasible(script(calls)),
        run(script(calls)).settled(),
        run(script(calls)).sent <= calls.len(),
    decreases calls.len(),
{
    if calls.len() > 0 {
        law_unraced_calls_keep_the_bit_exact(calls.drop_last());
        let before = script(calls.drop_last());
        match calls.last() {
            Call::Send => lemma_unraced_send(before),
            Call::Receive => lemma_unraced_receive(before),
            Call::Register => lemma_unraced_register(before),
        }
    }
}

/// Where calls overlap, `Readable` may outlast the last message: a sender
/// that counted the first message writes its `Readable` only after the
/// receiver has taken that message and cleared the bit. The channel is then
/// at rest with nothing counted and shows `Readable`; a caller that is woken
/// treats an empty `try_recv` as normal.
pub proof fn witness_late_write_outlasts_the_drain() -> (steps: Seq<Step>)
    ensures
        feasible(steps),
        run(steps).at_rest(),
        run(steps).stage is Published,
        run(steps).sent == 1,
        run(steps).received == 1,
        run(steps).counter == 0,
        run(steps).readiness == Readiness::Readable,
{
    let s0 = Seq::<Step>::empty();
    lemma_one_more_step(s0, Step::Seed);
    let s1 = s0.push(Step::Seed);
    lemma_one_more_step(s1, Step::Publish);
    let s2 = s1.push(Step::Publish);
    lemma_one_more_step(s2, Step::Accept);
    let s3 = s2.push(Step::Accept);
    lemma_one_more_step(s3, Step::Count);
    let s4 = s3.push(Step::Count);
    lemma_one_more_step(s4, Step::Take);
    let s5 = s4.push(Step::Take);
    lemma_one_more_step(s5, Step::Load);
    let s6 = s5.push(Step::Load);
    lemma_one_more_step(s6, Step::Clear);
    let s7 = s6.push(Step::Clear);
    lemma_one_more_step(s7, Step::Subtract);
    let s8 = s7.push(Step::Subtract);
    lemma_one_more_step(s8, Step::Settle);
    let s9 = s8.push(Step::Settle);
    lemma_one_more_step(s9, Step::Signal);
    s9.push(Step::Signal)
}

/// The exception in `law_no_lost_wakeup` is real: a message that is sent
/// and counted between the two steps of `register`, by a sender that finds no
/// setter, leaves a registered channel at rest with one message counted and
/// the bit `Empty`.
pub proof fn witness_wakeup_missed_during_registration() -> (steps: Seq<Step>)
    ensures
        feasible(steps),
        run(steps).at_rest(),
        run(steps).stage is Published,
        run(steps).counter == 1,
        run(steps).readiness == Readiness::Empty,
        run(steps).missed,
{
    let s0 = Seq::<Step>::empty();
    lemma_one_more_step(s0, Step::Seed);
    let s1 = s0.push(Step::Seed);
    lemma_one_more_step(s1, Step::Accept);
    let s2 = s1.push(Step::Accept);
    lemma_one_more_step(s2, Step::Count);
    let s3 = s2.push(Step::Count);
    lemma_one_more_step(s3, Step::Signal);
    let s4 = s3.push(Step::Signal);
    lemma_one_more_step(s4, Step::Publish);
    s4.push(Step::Publish)
}

} // verus!
