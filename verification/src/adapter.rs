//! The transferability adapter and the model of the deferred computations it
//! wraps.
//!
//! A deferred computation is driven by repeated polls: each poll either
//! reports that the computation is still pending or completes it with its
//! output. [`Computation`] models one such computation: it reports pending a
//! known number of times, then completes, and counts the polls it receives.
//! [`SendFuture`] wraps exactly one computation and forwards every poll it
//! receives, one for one, changing nothing about the outcome; its sole
//! purpose in the rewritten code is to be the value that is typed as
//! transferable between threads.

use vstd::prelude::*;

verus! {

/// What one poll of a deferred computation reports: still pending, or
/// completed with the output.
#[derive(Clone, Copy, PartialEq, Eq, Debug)]
pub enum PollResult<T> {
    Pending,
    Ready(T),
}

/// Model of a deferred computation: it will report pending a known number of
/// times and then complete with its output. Once completed it is spent; a
/// completed computation is not polled again.
pub struct Computation<T> {
    pending: u64,
    output: Option<T>,
    polls: Ghost<nat>,
}

impl<T> Computation<T> {
    /// How many more polls will be answered with "pending" before the
    /// computation completes.
    pub closed spec fn pending_polls(self) -> nat {
        self.pending as nat
    }

    /// Whether the computation has completed and handed out its output.
    pub closed spec fn completed(self) -> bool {
        self.output is None
    }

    /// The output the computation completes with.
    pub closed spec fn output_value(self) -> T {
        self.output->0
    }

    /// How many polls the computation has received.
    pub closed spec fn polls_received(self) -> nat {
        self.polls@
    }

    /// A computation that will report pending `pending` times and then
    /// complete with `output`.
    pub fn new(pending: u64, output: T) -> (c: Computation<T>)
        ensures
            c.pending_polls() == pending,
            !c.completed(),
            c.output_value() == output,
            c.polls_received() == 0,
    {
        Computation { pending, output: Option::Some(output), polls: Ghost(0nat) }
    }

    /// Advances the computation one step: while polls are still pending it
    /// reports pending and consumes one of them; the poll after the last
    /// pending one completes the computation with its output.
    pub fn poll(&mut self) -> (r: PollResult<T>)
        requires
            !old(self).completed(),
        ensures
            final(self).polls_received() == old(self).polls_received() + 1,
            old(self).pending_polls() > 0 ==> (r is Pending
                && !final(self).completed()
                && final(self).pending_polls() == old(self).pending_polls() - 1
                && final(self).output_value() == old(self).output_value()),
            old(self).pending_polls() == 0 ==> (r == PollResult::Ready(old(self).output_value())
                && final(self).completed()),
    {
        proof {
            self.polls@ = self.polls@ + 1;
        }
        if self.pending > 0 {
            self.pending = self.pending - 1;
            PollResult::Pending
        } else {
            match self.output.take() {
                Option::Some(v) => PollResult::Ready(v),
                Option::None => unreached(),
            }
        }
    }
}

/// The adapter around one deferred computation. It owns the computation
/// exclusively and forwards exactly one poll to it per poll it receives,
/// returning the computation's progress unchanged: no buffering, no retry,
/// no transformation, and the same output.
///
/// In the executable embedding this is the type that declares itself
/// transferable between threads whatever its computation holds. That
/// declaration is an unchecked caller obligation, stated at the embedding's
/// unsafe constructor: the adapter must in practice be driven from one
/// logical thread at a time for its whole lifetime. Nothing in the adapter
/// enforces it, and nothing here models threads; this model states what the
/// adapter does to the polls and the output, which is: nothing.
pub struct SendFuture<T> {
    future: Computation<T>,
    received: Ghost<nat>,
}

impl<T> SendFuture<T> {
    /// The wrapped computation.
    pub closed spec fn wrapped(self) -> Computation<T> {
        self.future
    }

    /// How many polls the adapter has received.
    pub closed spec fn polls_received(self) -> nat {
        self.received@
    }

    /// Wraps one deferred computation, taking exclusive ownership of it.
    pub fn new(future: Computation<T>) -> (f: SendFuture<T>)
        ensures
            f.wrapped() == future,
            f.polls_received() == 0,
    {
        SendFuture { future, received: Ghost(0nat) }
    }

    /// Forwards exactly one poll to the wrapped computation and returns what
    /// it reported, unchanged: one poll received, one poll forwarded.
    pub fn poll(&mut self) -> (r: PollResult<T>)
        requires
            !old(self).wrapped().completed(),
        ensures
            final(self).polls_received() == old(self).polls_received() + 1,
            final(self).wrapped().polls_received() == old(self).wrapped().polls_received() + 1,
            old(self).wrapped().pending_polls() > 0 ==> (r is Pending
                && !final(self).wrapped().completed()
                && final(self).wrapped().pending_polls() == old(self).wrapped().pending_polls() - 1
                && final(self).wrapped().output_value() == old(self).wrapped().output_value()),
            old(self).wrapped().pending_polls() == 0 ==> (r == PollResult::Ready(
                old(self).wrapped().output_value(),
            ) && final(self).wrapped().completed()),
    {
        proof {
            self.received@ = self.received@ + 1;
        }
        self.future.poll()
    }
}

/// How many polls drive to completion a computation that will still report
/// pending `pending` times: one per pending report, plus the final poll that
/// yields the output.
pub open spec fn polls_to_drive(pending: nat) -> nat
    decreases pending,
{
    if pending == 0 {
        1
    } else {
        1 + polls_to_drive((pending - 1) as nat)
    }
}

/// Driving takes exactly one poll more than there are pending reports.
pub proof fn lemma_polls_to_drive(pending: nat)
    ensures
        polls_to_drive(pending) == pending + 1,
    decreases pending,
{
    if pending > 0 {
        lemma_polls_to_drive((pending - 1) as nat);
    }
}

/// Drives a computation directly to completion: polls it until it reports
/// ready, and returns the output together with the number of polls made.
#[verifier::loop_isolation(false)]
pub fn drive_computation<T>(c: Computation<T>) -> (r: (T, u64))
    requires
        !c.completed(),
        c.pending_polls() < u64::MAX,
    ensures
        r.0 == c.output_value(),
        r.1 == polls_to_drive(c.pending_polls()),
        r.1 == c.pending_polls() + 1,
{
    let ghost c0 = c;
    let mut c = c;
    let mut count: u64 = 0;
    loop
        invariant
            !c.completed(),
            c.output_value() == c0.output_value(),
            count as nat + c.pending_polls() == c0.pending_polls(),
            c0.pending_polls() < u64::MAX,
        decreases c.pending_polls(),
    {
        match c.poll() {
            PollResult::Pending => {
                count = count + 1;
            },
            PollResult::Ready(v) => {
                proof {
                    lemma_polls_to_drive(c0.pending_polls());
                }
                return (v, count + 1);
            },
        }
    }
}

/// Drives the adapter to completion and returns the output together with the
/// number of polls the adapter received; the contract adds that the adapter
/// forwarded every one of them to the wrapped computation.
#[verifier::loop_isolation(false)]
pub fn drive_adapter<T>(f: &mut SendFuture<T>) -> (r: (T, u64))
    requires
        !old(f).wrapped().completed(),
        old(f).wrapped().pending_polls() < u64::MAX,
    ensures
        r.0 == old(f).wrapped().output_value(),
        r.1 == polls_to_drive(old(f).wrapped().pending_polls()),
        r.1 == old(f).wrapped().pending_polls() + 1,
        final(f).polls_received() == old(f).polls_received() + r.1,
        final(f).wrapped().polls_received() == old(f).wrapped().polls_received() + r.1,
        final(f).wrapped().completed(),
{
    let ghost f0 = *f;
    let mut count: u64 = 0;
    loop
        invariant
            !f.wrapped().completed(),
            f.wrapped().output_value() == f0.wrapped().output_value(),
            count as nat + f.wrapped().pending_polls() == f0.wrapped().pending_polls(),
            f0.wrapped().pending_polls() < u64::MAX,
            f.polls_received() == f0.polls_received() + count,
            f.wrapped().polls_received() == f0.wrapped().polls_received() + count,
        decreases f.wrapped().pending_polls(),
    {
        match f.poll() {
            PollResult::Pending => {
                count = count + 1;
            },
            PollResult::Ready(v) => {
                proof {
                    lemma_polls_to_drive(f0.wrapped().pending_polls());
                }
                return (v, count + 1);
            },
        }
    }
}

/// Round trip: the adapter changes nothing that driving observes. Driving
/// the adapter around a computation `c` yields, by [`drive_adapter`]'s
/// contract, `c`'s own output after `polls_to_drive(c.pending_polls())`
/// polls, each forwarded to `c` one for one - the same output, after the
/// same number of polls, that [`drive_computation`]'s contract gives for
/// driving `c` directly.
pub proof fn lemma_adapter_round_trip<T>(c: Computation<T>, f: SendFuture<T>)
    requires
        f.wrapped() == c,
    ensures
        f.wrapped().output_value() == c.output_value(),
        f.wrapped().pending_polls() == c.pending_polls(),
        polls_to_drive(c.pending_polls()) == c.pending_polls() + 1,
{
    lemma_polls_to_drive(c.pending_polls());
}

} // verus!
