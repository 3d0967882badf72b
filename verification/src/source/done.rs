//! A decorator that watches a wrapped source for exhaustion. Samples and
//! metadata pass through untouched; the first time the inner source signals
//! the end of its stream, the decorator decrements a shared liveness counter
//! by one and runs the completion callback then stored in its slot, both
//! exactly once over the decorator's whole lifetime.

use std::sync::atomic::{AtomicUsize, Ordering};
use std::sync::Arc;
use std::sync::Mutex;
use vstd::prelude::*;

use crate::source::{SeekError, Source, TimeSpan};

verus! {

/// A shared, mutex-guarded slot holding at most one completion callback.
///
/// The slot may be written from one thread while another drives consumption;
/// the mutex keeps either side from observing a torn value. The boxed
/// `dyn Fn` object and the `std::sync::Mutex` around it cannot be represented
/// to the verifier, so the whole slot is opaque and is reached only through
/// the trusted functions below.
#[verifier::external_body]
struct CallbackSlot {
    cell: Arc<Mutex<Option<Box<dyn Fn() + Send>>>>,
}

/// Relies on `Arc::new` and `Mutex::new`: makes a slot holding no callback.
#[verifier::external_body]
fn slot_empty() -> CallbackSlot {
    CallbackSlot { cell: Arc::new(Mutex::new(None)) }
}

/// Relies on `Mutex::lock`: replaces whatever callback the slot holds with
/// `callback`. Blocks only for the moment another thread holds the lock;
/// panics if that thread panicked while holding it.
#[verifier::external_body]
fn slot_store<F: Fn() + Send + 'static>(slot: &CallbackSlot, callback: F) {
    *slot.cell.lock().unwrap() = Some(Box::new(callback));
}

/// Relies on `Mutex::lock`: runs the callback the slot holds at this moment,
/// if any, synchronously on the calling thread, holding no lock but the
/// slot's own. A panic inside the callback propagates to the caller.
#[verifier::external_body]
fn slot_invoke_present(slot: &CallbackSlot) {
    if let Some(callback) = &*slot.cell.lock().unwrap() {
        callback();
    }
}

/// The decorator's state reduced to what its bookkeeping acts on: the items
/// the inner source has still to produce, whether the one-shot signal has
/// fired, and how often the counter was decremented and the callback slot
/// consulted.
#[verifier::ext_equal]
pub struct DoneModel<T> {
    /// The items the inner source has still to produce.
    pub remaining: Seq<T>,
    /// Whether the one-shot signal has fired.
    pub signal_sent: bool,
    /// How many times the shared counter has been decremented.
    pub decrements: nat,
    /// How many times the callback slot has been opened and its occupant run.
    pub consults: nat,
}

/// One pull from the decorator, as [`Done::next`] promises it: a produced
/// item merely advances the stream; the pull that finds the stream ended
/// fires the bookkeeping if it has not fired yet, and marks it fired.
pub open spec fn step<T>(m: DoneModel<T>) -> DoneModel<T> {
    if m.remaining.len() == 0 {
        DoneModel {
            remaining: m.remaining,
            signal_sent: true,
            decrements: if m.signal_sent {
                m.decrements
            } else {
                m.decrements + 1
            },
            consults: if m.signal_sent {
                m.consults
            } else {
                m.consults + 1
            },
        }
    } else {
        DoneModel {
            remaining: m.remaining.skip(1),
            signal_sent: m.signal_sent,
            decrements: m.decrements,
            consults: m.consults,
        }
    }
}

/// What the pull described by [`step`] hands back: the front item, or `None`
/// once the stream has ended.
pub open spec fn step_output<T>(m: DoneModel<T>) -> Option<T> {
    if m.remaining.len() == 0 {
        None
    } else {
        Some(m.remaining[0])
    }
}

/// The decorator's state after `n` consecutive pulls.
pub open spec fn run<T>(m: DoneModel<T>, n: nat) -> DoneModel<T>
    decreases n,
{
    if n == 0 {
        m
    } else {
        step(run(m, (n - 1) as nat))
    }
}

/// What any number of consecutive pulls does to the decorator's state: the
/// stream is consumed from the front, the signal is marked fired as soon as
/// one pull runs past the end, and the counter decrement and the callback
/// consultation happen on that one pull — or never, if the signal had
/// already fired.
pub proof fn lemma_run_facts<T>(m: DoneModel<T>, n: nat)
    ensures
        n <= m.remaining.len() ==> run(m, n).remaining == m.remaining.skip(n as int),
        n > m.remaining.len() ==> run(m, n).remaining == Seq::<T>::empty(),
        run(m, n).signal_sent == (m.signal_sent || n > m.remaining.len()),
        run(m, n).decrements == m.decrements + (if !m.signal_sent && n > m.remaining.len() {
            1nat
        } else {
            0nat
        }),
        run(m, n).consults == m.consults + (if !m.signal_sent && n > m.remaining.len() {
            1nat
        } else {
            0nat
        }),
    decreases n,
{
    if n > 0 {
        let prev = run(m, (n - 1) as nat);
        lemma_run_facts(m, (n - 1) as nat);
        if n - 1 <= m.remaining.len() {
            assert(prev.remaining == m.remaining.skip(n - 1));
            if prev.remaining.len() == 0 {
                assert(n > m.remaining.len());
                assert(run(m, n).remaining =~= Seq::<T>::empty());
            } else {
                assert(m.remaining.skip(n - 1).skip(1) =~= m.remaining.skip(n as int));
            }
        } else {
            assert(prev.remaining.len() == 0);
            assert(run(m, n).remaining =~= Seq::<T>::empty());
        }
    }
}

/// One-shot signal: starting from a decorator whose signal has not yet
/// fired, any sequence of pulls decrements the shared counter exactly once
/// as soon as the pulls run past the end of the stream — and not at all
/// before — however many further pulls are made after exhaustion.
pub proof fn lemma_signal_decremented_exactly_once<T>(m: DoneModel<T>, n: nat)
    requires
        !m.signal_sent,
    ensures
        n <= m.remaining.len() ==> run(m, n).decrements == m.decrements,
        n > m.remaining.len() ==> run(m, n).decrements == m.decrements + 1,
{
    lemma_run_facts(m, n);
}

/// The callback slot is consulted exactly once, at the very pull that first
/// answers with the end marker: each earlier pull produces an item and
/// leaves the slot untouched, and no later pull opens it again. A callback
/// stored before first exhaustion is therefore run exactly once, by that
/// pull.
pub proof fn lemma_callback_consulted_at_first_end<T>(m: DoneModel<T>, n: nat)
    requires
        !m.signal_sent,
    ensures
        n < m.remaining.len() ==> step_output(run(m, n)) is Some,
        step_output(run(m, m.remaining.len())) is None,
        n <= m.remaining.len() ==> run(m, n).consults == m.consults,
        n > m.remaining.len() ==> run(m, n).consults == m.consults + 1,
{
    lemma_run_facts(m, n);
    lemma_run_facts(m, m.remaining.len());
}

/// Once the signal has fired, later pulls never decrement the counter nor
/// open the callback slot again. A callback stored only after exhaustion has
/// already been observed is therefore never run.
pub proof fn lemma_quiet_after_signal<T>(m: DoneModel<T>, n: nat)
    requires
        m.signal_sent,
    ensures
        run(m, n).decrements == m.decrements,
        run(m, n).consults == m.consults,
{
    lemma_run_facts(m, n);
}

/// Wraps a source and signals on a shared counter when it first runs out.
///
/// Samples, metadata and seek requests pass through unchanged. The moment
/// the inner source first answers a pull with the end marker, the decorator
/// decrements the shared counter by one — wrapping past zero, by design —
/// and runs the callback then stored in its slot, if any. Both happen at
/// most once per decorator, whatever is pulled or sought afterwards: a seek
/// that revives the inner source does not rearm the signal.
pub struct Done<I> {
    input: I,
    signal: Arc<AtomicUsize>,
    signal_sent: bool,
    on_done: CallbackSlot,
    decrements: Ghost<nat>,
    consults: Ghost<nat>,
}

impl<I> Done<I> {
    /// The inner source the decorator owns.
    pub closed spec fn spec_inner(&self) -> I {
        self.input
    }

    /// The shared counter the decorator signals on.
    pub closed spec fn spec_signal(&self) -> Arc<AtomicUsize> {
        self.signal
    }

    /// Whether the one-shot signal has fired.
    pub closed spec fn spec_signal_sent(&self) -> bool {
        self.signal_sent
    }

    /// How many times this decorator has decremented the shared counter.
    pub closed spec fn spec_decrements(&self) -> nat {
        self.decrements@
    }

    /// How many times this decorator has opened the callback slot and run
    /// its occupant.
    pub closed spec fn spec_consults(&self) -> nat {
        self.consults@
    }

    /// The decorator's bookkeeping invariant: the counter has been
    /// decremented, and the callback slot consulted, exactly once if the
    /// signal has fired and not at all otherwise.
    pub open spec fn wf(&self) -> bool {
        &&& self.spec_decrements() == (if self.spec_signal_sent() {
            1nat
        } else {
            0nat
        })
        &&& self.spec_consults() == self.spec_decrements()
    }

    /// Wraps `input`, to signal on `signal` when it first runs out.
    ///
    /// Nothing is decremented yet, even if the counter already reads zero:
    /// when the decrement comes it wraps around, which is the counter
    /// owner's documented risk. The callback slot starts empty.
    pub fn new(input: I, signal: Arc<AtomicUsize>) -> (r: Done<I>)
        ensures
            r.spec_inner() == input,
            r.spec_signal() == signal,
            !r.spec_signal_sent(),
            r.spec_decrements() == 0,
            r.spec_consults() == 0,
            r.wf(),
    {
        Done {
            input,
            signal,
            signal_sent: false,
            on_done: slot_empty(),
            decrements: Ghost(0),
            consults: Ghost(0),
        }
    }

    /// Returns a reference to the inner source.
    pub fn inner(&self) -> (r: &I)
        ensures
            *r == self.spec_inner(),
    {
        &self.input
    }

    /// Returns a mutable reference to the inner source. Using it never
    /// triggers the decorator's bookkeeping.
    pub fn inner_mut(&mut self) -> (r: &mut I)
        ensures
            *r == old(self).spec_inner(),
            final(self).spec_inner() == *final(r),
            final(self).spec_signal() == old(self).spec_signal(),
            final(self).spec_signal_sent() == old(self).spec_signal_sent(),
            final(self).spec_decrements() == old(self).spec_decrements(),
            final(self).spec_consults() == old(self).spec_consults(),
    {
        &mut self.input
    }

    /// Returns the inner source, dropping the decorator's bookkeeping.
    pub fn into_inner(self) -> (r: I)
        ensures
            r == self.spec_inner(),
    {
        self.input
    }

    /// Stores `callback` in the slot, replacing whatever callback was there.
    ///
    /// May be called at any time, from any thread, concurrently with
    /// consumption. Only the callback present at the instant exhaustion is
    /// first observed is run; one stored after that moment never is (see
    /// [`lemma_quiet_after_signal`]). The slot's content is shared, mutable
    /// state that other threads may overwrite at any time, so no contract
    /// can pin it down here.
    pub fn set_on_done<F: Fn() + Send + 'static>(&self, callback: F) {
        slot_store(&self.on_done, callback);
    }
}

impl<I: Source> Done<I> {
    /// The decorator's state reduced to what its bookkeeping acts on.
    pub open spec fn model(&self) -> DoneModel<I::Item> {
        DoneModel {
            remaining: self.spec_inner().remaining(),
            signal_sent: self.spec_signal_sent(),
            decrements: self.spec_decrements(),
            consults: self.spec_consults(),
        }
    }
}

impl<I: Source> Source for Done<I> {
    type Item = I::Item;

    closed spec fn remaining(&self) -> Seq<I::Item> {
        self.input.remaining()
    }

    closed spec fn spec_channels(&self) -> u16 {
        self.input.spec_channels()
    }

    closed spec fn spec_sample_rate(&self) -> u32 {
        self.input.spec_sample_rate()
    }

    closed spec fn spec_current_frame_len(&self) -> Option<usize> {
        self.input.spec_current_frame_len()
    }

    closed spec fn spec_total_duration(&self) -> Option<TimeSpan> {
        self.input.spec_total_duration()
    }

    closed spec fn seek_result(&self, pos: TimeSpan) -> Result<Seq<I::Item>, SeekError> {
        self.input.seek_result(pos)
    }

    /// Pulls from the inner source and forwards the result unchanged. On
    /// the pull that first observes the end marker, decrements the shared
    /// counter once and runs the callback then stored, in that order.
    fn next(&mut self) -> (r: Option<I::Item>)
        ensures
            r == step_output(old(self).model()),
            final(self).model() == step(old(self).model()),
            final(self).spec_signal() == old(self).spec_signal(),
            final(self).spec_signal_sent() == (old(self).spec_signal_sent() || r is None),
            old(self).wf() ==> final(self).wf(),
    {
        let r = self.input.next();
        if !self.signal_sent && r.is_none() {
            self.signal.fetch_sub(1, Ordering::Relaxed);
            self.decrements = Ghost(self.decrements@ + 1);
            self.signal_sent = true;
            slot_invoke_present(&self.on_done);
            self.consults = Ghost(self.consults@ + 1);
        }
        proof {
            assert(self.model() =~= step(old(self).model()));
        }
        r
    }

    fn current_frame_len(&self) -> (r: Option<usize>) {
        self.input.current_frame_len()
    }

    fn channels(&self) -> (r: u16) {
        self.input.channels()
    }

    fn sample_rate(&self) -> (r: u32) {
        self.input.sample_rate()
    }

    fn total_duration(&self) -> (r: Option<TimeSpan>) {
        self.input.total_duration()
    }

    /// Delegates the seek to the inner source and reports its outcome
    /// unchanged. The one-shot bookkeeping is left exactly as it was: even a
    /// seek that revives an exhausted inner source does not rearm the
    /// signal.
    fn try_seek(&mut self, pos: TimeSpan) -> (r: Result<(), SeekError>)
        ensures
            final(self).spec_signal() == old(self).spec_signal(),
            final(self).spec_signal_sent() == old(self).spec_signal_sent(),
            final(self).spec_decrements() == old(self).spec_decrements(),
            final(self).spec_consults() == old(self).spec_consults(),
            old(self).wf() ==> final(self).wf(),
    {
        self.input.try_seek(pos)
    }
}

/// Metadata passthrough: every metadata query on the decorator answers
/// exactly as the same query on the inner source at the same point in
/// consumption, and the decorator produces exactly the items the inner
/// source has left.
pub proof fn lemma_metadata_passthrough<I: Source>(d: &Done<I>)
    ensures
        d.spec_channels() == d.spec_inner().spec_channels(),
        d.spec_sample_rate() == d.spec_inner().spec_sample_rate(),
        d.spec_current_frame_len() == d.spec_inner().spec_current_frame_len(),
        d.spec_total_duration() == d.spec_inner().spec_total_duration(),
        d.remaining() == d.spec_inner().remaining(),
{
}

/// Seek passthrough: a seek on the decorator has exactly the outcome —
/// success or error, and the resulting stream position — that the same seek
/// has on the inner source.
pub proof fn lemma_seek_passthrough<I: Source>(d: &Done<I>, pos: TimeSpan)
    ensures
        d.seek_result(pos) == d.spec_inner().seek_result(pos),
{
}

} // verus!
