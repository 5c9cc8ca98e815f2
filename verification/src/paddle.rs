//! Paddle reads with software debouncing.

use vstd::prelude::*;

verus! {

/// What a debouncer remembers between two samples.
pub struct DebouncerView {
    /// The accepted state.
    pub state: bool,
    /// How many of the latest samples in a row disagreed with `state`.
    pub count: nat,
    /// How many disagreeing samples in a row it takes to change `state`.
    pub threshold: nat,
}

impl DebouncerView {
    /// A run of disagreeing samples is always shorter than the threshold.
    pub open spec fn wf(self) -> bool {
        self.count < self.threshold
    }

    /// A debouncer that has not seen a sample.
    pub open spec fn fresh(initial_state: bool, threshold: nat) -> DebouncerView {
        DebouncerView { state: initial_state, count: 0, threshold }
    }

    /// The debouncer after one more raw sample.
    pub open spec fn after(self, raw: bool) -> DebouncerView {
        if raw == self.state {
            DebouncerView { count: 0, ..self }
        } else if self.count + 1 < self.threshold {
            DebouncerView { count: self.count + 1, ..self }
        } else {
            DebouncerView { state: raw, count: 0, ..self }
        }
    }

    /// The debouncer after a whole sequence of raw samples, oldest first.
    pub open spec fn after_all(self, samples: Seq<bool>) -> DebouncerView
        decreases samples.len(),
    {
        if samples.len() == 0 {
            self
        } else {
            self.after_all(samples.drop_last()).after(samples.last())
        }
    }
}

/// Integration-style debouncer. A change is accepted only after the raw
/// input has read the *new* state for `threshold` consecutive samples.
pub struct Debouncer {
    state: bool,
    integration_counter: u8,
    threshold: u8,
}

impl View for Debouncer {
    type V = DebouncerView;

    closed spec fn view(&self) -> DebouncerView {
        DebouncerView {
            state: self.state,
            count: self.integration_counter as nat,
            threshold: self.threshold as nat,
        }
    }
}

impl Debouncer {
    #[verifier::type_invariant]
    spec fn inv(self) -> bool {
        self@.wf()
    }

    /// A debouncer that reports `initial_state` until `threshold` samples in
    /// a row say otherwise.
    pub fn new(initial_state: bool, threshold: u8) -> (d: Self)
        requires
            threshold > 0,
        ensures
            d@ == (DebouncerView { state: initial_state, count: 0, threshold: threshold as nat }),
            d@ == DebouncerView::fresh(initial_state, threshold as nat),
            d@.wf(),
    {
        Self { state: initial_state, integration_counter: 0, threshold }
    }

    /// Feed one raw sample; returns the debounced state.
    pub fn update(&mut self, raw_state: bool) -> (state: bool)
        ensures
            final(self)@ == old(self)@.after(raw_state),
            final(self)@.wf(),
            state == final(self)@.state,
        no_unwind
    {
        proof {
            use_type_invariant(&*self);
        }
        if raw_state != self.state {
            let next: u8 = self.integration_counter + 1;
            if next >= self.threshold {
                self.state = raw_state;
                self.integration_counter = 0;
            } else {
                self.integration_counter = next;
            }
        } else {
            self.integration_counter = 0;
        }
        self.state
    }
}

/// The last `n` samples all read `x`.
pub open spec fn ends_with_run(samples: Seq<bool>, x: bool, n: int) -> bool {
    &&& 0 <= n <= samples.len()
    &&& forall|i: int| samples.len() - n <= i < samples.len() ==> samples[i] == x
}

/// Samples never change the threshold, and never break the invariant.
pub proof fn lemma_after_all_wf(d: DebouncerView, samples: Seq<bool>)
    requires
        d.wf(),
    ensures
        d.after_all(samples).wf(),
        d.after_all(samples).threshold == d.threshold,
    decreases samples.len(),
{
    if samples.len() > 0 {
        lemma_after_all_wf(d, samples.drop_last());
    }
}

/// Feeding `a` and then `b` is feeding `a + b`.
pub proof fn lemma_after_all_concat(d: DebouncerView, a: Seq<bool>, b: Seq<bool>)
    ensures
        d.after_all(a + b) == d.after_all(a).after_all(b),
    decreases b.len(),
{
    if b.len() == 0 {
        assert(a + b =~= a);
    } else {
        lemma_after_all_concat(d, a, b.drop_last());
        assert((a + b).drop_last() =~= a + b.drop_last());
        assert((a + b).last() == b.last());
    }
}

/// After `samples.len()` samples of `x` either `x` is accepted or all of them
/// have been counted.
proof fn lemma_run_counts(d: DebouncerView, samples: Seq<bool>, x: bool)
    requires
        d.wf(),
        forall|i: int| 0 <= i < samples.len() ==> samples[i] == x,
    ensures
        d.after_all(samples).state == x || d.after_all(samples).count >= samples.len(),
    decreases samples.len(),
{
    if samples.len() > 0 {
        lemma_run_counts(d, samples.drop_last(), x);
    }
}

/// A steady input gets through: once the last `threshold` samples all read
/// `x`, the debounced state is `x`, whatever came before.
pub proof fn law_steady_input_is_accepted(d: DebouncerView, samples: Seq<bool>, x: bool)
    requires
        d.wf(),
        ends_with_run(samples, x, d.threshold as int),
    ensures
        d.after_all(samples).state == x,
{
    let k = samples.len() - d.threshold;
    let head = samples.take(k);
    let tail = samples.skip(k);
    assert(head + tail =~= samples);
    lemma_after_all_concat(d, head, tail);
    lemma_after_all_wf(d, head);
    lemma_run_counts(d.after_all(head), tail, x);
    lemma_after_all_wf(d.after_all(head), tail);
}

/// The counter of a fresh debouncer counts the disagreeing samples at the end
/// of what it was fed.
proof fn lemma_count_is_trailing_run(d: DebouncerView, samples: Seq<bool>)
    requires
        d.wf(),
        d.count == 0,
    ensures
        ends_with_run(
            samples,
            !d.after_all(samples).state,
            d.after_all(samples).count as int,
        ),
    decreases samples.len(),
{
    if samples.len() > 0 {
        let prev = samples.drop_last();
        lemma_count_is_trailing_run(d, prev);
        lemma_after_all_wf(d, prev);
        let p = d.after_all(prev);
        if samples.last() != p.state && p.count + 1 < p.threshold {
            assert forall|i: int| samples.len() - (p.count + 1) <= i < samples.len() implies
                samples[i] == !p.state by {
                if i < samples.len() - 1 {
                    assert(prev[i] == samples[i]);
                }
            }
        }
    }
}

/// A change is accepted only on a sample that completes `threshold`
/// consecutive samples of the new state.
pub proof fn law_change_needs_a_full_run(d: DebouncerView, samples: Seq<bool>)
    requires
        d.wf(),
        d.count == 0,
        samples.len() > 0,
        d.after_all(samples).state != d.after_all(samples.drop_last()).state,
    ensures
        ends_with_run(samples, d.after_all(samples).state, d.threshold as int),
{
    let prev = samples.drop_last();
    lemma_count_is_trailing_run(d, prev);
    lemma_after_all_wf(d, prev);
    let x = d.after_all(samples).state;
    assert forall|i: int| samples.len() - d.threshold <= i < samples.len() implies samples[i]
        == x by {
        if i < samples.len() - 1 {
            assert(prev[i] == samples[i]);
        }
    }
}

/// Bounce shorter than the threshold is invisible: while no `threshold`
/// consecutive samples disagree with the accepted state, it stays.
pub proof fn law_short_bounce_is_ignored(d: DebouncerView, samples: Seq<bool>)
    requires
        d.wf(),
        d.count == 0,
        forall|n: int|
            #![trigger samples.take(n)]
            0 <= n <= samples.len() ==> !ends_with_run(
                samples.take(n),
                !d.state,
                d.threshold as int,
            ),
    ensures
        d.after_all(samples).state == d.state,
    decreases samples.len(),
{
    if samples.len() > 0 {
        let prev = samples.drop_last();
        assert forall|n: int|
            #![trigger prev.take(n)]
            0 <= n <= prev.len() implies !ends_with_run(
            prev.take(n),
            !d.state,
            d.threshold as int,
        ) by {
            assert(prev.take(n) =~= samples.take(n));
        }
        law_short_bounce_is_ignored(d, prev);
        if d.after_all(samples).state != d.state {
            law_change_needs_a_full_run(d, samples);
            assert(samples.take(samples.len() as int) =~= samples);
            assert(false);
        }
    }
}

/// A fresh debouncer reports its initial state, and goes over to the other
/// state exactly when as many samples in a row as the threshold have read it.
pub proof fn law_fresh_debouncer_waits_for_a_run(initial_state: bool, threshold: nat, n: nat)
    requires
        threshold > 0,
        n > 0,
    ensures
        ({
            let d = DebouncerView::fresh(initial_state, threshold);
            let run = Seq::new(n, |i: int| !initial_state);
            &&& d.wf()
            &&& d.state == initial_state
            &&& d.after_all(run).state == !initial_state <==> n >= threshold
        }),
{
    let d = DebouncerView::fresh(initial_state, threshold);
    let run = Seq::new(n, |i: int| !initial_state);
    if n >= threshold {
        law_steady_input_is_accepted(d, run, !initial_state);
    } else {
        law_short_bounce_is_ignored(d, run);
    }
}

} // verus!
