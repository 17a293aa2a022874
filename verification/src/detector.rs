//! Debouncing of samples: only a change of state is worth a broadcast.

use vstd::prelude::*;
use crate::song::{PlaybackState, PlaybackView, SongView, playing, playing_all, same_state, copy_state};

verus! {

/// The state before sample `i` of `samples` was taken by a detector that
/// had forwarded `initial` last.
pub open spec fn state_before(initial: PlaybackView, samples: Seq<PlaybackView>, i: int) -> PlaybackView {
    if i <= 0 {
        initial
    } else {
        samples[i - 1]
    }
}

/// The state a detector holds after it took `samples` in order.
pub open spec fn last_after(initial: PlaybackView, samples: Seq<PlaybackView>) -> PlaybackView {
    state_before(initial, samples, samples.len() as int)
}

/// The states a detector hands back for broadcast when it takes `samples`
/// in order, having forwarded `initial` last: each sample that differs from
/// the one before it.
pub open spec fn broadcasts(initial: PlaybackView, samples: Seq<PlaybackView>) -> Seq<PlaybackView>
    decreases samples.len(),
{
    if samples.len() == 0 {
        Seq::empty()
    } else {
        let earlier = broadcasts(initial, samples.drop_last());
        if samples.last() == state_before(initial, samples, samples.len() - 1) {
            earlier
        } else {
            earlier.push(samples.last())
        }
    }
}

/// The number of maximal runs of equal consecutive samples.
pub open spec fn runs(samples: Seq<PlaybackView>) -> nat
    decreases samples.len(),
{
    if samples.len() == 0 {
        0
    } else if samples.len() == 1 {
        1
    } else if samples.last() == samples[samples.len() - 2] {
        runs(samples.drop_last())
    } else {
        runs(samples.drop_last()) + 1
    }
}

/// Remembers the state that was forwarded last.
pub struct ChangeDetector {
    last: PlaybackState,
}

impl View for ChangeDetector {
    type V = PlaybackView;

    /// The state forwarded last, or `None` while nothing was forwarded.
    closed spec fn view(&self) -> PlaybackView {
        playing(self.last)
    }
}

impl ChangeDetector {
    /// A detector that has forwarded nothing yet.
    pub fn new() -> (detector: ChangeDetector)
        ensures
            detector@ == None::<SongView>,
    {
        ChangeDetector { last: None }
    }

    /// The state forwarded last.
    pub fn last(&self) -> (state: &PlaybackState)
        ensures
            playing(*state) == self@,
    {
        &self.last
    }

    /// Takes one sample. A sample equal to the state forwarded last gives
    /// `None` and changes nothing; any other sample becomes the new last
    /// state and is handed back for broadcast.
    pub fn update(&mut self, sample: PlaybackState) -> (change: Option<PlaybackState>)
        ensures
            final(self)@ == playing(sample),
            playing(sample) == old(self)@ ==> change is None,
            playing(sample) != old(self)@ ==> change is Some && playing(change->0) == playing(
                sample,
            ),
    {
        if same_state(&sample, &self.last) {
            None
        } else {
            self.last = copy_state(&sample);
            Some(sample)
        }
    }

    /// Takes the samples in order and collects what [`Self::update`] handed
    /// back for broadcast.
    pub fn feed(&mut self, samples: &Vec<PlaybackState>) -> (changes: Vec<PlaybackState>)
        ensures
            playing_all(changes@) == broadcasts(old(self)@, playing_all(samples@)),
            final(self)@ == last_after(old(self)@, playing_all(samples@)),
    {
        let ghost initial = self@;
        let ghost all = playing_all(samples@);
        let mut changes: Vec<PlaybackState> = Vec::new();
        let mut i: usize = 0;
        assert(all.take(0) =~= Seq::<PlaybackView>::empty());
        assert(playing_all(changes@) =~= broadcasts(initial, all.take(0)));
        while i < samples.len()
            invariant
                i <= samples.len(),
                all == playing_all(samples@),
                self@ == last_after(initial, all.take(i as int)),
                playing_all(changes@) == broadcasts(initial, all.take(i as int)),
            decreases samples.len() - i,
        {
            let ghost before = changes@;
            let ghost taken = all.take(i as int + 1);
            assert(taken.drop_last() =~= all.take(i as int));
            assert(taken.last() == playing(samples@[i as int]));
            let change = self.update(copy_state(&samples[i]));
            match change {
                Some(state) => {
                    changes.push(state);
                    assert(playing_all(changes@) =~= playing_all(before).push(playing(state)));
                },
                None => {},
            }
            i = i + 1;
        }
        assert(all.take(samples.len() as int) =~= all);
        changes
    }
}

/// The number of broadcasts is one less than the number of runs in the
/// samples with the detector's earlier state put in front: the first run
/// gives no broadcast when it repeats that state.
pub proof fn law_broadcasts_count_runs(initial: PlaybackView, samples: Seq<PlaybackView>)
    ensures
        broadcasts(initial, samples).len() + 1 == runs(seq![initial] + samples),
    decreases samples.len(),
{
    let whole = seq![initial] + samples;
    if samples.len() == 0 {
        assert(whole.len() == 1);
    } else {
        law_broadcasts_count_runs(initial, samples.drop_last());
        assert(whole.drop_last() =~= seq![initial] + samples.drop_last());
        assert(whole.last() == samples.last());
        assert(whole[whole.len() - 2] == state_before(initial, samples, samples.len() - 1));
    }
}

/// When the first sample differs from the detector's earlier state, the
/// number of broadcasts equals the number of maximal runs of equal
/// consecutive samples.
pub proof fn law_broadcasts_equal_runs(initial: PlaybackView, samples: Seq<PlaybackView>)
    requires
        samples.len() > 0 ==> samples[0] != initial,
    ensures
        broadcasts(initial, samples).len() == runs(samples),
    decreases samples.len(),
{
    if samples.len() == 0 {
    } else if samples.len() == 1 {
        assert(samples.drop_last().len() == 0);
        assert(broadcasts(initial, samples.drop_last()).len() == 0);
    } else {
        law_broadcasts_equal_runs(initial, samples.drop_last());
    }
}

/// A fresh detector broadcasts once per run of samples whenever the first
/// sample is a track.
pub proof fn law_fresh_detector_counts_runs(samples: Seq<PlaybackView>)
    requires
        samples.len() > 0 ==> samples[0] is Some,
    ensures
        broadcasts(None, samples).len() == runs(samples),
{
    law_broadcasts_equal_runs(None, samples);
}

/// No broadcast repeats the one before it, and the first differs from the
/// detector's earlier state.
pub proof fn law_broadcasts_never_repeat(initial: PlaybackView, samples: Seq<PlaybackView>)
    ensures
        broadcasts(initial, samples).len() > 0 ==> broadcasts(initial, samples)[0] != initial,
        forall|i: int|
            0 < i < broadcasts(initial, samples).len() ==> #[trigger] broadcasts(initial, samples)[i]
                != broadcasts(initial, samples)[i - 1],
    decreases samples.len(),
{
    if samples.len() > 0 {
        law_broadcasts_never_repeat(initial, samples.drop_last());
        law_last_state_is_last_broadcast(initial, samples.drop_last());
        assert(last_after(initial, samples.drop_last()) == state_before(
            initial,
            samples,
            samples.len() - 1,
        ));
    }
}

/// The state a detector holds is the one it forwarded last, or its earlier
/// state while it has forwarded nothing.
pub proof fn law_last_state_is_last_broadcast(initial: PlaybackView, samples: Seq<PlaybackView>)
    ensures
        broadcasts(initial, samples).len() == 0 ==> last_after(initial, samples) == initial,
        broadcasts(initial, samples).len() > 0 ==> last_after(initial, samples) == broadcasts(
            initial,
            samples,
        ).last(),
    decreases samples.len(),
{
    if samples.len() > 0 {
        law_last_state_is_last_broadcast(initial, samples.drop_last());
        assert(last_after(initial, samples.drop_last()) == state_before(
            initial,
            samples,
            samples.len() - 1,
        ));
    }
}

} // verus!
