//! The lazy frame iteration protocol: a single-pass, non-restartable
//! sequence of frames over a trajectory, reusing one shared buffer when the
//! caller does not retain it.
//!
//! The unverified shell drives one pull in two verified steps: `begin_next`
//! resolves the latch and the atom count and hands out a correctly sized
//! buffer (reusing the previous one when the iterator still holds it
//! exclusively), the shell runs the native decode into that buffer, and
//! `finish_next` turns the read outcome into what the pull yields, latching
//! the iterator on the first error that is not end of file.
//!
//! The one-pull contract is written against the pure model `pull_yield` /
//! `latched_after`, so the iteration laws (the latch is permanent; end of
//! file ends the sequence silently) are proved once about the model and hold
//! of the executable protocol through its `ensures`.
use vstd::prelude::*;

use std::rc::Rc;

use crate::errors::Error;
use crate::frame::{zero_box, zero_triplet, Frame, FrameView, Triplet};

verus! {

/// What one pull of the iterator observed: the atom count resolution failed,
/// or the native read succeeded, or it failed with the given error.
pub enum PullEvent {
    CountFailed(Error),
    ReadOk,
    ReadFailed(Error),
}

/// What one pull of the iterator hands the caller: nothing (the sequence is
/// over, or an end of file was reached), one more item, or an error value,
/// yielded exactly once.
pub enum PullYield {
    Nothing,
    Item,
    Failure(Error),
}

/// The error a failed atom count resolution is wrapped in before the caller
/// sees it.
pub open spec fn wrapped_count_error(e: Error) -> Error {
    Error::CouldNotCheckNAtoms(Box::new(e))
}

/// The pure model of one pull: what a pull on an iterator in latch state
/// `latched` yields when it observes `ev`. A latched iterator yields
/// nothing; an end of file (even one nested in a failed atom count
/// resolution) ends the sequence without surfacing an error; any other error
/// is yielded once.
pub open spec fn pull_yield(latched: bool, ev: PullEvent) -> PullYield {
    if latched {
        PullYield::Nothing
    } else {
        match ev {
            PullEvent::CountFailed(e) => if wrapped_count_error(e).spec_is_eof() {
                PullYield::Nothing
            } else {
                PullYield::Failure(wrapped_count_error(e))
            },
            PullEvent::ReadOk => PullYield::Item,
            PullEvent::ReadFailed(e) => if e.spec_is_eof() {
                PullYield::Nothing
            } else {
                PullYield::Failure(e)
            },
        }
    }
}

/// The latch state after one pull: latching is one-way, and exactly the
/// pulls that yield an error value latch.
pub open spec fn latched_after(latched: bool, ev: PullEvent) -> bool {
    latched || pull_yield(latched, ev) is Failure
}

/// What a sequence of pulls yields, pull by pull, starting from latch state
/// `latched`.
pub open spec fn pull_yields(latched: bool, evs: Seq<PullEvent>) -> Seq<PullYield>
    decreases evs.len(),
{
    if evs.len() == 0 {
        Seq::empty()
    } else {
        seq![pull_yield(latched, evs[0])] + pull_yields(latched_after(latched, evs[0]), evs.drop_first())
    }
}

/// A latched iterator yields nothing, at every later pull: the sequence is
/// permanently exhausted.
pub proof fn lemma_latched_yields_nothing(evs: Seq<PullEvent>)
    ensures
        pull_yields(true, evs).len() == evs.len(),
        forall|i: int| 0 <= i < evs.len() ==> pull_yields(true, evs)[i] is Nothing,
    decreases evs.len(),
{
    if evs.len() > 0 {
        lemma_latched_yields_nothing(evs.drop_first());
        assert forall|i: int| 0 <= i < evs.len() implies pull_yields(true, evs)[i]
            is Nothing by {
            if i > 0 {
                assert(pull_yields(true, evs)[i] == pull_yields(true, evs.drop_first())[i - 1]);
            }
        }
    }
}

/// A pull sequence yields exactly one outcome per pull.
pub proof fn lemma_pull_yields_len(latched: bool, evs: Seq<PullEvent>)
    ensures
        pull_yields(latched, evs).len() == evs.len(),
    decreases evs.len(),
{
    if evs.len() > 0 {
        lemma_pull_yields_len(latched_after(latched, evs[0]), evs.drop_first());
    }
}

/// Once a pull yields an error value, every subsequent pull yields nothing,
/// whatever the underlying trajectory would have done on a later read.
pub proof fn lemma_latch_is_permanent(latched: bool, evs: Seq<PullEvent>, i: int, j: int)
    requires
        0 <= i < j < evs.len(),
        pull_yields(latched, evs)[i] is Failure,
    ensures
        pull_yields(latched, evs)[j] is Nothing,
    decreases evs.len(),
{
    let rest = evs.drop_first();
    let after = latched_after(latched, evs[0]);
    lemma_pull_yields_len(after, rest);
    assert(pull_yields(latched, evs) == seq![pull_yield(latched, evs[0])] + pull_yields(
        after,
        rest,
    ));
    if i == 0 {
        assert(pull_yields(latched, evs)[0] == pull_yield(latched, evs[0]));
        assert(after);
        lemma_latched_yields_nothing(rest);
        assert(pull_yields(latched, evs)[j] == pull_yields(true, rest)[j - 1]);
    } else {
        assert(pull_yields(latched, evs)[i] == pull_yields(after, rest)[i - 1]);
        lemma_latch_is_permanent(after, rest, i - 1, j - 1);
        assert(pull_yields(latched, evs)[j] == pull_yields(after, rest)[j - 1]);
    }
}

/// End of file sequencing: pulls that read one frame each, followed by a
/// read that reports end of file, yield exactly that many items and then
/// nothing; the end of file is never surfaced as an error and the iterator
/// is not latched by it.
pub proof fn lemma_eof_ends_sequence(evs: Seq<PullEvent>, k: int)
    requires
        0 <= k,
        evs.len() == k + 1,
        forall|i: int| 0 <= i < k ==> evs[i] is ReadOk,
        evs[k] matches PullEvent::ReadFailed(e) && e.spec_is_eof(),
    ensures
        pull_yields(false, evs).len() == k + 1,
        forall|i: int| 0 <= i < k ==> pull_yields(false, evs)[i] is Item,
        pull_yields(false, evs)[k] is Nothing,
        !latched_after_all(false, evs),
    decreases k,
{
    lemma_pull_yields_len(false, evs);
    if k == 0 {
        let rest = evs.drop_first();
        assert(latched_after_all(false, evs) == latched_after_all(
            latched_after(false, evs[0]),
            rest,
        ));
        assert(latched_after(false, evs[0]) == false);
        assert(latched_after_all(false, rest) == false);
    } else {
        let rest = evs.drop_first();
        assert(evs[0] is ReadOk);
        assert(latched_after_all(false, evs) == latched_after_all(false, rest));
        assert(latched_after(false, evs[0]) == false);
        assert(pull_yields(false, evs) == seq![pull_yield(false, evs[0])] + pull_yields(
            false,
            rest,
        ));
        lemma_eof_ends_sequence(rest, k - 1);
        assert forall|i: int| 0 <= i < k implies pull_yields(false, evs)[i] is Item by {
            if i > 0 {
                assert(pull_yields(false, evs)[i] == pull_yields(false, rest)[i - 1]);
            }
        }
        assert(pull_yields(false, evs)[k] == pull_yields(false, rest)[k - 1]);
    }
}

/// The latch state after a whole sequence of pulls.
pub open spec fn latched_after_all(latched: bool, evs: Seq<PullEvent>) -> bool
    decreases evs.len(),
{
    if evs.len() == 0 {
        latched
    } else {
        latched_after_all(latched_after(latched, evs[0]), evs.drop_first())
    }
}

/// What `begin_next` decided: the sequence is over and nothing more will be
/// yielded, or the pull fails with the given error, or the native read may
/// go ahead into the returned buffer.
pub enum NextStep {
    Exhausted,
    Failed(Error),
    Read(Frame),
}

/// Iterator state for trajectories. One pull yields a shared reference to
/// the iterator's frame buffer; if the caller drops it before the next pull
/// the buffer is reused in place, and if the caller retains it a fresh
/// buffer is allocated while the retained frame stays valid and unchanged.
/// The first error that is not end of file latches the iterator for good.
pub struct TrajectoryIterator {
    /// The shared frame buffer; `None` only while a pull is in flight,
    /// between `begin_next` and `finish_next`.
    item: Option<Rc<Frame>>,
    has_error: bool,
}

impl TrajectoryIterator {
    /// Whether the iterator has latched on an error.
    pub closed spec fn spec_latched(self) -> bool {
        self.has_error
    }

    /// The value of the held frame buffer, if the iterator holds one.
    pub closed spec fn spec_buffer(self) -> Option<FrameView> {
        match self.item {
            Some(rc) => Some(rc@),
            None => None,
        }
    }

    /// Build the iterator state for a trajectory whose atom count resolved
    /// to `num_atoms`: the initial buffer is sized to the count when the
    /// probe succeeded and empty when it did not (the failure itself is
    /// reported by the first pull, which re-resolves the count).
    pub fn new(num_atoms: Option<usize>) -> (r: TrajectoryIterator)
        ensures
            !r.spec_latched(),
            num_atoms matches Some(n) ==> r.spec_buffer() == Some(
                FrameView {
                    step: 0,
                    time: 0,
                    box_vector: zero_box(),
                    coords: Seq::new(n as nat, |i: int| zero_triplet()),
                },
            ),
            num_atoms is None ==> r.spec_buffer() == Some(
                FrameView {
                    step: 0,
                    time: 0,
                    box_vector: zero_box(),
                    coords: Seq::<Triplet>::empty(),
                },
            ),
    {
        let frame = match num_atoms {
            Some(n) => Frame::with_len(n),
            None => Frame::new(),
        };
        TrajectoryIterator { item: Some(Rc::new(frame)), has_error: false }
    }

    /// True once the iterator has yielded an error value; it will yield
    /// nothing from then on.
    pub fn has_error(&self) -> (r: bool)
        ensures
            r == self.spec_latched(),
    {
        self.has_error
    }

    /// Start one pull with the trajectory's re-resolved atom count. On a
    /// latched iterator this is the whole pull: nothing is yielded and
    /// nothing changes. A failed count resolution is wrapped and treated as
    /// the pull's outcome. Otherwise the buffer for the native read is
    /// handed out: the previous buffer, resized in place, when the iterator
    /// still held it exclusively, or a fresh zeroed one of the right size
    /// when the caller retained the previous frame (whose value is
    /// untouched).
    pub fn begin_next(&mut self, num_atoms: Result<usize, Error>) -> (r: NextStep)
        ensures
            old(self).spec_latched() ==> r is Exhausted && *final(self) == *old(self),
            num_atoms matches Err(e) ==> !old(self).spec_latched() ==> {
                &&& r matches NextStep::Failed(w) ==> w == wrapped_count_error(e)
                &&& (match pull_yield(false, PullEvent::CountFailed(e)) {
                    PullYield::Nothing => r is Exhausted,
                    PullYield::Failure(w) => r == NextStep::Failed(w),
                    PullYield::Item => false,
                })
                &&& final(self).spec_latched() == latched_after(
                    false,
                    PullEvent::CountFailed(e),
                )
                &&& final(self).spec_buffer() == old(self).spec_buffer()
            },
            num_atoms matches Ok(n) ==> !old(self).spec_latched() ==> {
                &&& r matches NextStep::Read(f)
                &&& r matches NextStep::Read(f) ==> f@.coords.len() == n && ((
                old(self).spec_buffer() matches Some(b) && f@.step == b.step && f@.time == b.time
                    && f@.box_vector == b.box_vector && f@.coords == crate::frame::resized_coords(
                    b.coords,
                    n as nat,
                )) || (f@.step == 0 && f@.time == 0 && f@.box_vector == zero_box() && f@.coords
                    == Seq::new(n as nat, |i: int| zero_triplet())))
                &&& !final(self).spec_latched()
                &&& final(self).spec_buffer() is None
            },
    {
        if self.has_error {
            return NextStep::Exhausted;
        }
        match num_atoms {
            Err(e) => {
                let wrapped = Error::CouldNotCheckNAtoms(Box::new(e));
                if wrapped.is_eof() {
                    NextStep::Exhausted
                } else {
                    self.has_error = true;
                    NextStep::Failed(wrapped)
                }
            },
            Ok(n) => {
                let taken = self.item.take();
                let buffer = match taken {
                    Some(rc) => {
                        match Rc::try_unwrap(rc) {
                            Ok(mut reused) => {
                                // Fast path: the caller dropped the frame it
                                // was handed, so the buffer is exclusively
                                // ours and is reused in place.
                                reused.resize(n);
                                reused
                            },
                            Err(_retained) => {
                                // The caller kept a reference; its frame
                                // stays valid and unchanged, and the
                                // iterator moves to a fresh buffer.
                                Frame::with_len(n)
                            },
                        }
                    },
                    None => Frame::with_len(n),
                };
                NextStep::Read(buffer)
            },
        }
    }

    /// Finish one pull whose native read into `frame` ended with
    /// `read_result`. The buffer becomes the iterator's held frame again,
    /// whatever happened. A successful read yields a shared reference to it;
    /// an end of file yields nothing and leaves the iterator able to run
    /// (further pulls re-observe the end of the container); any other error
    /// is yielded once and latches the iterator.
    pub fn finish_next(&mut self, frame: Frame, read_result: Option<Error>) -> (r: Option<
        Result<Rc<Frame>, Error>,
    >)
        ensures
            (match pull_yield(false, read_event(read_result)) {
                PullYield::Nothing => r is None,
                PullYield::Item => r matches Some(y) && y matches Ok(rc) && rc@ == frame@,
                PullYield::Failure(e) => r == Some(Err::<Rc<Frame>, Error>(e)),
            }),
            final(self).spec_latched() == latched_after(
                old(self).spec_latched(),
                read_event(read_result),
            ),
            final(self).spec_buffer() == Some(frame@),
    {
        let rc = Rc::new(frame);
        match read_result {
            None => {
                let yielded = rc.clone();
                self.item = Some(rc);
                Some(Ok(yielded))
            },
            Some(e) => {
                self.item = Some(rc);
                if e.is_eof() {
                    None
                } else {
                    self.has_error = true;
                    Some(Err(e))
                }
            },
        }
    }
}

/// The pull event a finished native read corresponds to.
pub open spec fn read_event(read_result: Option<Error>) -> PullEvent {
    match read_result {
        None => PullEvent::ReadOk,
        Some(e) => PullEvent::ReadFailed(e),
    }
}

} // verus!
