//! Progress accounting for a byte-chunk stream.
//!
//! A download body arrives as an ordered sequence of byte chunks.  The
//! transfer manager decorates that stream so that each chunk's length is
//! reported to an optional observer callback exactly once, in emission
//! order, before the chunk is handed on — while the chunks themselves pass
//! through unchanged, never buffered, coalesced or split.  The async
//! plumbing that pulls the chunks lives outside the library; this module
//! holds the decision taken at each pull and the accounting that makes the
//! exactly-once, in-order reporting provable.

use vstd::prelude::*;

verus! {

/// Lengths of a sequence of byte chunks, in emission order.
pub open spec fn chunk_lens(chunks: Seq<Seq<u8>>) -> Seq<nat> {
    chunks.map_values(|c: Seq<u8>| c.len())
}

/// Sum of a sequence of lengths.
pub open spec fn sum_lens(lens: Seq<nat>) -> nat
    decreases lens.len(),
{
    if lens.len() == 0 {
        0
    } else {
        lens[0] + sum_lens(lens.drop_first())
    }
}

/// The per-pull accounting of the progress-observing stream decorator.
///
/// `delivered` records every chunk that passed through, in order;
/// `reported` records every length handed to the observer callback, in
/// order.  Once end-of-stream or an error has been passed on, the
/// decorator is `terminated` and observes nothing further.
pub struct ProgressObserver {
    pub has_callback: bool,
    pub terminated: bool,
    pub delivered: Ghost<Seq<Seq<u8>>>,
    pub reported: Ghost<Seq<nat>>,
}

impl ProgressObserver {
    /// With a callback, the reported lengths mirror the delivered chunks
    /// one-for-one; without one, nothing is ever reported.
    pub open spec fn wf(self) -> bool {
        if self.has_callback {
            self.reported@ == chunk_lens(self.delivered@)
        } else {
            self.reported@ == Seq::<nat>::empty()
        }
    }

    pub fn new(has_callback: bool) -> (o: ProgressObserver)
        ensures
            o.wf(),
            o.has_callback == has_callback,
            !o.terminated,
            o.delivered@ == Seq::<Seq<u8>>::empty(),
            o.reported@ == Seq::<nat>::empty(),
    {
        proof {
            assert(chunk_lens(Seq::<Seq<u8>>::empty()) =~= Seq::<nat>::empty());
        }
        ProgressObserver {
            has_callback,
            terminated: false,
            delivered: Ghost(Seq::empty()),
            reported: Ghost(Seq::empty()),
        }
    }

    /// One successful pull: the chunk passes through unchanged and, when a
    /// callback is present, its length is to be reported — exactly once,
    /// before the chunk reaches the consumer.
    pub fn observe_chunk(&mut self, chunk: &[u8]) -> (report: Option<usize>)
        requires
            old(self).wf(),
            !old(self).terminated,
        ensures
            final(self).wf(),
            !final(self).terminated,
            final(self).has_callback == old(self).has_callback,
            final(self).delivered@ == old(self).delivered@.push(chunk@),
            final(self).reported@ == if old(self).has_callback {
                old(self).reported@.push(chunk@.len())
            } else {
                old(self).reported@
            },
            report == if old(self).has_callback {
                Some(chunk@.len() as usize)
            } else {
                None::<usize>
            },
    {
        proof {
            assert(chunk_lens(self.delivered@.push(chunk@)) =~= chunk_lens(self.delivered@).push(
                chunk@.len(),
            ));
        }
        self.delivered = Ghost(self.delivered@.push(chunk@));
        if self.has_callback {
            self.reported = Ghost(self.reported@.push(chunk@.len()));
            Some(chunk.len())
        } else {
            None
        }
    }

    /// The inner stream ended: end-of-stream is passed on and no report is
    /// made for this pull or ever after.
    pub fn observe_end(&mut self)
        requires
            old(self).wf(),
            !old(self).terminated,
        ensures
            final(self).wf(),
            final(self).terminated,
            final(self).has_callback == old(self).has_callback,
            final(self).delivered@ == old(self).delivered@,
            final(self).reported@ == old(self).reported@,
    {
        self.terminated = true;
    }

    /// The inner stream failed: the error is passed on unchanged and no
    /// report is made for this pull or ever after.
    pub fn observe_failure(&mut self)
        requires
            old(self).wf(),
            !old(self).terminated,
        ensures
            final(self).wf(),
            final(self).terminated,
            final(self).has_callback == old(self).has_callback,
            final(self).delivered@ == old(self).delivered@,
            final(self).reported@ == old(self).reported@,
    {
        self.terminated = true;
    }
}

/// The reported lengths of a chunk sequence add up to its total byte count.
pub proof fn lemma_sum_lens_flatten(chunks: Seq<Seq<u8>>)
    ensures
        sum_lens(chunk_lens(chunks)) == chunks.flatten().len(),
    decreases chunks.len(),
{
    if chunks.len() == 0 {
        assert(chunk_lens(chunks) =~= Seq::<nat>::empty());
    } else {
        lemma_sum_lens_flatten(chunks.drop_first());
        assert(chunk_lens(chunks).drop_first() =~= chunk_lens(chunks.drop_first()));
        assert(chunks.flatten() == chunks.first() + chunks.drop_first().flatten());
    }
}

/// Law: whatever finite sequence of chunks flows through an observing
/// stream with a callback, the observed lengths match the delivered
/// chunks' lengths exactly — same count, same order, no drops, no
/// duplicates — and their sum equals the number of bytes delivered.
pub proof fn lemma_observer_reports_exactly(o: ProgressObserver)
    requires
        o.wf(),
        o.has_callback,
    ensures
        o.reported@ == chunk_lens(o.delivered@),
        sum_lens(o.reported@) == o.delivered@.flatten().len(),
{
    lemma_sum_lens_flatten(o.delivered@);
}

} // verus!
