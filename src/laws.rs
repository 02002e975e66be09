use vstd::prelude::*;
use crate::chain::{difficulty_of, tip_of, ChainMetadata};
use crate::driver::{
    after_block_added, after_peer_metadata, fatal_message, header_ceiling, lemma_shares, sync_inv,
    ActionView, Awaiting, BlockAddOutcome, BlockSync, EventView, SyncView,
};

verus! {

/// The blocks the store has accepted are the download queue's first entries,
/// in queue order, and no hash is among them twice; once a run ends with
/// `BlocksSynchronized`, they are the whole queue.
pub proof fn lemma_accepted_follow_queue(s: &BlockSync)
    requires
        s.wf(),
    ensures
        s@.index <= s@.queue.len(),
        s@.accepted == s@.queue.take(s@.index as int),
        s@.accepted.no_duplicates(),
        (s@.awaiting == Awaiting::Finished && s@.outcome == Some(EventView::BlocksSynchronized))
            ==> s@.accepted == s@.queue,
{
    let v = s@;
    assert forall|i: int, j: int|
        0 <= i < v.accepted.len() && 0 <= j < v.accepted.len() && i != j implies v.accepted[i]
        != v.accepted[j] by {
        assert(v.accepted[i] == v.queue[i]);
        assert(v.accepted[j] == v.queue[j]);
    }
    if v.awaiting == Awaiting::Finished && v.outcome == Some(EventView::BlocksSynchronized) {
        assert(v.queue.take(v.queue.len() as int) =~= v.queue);
    }
}

/// A hash appears in the download queue at most once.
pub proof fn lemma_queue_distinct(s: &BlockSync)
    requires
        s.wf(),
    ensures
        s@.queue.no_duplicates(),
{
}

/// In a walk that followed no locally held orphan, each queue entry after
/// the first is a block whose header, as a peer returned it and checked
/// against its hash, names the entry before it as its parent.
pub proof fn lemma_queue_links(s: &BlockSync)
    requires
        s.wf(),
        s@.no_orphan,
    ensures
        forall|i: int|
            0 <= i < s@.queue.len() - 1 ==> #[trigger] s@.parents[i + 1] == Some(s@.queue[i]),
{
}

/// Header requests to peers never outnumber the queue entries times the
/// header retry ceiling. A bound of the queue length plus the ceiling does
/// not hold: the attempt counter restarts after each header that is
/// followed, so two hashes that each fail one time short of the ceiling
/// already pass it.
pub proof fn lemma_header_requests_bounded(s: &BlockSync)
    requires
        s.wf(),
        s@.max_header_attempts > 0,
    ensures
        s@.header_requests <= s@.queue.len() * s@.max_header_attempts,
{
    let v = s@;
    if v.awaiting == Awaiting::Headers {
        lemma_shares(v.queue.len() as int, header_ceiling(v) as int, (v.attempts + 1) as int);
    } else if (v.awaiting == Awaiting::LocalHeader || v.awaiting == Awaiting::Orphan)
        && v.queue.len() > 0 && v.sync_hash == v.queue[0] {
        lemma_shares(v.queue.len() as int, header_ceiling(v) as int, v.attempts as int);
    }
}

/// Block requests to peers never outnumber the queue entries times the
/// block retry ceiling.
pub proof fn lemma_block_requests_bounded(s: &BlockSync)
    requires
        s.wf(),
    ensures
        s@.block_requests <= s@.queue.len() * s@.max_block_attempts,
{
    let v = s@;
    if v.awaiting == Awaiting::Blocks || v.awaiting == Awaiting::AddBlock {
        assert(v.block_requests <= v.queue.len() * v.max_block_attempts) by (nonlinear_arith)
            requires
                v.block_requests <= v.index * v.max_block_attempts + v.attempts + 1,
                v.attempts < v.max_block_attempts,
                v.index < v.queue.len(),
        ;
    } else if v.awaiting != Awaiting::Finished {
        assert(v.block_requests == 0);
    }
}

/// When the local chain already has at least the accumulated difficulty of
/// the heaviest tip the peers report, the run ends at once with
/// `BlocksSynchronized` and no block is requested or added.
pub proof fn lemma_up_to_date(v: SyncView, list: Vec<ChainMetadata>)
    requires
        sync_inv(v),
        v.awaiting == Awaiting::PeerMetadata,
        tip_of(list@) is Some ==> v.local_difficulty >= difficulty_of(tip_of(list@)->Some_0),
    ensures
        after_peer_metadata(v, Ok(list)).1 == ActionView::Finish(EventView::BlocksSynchronized),
        after_peer_metadata(v, Ok(list)).0.awaiting == Awaiting::Finished,
        after_peer_metadata(v, Ok(list)).0.accepted.len() == 0,
        after_peer_metadata(v, Ok(list)).0.block_requests == 0,
        after_peer_metadata(v, Ok(list)).0.queue.len() == 0,
{
}

/// A block the store rejects as invalid or failing validation is fetched
/// again under the same hash while attempts remain, and nothing is recorded
/// as accepted.
pub proof fn lemma_rejected_block_is_fetched_again(v: SyncView, o: BlockAddOutcome)
    requires
        sync_inv(v),
        v.awaiting == Awaiting::AddBlock,
        o is InvalidBlock || o is ValidationError,
        v.attempts + 1 < v.max_block_attempts,
    ensures
        after_block_added(v, o).1 == ActionView::FetchBlock(v.queue[v.index as int]),
        after_block_added(v, o).0.index == v.index,
        after_block_added(v, o).0.accepted == v.accepted,
        after_block_added(v, o).0.attempts == v.attempts + 1,
{
}

/// Any other store error ends the run at once with a fatal error that
/// carries the store's message; no further block is requested or added.
pub proof fn lemma_store_error_is_fatal(v: SyncView, e: String)
    requires
        sync_inv(v),
        v.awaiting == Awaiting::AddBlock,
    ensures
        after_block_added(v, BlockAddOutcome::StoreError(e)).1 == ActionView::Finish(
            EventView::FatalError(fatal_message(e@)),
        ),
        after_block_added(v, BlockAddOutcome::StoreError(e)).0.awaiting == Awaiting::Finished,
        after_block_added(v, BlockAddOutcome::StoreError(e)).0.accepted == v.accepted,
        after_block_added(v, BlockAddOutcome::StoreError(e)).0.block_requests == v.block_requests,
{
}

} // verus!
