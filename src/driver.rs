use vstd::prelude::*;
use vstd::string::StringExecFns;
use std::collections::VecDeque;
use crate::chain::{
    difficulty_of, network_tip_metadata, same_hash, tip_of, BlockHash, ChainMetadata,
};

verus! {

/// The default ceiling on consecutive failed header requests for one hash.
pub const MAX_HEADER_REQUEST_RETRY_ATTEMPTS: usize = 5;

/// The default ceiling on block request attempts for one hash.
pub const MAX_BLOCK_REQUEST_RETRY_ATTEMPTS: usize = 5;

/// Configuration for the block synchronisation.
#[derive(Clone, Copy)]
pub struct BlockSyncConfig {
    pub max_header_request_retry_attempts: usize,
    pub max_block_request_retry_attempts: usize,
}

impl Default for BlockSyncConfig {
    fn default() -> (r: Self)
        ensures
            r.max_header_request_retry_attempts == MAX_HEADER_REQUEST_RETRY_ATTEMPTS,
            r.max_block_request_retry_attempts == MAX_BLOCK_REQUEST_RETRY_ATTEMPTS,
    {
        BlockSyncConfig {
            max_header_request_retry_attempts: MAX_HEADER_REQUEST_RETRY_ATTEMPTS,
            max_block_request_retry_attempts: MAX_BLOCK_REQUEST_RETRY_ATTEMPTS,
        }
    }
}

/// The event that one synchronisation run ends with.
pub enum StateEvent {
    BlocksSynchronized,
    MaxRequestAttemptsReached,
    FatalError(String),
}

pub enum EventView {
    BlocksSynchronized,
    MaxRequestAttemptsReached,
    FatalError(Seq<char>),
}

impl View for StateEvent {
    type V = EventView;

    open spec fn view(&self) -> EventView {
        match self {
            StateEvent::BlocksSynchronized => EventView::BlocksSynchronized,
            StateEvent::MaxRequestAttemptsReached => EventView::MaxRequestAttemptsReached,
            StateEvent::FatalError(m) => EventView::FatalError(m@),
        }
    }
}

/// The hash a peer's header carries and the hash of its parent.
pub struct HeaderLink {
    pub hash: BlockHash,
    pub prev_hash: BlockHash,
}

/// What the chain store answered to a request to add a block.
pub enum BlockAddOutcome {
    Accepted,
    InvalidBlock,
    ValidationError(String),
    StoreError(String),
}

/// The request a run is waiting on.
#[derive(PartialEq, Eq, Structural, Clone, Copy, Debug)]
pub enum Awaiting {
    LocalMetadata,
    PeerMetadata,
    LocalHeader,
    Orphan,
    Headers,
    Blocks,
    AddBlock,
    Finished,
}

/// What the caller of a run is to do next.
pub enum SyncAction {
    /// Read the local chain's metadata.
    ReadLocalMetadata,
    /// Ask the peers for their chain metadata.
    FetchPeerMetadata,
    /// Look the hash up on the local chain.
    FetchLocalHeader(BlockHash),
    /// Look the hash up among the locally held orphan blocks.
    FetchOrphan(BlockHash),
    /// Ask a peer for the header with this hash.
    FetchHeader(BlockHash),
    /// Ask a peer for the block with this hash.
    FetchBlock(BlockHash),
    /// Add the block just fetched, which has this hash, to the chain.
    AddBlock(BlockHash),
    /// The run is over, with this event.
    Finish(StateEvent),
}

pub enum ActionView {
    ReadLocalMetadata,
    FetchPeerMetadata,
    FetchLocalHeader(Seq<u8>),
    FetchOrphan(Seq<u8>),
    FetchHeader(Seq<u8>),
    FetchBlock(Seq<u8>),
    AddBlock(Seq<u8>),
    Finish(EventView),
}

impl View for SyncAction {
    type V = ActionView;

    open spec fn view(&self) -> ActionView {
        match self {
            SyncAction::ReadLocalMetadata => ActionView::ReadLocalMetadata,
            SyncAction::FetchPeerMetadata => ActionView::FetchPeerMetadata,
            SyncAction::FetchLocalHeader(h) => ActionView::FetchLocalHeader(h@),
            SyncAction::FetchOrphan(h) => ActionView::FetchOrphan(h@),
            SyncAction::FetchHeader(h) => ActionView::FetchHeader(h@),
            SyncAction::FetchBlock(h) => ActionView::FetchBlock(h@),
            SyncAction::AddBlock(h) => ActionView::AddBlock(h@),
            SyncAction::Finish(e) => ActionView::Finish(e@),
        }
    }
}

/// The abstract state of a run.
pub struct SyncView {
    pub max_header_attempts: nat,
    pub max_block_attempts: nat,
    pub awaiting: Awaiting,
    pub local_difficulty: nat,
    pub network_difficulty: nat,
    /// The hash the backward walk is probing.
    pub sync_hash: Seq<u8>,
    /// The download queue, parent before child.
    pub queue: Seq<Seq<u8>>,
    /// Failed attempts for the current hash.
    pub attempts: nat,
    /// The queue position being applied.
    pub index: nat,
    /// Whether the walk reached the local chain.
    pub linked: bool,
    /// Header requests made to peers so far.
    pub header_requests: nat,
    /// Block requests made to peers so far.
    pub block_requests: nat,
    /// The hashes whose blocks the store accepted, in order.
    pub accepted: Seq<Seq<u8>>,
    /// For each queue entry, the parent named by the peer header that was
    /// checked against its hash, once one arrived.
    pub parents: Seq<Option<Seq<u8>>>,
    /// Whether the walk has so far followed no locally held orphan.
    pub no_orphan: bool,
    /// The event the run ended with.
    pub outcome: Option<EventView>,
}

/// The message of a fatal error.
pub open spec fn fatal_message(e: Seq<char>) -> Seq<char> {
    "Synchronizing blocks failed. "@ + e
}

pub open spec fn finish(v: SyncView, ev: EventView) -> (SyncView, ActionView) {
    (SyncView { awaiting: Awaiting::Finished, outcome: Some(ev), ..v }, ActionView::Finish(ev))
}

/// The top of the backward walk: probe the sync hash while the network
/// claims more difficulty than the local chain has.
pub open spec fn walk(v: SyncView) -> (SyncView, ActionView) {
    if v.local_difficulty < v.network_difficulty {
        (SyncView { awaiting: Awaiting::LocalHeader, ..v }, ActionView::FetchLocalHeader(v.sync_hash))
    } else {
        finish(v, EventView::BlocksSynchronized)
    }
}

/// The forward apply at the current queue position.
pub open spec fn apply(v: SyncView) -> (SyncView, ActionView) {
    if v.index >= v.queue.len() {
        finish(v, EventView::BlocksSynchronized)
    } else if v.attempts >= v.max_block_attempts {
        finish(v, EventView::MaxRequestAttemptsReached)
    } else {
        (
            SyncView { awaiting: Awaiting::Blocks, block_requests: v.block_requests + 1, ..v },
            ActionView::FetchBlock(v.queue[v.index as int]),
        )
    }
}

pub open spec fn after_local_metadata(v: SyncView, r: Result<ChainMetadata, String>) -> (
    SyncView,
    ActionView,
) {
    match r {
        Ok(m) => (
            SyncView {
                awaiting: Awaiting::PeerMetadata,
                local_difficulty: difficulty_of(m),
                ..v
            },
            ActionView::FetchPeerMetadata,
        ),
        Err(e) => finish(v, EventView::FatalError(fatal_message(e@))),
    }
}

pub open spec fn after_peer_metadata(v: SyncView, r: Result<Vec<ChainMetadata>, String>) -> (
    SyncView,
    ActionView,
) {
    match r {
        Err(e) => finish(v, EventView::FatalError(fatal_message(e@))),
        Ok(list) => match tip_of(list@) {
            None => finish(v, EventView::BlocksSynchronized),
            Some(m) => match m.best_block {
                None => finish(v, EventView::BlocksSynchronized),
                Some(h) => walk(
                    SyncView { sync_hash: h@, network_difficulty: difficulty_of(m), ..v },
                ),
            },
        },
    }
}

pub open spec fn after_local_header(v: SyncView, found: bool) -> (SyncView, ActionView) {
    if found {
        apply(SyncView { linked: true, index: 0, attempts: 0, ..v })
    } else {
        (SyncView { awaiting: Awaiting::Orphan, ..v }, ActionView::FetchOrphan(v.sync_hash))
    }
}

/// The header request for the sync hash, which joins the front of the queue
/// unless it is there already from a failed request.
pub open spec fn request_header(v: SyncView) -> (SyncView, ActionView) {
    if v.queue.contains(v.sync_hash) {
        (
            SyncView { awaiting: Awaiting::Headers, header_requests: v.header_requests + 1, ..v },
            ActionView::FetchHeader(v.sync_hash),
        )
    } else {
        (
            SyncView {
                awaiting: Awaiting::Headers,
                queue: seq![v.sync_hash] + v.queue,
                parents: seq![None] + v.parents,
                header_requests: v.header_requests + 1,
                ..v
            },
            ActionView::FetchHeader(v.sync_hash),
        )
    }
}

/// An orphan is followed to its parent unless that parent is already
/// queued; otherwise the sync hash is requested from the peers.
pub open spec fn after_orphan(v: SyncView, prev: Option<BlockHash>) -> (SyncView, ActionView) {
    match prev {
        Some(p) => if v.queue.contains(p@) {
            request_header(v)
        } else {
            walk(SyncView { sync_hash: p@, no_orphan: false, ..v })
        },
        None => request_header(v),
    }
}

/// Whether a header response starts with a header carrying the given hash.
pub open spec fn header_answers(r: Result<Vec<HeaderLink>, String>, h: Seq<u8>) -> bool {
    &&& r is Ok
    &&& r->Ok_0@.len() > 0
    &&& r->Ok_0@[0].hash@ == h
}

pub open spec fn after_headers(v: SyncView, r: Result<Vec<HeaderLink>, String>) -> (
    SyncView,
    ActionView,
) {
    if header_answers(r, v.sync_hash) && !v.queue.contains(r->Ok_0@[0].prev_hash@) {
        let p = r->Ok_0@[0].prev_hash@;
        walk(SyncView { attempts: 0, sync_hash: p, parents: v.parents.update(0, Some(p)), ..v })
    } else if v.attempts + 1 >= v.max_header_attempts {
        finish(
            SyncView { attempts: v.attempts + 1, ..v },
            EventView::MaxRequestAttemptsReached,
        )
    } else {
        walk(SyncView { attempts: v.attempts + 1, ..v })
    }
}

/// Whether a block response starts with a block of the given hash.
pub open spec fn block_answers(r: Result<Vec<BlockHash>, String>, h: Seq<u8>) -> bool {
    &&& r is Ok
    &&& r->Ok_0@.len() > 0
    &&& r->Ok_0@[0]@ == h
}

pub open spec fn after_blocks(v: SyncView, r: Result<Vec<BlockHash>, String>) -> (
    SyncView,
    ActionView,
) {
    if block_answers(r, v.queue[v.index as int]) {
        (SyncView { awaiting: Awaiting::AddBlock, ..v }, ActionView::AddBlock(v.queue[v.index as int]))
    } else {
        apply(SyncView { attempts: v.attempts + 1, ..v })
    }
}

pub open spec fn after_block_added(v: SyncView, o: BlockAddOutcome) -> (SyncView, ActionView) {
    match o {
        BlockAddOutcome::Accepted => apply(
            SyncView {
                index: v.index + 1,
                attempts: 0,
                accepted: v.accepted.push(v.queue[v.index as int]),
                ..v
            },
        ),
        BlockAddOutcome::InvalidBlock => apply(SyncView { attempts: v.attempts + 1, ..v }),
        BlockAddOutcome::ValidationError(_) => apply(SyncView { attempts: v.attempts + 1, ..v }),
        BlockAddOutcome::StoreError(e) => finish(v, EventView::FatalError(fatal_message(e@))),
    }
}

pub open spec fn in_walk(a: Awaiting) -> bool {
    a == Awaiting::LocalHeader || a == Awaiting::Orphan || a == Awaiting::Headers
}

pub open spec fn in_apply(a: Awaiting) -> bool {
    a == Awaiting::Blocks || a == Awaiting::AddBlock
}

/// The ceiling on header requests per queued hash: the header retry
/// ceiling, or one where that ceiling is zero (a request that succeeds is
/// still made once).
pub open spec fn header_ceiling(v: SyncView) -> nat {
    if v.max_header_attempts == 0 {
        1
    } else {
        v.max_header_attempts
    }
}

/// While the walk probes its sync hash, either the hash is the queue's front,
/// left there by failed requests, or it is not queued at all; header requests
/// stay within the ceiling for each queued hash.
pub open spec fn probing(v: SyncView) -> bool {
    ||| {
        &&& v.queue.len() > 0
        &&& v.sync_hash == v.queue[0]
        &&& v.header_requests <= (v.queue.len() - 1) * header_ceiling(v) + v.attempts
    }
    ||| {
        &&& !v.queue.contains(v.sync_hash)
        &&& v.header_requests <= v.queue.len() * header_ceiling(v)
    }
}

/// Each queue entry after the first names the entry before it as parent.
pub open spec fn linked_in_order(v: SyncView) -> bool {
    forall|i: int| 0 <= i < v.queue.len() - 1 ==> #[trigger] v.parents[i + 1] == Some(v.queue[i])
}

/// What holds of every state a run passes through.
pub open spec fn sync_inv(v: SyncView) -> bool {
    &&& v.parents.len() == v.queue.len()
    &&& v.queue.no_duplicates()
    &&& v.index <= v.queue.len()
    &&& v.accepted == v.queue.take(v.index as int)
    &&& v.no_orphan ==> linked_in_order(v)
    &&& (v.awaiting == Awaiting::LocalMetadata || v.awaiting == Awaiting::PeerMetadata) ==> {
        &&& v.queue.len() == 0
        &&& v.header_requests == 0
        &&& v.block_requests == 0
        &&& v.attempts == 0
        &&& v.no_orphan
        &&& !v.linked
        &&& v.outcome is None
    }
    &&& in_walk(v.awaiting) ==> {
        &&& v.index == 0
        &&& v.block_requests == 0
        &&& !v.linked
        &&& v.attempts < header_ceiling(v)
        &&& v.local_difficulty < v.network_difficulty
        &&& v.outcome is None
    }
    &&& (v.awaiting == Awaiting::LocalHeader || v.awaiting == Awaiting::Orphan) ==> probing(v)
    &&& (v.no_orphan && (v.awaiting == Awaiting::LocalHeader || v.awaiting == Awaiting::Orphan)
        && v.queue.len() > 0 && !v.queue.contains(v.sync_hash)) ==> v.parents[0] == Some(
        v.sync_hash,
    )
    &&& v.awaiting == Awaiting::Headers ==> {
        &&& v.queue.len() > 0
        &&& v.queue[0] == v.sync_hash
        &&& v.header_requests <= (v.queue.len() - 1) * header_ceiling(v) + v.attempts + 1
    }
    &&& in_apply(v.awaiting) ==> {
        &&& v.linked
        &&& v.index < v.queue.len()
        &&& v.attempts < v.max_block_attempts
        &&& v.block_requests <= v.index * v.max_block_attempts + v.attempts + 1
        &&& v.header_requests <= v.queue.len() * header_ceiling(v)
        &&& v.outcome is None
    }
    &&& v.awaiting == Awaiting::Finished ==> {
        &&& v.block_requests <= v.queue.len() * v.max_block_attempts
        &&& v.header_requests <= v.queue.len() * header_ceiling(v)
        &&& v.outcome is Some
        &&& v.outcome == Some(EventView::BlocksSynchronized) ==> v.index == v.queue.len()
        &&& !v.linked ==> v.index == 0
    }
}

/// One run of the block synchronisation: the backward walk from the network
/// tip to the local chain, then the forward apply of the missing blocks.
/// The caller performs each requested action and hands its result to the
/// matching `on_` method.
pub struct BlockSync {
    config: BlockSyncConfig,
    awaiting: Awaiting,
    local_difficulty: u128,
    network_difficulty: u128,
    sync_hash: BlockHash,
    queue: VecDeque<BlockHash>,
    attempts: usize,
    index: usize,
    linked: bool,
    header_requests: Ghost<nat>,
    block_requests: Ghost<nat>,
    accepted: Ghost<Seq<Seq<u8>>>,
    parents: Ghost<Seq<Option<Seq<u8>>>>,
    no_orphan: Ghost<bool>,
    outcome: Ghost<Option<EventView>>,
}

impl View for BlockSync {
    type V = SyncView;

    closed spec fn view(&self) -> SyncView {
        SyncView {
            max_header_attempts: self.config.max_header_request_retry_attempts as nat,
            max_block_attempts: self.config.max_block_request_retry_attempts as nat,
            awaiting: self.awaiting,
            local_difficulty: self.local_difficulty as nat,
            network_difficulty: self.network_difficulty as nat,
            sync_hash: self.sync_hash@,
            queue: self.queue@.map_values(|h: BlockHash| h@),
            attempts: self.attempts as nat,
            index: self.index as nat,
            linked: self.linked,
            header_requests: self.header_requests@,
            block_requests: self.block_requests@,
            accepted: self.accepted@,
            parents: self.parents@,
            no_orphan: self.no_orphan@,
            outcome: self.outcome@,
        }
    }
}


/// What `apply` needs of a state to leave one that keeps the invariant.
pub open spec fn ready_to_apply(v: SyncView) -> bool {
    &&& v.parents.len() == v.queue.len()
    &&& v.queue.no_duplicates()
    &&& v.index <= v.queue.len()
    &&& v.accepted == v.queue.take(v.index as int)
    &&& v.no_orphan ==> linked_in_order(v)
    &&& v.linked
    &&& v.attempts <= v.max_block_attempts
    &&& v.index == v.queue.len() ==> v.attempts == 0
    &&& v.block_requests <= v.index * v.max_block_attempts + v.attempts
    &&& v.header_requests <= v.queue.len() * header_ceiling(v)
    &&& v.outcome is None
}

proof fn lemma_apply(v: SyncView)
    requires
        ready_to_apply(v),
    ensures
        sync_inv(apply(v).0),
{
    if v.index >= v.queue.len() {
        assert(v.block_requests <= v.queue.len() * v.max_block_attempts);
    } else if v.attempts >= v.max_block_attempts {
        assert(v.block_requests <= v.queue.len() * v.max_block_attempts) by (nonlinear_arith)
            requires
                v.block_requests <= v.index * v.max_block_attempts + v.attempts,
                v.attempts <= v.max_block_attempts,
                v.index < v.queue.len(),
        ;
    }
}

/// What `walk` needs of a state to leave one that keeps the invariant.
pub open spec fn ready_to_walk(v: SyncView) -> bool {
    &&& v.parents.len() == v.queue.len()
    &&& v.queue.no_duplicates()
    &&& v.index == 0
    &&& v.accepted.len() == 0
    &&& v.no_orphan ==> linked_in_order(v)
    &&& (v.no_orphan && v.queue.len() > 0 && !v.queue.contains(v.sync_hash)) ==> v.parents[0]
        == Some(v.sync_hash)
    &&& !v.linked
    &&& v.block_requests == 0
    &&& v.attempts < header_ceiling(v)
    &&& v.queue.len() == 0 || v.local_difficulty < v.network_difficulty
    &&& probing(v)
    &&& v.outcome is None
}

proof fn lemma_walk(v: SyncView)
    requires
        ready_to_walk(v),
    ensures
        sync_inv(walk(v).0),
{
    assert(v.accepted =~= v.queue.take(0));
}

/// `k - 1` shares of `c`, plus at most one more, are at most `k` shares.
pub proof fn lemma_shares(k: int, c: int, a: int)
    by (nonlinear_arith)
    requires
        k >= 1,
        0 <= a <= c,
    ensures
        (k - 1) * c + a <= k * c,
{
}

impl BlockSync {
    /// Whether the state is one that a run reaches.
    pub open spec fn wf(&self) -> bool {
        sync_inv(self@)
    }

    /// Starts a run with the given configuration; it first asks for the
    /// local chain's metadata.
    pub fn new(config: BlockSyncConfig) -> (r: (BlockSync, SyncAction))
        ensures
            r.0.wf(),
            r.0@.awaiting == Awaiting::LocalMetadata,
            r.0@.max_header_attempts == config.max_header_request_retry_attempts,
            r.0@.max_block_attempts == config.max_block_request_retry_attempts,
            r.0@.queue.len() == 0,
            r.0@.header_requests == 0,
            r.0@.block_requests == 0,
            r.0@.no_orphan,
            r.1@ == ActionView::ReadLocalMetadata,
    {
        let s = BlockSync {
            config,
            awaiting: Awaiting::LocalMetadata,
            local_difficulty: 0,
            network_difficulty: 0,
            sync_hash: Vec::new(),
            queue: VecDeque::new(),
            attempts: 0,
            index: 0,
            linked: false,
            header_requests: Ghost(0),
            block_requests: Ghost(0),
            accepted: Ghost(Seq::empty()),
            parents: Ghost(Seq::empty()),
            no_orphan: Ghost(true),
            outcome: Ghost(None),
        };
        proof {
            assert(s@.queue =~= Seq::<Seq<u8>>::empty());
            assert(s@.queue.take(0) =~= Seq::<Seq<u8>>::empty());
        }
        (s, SyncAction::ReadLocalMetadata)
    }

    /// The request the run is waiting on.
    pub fn awaiting(&self) -> (r: Awaiting)
        ensures
            r == self@.awaiting,
    {
        self.awaiting
    }

    /// Whether the backward walk reached the local chain. A run that ends
    /// with `BlocksSynchronized` and is not linked stopped because the local
    /// chain already has the difficulty the network claims, on another fork.
    pub fn linked(&self) -> (r: bool)
        ensures
            r == self@.linked,
    {
        self.linked
    }

    /// The download queue, parent before child.
    pub fn download_queue(&self) -> (r: Vec<BlockHash>)
        ensures
            r@.map_values(|h: BlockHash| h@) == self@.queue,
    {
        let mut r: Vec<BlockHash> = Vec::new();
        let mut i: usize = 0;
        while i < self.queue.len()
            invariant
                i <= self.queue@.len(),
                r@.len() == i,
                forall|j: int| 0 <= j < i ==> #[trigger] r@[j]@ == self.queue@[j]@,
            decreases self.queue@.len() - i,
        {
            r.push(copy_hash(&self.queue[i]));
            i = i + 1;
        }
        assert(r@.map_values(|h: BlockHash| h@) =~= self@.queue);
        r
    }

    /// Takes the local chain's metadata, or the error that reading it gave.
    pub fn on_local_metadata(&mut self, r: Result<ChainMetadata, String>) -> (a: SyncAction)
        requires
            old(self).wf(),
            old(self)@.awaiting == Awaiting::LocalMetadata,
        ensures
            final(self).wf(),
            (final(self)@, a@) == after_local_metadata(old(self)@, r),
    {
        match r {
            Ok(m) => {
                self.local_difficulty = m.difficulty();
                self.awaiting = Awaiting::PeerMetadata;
                SyncAction::FetchPeerMetadata
            },
            Err(e) => self.finish(fatal(e)),
        }
    }

    /// Takes the metadata the peers reported, or the error that asking gave,
    /// and starts the backward walk from the heaviest tip.
    pub fn on_peer_metadata(&mut self, r: Result<Vec<ChainMetadata>, String>) -> (a: SyncAction)
        requires
            old(self).wf(),
            old(self)@.awaiting == Awaiting::PeerMetadata,
        ensures
            final(self).wf(),
            (final(self)@, a@) == after_peer_metadata(old(self)@, r),
    {
        match r {
            Err(e) => self.finish(fatal(e)),
            Ok(list) => {
                let tip = network_tip_metadata(list);
                let d = tip.difficulty();
                match tip.best_block {
                    None => self.finish(StateEvent::BlocksSynchronized),
                    Some(h) => {
                        self.sync_hash = h;
                        self.network_difficulty = d;
                        self.walk()
                    },
                }
            },
        }
    }

    /// Takes whether the sync hash is on the local chain.
    pub fn on_local_header(&mut self, found: bool) -> (a: SyncAction)
        requires
            old(self).wf(),
            old(self)@.awaiting == Awaiting::LocalHeader,
        ensures
            final(self).wf(),
            (final(self)@, a@) == after_local_header(old(self)@, found),
    {
        if found {
            let ghost v = self@;
            proof {
                if v.queue.len() > 0 && v.sync_hash == v.queue[0] {
                    lemma_shares(v.queue.len() as int, header_ceiling(v) as int, v.attempts as int);
                }
            }
            self.linked = true;
            self.index = 0;
            self.attempts = 0;
            proof {
                assert(self@.queue.take(0) =~= Seq::<Seq<u8>>::empty());
            }
            self.apply()
        } else {
            self.awaiting = Awaiting::Orphan;
            SyncAction::FetchOrphan(copy_hash(&self.sync_hash))
        }
    }

    /// Takes the parent hash of the orphan block held locally under the sync
    /// hash, or `None` where no such orphan is held.
    pub fn on_orphan(&mut self, prev: Option<BlockHash>) -> (a: SyncAction)
        requires
            old(self).wf(),
            old(self)@.awaiting == Awaiting::Orphan,
        ensures
            final(self).wf(),
            (final(self)@, a@) == after_orphan(old(self)@, prev),
    {
        match prev {
            Some(p) => {
                if self.is_queued(&p) {
                    self.request_header()
                } else {
                    let ghost v = self@;
                    proof {
                        if v.queue.len() > 0 && v.sync_hash == v.queue[0] {
                            lemma_shares(
                                v.queue.len() as int,
                                header_ceiling(v) as int,
                                v.attempts as int,
                            );
                        }
                    }
                    self.sync_hash = p;
                    self.no_orphan = Ghost(false);
                    self.walk()
                }
            },
            None => self.request_header(),
        }
    }

    fn request_header(&mut self) -> (a: SyncAction)
        requires
            old(self).wf(),
            old(self)@.awaiting == Awaiting::Orphan,
        ensures
            final(self).wf(),
            (final(self)@, a@) == request_header(old(self)@),
    {
        let ghost v = self@;
        let h = copy_hash(&self.sync_hash);
        if !self.is_queued(&h) {
            self.queue.push_front(h);
            self.parents = Ghost(seq![None] + self.parents@);
            proof {
                assert(self@.queue =~= seq![v.sync_hash] + v.queue);
                assert(self@.queue.take(0) =~= v.queue.take(0));
                assert(self@.queue.no_duplicates()) by {
                    assert forall|i: int, j: int|
                        0 <= i < self@.queue.len() && 0 <= j < self@.queue.len() && i != j
                        implies self@.queue[i] != self@.queue[j] by {
                        if i > 0 && j > 0 {
                            assert(self@.queue[i] == v.queue[i - 1]);
                            assert(self@.queue[j] == v.queue[j - 1]);
                        } else if i == 0 {
                            assert(v.queue[j - 1] == self@.queue[j]);
                        } else {
                            assert(v.queue[i - 1] == self@.queue[i]);
                        }
                    }
                }
            }
        }
        self.header_requests = Ghost(self.header_requests@ + 1);
        self.awaiting = Awaiting::Headers;
        proof {
            let w = self@;
            if w.no_orphan && !v.queue.contains(v.sync_hash) {
                assert forall|i: int| 0 <= i < w.queue.len() - 1 implies
                    #[trigger] w.parents[i + 1] == Some(w.queue[i]) by {
                    assert(w.parents[i + 1] == v.parents[i]);
                    if i > 0 {
                        assert(w.queue[i] == v.queue[i - 1]);
                        assert(v.parents[(i - 1) + 1] == Some(v.queue[i - 1]));
                    } else {
                        assert(v.parents[0] == Some(v.sync_hash));
                    }
                }
            }
        }
        SyncAction::FetchHeader(copy_hash(&self.sync_hash))
    }

    /// Whether a hash is in the download queue.
    fn is_queued(&self, h: &BlockHash) -> (r: bool)
        ensures
            r == self@.queue.contains(h@),
    {
        let mut i: usize = 0;
        while i < self.queue.len()
            invariant
                i <= self.queue@.len(),
                forall|j: int| 0 <= j < i ==> #[trigger] self.queue@[j]@ != h@,
            decreases self.queue@.len() - i,
        {
            if same_hash(&self.queue[i], h) {
                assert(self@.queue[i as int] == h@);
                return true;
            }
            i = i + 1;
        }
        assert forall|j: int| 0 <= j < self@.queue.len() implies self@.queue[j] != h@ by {
            assert(self.queue@[j]@ != h@);
        }
        false
    }

    /// Takes a peer's answer to the header request for the sync hash: the
    /// hashes of the headers it returned, or the error the request gave. A
    /// header is followed only where it carries the sync hash and its parent
    /// is not queued already; any other answer is a failed attempt.
    pub fn on_headers(&mut self, r: Result<Vec<HeaderLink>, String>) -> (a: SyncAction)
        requires
            old(self).wf(),
            old(self)@.awaiting == Awaiting::Headers,
        ensures
            final(self).wf(),
            (final(self)@, a@) == after_headers(old(self)@, r),
    {
        let ghost v = self@;
        proof {
            lemma_shares(v.queue.len() as int, header_ceiling(v) as int, (v.attempts + 1) as int);
        }
        let mut next: Option<BlockHash> = None;
        match &r {
            Ok(headers) => {
                if headers.len() > 0 && same_hash(&headers[0].hash, &self.sync_hash)
                    && !self.is_queued(&headers[0].prev_hash) {
                    next = Some(copy_hash(&headers[0].prev_hash));
                }
            },
            Err(_) => {},
        }
        match next {
            Some(p) => {
                self.attempts = 0;
                self.parents = Ghost(self.parents@.update(0, Some(p@)));
                self.sync_hash = p;
                proof {
                    if v.no_orphan {
                        assert forall|i: int| 0 <= i < self@.queue.len() - 1 implies
                            #[trigger] self@.parents[i + 1] == Some(self@.queue[i]) by {
                            assert(v.parents[i + 1] == Some(v.queue[i]));
                        }
                    }
                }
                self.walk()
            },
            None => {
                self.attempts = self.attempts + 1;
                if self.attempts >= self.config.max_header_request_retry_attempts {
                    self.finish(StateEvent::MaxRequestAttemptsReached)
                } else {
                    self.walk()
                }
            },
        }
    }

    /// Takes a peer's answer to the block request for the hash being
    /// applied: the hashes of the blocks it returned, or the error the
    /// request gave.
    pub fn on_blocks(&mut self, r: Result<Vec<BlockHash>, String>) -> (a: SyncAction)
        requires
            old(self).wf(),
            old(self)@.awaiting == Awaiting::Blocks,
        ensures
            final(self).wf(),
            (final(self)@, a@) == after_blocks(old(self)@, r),
    {
        let ok = match &r {
            Ok(blocks) => blocks.len() > 0 && same_hash(&blocks[0], &self.queue[self.index]),
            Err(_) => false,
        };
        if ok {
            self.awaiting = Awaiting::AddBlock;
            SyncAction::AddBlock(copy_hash(&self.queue[self.index]))
        } else {
            self.attempts = self.attempts + 1;
            self.apply()
        }
    }

    /// Takes what the chain store answered to adding the block.
    pub fn on_block_added(&mut self, o: BlockAddOutcome) -> (a: SyncAction)
        requires
            old(self).wf(),
            old(self)@.awaiting == Awaiting::AddBlock,
        ensures
            final(self).wf(),
            (final(self)@, a@) == after_block_added(old(self)@, o),
    {
        let ghost v = self@;
        proof {
            assert(v.block_requests <= v.queue.len() * v.max_block_attempts) by (nonlinear_arith)
                requires
                    v.block_requests <= v.index * v.max_block_attempts + v.attempts + 1,
                    v.attempts < v.max_block_attempts,
                    v.index < v.queue.len(),
            ;
            assert(v.block_requests <= (v.index + 1) * v.max_block_attempts) by (nonlinear_arith)
                requires
                    v.block_requests <= v.index * v.max_block_attempts + v.attempts + 1,
                    v.attempts < v.max_block_attempts,
            ;
        }
        match o {
            BlockAddOutcome::Accepted => {
                let queued: usize = self.queue.len();
                assert(self.index < queued);
                self.accepted = Ghost(self.accepted@.push(v.queue[v.index as int]));
                self.index = self.index + 1;
                self.attempts = 0;
                proof {
                    assert(self@.accepted =~= self@.queue.take(self@.index as int));
                }
                self.apply()
            },
            BlockAddOutcome::InvalidBlock => {
                self.attempts = self.attempts + 1;
                self.apply()
            },
            BlockAddOutcome::ValidationError(_) => {
                self.attempts = self.attempts + 1;
                self.apply()
            },
            BlockAddOutcome::StoreError(e) => self.finish(fatal(e)),
        }
    }

    fn finish(&mut self, event: StateEvent) -> (r: SyncAction)
        ensures
            *final(self) == (BlockSync {
                awaiting: Awaiting::Finished,
                outcome: Ghost(Some(event@)),
                ..*old(self)
            }),
            r == SyncAction::Finish(event),
    {
        self.awaiting = Awaiting::Finished;
        self.outcome = Ghost(Some(event@));
        SyncAction::Finish(event)
    }

    fn walk(&mut self) -> (r: SyncAction)
        requires
            ready_to_walk(old(self)@),
        ensures
            (final(self)@, r@) == walk(old(self)@),
            final(self).wf(),
    {
        proof {
            lemma_walk(self@);
        }
        if self.local_difficulty < self.network_difficulty {
            self.awaiting = Awaiting::LocalHeader;
            SyncAction::FetchLocalHeader(copy_hash(&self.sync_hash))
        } else {
            self.finish(StateEvent::BlocksSynchronized)
        }
    }

    fn apply(&mut self) -> (r: SyncAction)
        requires
            ready_to_apply(old(self)@),
        ensures
            (final(self)@, r@) == apply(old(self)@),
            final(self).wf(),
    {
        proof {
            lemma_apply(self@);
        }
        if self.index >= self.queue.len() {
            self.finish(StateEvent::BlocksSynchronized)
        } else if self.attempts >= self.config.max_block_request_retry_attempts {
            self.finish(StateEvent::MaxRequestAttemptsReached)
        } else {
            self.awaiting = Awaiting::Blocks;
            self.block_requests = Ghost(self.block_requests@ + 1);
            SyncAction::FetchBlock(copy_hash(&self.queue[self.index]))
        }
    }
}

/// The block synchronisation state of a node. It carries no data: it is
/// entered from listening, after a disconnection or a reorganisation, and
/// from the initial sync, after a restart.
#[derive(Clone, Debug, PartialEq, Eq)]
pub struct BlockSyncInfo;

impl BlockSyncInfo {
    pub fn new() -> (r: BlockSyncInfo) {
        BlockSyncInfo
    }

    /// Begins computing the state's next event: a run that first asks for
    /// the local chain's metadata. The event is the one the run ends with.
    pub fn next_event(&mut self, config: BlockSyncConfig) -> (r: (BlockSync, SyncAction))
        ensures
            r.0.wf(),
            r.0@.awaiting == Awaiting::LocalMetadata,
            r.0@.max_header_attempts == config.max_header_request_retry_attempts,
            r.0@.max_block_attempts == config.max_block_request_retry_attempts,
            r.0@.queue.len() == 0,
            r.0@.header_requests == 0,
            r.0@.block_requests == 0,
            r.0@.no_orphan,
            r.1@ == ActionView::ReadLocalMetadata,
    {
        BlockSync::new(config)
    }
}

/// A copy of a block hash.
fn copy_hash(h: &BlockHash) -> (r: BlockHash)
    ensures
        r@ == h@,
{
    let mut r: BlockHash = Vec::new();
    let mut i: usize = 0;
    while i < h.len()
        invariant
            i <= h@.len(),
            r@ == h@.take(i as int),
        decreases h@.len() - i,
    {
        r.push(h[i]);
        i = i + 1;
        assert(r@ =~= h@.take(i as int));
    }
    assert(h@.take(h@.len() as int) =~= h@);
    r
}

/// The event of a fatal error, its message prefixed with what failed.
fn fatal(e: String) -> (r: StateEvent)
    ensures
        r@ == EventView::FatalError(fatal_message(e@)),
{
    let m = String::from_str("Synchronizing blocks failed. ").concat(e.as_str());
    StateEvent::FatalError(m)
}

} // verus!
