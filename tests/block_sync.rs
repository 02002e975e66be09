use block_sync::{
    network_tip_metadata, same_hash, Awaiting, BlockAddOutcome, BlockSync, BlockSyncConfig,
    BlockSyncInfo, ChainMetadata, HeaderLink, StateEvent, SyncAction,
};

fn h(c: char) -> Vec<u8> {
    vec![c as u8]
}

fn meta(tip: char, difficulty: u128) -> ChainMetadata {
    ChainMetadata {
        height_of_longest_chain: Some(difficulty as u64),
        best_block: Some(h(tip)),
        accumulated_difficulty: Some(difficulty),
    }
}

/// A local store and a peer network held in memory, with a record of every
/// request made to them.
struct World {
    local_chain: Vec<Vec<u8>>,
    orphans: Vec<(Vec<u8>, Vec<u8>)>,
    peer_chain: Vec<(Vec<u8>, Vec<u8>)>,
    empty_header_answers: usize,
    missing_blocks: Vec<Vec<u8>>,
    add_script: Vec<(Vec<u8>, Vec<BlockAddOutcome>)>,
    header_calls: Vec<Vec<u8>>,
    block_calls: Vec<Vec<u8>>,
    add_calls: Vec<Vec<u8>>,
    orphan_calls: Vec<Vec<u8>>,
}

impl World {
    fn linear() -> World {
        World {
            local_chain: vec![h('A'), h('B'), h('C')],
            orphans: vec![],
            peer_chain: vec![(h('F'), h('E')), (h('E'), h('D')), (h('D'), h('C'))],
            empty_header_answers: 0,
            missing_blocks: vec![],
            add_script: vec![],
            header_calls: vec![],
            block_calls: vec![],
            add_calls: vec![],
            orphan_calls: vec![],
        }
    }

    fn peer_prev(&self, hash: &Vec<u8>) -> Option<Vec<u8>> {
        self.peer_chain.iter().find(|(k, _)| k == hash).map(|(_, p)| p.clone())
    }

    fn run(
        &mut self,
        config: BlockSyncConfig,
        local: Result<ChainMetadata, String>,
        peers: Result<Vec<ChainMetadata>, String>,
    ) -> (StateEvent, BlockSync) {
        let mut info = BlockSyncInfo::new();
        let (mut sync, mut action) = info.next_event(config);
        let mut local = Some(local);
        let mut peers = Some(peers);
        loop {
            action = match action {
                SyncAction::ReadLocalMetadata => sync.on_local_metadata(local.take().unwrap()),
                SyncAction::FetchPeerMetadata => sync.on_peer_metadata(peers.take().unwrap()),
                SyncAction::FetchLocalHeader(hash) => {
                    let found = self.local_chain.contains(&hash);
                    sync.on_local_header(found)
                },
                SyncAction::FetchOrphan(hash) => {
                    self.orphan_calls.push(hash.clone());
                    let prev = self.orphans.iter().find(|(k, _)| *k == hash).map(|(_, p)| p.clone());
                    sync.on_orphan(prev)
                },
                SyncAction::FetchHeader(hash) => {
                    self.header_calls.push(hash.clone());
                    let answer = if self.empty_header_answers > 0 {
                        self.empty_header_answers -= 1;
                        vec![]
                    } else {
                        match self.peer_prev(&hash) {
                            Some(prev) => vec![HeaderLink { hash: hash.clone(), prev_hash: prev }],
                            None => vec![],
                        }
                    };
                    sync.on_headers(Ok(answer))
                },
                SyncAction::FetchBlock(hash) => {
                    self.block_calls.push(hash.clone());
                    let answer = if !self.missing_blocks.contains(&hash) { vec![hash] } else { vec![] };
                    sync.on_blocks(Ok(answer))
                },
                SyncAction::AddBlock(hash) => {
                    self.add_calls.push(hash.clone());
                    let scripted = self
                        .add_script
                        .iter_mut()
                        .find(|(k, _)| *k == hash)
                        .and_then(|(_, outcomes)| outcomes.pop());
                    let outcome = match scripted {
                        Some(o) => o,
                        None => {
                            self.local_chain.push(hash);
                            BlockAddOutcome::Accepted
                        },
                    };
                    sync.on_block_added(outcome)
                },
                SyncAction::Finish(event) => return (event, sync),
            };
        }
    }
}

#[test]
fn up_to_date_local_chain_is_synchronized() {
    let mut world = World::linear();
    let (event, sync) =
        world.run(BlockSyncConfig::default(), Ok(meta('C', 100)), Ok(vec![meta('C', 100)]));
    assert!(matches!(event, StateEvent::BlocksSynchronized));
    assert!(world.header_calls.is_empty());
    assert!(world.block_calls.is_empty());
    assert!(world.orphan_calls.is_empty());
    assert!(world.add_calls.is_empty());
    assert!(!sync.linked());
    assert_eq!(sync.awaiting(), Awaiting::Finished);
}

#[test]
fn linear_catch_up_applies_missing_blocks_in_order() {
    let mut world = World::linear();
    let (event, sync) =
        world.run(BlockSyncConfig::default(), Ok(meta('C', 100)), Ok(vec![meta('F', 130)]));
    assert!(matches!(event, StateEvent::BlocksSynchronized));
    assert_eq!(sync.download_queue(), vec![h('D'), h('E'), h('F')]);
    assert_eq!(world.add_calls, vec![h('D'), h('E'), h('F')]);
    assert_eq!(world.header_calls, vec![h('F'), h('E'), h('D')]);
    assert!(sync.linked());
}

#[test]
fn orphan_held_locally_is_not_queued_or_fetched() {
    let mut world = World::linear();
    world.orphans = vec![(h('E'), h('D'))];
    let (event, sync) =
        world.run(BlockSyncConfig::default(), Ok(meta('C', 100)), Ok(vec![meta('F', 130)]));
    assert!(matches!(event, StateEvent::BlocksSynchronized));
    assert_eq!(sync.download_queue(), vec![h('D'), h('F')]);
    assert!(!world.header_calls.contains(&h('E')));
    assert!(!world.block_calls.contains(&h('E')));
    assert_eq!(world.add_calls, vec![h('D'), h('F')]);
}

#[test]
fn header_retries_run_out() {
    let mut world = World::linear();
    world.empty_header_answers = usize::MAX;
    let (event, _sync) =
        world.run(BlockSyncConfig::default(), Ok(meta('C', 100)), Ok(vec![meta('F', 130)]));
    assert!(matches!(event, StateEvent::MaxRequestAttemptsReached));
    assert_eq!(world.header_calls.len(), 5);
    assert!(world.block_calls.is_empty());
    assert!(world.add_calls.is_empty());
}

#[test]
fn transient_validation_failure_then_success() {
    let mut world = World::linear();
    world.add_script = vec![(
        h('D'),
        vec![
            BlockAddOutcome::ValidationError("bad".to_string()),
            BlockAddOutcome::ValidationError("bad".to_string()),
        ],
    )];
    let (event, _sync) =
        world.run(BlockSyncConfig::default(), Ok(meta('C', 100)), Ok(vec![meta('F', 130)]));
    assert!(matches!(event, StateEvent::BlocksSynchronized));
    assert_eq!(world.add_calls.iter().filter(|x| **x == h('D')).count(), 3);
    assert_eq!(world.add_calls, vec![h('D'), h('D'), h('D'), h('E'), h('F')]);
}

#[test]
fn fatal_store_error_stops_the_run() {
    let mut world = World::linear();
    world.add_script = vec![(h('D'), vec![BlockAddOutcome::StoreError("disk I/O error".to_string())])];
    let (event, _sync) =
        world.run(BlockSyncConfig::default(), Ok(meta('C', 100)), Ok(vec![meta('F', 130)]));
    match event {
        StateEvent::FatalError(m) => assert_eq!(m, "Synchronizing blocks failed. disk I/O error"),
        _ => panic!("expected a fatal error"),
    }
    assert_eq!(world.add_calls, vec![h('D')]);
    assert_eq!(world.block_calls, vec![h('D')]);
}

#[test]
fn invalid_blocks_exhaust_block_retries() {
    let mut world = World::linear();
    world.add_script = vec![(h('D'), (0..5).map(|_| BlockAddOutcome::InvalidBlock).collect())];
    let config = BlockSyncConfig::default();
    let (event, _sync) = world.run(config, Ok(meta('C', 100)), Ok(vec![meta('F', 130)]));
    assert!(matches!(event, StateEvent::MaxRequestAttemptsReached));
    assert_eq!(world.block_calls.len(), 5);
    assert_eq!(world.add_calls.len(), 5);
}

#[test]
fn missing_blocks_exhaust_block_retries() {
    let mut world = World::linear();
    world.missing_blocks = vec![h('E')];
    let config = BlockSyncConfig { max_header_request_retry_attempts: 5, max_block_request_retry_attempts: 3 };
    let (event, _sync) = world.run(config, Ok(meta('C', 100)), Ok(vec![meta('F', 130)]));
    assert!(matches!(event, StateEvent::MaxRequestAttemptsReached));
    assert_eq!(world.block_calls, vec![h('D'), h('E'), h('E'), h('E')]);
    assert_eq!(world.add_calls, vec![h('D')]);
}

#[test]
fn zero_block_ceiling_fetches_nothing() {
    let mut world = World::linear();
    let config = BlockSyncConfig { max_header_request_retry_attempts: 5, max_block_request_retry_attempts: 0 };
    let (event, sync) = world.run(config, Ok(meta('C', 100)), Ok(vec![meta('F', 130)]));
    assert!(matches!(event, StateEvent::MaxRequestAttemptsReached));
    assert!(world.block_calls.is_empty());
    assert_eq!(sync.download_queue().len(), 3);
}

#[test]
fn failed_header_request_does_not_queue_the_hash_again() {
    let mut world = World::linear();
    world.empty_header_answers = 1;
    let (event, sync) =
        world.run(BlockSyncConfig::default(), Ok(meta('C', 100)), Ok(vec![meta('F', 130)]));
    assert!(matches!(event, StateEvent::BlocksSynchronized));
    assert_eq!(sync.download_queue(), vec![h('D'), h('E'), h('F')]);
    assert_eq!(world.header_calls, vec![h('F'), h('F'), h('E'), h('D')]);
    assert_eq!(world.add_calls, vec![h('D'), h('E'), h('F')]);
}

#[test]
fn header_naming_a_queued_parent_is_not_followed() {
    let mut world = World::linear();
    world.peer_chain = vec![(h('F'), h('E')), (h('E'), h('F'))];
    let (event, sync) =
        world.run(BlockSyncConfig::default(), Ok(meta('C', 100)), Ok(vec![meta('F', 130)]));
    assert!(matches!(event, StateEvent::MaxRequestAttemptsReached));
    assert_eq!(sync.download_queue(), vec![h('E'), h('F')]);
    assert_eq!(world.header_calls, vec![h('F'), h('E'), h('E'), h('E'), h('E'), h('E')]);
    assert!(world.add_calls.is_empty());
}

#[test]
fn header_requests_stay_within_queue_times_ceiling() {
    let mut world = World::linear();
    world.empty_header_answers = 4;
    let (event, sync) =
        world.run(BlockSyncConfig::default(), Ok(meta('C', 100)), Ok(vec![meta('F', 130)]));
    assert!(matches!(event, StateEvent::BlocksSynchronized));
    assert_eq!(world.header_calls.len(), 7);
    assert!(world.header_calls.len() <= sync.download_queue().len() * 5);
}

#[test]
fn request_counts_stay_within_bounds() {
    let mut world = World::linear();
    world.add_script = vec![(
        h('E'),
        vec![BlockAddOutcome::InvalidBlock, BlockAddOutcome::ValidationError("x".to_string())],
    )];
    let (event, sync) =
        world.run(BlockSyncConfig::default(), Ok(meta('C', 100)), Ok(vec![meta('F', 130)]));
    assert!(matches!(event, StateEvent::BlocksSynchronized));
    let queue = sync.download_queue();
    assert!(world.header_calls.len() <= queue.len() * 5);
    assert!(world.block_calls.len() <= queue.len() * 5);
    assert_eq!(world.block_calls.len(), 5);
}

#[test]
fn local_chain_ahead_adds_nothing() {
    let mut world = World::linear();
    let (event, sync) =
        world.run(BlockSyncConfig::default(), Ok(meta('C', 200)), Ok(vec![meta('F', 130)]));
    assert!(matches!(event, StateEvent::BlocksSynchronized));
    assert!(world.add_calls.is_empty());
    assert!(world.header_calls.is_empty());
    assert!(sync.download_queue().is_empty());
}

#[test]
fn no_peers_means_nothing_to_sync() {
    let mut world = World::linear();
    let (event, _sync) = world.run(BlockSyncConfig::default(), Ok(meta('C', 100)), Ok(vec![]));
    assert!(matches!(event, StateEvent::BlocksSynchronized));
    assert!(world.header_calls.is_empty());
}

#[test]
fn local_metadata_error_is_fatal() {
    let mut world = World::linear();
    let (event, _sync) =
        world.run(BlockSyncConfig::default(), Err("no db".to_string()), Ok(vec![meta('F', 130)]));
    match event {
        StateEvent::FatalError(m) => assert_eq!(m, "Synchronizing blocks failed. no db"),
        _ => panic!("expected a fatal error"),
    }
}

#[test]
fn peer_metadata_error_is_fatal() {
    let mut world = World::linear();
    let (event, _sync) =
        world.run(BlockSyncConfig::default(), Ok(meta('C', 100)), Err("offline".to_string()));
    match event {
        StateEvent::FatalError(m) => assert_eq!(m, "Synchronizing blocks failed. offline"),
        _ => panic!("expected a fatal error"),
    }
}

#[test]
fn mismatched_header_counts_as_failure() {
    let config = BlockSyncConfig::default();
    let mut info = BlockSyncInfo::new();
    let (mut sync, action) = info.next_event(config);
    assert!(matches!(action, SyncAction::ReadLocalMetadata));
    let action = sync.on_local_metadata(Ok(meta('C', 100)));
    assert!(matches!(action, SyncAction::FetchPeerMetadata));
    let action = sync.on_peer_metadata(Ok(vec![meta('F', 130)]));
    assert!(matches!(action, SyncAction::FetchLocalHeader(ref x) if *x == h('F')));
    let action = sync.on_local_header(false);
    assert!(matches!(action, SyncAction::FetchOrphan(ref x) if *x == h('F')));
    let action = sync.on_orphan(None);
    assert!(matches!(action, SyncAction::FetchHeader(ref x) if *x == h('F')));
    let wrong = HeaderLink { hash: h('X'), prev_hash: h('E') };
    let action = sync.on_headers(Ok(vec![wrong]));
    // the same hash is probed again
    assert!(matches!(action, SyncAction::FetchLocalHeader(ref x) if *x == h('F')));
    let action = sync.on_local_header(false);
    let _ = action;
    let action = sync.on_orphan(None);
    assert!(matches!(action, SyncAction::FetchHeader(ref x) if *x == h('F')));
    let action = sync.on_headers(Err("timeout".to_string()));
    assert!(matches!(action, SyncAction::FetchLocalHeader(ref x) if *x == h('F')));
    assert_eq!(sync.download_queue(), vec![h('F')]);
}

#[test]
fn mismatched_block_is_not_added() {
    let mut info = BlockSyncInfo::new();
    let (mut sync, _) = info.next_event(BlockSyncConfig::default());
    sync.on_local_metadata(Ok(meta('C', 100)));
    sync.on_peer_metadata(Ok(vec![meta('D', 110)]));
    sync.on_local_header(false);
    sync.on_orphan(None);
    let action = sync.on_headers(Ok(vec![HeaderLink { hash: h('D'), prev_hash: h('C') }]));
    assert!(matches!(action, SyncAction::FetchLocalHeader(ref x) if *x == h('C')));
    let action = sync.on_local_header(true);
    assert!(matches!(action, SyncAction::FetchBlock(ref x) if *x == h('D')));
    let action = sync.on_blocks(Ok(vec![h('Z')]));
    assert!(matches!(action, SyncAction::FetchBlock(ref x) if *x == h('D')));
    let action = sync.on_blocks(Ok(vec![h('D')]));
    assert!(matches!(action, SyncAction::AddBlock(ref x) if *x == h('D')));
    let action = sync.on_block_added(BlockAddOutcome::Accepted);
    assert!(matches!(action, SyncAction::Finish(StateEvent::BlocksSynchronized)));
}

#[test]
fn tip_selector_picks_greatest_difficulty() {
    let tip = network_tip_metadata(vec![meta('A', 10), meta('B', 30), meta('C', 20)]);
    assert_eq!(tip.best_block, Some(h('B')));
    assert_eq!(tip.accumulated_difficulty, Some(30));
}

#[test]
fn tip_selector_later_entry_wins_a_tie() {
    let tip = network_tip_metadata(vec![meta('A', 30), meta('B', 30), meta('C', 20)]);
    assert_eq!(tip.best_block, Some(h('B')));
}

#[test]
fn tip_selector_counts_missing_difficulty_as_zero() {
    let none = ChainMetadata { height_of_longest_chain: None, best_block: Some(h('N')), accumulated_difficulty: None };
    let tip = network_tip_metadata(vec![none]);
    assert_eq!(tip.best_block, Some(h('N')));
    assert_eq!(tip.difficulty(), 0);
    let none = ChainMetadata { height_of_longest_chain: None, best_block: Some(h('N')), accumulated_difficulty: None };
    let tip = network_tip_metadata(vec![meta('A', 1), none]);
    assert_eq!(tip.best_block, Some(h('A')));
}

#[test]
fn tip_selector_on_no_peers_is_empty() {
    let tip = network_tip_metadata(vec![]);
    assert_eq!(tip.best_block, None);
    assert_eq!(tip.accumulated_difficulty, None);
    assert_eq!(tip.height_of_longest_chain, None);
    assert_eq!(tip.difficulty(), 0);
}

#[test]
fn hashes_compare_byte_for_byte() {
    assert!(same_hash(&vec![1, 2, 3], &vec![1, 2, 3]));
    assert!(!same_hash(&vec![1, 2, 3], &vec![1, 2, 4]));
    assert!(!same_hash(&vec![1, 2], &vec![1, 2, 3]));
    assert!(same_hash(&vec![], &vec![]));
}

#[test]
fn default_config_allows_five_attempts() {
    let c = BlockSyncConfig::default();
    assert_eq!(c.max_header_request_retry_attempts, 5);
    assert_eq!(c.max_block_request_retry_attempts, 5);
}
