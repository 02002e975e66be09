use vstd::prelude::*;

verus! {

/// The hash of a block: an opaque byte string, compared byte for byte.
pub type BlockHash = Vec<u8>;

/// What a chain advertises of its tip.
pub struct ChainMetadata {
    pub height_of_longest_chain: Option<u64>,
    pub best_block: Option<BlockHash>,
    pub accumulated_difficulty: Option<u128>,
}

/// The accumulated difficulty of a tip, an absent one counting as zero.
pub open spec fn difficulty_of(m: ChainMetadata) -> nat {
    match m.accumulated_difficulty {
        Some(d) => d as nat,
        None => 0,
    }
}

/// Metadata that names no tip and has difficulty zero.
pub open spec fn empty_metadata(m: ChainMetadata) -> bool {
    &&& m.height_of_longest_chain is None
    &&& m.best_block is None
    &&& m.accumulated_difficulty is None
}

/// The tip chosen from peer advertisements: a left fold that starts from
/// empty metadata and lets each entry replace the best so far when its
/// difficulty is at least as great.
pub open spec fn tip_of(s: Seq<ChainMetadata>) -> Option<ChainMetadata>
    decreases s.len(),
{
    if s.len() == 0 {
        None
    } else {
        let last = s.last();
        match tip_of(s.drop_last()) {
            None => Some(last),
            Some(best) => if difficulty_of(last) >= difficulty_of(best) {
                Some(last)
            } else {
                Some(best)
            },
        }
    }
}

impl ChainMetadata {
    /// Metadata with no tip, no height and no difficulty.
    pub fn empty() -> (r: ChainMetadata)
        ensures
            empty_metadata(r),
    {
        ChainMetadata { height_of_longest_chain: None, best_block: None, accumulated_difficulty: None }
    }

    /// The accumulated difficulty, zero where none is given.
    pub fn difficulty(&self) -> (r: u128)
        ensures
            r as nat == difficulty_of(*self),
    {
        match self.accumulated_difficulty {
            Some(d) => d,
            None => 0,
        }
    }
}

/// Whether two block hashes are the same byte string.
pub fn same_hash(a: &BlockHash, b: &BlockHash) -> (r: bool)
    ensures
        r == (a@ == b@),
{
    if a.len() != b.len() {
        return false;
    }
    let mut i: usize = 0;
    while i < a.len()
        invariant
            a@.len() == b@.len(),
            i <= a@.len(),
            forall|j: int| 0 <= j < i ==> a@[j] == b@[j],
        decreases a@.len() - i,
    {
        if a[i] != b[i] {
            return false;
        }
        i = i + 1;
    }
    assert(a@ =~= b@);
    true
}

/// Selects the network tip from the metadata that peers reported: the entry
/// with the greatest accumulated difficulty, the later one among equals, or
/// empty metadata when no peer answered.
pub fn network_tip_metadata(metadata_list: Vec<ChainMetadata>) -> (r: ChainMetadata)
    ensures
        tip_of(metadata_list@) is None ==> empty_metadata(r),
        tip_of(metadata_list@) is Some ==> r == tip_of(metadata_list@)->Some_0,
{
    let mut list = metadata_list;
    let ghost s = list@;
    let mut best: Option<usize> = None;
    let mut best_difficulty: u128 = 0;
    let mut i: usize = 0;
    while i < list.len()
        invariant
            list@ == s,
            i <= s.len(),
            match best {
                None => tip_of(s.take(i as int)) is None && best_difficulty == 0,
                Some(b) => b < i && tip_of(s.take(i as int)) == Some(s[b as int])
                    && best_difficulty as nat == difficulty_of(s[b as int]),
            },
        decreases s.len() - i,
    {
        assert(s.take(i + 1).drop_last() =~= s.take(i as int));
        let d = list[i].difficulty();
        if best.is_none() || d >= best_difficulty {
            best = Some(i);
            best_difficulty = d;
        }
        i = i + 1;
    }
    assert(s.take(s.len() as int) =~= s);
    match best {
        None => ChainMetadata::empty(),
        Some(b) => list.remove(b),
    }
}

} // verus!
