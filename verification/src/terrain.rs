//! The solid blocks the bot has seen in chunk samples and block updates,
//! with the runtime id each was last seen with, and the targets and runtime
//! ids that failed as break targets.

use vstd::prelude::*;
use crate::menu::{
    below, hand_droppable, is_gameplay_marker_runtime, is_normal_validation_placeable_drop_runtime_id,
    BlockTarget, OBSERVED_AIR_RUNTIME_ID, OBSERVED_CHEST_RUNTIME_ID, SPRUCE_BUTTON_CEILING_RUNTIME_ID,
};
use crate::observe::ObservedBlockSample;

verus! {

/// How many solid blocks are kept before the least useful are dropped.
pub const MAX_OBSERVED_SOLID_BLOCKS: usize = 2048;

/// A runtime id whose block drops something placeable when broken by hand.
pub open spec fn placeable_drop(runtime_id: u32) -> bool {
    hand_droppable(runtime_id) && runtime_id != SPRUCE_BUTTON_CEILING_RUNTIME_ID
}

/// The runtime id of the last entry for `t`.
pub open spec fn runtime_of(ids: Seq<(BlockTarget, u32)>, t: BlockTarget) -> Option<u32>
    decreases ids.len(),
{
    if ids.len() == 0 {
        None
    } else if ids.last().0 == t {
        Some(ids.last().1)
    } else {
        runtime_of(ids.drop_last(), t)
    }
}

/// The entries whose block is not `t`, in order.
pub open spec fn ids_without(ids: Seq<(BlockTarget, u32)>, t: BlockTarget) -> Seq<(BlockTarget, u32)>
    decreases ids.len(),
{
    if ids.len() == 0 {
        ids
    } else {
        let rest = ids_without(ids.drop_last(), t);
        if ids.last().0 == t {
            rest
        } else {
            rest.push(ids.last())
        }
    }
}

/// The blocks other than `t`, in order.
pub open spec fn blocks_without(blocks: Seq<BlockTarget>, t: BlockTarget) -> Seq<BlockTarget>
    decreases blocks.len(),
{
    if blocks.len() == 0 {
        blocks
    } else {
        let rest = blocks_without(blocks.drop_last(), t);
        if blocks.last() == t {
            rest
        } else {
            rest.push(blocks.last())
        }
    }
}

/// The block was last seen with a runtime id that drops something placeable.
pub open spec fn placeable_block(ids: Seq<(BlockTarget, u32)>, t: BlockTarget) -> bool {
    runtime_of(ids, t) matches Some(id) && placeable_drop(id)
}

/// No block occurs twice.
pub open spec fn distinct_blocks(blocks: Seq<BlockTarget>) -> bool {
    forall|i: int, j: int| 0 <= i < j < blocks.len() ==> blocks[i] != blocks[j]
}

/// No block has two entries.
pub open spec fn distinct_keys(ids: Seq<(BlockTarget, u32)>) -> bool {
    forall|i: int, j: int| 0 <= i < j < ids.len() ==> ids[i].0 != ids[j].0
}

/// An entry is kept by `ids_without` exactly when its block is not `t`;
/// dropping entries keeps blocks from having two.
pub proof fn lemma_ids_without(ids: Seq<(BlockTarget, u32)>, t: BlockTarget)
    ensures
        forall|e: (BlockTarget, u32)| #[trigger] ids_without(ids, t).contains(e) <==> (ids.contains(e) && e.0 != t),
        distinct_keys(ids) ==> distinct_keys(ids_without(ids, t)),
        ids_without(ids, t).len() <= ids.len(),
    decreases ids.len(),
{
    if ids.len() > 0 {
        let rest = ids.drop_last();
        let last = ids.last();
        lemma_ids_without(rest, t);
        let r = ids_without(rest, t);
        assert forall|e: (BlockTarget, u32)| ids.contains(e) <==> (rest.contains(e) || e == last) by {
            if ids.contains(e) {
                let k = choose|k: int| 0 <= k < ids.len() && ids[k] == e;
                if k < ids.len() - 1 {
                    assert(rest[k] == e);
                }
            }
            if rest.contains(e) {
                let k = choose|k: int| 0 <= k < rest.len() && rest[k] == e;
                assert(ids[k] == e);
            }
            if e == last {
                assert(ids[ids.len() - 1] == e);
            }
        }
        assert(ids_without(ids, t) == (if last.0 == t { r } else { r.push(last) }));
        if last.0 != t {
            assert forall|e: (BlockTarget, u32)| r.push(last).contains(e) <==> (r.contains(e) || e == last) by {
                if r.push(last).contains(e) {
                    let k = choose|k: int| 0 <= k < r.push(last).len() && r.push(last)[k] == e;
                    if k < r.len() {
                        assert(r[k] == e);
                    }
                }
                if r.contains(e) {
                    let k = choose|k: int| 0 <= k < r.len() && r[k] == e;
                    assert(r.push(last)[k] == e);
                }
                if e == last {
                    assert(r.push(last)[r.len() as int] == e);
                }
            }
            if distinct_keys(ids) {
                assert(distinct_keys(rest));
                assert forall|i: int, j: int| 0 <= i < j < r.push(last).len() implies r.push(last)[i].0 != r.push(last)[j].0 by {
                    if j == r.len() {
                        assert(r.contains(r[i]));
                        assert(rest.contains(r[i]));
                        let k = choose|k: int| 0 <= k < rest.len() && rest[k] == r[i];
                        assert(ids[k].0 != ids[ids.len() - 1].0);
                    }
                }
            }
        }
        assert forall|e: (BlockTarget, u32)| #[trigger] ids_without(ids, t).contains(e) <==> (ids.contains(e) && e.0 != t) by {
            assert(ids.contains(e) <==> (rest.contains(e) || e == last));
            assert(r.contains(e) <==> (rest.contains(e) && e.0 != t));
            if last.0 == t {
                assert(ids_without(ids, t) == r);
            } else {
                assert(ids_without(ids, t) == r.push(last));
                assert(r.push(last).contains(e) <==> (r.contains(e) || e == last));
            }
        }
    }
}

/// A block is kept by `blocks_without` exactly when it is not `t`; dropping
/// blocks keeps them distinct.
pub proof fn lemma_blocks_without(blocks: Seq<BlockTarget>, t: BlockTarget)
    ensures
        forall|b: BlockTarget| #[trigger] blocks_without(blocks, t).contains(b) <==> (blocks.contains(b) && b != t),
        distinct_blocks(blocks) ==> distinct_blocks(blocks_without(blocks, t)),
        blocks_without(blocks, t).len() <= blocks.len(),
    decreases blocks.len(),
{
    if blocks.len() > 0 {
        let rest = blocks.drop_last();
        let last = blocks.last();
        lemma_blocks_without(rest, t);
        let r = blocks_without(rest, t);
        assert forall|b: BlockTarget| blocks.contains(b) <==> (rest.contains(b) || b == last) by {
            if blocks.contains(b) {
                let k = choose|k: int| 0 <= k < blocks.len() && blocks[k] == b;
                if k < blocks.len() - 1 {
                    assert(rest[k] == b);
                }
            }
            if rest.contains(b) {
                let k = choose|k: int| 0 <= k < rest.len() && rest[k] == b;
                assert(blocks[k] == b);
            }
            if b == last {
                assert(blocks[blocks.len() - 1] == b);
            }
        }
        assert(blocks_without(blocks, t) == (if last == t { r } else { r.push(last) }));
        if last != t {
            assert forall|b: BlockTarget| r.push(last).contains(b) <==> (r.contains(b) || b == last) by {
                if r.push(last).contains(b) {
                    let k = choose|k: int| 0 <= k < r.push(last).len() && r.push(last)[k] == b;
                    if k < r.len() {
                        assert(r[k] == b);
                    }
                }
                if r.contains(b) {
                    let k = choose|k: int| 0 <= k < r.len() && r[k] == b;
                    assert(r.push(last)[k] == b);
                }
                if b == last {
                    assert(r.push(last)[r.len() as int] == b);
                }
            }
            if distinct_blocks(blocks) {
                assert(distinct_blocks(rest));
                assert forall|i: int, j: int| 0 <= i < j < r.push(last).len() implies r.push(last)[i] != r.push(last)[j] by {
                    if j == r.len() {
                        assert(r.contains(r[i]));
                        assert(rest.contains(r[i]));
                        let k = choose|k: int| 0 <= k < rest.len() && rest[k] == r[i];
                        assert(blocks[k] != blocks[blocks.len() - 1]);
                    }
                }
            }
        }
        assert forall|b: BlockTarget| #[trigger] blocks_without(blocks, t).contains(b) <==> (blocks.contains(b) && b != t) by {
            assert(blocks.contains(b) <==> (rest.contains(b) || b == last));
            assert(r.contains(b) <==> (rest.contains(b) && b != t));
            if last == t {
                assert(blocks_without(blocks, t) == r);
            } else {
                assert(blocks_without(blocks, t) == r.push(last));
                assert(r.push(last).contains(b) <==> (r.contains(b) || b == last));
            }
        }
    }
}

/// The first block from `from` on that was not last seen with a runtime id
/// dropping something placeable.
pub open spec fn scan_unplaceable(blocks: Seq<BlockTarget>, ids: Seq<(BlockTarget, u32)>, from: int) -> Option<int>
    decreases blocks.len() - from,
{
    if from < 0 || from >= blocks.len() {
        None
    } else if !placeable_block(ids, blocks[from]) {
        Some(from)
    } else {
        scan_unplaceable(blocks, ids, from + 1)
    }
}

/// The first block from `from` on that is not both a placeable drop and
/// approachable (by the flag at its index).
pub open spec fn scan_unapproachable(
    blocks: Seq<BlockTarget>,
    ids: Seq<(BlockTarget, u32)>,
    approachable: Seq<bool>,
    from: int,
) -> Option<int>
    decreases blocks.len() - from,
{
    if from < 0 || from >= blocks.len() {
        None
    } else if !(placeable_block(ids, blocks[from]) && approachable[from]) {
        Some(from)
    } else {
        scan_unapproachable(blocks, ids, approachable, from + 1)
    }
}

/// The block dropped first when there are too many: the first that is no
/// placeable drop, else the first that is not an approachable one, else the
/// oldest.
pub open spec fn trim_index(blocks: Seq<BlockTarget>, ids: Seq<(BlockTarget, u32)>, approachable: Seq<bool>) -> int {
    match scan_unplaceable(blocks, ids, 0) {
        Some(i) => i,
        None => match scan_unapproachable(blocks, ids, approachable, 0) {
            Some(i) => i,
            None => 0,
        },
    }
}

/// The blocks and entries left after dropping blocks, one at a time by
/// `trim_index`, until at most `MAX_OBSERVED_SOLID_BLOCKS` remain; each
/// dropped block takes its entry and its flag with it.
pub open spec fn trimmed(
    blocks: Seq<BlockTarget>,
    ids: Seq<(BlockTarget, u32)>,
    approachable: Seq<bool>,
) -> (Seq<BlockTarget>, Seq<(BlockTarget, u32)>)
    decreases blocks.len(),
{
    let i = trim_index(blocks, ids, approachable);
    if blocks.len() <= MAX_OBSERVED_SOLID_BLOCKS || !(0 <= i < blocks.len()) {
        (blocks, ids)
    } else {
        trimmed(blocks.remove(i), ids_without(ids, blocks[i]), approachable.remove(i))
    }
}

/// Removing one index keeps blocks distinct and keeps every other block.
pub proof fn lemma_remove_block(blocks: Seq<BlockTarget>, i: int)
    requires
        0 <= i < blocks.len(),
    ensures
        distinct_blocks(blocks) ==> distinct_blocks(blocks.remove(i)),
        forall|b: BlockTarget| blocks.contains(b) && b != blocks[i] ==> #[trigger] blocks.remove(i).contains(b),
{
    let r = blocks.remove(i);
    if distinct_blocks(blocks) {
        assert forall|a: int, b: int| 0 <= a < b < r.len() implies r[a] != r[b] by {
            let a0 = if a < i { a } else { a + 1 };
            let b0 = if b < i { b } else { b + 1 };
            assert(r[a] == blocks[a0]);
            assert(r[b] == blocks[b0]);
        }
    }
    assert forall|b: BlockTarget| blocks.contains(b) && b != blocks[i] implies #[trigger] r.contains(b) by {
        let k = choose|k: int| 0 <= k < blocks.len() && blocks[k] == b;
        if k < i {
            assert(r[k] == b);
        } else {
            assert(r[k - 1] == b);
        }
    }
}

/// The entries of `ids` whose block is not `t`.
fn copy_ids_without(ids: &Vec<(BlockTarget, u32)>, t: BlockTarget) -> (r: Vec<(BlockTarget, u32)>)
    ensures
        r@ == ids_without(ids@, t),
{
    let mut out: Vec<(BlockTarget, u32)> = Vec::new();
    let mut i: usize = 0;
    assert(ids@.take(0) =~= Seq::<(BlockTarget, u32)>::empty());
    while i < ids.len()
        invariant
            i <= ids@.len(),
            out@ == ids_without(ids@.take(i as int), t),
        decreases ids@.len() - i,
    {
        let entry = ids[i];
        assert(ids@.take(i + 1).drop_last() =~= ids@.take(i as int));
        assert(ids@.take(i + 1).last() == entry);
        if !same_block(entry.0, t) {
            out.push(entry);
        }
        i = i + 1;
    }
    assert(ids@.take(ids@.len() as int) =~= ids@);
    out
}

/// The blocks of `blocks` other than `t`.
fn copy_blocks_without(blocks: &Vec<BlockTarget>, t: BlockTarget) -> (r: Vec<BlockTarget>)
    ensures
        r@ == blocks_without(blocks@, t),
{
    let mut out: Vec<BlockTarget> = Vec::new();
    let mut i: usize = 0;
    assert(blocks@.take(0) =~= Seq::<BlockTarget>::empty());
    while i < blocks.len()
        invariant
            i <= blocks@.len(),
            out@ == blocks_without(blocks@.take(i as int), t),
        decreases blocks@.len() - i,
    {
        let b = blocks[i];
        assert(blocks@.take(i + 1).drop_last() =~= blocks@.take(i as int));
        assert(blocks@.take(i + 1).last() == b);
        if !same_block(b, t) {
            out.push(b);
        }
        i = i + 1;
    }
    assert(blocks@.take(blocks@.len() as int) =~= blocks@);
    out
}

/// The blocks to try breaking when none was observed: around the feet, two
/// blocks down: straight below, then east, west, south and north of it,
/// each first at that level and then one lower where the list says so.
pub open spec fn fallback_offsets() -> Seq<(int, int, int)> {
    seq![(0, 0, 0), (0, -1, 0), (1, 0, 0), (-1, 0, 0), (0, 0, 1), (0, 0, -1), (1, -1, 0), (-1, -1, 0), (0, -1, 1), (0, -1, -1)]
}

/// The fallback break candidates around the block the feet are in.
pub open spec fn fallback_candidates(feet_x: i32, feet_y: i32, feet_z: i32) -> Seq<BlockTarget> {
    let base_y: int = if feet_y >= i32::MIN + 2 { feet_y - 2 } else { i32::MIN as int };
    Seq::new(
        10,
        |k: int| BlockTarget {
            x: (feet_x + fallback_offsets()[k].0) as i32,
            y: (base_y + fallback_offsets()[k].1) as i32,
            z: (feet_z + fallback_offsets()[k].2) as i32,
        },
    )
}

/// The fallback break candidates for feet at the given block (the floor of
/// the player's position); the offsets must stay within `i32`.
pub fn fallback_break_candidates(feet_x: i32, feet_y: i32, feet_z: i32) -> (r: Vec<BlockTarget>)
    requires
        i32::MIN < feet_x < i32::MAX,
        i32::MIN < feet_z < i32::MAX,
        feet_y >= i32::MIN + 3,
    ensures
        r@ == fallback_candidates(feet_x, feet_y, feet_z),
{
    let base_y: i32 = feet_y - 2;
    let r: Vec<BlockTarget> = vec![
        BlockTarget { x: feet_x, y: base_y, z: feet_z },
        BlockTarget { x: feet_x, y: base_y - 1, z: feet_z },
        BlockTarget { x: feet_x + 1, y: base_y, z: feet_z },
        BlockTarget { x: feet_x - 1, y: base_y, z: feet_z },
        BlockTarget { x: feet_x, y: base_y, z: feet_z + 1 },
        BlockTarget { x: feet_x, y: base_y, z: feet_z - 1 },
        BlockTarget { x: feet_x + 1, y: base_y - 1, z: feet_z },
        BlockTarget { x: feet_x - 1, y: base_y - 1, z: feet_z },
        BlockTarget { x: feet_x, y: base_y - 1, z: feet_z + 1 },
        BlockTarget { x: feet_x, y: base_y - 1, z: feet_z - 1 },
    ];
    assert(r@ =~= fallback_candidates(feet_x, feet_y, feet_z));
    r
}

/// The kept blocks and entries after a block update at `t`: on layer 0, air
/// clears `t` and the block below it, a chest marker changes nothing, and
/// any other block is remembered with its runtime id; other layers change
/// nothing.
pub open spec fn updated_blocks(
    blocks: Seq<BlockTarget>,
    ids: Seq<(BlockTarget, u32)>,
    t: BlockTarget,
    runtime_id: u32,
    layer: u32,
    reach: Seq<bool>,
    t_reach: bool,
) -> (Seq<BlockTarget>, Seq<(BlockTarget, u32)>) {
    if layer != 0 || runtime_id == OBSERVED_CHEST_RUNTIME_ID {
        (blocks, ids)
    } else if runtime_id == OBSERVED_AIR_RUNTIME_ID {
        let under = BlockTarget { x: t.x, y: below(t.y), z: t.z };
        (blocks_without(blocks_without(blocks, t), under), ids_without(ids_without(ids, t), under))
    } else {
        remembered(blocks, ids, t, runtime_id, reach, t_reach)
    }
}

/// The kept blocks once `t` is counted among them.
pub open spec fn inserted_blocks(blocks: Seq<BlockTarget>, t: BlockTarget) -> Seq<BlockTarget> {
    if blocks.contains(t) {
        blocks
    } else {
        blocks.push(t)
    }
}

/// The reach flags once `t` is counted among the kept blocks.
pub open spec fn reach_after_insert(blocks: Seq<BlockTarget>, reach: Seq<bool>, t: BlockTarget, t_reach: bool) -> Seq<bool> {
    if blocks.contains(t) {
        reach
    } else {
        reach.push(t_reach)
    }
}

/// The kept blocks and entries after remembering `t` with `runtime_id` and
/// trimming to the cap.
pub open spec fn remembered(
    blocks: Seq<BlockTarget>,
    ids: Seq<(BlockTarget, u32)>,
    t: BlockTarget,
    runtime_id: u32,
    reach: Seq<bool>,
    t_reach: bool,
) -> (Seq<BlockTarget>, Seq<(BlockTarget, u32)>) {
    trimmed(
        inserted_blocks(blocks, t),
        ids_without(ids, t).push((t, runtime_id)),
        reach_after_insert(blocks, reach, t, t_reach),
    )
}

/// The blocks seen, their runtime ids, and what failed as a break target.
pub struct ObservedTerrain {
    pub solid_blocks: Vec<BlockTarget>,
    pub solid_block_runtime_ids: Vec<(BlockTarget, u32)>,
    pub rejected_break_targets: Vec<BlockTarget>,
    pub rejected_break_runtime_ids: Vec<u32>,
}

impl ObservedTerrain {
    /// Each block is kept once, each has at most one runtime id entry, and
    /// only kept blocks have one.
    pub open spec fn wf(&self) -> bool {
        &&& distinct_blocks(self.solid_blocks@)
        &&& distinct_keys(self.solid_block_runtime_ids@)
        &&& forall|i: int| 0 <= i < self.solid_block_runtime_ids@.len()
            ==> self.solid_blocks@.contains(#[trigger] self.solid_block_runtime_ids@[i].0)
    }

    /// `t` may be tried as a break target: it was not rejected, and neither
    /// was the runtime id it was last seen with.
    pub open spec fn allows(&self, t: BlockTarget) -> bool {
        &&& !self.rejected_break_targets@.contains(t)
        &&& (runtime_of(self.solid_block_runtime_ids@, t) matches Some(id)
            ==> !self.rejected_break_runtime_ids@.contains(id))
    }

    /// `t` may be broken to collect a placeable block: it is allowed, and
    /// was last seen with a runtime id that drops one.
    pub open spec fn allows_for_place_collection(&self, t: BlockTarget) -> bool {
        self.allows(t) && placeable_block(self.solid_block_runtime_ids@, t)
    }

    pub open spec fn allows_candidate(&self, require_placeable_drop: bool, t: BlockTarget) -> bool {
        if require_placeable_drop {
            self.allows_for_place_collection(t)
        } else {
            self.allows(t)
        }
    }

    /// The runtime id `t` was last seen with, or 0.
    pub open spec fn runtime_or_zero(&self, t: BlockTarget) -> u32 {
        match runtime_of(self.solid_block_runtime_ids@, t) {
            Some(id) => id,
            None => 0,
        }
    }

    /// `b` ranks at least as high as `p`: higher, or as high with a runtime
    /// id at least as large.
    pub open spec fn ranks_at_least(&self, b: BlockTarget, p: BlockTarget) -> bool {
        b.y > p.y || (b.y == p.y && self.runtime_or_zero(b) >= self.runtime_or_zero(p))
    }

    /// The highest allowed block among the first `n`; of equals, the last.
    pub open spec fn highest_upto(&self, require_placeable_drop: bool, n: nat) -> Option<BlockTarget>
        decreases n,
    {
        if n == 0 {
            None
        } else {
            let prev = self.highest_upto(require_placeable_drop, (n - 1) as nat);
            let b = self.solid_blocks@[n - 1];
            if !self.allows_candidate(require_placeable_drop, b) {
                prev
            } else {
                match prev {
                    None => Some(b),
                    Some(p) => if self.ranks_at_least(b, p) {
                        Some(b)
                    } else {
                        Some(p)
                    },
                }
            }
        }
    }

    /// How many of the first `n` blocks may be broken to collect a placeable block.
    pub open spec fn placeable_count_upto(&self, n: nat) -> nat
        decreases n,
    {
        if n == 0 {
            0
        } else {
            self.placeable_count_upto((n - 1) as nat) + if self.allows_for_place_collection(self.solid_blocks@[n - 1]) {
                1nat
            } else {
                0nat
            }
        }
    }

    /// The runtime ids rejected after giving up on `t`: the one given, else
    /// the one `t` was last seen with, is added unless already there.
    pub open spec fn rejected_ids_after(self, t: BlockTarget, known_runtime_id: Option<u32>) -> Seq<u32> {
        match (match known_runtime_id {
            Some(id) => Some(id),
            None => runtime_of(self.solid_block_runtime_ids@, t),
        }) {
            Some(id) => if self.rejected_break_runtime_ids@.contains(id) {
                self.rejected_break_runtime_ids@
            } else {
                self.rejected_break_runtime_ids@.push(id)
            },
            None => self.rejected_break_runtime_ids@,
        }
    }

    /// `after` is `before` after giving up on `t` as a break target: `t`
    /// and its runtime id are rejected, each once, and `t` is no longer kept.
    pub open spec fn rejected(before: ObservedTerrain, after: ObservedTerrain, t: BlockTarget, known_runtime_id: Option<u32>) -> bool {
        &&& after.rejected_break_targets@ == (if before.rejected_break_targets@.contains(t) {
            before.rejected_break_targets@
        } else {
            before.rejected_break_targets@.push(t)
        })
        &&& after.rejected_break_runtime_ids@ == before.rejected_ids_after(t, known_runtime_id)
        &&& after.solid_blocks@ == blocks_without(before.solid_blocks@, t)
        &&& after.solid_block_runtime_ids@ == ids_without(before.solid_block_runtime_ids@, t)
    }

    pub fn new() -> (r: Self)
        ensures
            r.wf(),
            r.solid_blocks@.len() == 0,
            r.solid_block_runtime_ids@.len() == 0,
            r.rejected_break_targets@.len() == 0,
            r.rejected_break_runtime_ids@.len() == 0,
    {
        ObservedTerrain {
            solid_blocks: Vec::new(),
            solid_block_runtime_ids: Vec::new(),
            rejected_break_targets: Vec::new(),
            rejected_break_runtime_ids: Vec::new(),
        }
    }

    /// The runtime id `t` was last seen with.
    pub fn observed_target_runtime_id(&self, t: BlockTarget) -> (r: Option<u32>)
        ensures
            r == runtime_of(self.solid_block_runtime_ids@, t),
    {
        let ids = &self.solid_block_runtime_ids;
        let mut i: usize = ids.len();
        assert(ids@.take(i as int) =~= ids@);
        while i > 0
            invariant
                i <= ids@.len(),
                ids@ == self.solid_block_runtime_ids@,
                runtime_of(ids@, t) == runtime_of(ids@.take(i as int), t),
            decreases i,
        {
            let entry = ids[i - 1];
            assert(ids@.take(i as int).drop_last() =~= ids@.take(i - 1));
            assert(ids@.take(i as int).last() == entry);
            if same_block(entry.0, t) {
                assert(ids@.take(i as int).len() > 0);
                assert(runtime_of(ids@.take(i as int), t) == Some(entry.1));
                return Some(entry.1);
            }
            i = i - 1;
        }
        None
    }

    pub fn break_target_allowed(&self, t: BlockTarget) -> (r: bool)
        ensures
            r == self.allows(t),
    {
        if contains_block(&self.rejected_break_targets, t) {
            return false;
        }
        match self.observed_target_runtime_id(t) {
            Some(id) => !contains_id(&self.rejected_break_runtime_ids, id),
            None => true,
        }
    }

    pub fn break_target_allowed_for_place_collection(&self, t: BlockTarget) -> (r: bool)
        ensures
            r == self.allows_for_place_collection(t),
    {
        if !self.break_target_allowed(t) {
            return false;
        }
        match self.observed_target_runtime_id(t) {
            Some(id) => is_normal_validation_placeable_drop_runtime_id(id),
            None => false,
        }
    }

    /// Records `t` as solid with `runtime_id`, then drops blocks beyond the
    /// cap as `trim_observed_solid_blocks` does. `within_reach` holds, for
    /// each kept block in order, whether it lies within approach range of
    /// the player, and `t_within_reach` the same of `t`. When no block has to
    /// go, `t` reads back with `runtime_id`.
    pub fn remember_observed_solid_block(
        &mut self,
        t: BlockTarget,
        runtime_id: u32,
        within_reach: &[bool],
        t_within_reach: bool,
    )
        requires
            within_reach@.len() == old(self).solid_blocks@.len(),
        ensures
            (final(self).solid_blocks@, final(self).solid_block_runtime_ids@) == remembered(
                old(self).solid_blocks@,
                old(self).solid_block_runtime_ids@,
                t,
                runtime_id,
                within_reach@,
                t_within_reach,
            ),
            final(self).solid_blocks@.len() <= MAX_OBSERVED_SOLID_BLOCKS,
            final(self).rejected_break_targets@ == old(self).rejected_break_targets@,
            final(self).rejected_break_runtime_ids@ == old(self).rejected_break_runtime_ids@,
            inserted_blocks(old(self).solid_blocks@, t).len() <= MAX_OBSERVED_SOLID_BLOCKS ==> runtime_of(
                final(self).solid_block_runtime_ids@,
                t,
            ) == Some(runtime_id),
            old(self).wf() ==> final(self).wf(),
    {
        let was_kept: bool = contains_block(&self.solid_blocks, t);
        let mut flags: Vec<bool> = Vec::new();
        let mut k: usize = 0;
        while k < within_reach.len()
            invariant
                k <= within_reach@.len(),
                flags@ == within_reach@.take(k as int),
            decreases within_reach@.len() - k,
        {
            flags.push(within_reach[k]);
            k = k + 1;
            assert(flags@ =~= within_reach@.take(k as int));
        }
        assert(flags@ =~= within_reach@);
        if !was_kept {
            flags.push(t_within_reach);
        }
        self.insert_solid_block(t, runtime_id);
        let ghost inserted_ids = self.solid_block_runtime_ids@;
        self.trim_observed_solid_blocks(flags.as_slice());
        proof {
            if inserted_blocks(old(self).solid_blocks@, t).len() <= MAX_OBSERVED_SOLID_BLOCKS {
                assert(self.solid_block_runtime_ids@ == inserted_ids);
            }
        }
    }

    /// Records `t` as solid with `runtime_id`: its entry is replaced and the
    /// block is kept once.
    fn insert_solid_block(&mut self, t: BlockTarget, runtime_id: u32)
        ensures
            final(self).solid_block_runtime_ids@ == ids_without(old(self).solid_block_runtime_ids@, t).push((t, runtime_id)),
            final(self).solid_blocks@ == (if old(self).solid_blocks@.contains(t) {
                old(self).solid_blocks@
            } else {
                old(self).solid_blocks@.push(t)
            }),
            final(self).rejected_break_targets@ == old(self).rejected_break_targets@,
            final(self).rejected_break_runtime_ids@ == old(self).rejected_break_runtime_ids@,
            runtime_of(final(self).solid_block_runtime_ids@, t) == Some(runtime_id),
            old(self).wf() ==> final(self).wf(),
    {
        let ghost before = *self;
        let kept = copy_ids_without(&self.solid_block_runtime_ids, t);
        self.solid_block_runtime_ids = kept;
        self.solid_block_runtime_ids.push((t, runtime_id));
        if !contains_block(&self.solid_blocks, t) {
            self.solid_blocks.push(t);
        }
        proof {
            lemma_ids_without(before.solid_block_runtime_ids@, t);
            let ids = self.solid_block_runtime_ids@;
            let blocks = self.solid_blocks@;
            assert(ids.drop_last() =~= ids_without(before.solid_block_runtime_ids@, t));
            assert(blocks.contains(t)) by {
                if before.solid_blocks@.contains(t) {
                } else {
                    assert(blocks[blocks.len() - 1] == t);
                }
            }
            assert forall|b: BlockTarget| before.solid_blocks@.contains(b) implies #[trigger] blocks.contains(b) by {
                if !before.solid_blocks@.contains(t) {
                    let k = choose|k: int| 0 <= k < before.solid_blocks@.len() && before.solid_blocks@[k] == b;
                    assert(blocks[k] == b);
                }
            }
            if before.wf() {
                let kept_ids = ids_without(before.solid_block_runtime_ids@, t);
                assert forall|i: int, j: int| 0 <= i < j < ids.len() implies ids[i].0 != ids[j].0 by {
                    if j == ids.len() - 1 {
                        assert(kept_ids.contains(kept_ids[i]));
                    }
                }
                assert forall|i: int| 0 <= i < ids.len() implies blocks.contains(#[trigger] ids[i].0) by {
                    if i < ids.len() - 1 {
                        assert(kept_ids.contains(kept_ids[i]));
                        let k = choose|k: int| 0 <= k < before.solid_block_runtime_ids@.len()
                            && before.solid_block_runtime_ids@[k] == kept_ids[i];
                        assert(before.solid_blocks@.contains(before.solid_block_runtime_ids@[k].0));
                    }
                }
                assert(distinct_blocks(blocks));
            }
        }
    }

    /// The block was last seen with a runtime id that drops something placeable.
    pub fn observed_block_is_placeable_drop(&self, t: BlockTarget) -> (r: bool)
        ensures
            r == placeable_block(self.solid_block_runtime_ids@, t),
    {
        match self.observed_target_runtime_id(t) {
            Some(id) => is_normal_validation_placeable_drop_runtime_id(id),
            None => false,
        }
    }

    /// Which block `trim_observed_solid_blocks` drops next.
    fn trim_removal_index(&self, approachable: &Vec<bool>) -> (r: usize)
        requires
            approachable@.len() == self.solid_blocks@.len(),
            self.solid_blocks@.len() > 0,
        ensures
            r == trim_index(self.solid_blocks@, self.solid_block_runtime_ids@, approachable@),
            r < self.solid_blocks@.len(),
    {
        let blocks = &self.solid_blocks;
        let ghost ids = self.solid_block_runtime_ids@;
        let mut i: usize = 0;
        while i < blocks.len()
            invariant
                i <= blocks@.len(),
                blocks@ == self.solid_blocks@,
                ids == self.solid_block_runtime_ids@,
                scan_unplaceable(blocks@, ids, 0) == scan_unplaceable(blocks@, ids, i as int),
            decreases blocks@.len() - i,
        {
            if !self.observed_block_is_placeable_drop(blocks[i]) {
                return i;
            }
            i = i + 1;
        }
        let mut j: usize = 0;
        while j < blocks.len()
            invariant
                j <= blocks@.len(),
                blocks@ == self.solid_blocks@,
                ids == self.solid_block_runtime_ids@,
                approachable@.len() == blocks@.len(),
                scan_unplaceable(blocks@, ids, 0) is None,
                scan_unapproachable(blocks@, ids, approachable@, 0) == scan_unapproachable(
                    blocks@,
                    ids,
                    approachable@,
                    j as int,
                ),
            decreases blocks@.len() - j,
        {
            if !(self.observed_block_is_placeable_drop(blocks[j]) && approachable[j]) {
                return j;
            }
            j = j + 1;
        }
        0
    }

    /// Drops blocks while more than `MAX_OBSERVED_SOLID_BLOCKS` are kept: the
    /// first that is no placeable drop, else the first that is not an
    /// approachable placeable drop, else the oldest. `approachable` holds,
    /// for each kept block in order, whether it is within reach of the
    /// player's position.
    pub fn trim_observed_solid_blocks(&mut self, approachable: &[bool])
        requires
            approachable@.len() == old(self).solid_blocks@.len(),
        ensures
            (final(self).solid_blocks@, final(self).solid_block_runtime_ids@) == trimmed(
                old(self).solid_blocks@,
                old(self).solid_block_runtime_ids@,
                approachable@,
            ),
            final(self).solid_blocks@.len() <= MAX_OBSERVED_SOLID_BLOCKS,
            final(self).rejected_break_targets@ == old(self).rejected_break_targets@,
            final(self).rejected_break_runtime_ids@ == old(self).rejected_break_runtime_ids@,
            old(self).wf() ==> final(self).wf(),
    {
        let mut flags: Vec<bool> = Vec::new();
        let mut k: usize = 0;
        while k < approachable.len()
            invariant
                k <= approachable@.len(),
                flags@ == approachable@.take(k as int),
            decreases approachable@.len() - k,
        {
            flags.push(approachable[k]);
            k = k + 1;
            assert(flags@ =~= approachable@.take(k as int));
        }
        assert(flags@ =~= approachable@);
        let ghost was_wf = old(self).wf();
        while self.solid_blocks.len() > MAX_OBSERVED_SOLID_BLOCKS
            invariant
                flags@.len() == self.solid_blocks@.len(),
                trimmed(self.solid_blocks@, self.solid_block_runtime_ids@, flags@) == trimmed(
                    old(self).solid_blocks@,
                    old(self).solid_block_runtime_ids@,
                    approachable@,
                ),
                self.rejected_break_targets@ == old(self).rejected_break_targets@,
                self.rejected_break_runtime_ids@ == old(self).rejected_break_runtime_ids@,
                was_wf == old(self).wf(),
                was_wf ==> self.wf(),
            decreases self.solid_blocks@.len(),
        {
            let i = self.trim_removal_index(&flags);
            let ghost blocks_before = self.solid_blocks@;
            let ghost ids_before = self.solid_block_runtime_ids@;
            let removed = self.solid_blocks.remove(i);
            flags.remove(i);
            let kept = copy_ids_without(&self.solid_block_runtime_ids, removed);
            self.solid_block_runtime_ids = kept;
            proof {
                lemma_remove_block(blocks_before, i as int);
                lemma_ids_without(ids_before, removed);
                if was_wf {
                    let ids = self.solid_block_runtime_ids@;
                    assert forall|e: int| 0 <= e < ids.len() implies self.solid_blocks@.contains(#[trigger] ids[e].0) by {
                        assert(ids.contains(ids[e]));
                        let k = choose|k: int| 0 <= k < ids_before.len() && ids_before[k] == ids[e];
                        assert(blocks_before.contains(ids_before[k].0));
                    }
                }
            }
        }
        proof {
            assert(trimmed(self.solid_blocks@, self.solid_block_runtime_ids@, flags@) == (
                self.solid_blocks@,
                self.solid_block_runtime_ids@,
            ));
        }
    }

    /// The highest block that may be tried (as a placeable-drop source when
    /// `require_placeable_drop`); among equally high ones the one with the
    /// largest runtime id, and of those the last seen.
    pub fn highest_observed_solid_block(&self, require_placeable_drop: bool) -> (r: Option<BlockTarget>)
        ensures
            r == self.highest_upto(require_placeable_drop, self.solid_blocks@.len()),
    {
        let mut best: Option<BlockTarget> = None;
        let mut best_rank: u32 = 0;
        let mut i: usize = 0;
        while i < self.solid_blocks.len()
            invariant
                i <= self.solid_blocks@.len(),
                best == self.highest_upto(require_placeable_drop, i as nat),
                best matches Some(p) ==> best_rank == self.runtime_or_zero(p),
            decreases self.solid_blocks@.len() - i,
        {
            let b = self.solid_blocks[i];
            if self.candidate_allowed(require_placeable_drop, b) {
                let rank: u32 = match self.observed_target_runtime_id(b) {
                    Some(id) => id,
                    None => 0,
                };
                match best {
                    None => {
                        best = Some(b);
                        best_rank = rank;
                    },
                    Some(p) => {
                        if b.y > p.y || (b.y == p.y && rank >= best_rank) {
                            best = Some(b);
                            best_rank = rank;
                        }
                    },
                }
            }
            i = i + 1;
        }
        best
    }

    /// How many kept blocks may be broken to collect a placeable block.
    pub fn observed_placeable_drop_count(&self) -> (r: usize)
        ensures
            r == self.placeable_count_upto(self.solid_blocks@.len()),
    {
        let mut count: usize = 0;
        let mut i: usize = 0;
        while i < self.solid_blocks.len()
            invariant
                i <= self.solid_blocks@.len(),
                count == self.placeable_count_upto(i as nat),
                count <= i,
            decreases self.solid_blocks@.len() - i,
        {
            if self.break_target_allowed_for_place_collection(self.solid_blocks[i]) {
                count = count + 1;
            }
            i = i + 1;
        }
        count
    }

    /// Some kept block may be tried as a break target.
    pub fn any_break_target_allowed(&self) -> (r: bool)
        ensures
            r == exists|i: int| 0 <= i < self.solid_blocks@.len() && self.allows(#[trigger] self.solid_blocks@[i]),
    {
        let mut i: usize = 0;
        while i < self.solid_blocks.len()
            invariant
                i <= self.solid_blocks@.len(),
                forall|j: int| 0 <= j < i ==> !self.allows(#[trigger] self.solid_blocks@[j]),
            decreases self.solid_blocks@.len() - i,
        {
            if self.break_target_allowed(self.solid_blocks[i]) {
                return true;
            }
            i = i + 1;
        }
        false
    }

    /// Drops `t` from the kept blocks and its entry, whatever else holds.
    fn forget_block(&mut self, t: BlockTarget)
        ensures
            final(self).solid_blocks@ == blocks_without(old(self).solid_blocks@, t),
            final(self).solid_block_runtime_ids@ == ids_without(old(self).solid_block_runtime_ids@, t),
            final(self).rejected_break_targets@ == old(self).rejected_break_targets@,
            final(self).rejected_break_runtime_ids@ == old(self).rejected_break_runtime_ids@,
            old(self).wf() ==> final(self).wf(),
    {
        let ghost before = *self;
        let blocks = copy_blocks_without(&self.solid_blocks, t);
        let ids = copy_ids_without(&self.solid_block_runtime_ids, t);
        self.solid_blocks = blocks;
        self.solid_block_runtime_ids = ids;
        proof {
            lemma_blocks_without(before.solid_blocks@, t);
            lemma_ids_without(before.solid_block_runtime_ids@, t);
            if before.wf() {
                let ids = self.solid_block_runtime_ids@;
                assert forall|e: int| 0 <= e < ids.len() implies self.solid_blocks@.contains(#[trigger] ids[e].0) by {
                    assert(ids.contains(ids[e]));
                    let k = choose|k: int| 0 <= k < before.solid_block_runtime_ids@.len()
                        && before.solid_block_runtime_ids@[k] == ids[e];
                    assert(before.solid_blocks@.contains(before.solid_block_runtime_ids@[k].0));
                }
            }
        }
    }

    /// Records a block sampled from a chunk: air and chest markers are
    /// skipped, any other block is remembered as solid.
    pub fn record_observed_block_sample(&mut self, sample: &ObservedBlockSample, within_reach: &[bool], sample_within_reach: bool)
        requires
            within_reach@.len() == old(self).solid_blocks@.len(),
        ensures
            if sample.runtime_id == OBSERVED_AIR_RUNTIME_ID || sample.runtime_id == OBSERVED_CHEST_RUNTIME_ID {
                *final(self) == *old(self)
            } else {
                let t = BlockTarget { x: sample.x, y: sample.y, z: sample.z };
                &&& (final(self).solid_blocks@, final(self).solid_block_runtime_ids@) == remembered(
                    old(self).solid_blocks@,
                    old(self).solid_block_runtime_ids@,
                    t,
                    sample.runtime_id,
                    within_reach@,
                    sample_within_reach,
                )
                &&& final(self).rejected_break_targets@ == old(self).rejected_break_targets@
                &&& final(self).rejected_break_runtime_ids@ == old(self).rejected_break_runtime_ids@
            },
            old(self).wf() ==> final(self).wf(),
    {
        if sample.runtime_id == OBSERVED_AIR_RUNTIME_ID || is_gameplay_marker_runtime(sample.runtime_id) {
            return;
        }
        self.remember_observed_solid_block(
            BlockTarget { x: sample.x, y: sample.y, z: sample.z },
            sample.runtime_id,
            within_reach,
            sample_within_reach,
        );
    }

    /// Applies a layer-0 block update to the kept blocks: air clears the
    /// block and the one below it, a chest marker changes nothing, any other
    /// block is remembered as solid (trimmed to the cap, with reach flags as
    /// `remember_observed_solid_block` takes them). Other layers change nothing.
    pub fn record_update_block_terrain(
        &mut self,
        t: BlockTarget,
        runtime_id: u32,
        layer: u32,
        within_reach: &[bool],
        t_within_reach: bool,
    )
        requires
            within_reach@.len() == old(self).solid_blocks@.len(),
        ensures
            (final(self).solid_blocks@, final(self).solid_block_runtime_ids@) == updated_blocks(
                old(self).solid_blocks@,
                old(self).solid_block_runtime_ids@,
                t,
                runtime_id,
                layer,
                within_reach@,
                t_within_reach,
            ),
            final(self).rejected_break_targets@ == old(self).rejected_break_targets@,
            final(self).rejected_break_runtime_ids@ == old(self).rejected_break_runtime_ids@,
            layer != 0 || runtime_id == OBSERVED_CHEST_RUNTIME_ID ==> *final(self) == *old(self),
            old(self).wf() ==> final(self).wf(),
    {
        if layer != 0 || is_gameplay_marker_runtime(runtime_id) {
            return;
        }
        if runtime_id == OBSERVED_AIR_RUNTIME_ID {
            let under = BlockTarget { x: t.x, y: if t.y == i32::MIN { i32::MIN } else { t.y - 1 }, z: t.z };
            self.forget_block(t);
            self.forget_block(under);
        } else {
            self.remember_observed_solid_block(t, runtime_id, within_reach, t_within_reach);
        }
    }

    /// Gives up on `t` as a break target: `t` and the runtime id it was
    /// known by (the one given, else the one last seen) are rejected, each
    /// once, and `t` is no longer kept. Afterwards `t` is never allowed.
    pub fn reject_failed_break_target(&mut self, t: BlockTarget, known_runtime_id: Option<u32>)
        ensures
            Self::rejected(*old(self), *final(self), t, known_runtime_id),
            !final(self).allows(t),
            old(self).wf() ==> final(self).wf(),
    {
        if !contains_block(&self.rejected_break_targets, t) {
            self.rejected_break_targets.push(t);
        }
        let runtime_id = match known_runtime_id {
            Some(id) => Some(id),
            None => self.observed_target_runtime_id(t),
        };
        if let Some(id) = runtime_id {
            if !contains_id(&self.rejected_break_runtime_ids, id) {
                self.rejected_break_runtime_ids.push(id);
            }
        }
        self.forget_block(t);
        proof {
            assert(self.rejected_break_targets@.contains(t)) by {
                if !old(self).rejected_break_targets@.contains(t) {
                    assert(self.rejected_break_targets@[self.rejected_break_targets@.len() - 1] == t);
                }
            }
        }
    }

    /// The first of `candidates` that may be tried as a break target.
    pub fn first_allowed_target(&self, candidates: &Vec<BlockTarget>) -> (r: Option<BlockTarget>)
        ensures
            match r {
                Some(t) => exists|i: int| 0 <= i < candidates@.len() && candidates@[i] == t && self.allows(t)
                    && forall|j: int| 0 <= j < i ==> !self.allows(#[trigger] candidates@[j]),
                None => forall|j: int| 0 <= j < candidates@.len() ==> !self.allows(#[trigger] candidates@[j]),
            },
    {
        let mut i: usize = 0;
        while i < candidates.len()
            invariant
                i <= candidates@.len(),
                forall|j: int| 0 <= j < i ==> !self.allows(#[trigger] candidates@[j]),
            decreases candidates@.len() - i,
        {
            if self.break_target_allowed(candidates[i]) {
                return Some(candidates[i]);
            }
            i = i + 1;
        }
        None
    }

    fn candidate_allowed(&self, require_placeable_drop: bool, t: BlockTarget) -> (r: bool)
        ensures
            r == self.allows_candidate(require_placeable_drop, t),
    {
        if require_placeable_drop {
            self.break_target_allowed_for_place_collection(t)
        } else {
            self.break_target_allowed(t)
        }
    }
}

/// Two positions are the same block.
pub fn same_block(a: BlockTarget, b: BlockTarget) -> (r: bool)
    ensures
        r == (a == b),
{
    a.x == b.x && a.y == b.y && a.z == b.z
}

pub fn contains_block(blocks: &Vec<BlockTarget>, t: BlockTarget) -> (r: bool)
    ensures
        r == blocks@.contains(t),
{
    let mut i: usize = 0;
    while i < blocks.len()
        invariant
            i <= blocks@.len(),
            forall|j: int| 0 <= j < i ==> blocks@[j] != t,
        decreases blocks@.len() - i,
    {
        if same_block(blocks[i], t) {
            return true;
        }
        i = i + 1;
    }
    false
}

pub fn contains_id(ids: &Vec<u32>, id: u32) -> (r: bool)
    ensures
        r == ids@.contains(id),
{
    let mut i: usize = 0;
    while i < ids.len()
        invariant
            i <= ids@.len(),
            forall|j: int| 0 <= j < i ==> ids@[j] != id,
        decreases ids@.len() - i,
    {
        if ids[i] == id {
            return true;
        }
        i = i + 1;
    }
    false
}

} // verus!
