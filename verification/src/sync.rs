//! Header synchronization, driven as small request/response steps.
//!
//! The caller owns the network: it asks a machine what to do next, performs
//! the transfer (or the tree lookup, under its own lock), and offers the
//! outcome back. Every decision — which tip to scan from, which heights are
//! missing, when a hash already in the tree must not be fetched again — is
//! made here, so each step carries a contract. A transfer that fails is not
//! offered back: the caller abandons the machine and propagates the failure,
//! so nothing partial is ever taken from it.

use vstd::prelude::*;

use crate::tree::Tree;
use crate::types::BlockHash;
use crate::types::BlockHeader;
use crate::types::ChainTip;
use crate::types::ChainTipStatus;
use crate::types::FetchError;
use crate::types::HeaderInfo;

verus! {

/// How many headers one bulk request asks for.
pub const BULK_STEP: u64 = 2000;

/// Every tip's branch length stays within its height, so each fork root is a
/// height of its own.
pub open spec fn tips_wf(tips: Seq<ChainTip>) -> bool {
    forall|i: int| 0 <= i < tips.len() ==> (#[trigger] tips[i]).branchlen <= tips[i].height
}

/// Some tip's branch left the active chain above the threshold.
pub open spec fn some_tip_qualifies(tips: Seq<ChainTip>, min_fork_height: u64) -> bool {
    exists|i: int| 0 <= i < tips.len() && (#[trigger] tips[i]).qualifies(min_fork_height)
}

/// The smallest fork-root height among the qualifying tips.
pub open spec fn min_qualifying_fork_root(tips: Seq<ChainTip>, min_fork_height: u64) -> int
    decreases tips.len(),
{
    if tips.len() == 0 {
        0
    } else {
        let rest = min_qualifying_fork_root(tips.drop_last(), min_fork_height);
        let last = tips.last();
        if last.qualifies(min_fork_height) {
            if some_tip_qualifies(tips.drop_last(), min_fork_height) && rest <= last.fork_root() {
                rest
            } else {
                last.fork_root()
            }
        } else {
            rest
        }
    }
}

/// Whether some tip reports the active status.
pub open spec fn has_active(tips: Seq<ChainTip>) -> bool {
    exists|i: int| 0 <= i < tips.len() && (#[trigger] tips[i]).status == ChainTipStatus::Active
}

/// The height of the last tip that reports the active status; at most one
/// tip is expected to carry it, so which one is taken is inconsequential.
pub open spec fn last_active_height(tips: Seq<ChainTip>) -> u64
    decreases tips.len(),
{
    if tips.len() == 0 {
        0
    } else if tips.last().status == ChainTipStatus::Active {
        tips.last().height
    } else {
        last_active_height(tips.drop_last())
    }
}

/// Where the scan of the active chain begins: five blocks below the lowest
/// qualifying fork root, as a safety margin against a near-tip reorganization
/// already partially recorded, and never below the first block.
pub open spec fn spec_scan_start(min_root: int) -> int {
    if min_root - 5 > 0 {
        min_root - 5
    } else {
        0
    }
}

/// The height of the tree's highest leaf.
pub open spec fn spec_max_leaf_height(tree: Tree) -> u64 {
    choose|h: u64| tree.is_max_leaf_height(h)
}

/// Any two maximal leaf heights agree: the height itself is unique even
/// where several leaves stand at it.
pub proof fn lemma_max_leaf_height_unique(tree: Tree, h1: u64, h2: u64)
    requires
        tree.is_max_leaf_height(h1),
        tree.is_max_leaf_height(h2),
    ensures
        h1 == h2,
{
    let i1 = choose|i: int|
        0 <= i < tree@.len() && tree.spec_is_leaf(i) && tree@[i].height == h1;
    let i2 = choose|i: int|
        0 <= i < tree@.len() && tree.spec_is_leaf(i) && tree@[i].height == h2;
    assert(tree@[i1].height <= h2);
    assert(tree@[i2].height <= h1);
}

/// The height the scan of the active chain has already reached: the start
/// margin on an empty tree, otherwise the highest leaf recorded so far.
pub open spec fn spec_current_height(tree: Tree, scan_start: int) -> int {
    if tree@.len() == 0 {
        scan_start
    } else {
        spec_max_leaf_height(tree) as int
    }
}

/// What the caller must do next for the active chain.
#[derive(Clone, Copy, Debug, PartialEq, Eq)]
pub enum ActiveRequest {
    /// Ask the node for the hash of the block at `height`.
    Hash { height: u64 },
    /// Ask the node for the header of the block `hash`.
    Header { hash: BlockHash },
    /// Ask the bulk endpoint for up to `count` headers from `start` upward.
    Bulk { count: u64, start: BlockHash },
}

/// Where the active-chain machine stands.
#[derive(Clone, Copy, Debug, PartialEq, Eq)]
pub enum ActivePhase {
    /// The hash of the block at the machine's next height is wanted.
    NeedHash,
    /// `hash` was missing from the tree: its header is wanted.
    NeedHeader { hash: BlockHash },
    /// `hash` was missing from the tree: a bulk batch from it is wanted.
    NeedBulk { hash: BlockHash },
    /// The active chain is synchronized; nothing more is wanted.
    Complete,
}

/// Fetches exactly the headers missing on the chain the node considers
/// active, one decision per step. The caller performs each requested
/// transfer and offers the outcome back; tree lookups are offered under the
/// caller's own short-lived lock, never held across a transfer.
#[derive(Debug, PartialEq, Eq)]
pub struct ActiveSync {
    /// Whether the bulk binary endpoint may be used.
    pub use_rest: bool,
    /// The height of the active tip: the scan's upper bound, inclusive.
    pub tip_height: u64,
    /// The next height whose presence must be decided.
    pub next_height: u64,
    /// The missing headers gathered so far, ascending by height.
    pub headers: Vec<HeaderInfo>,
    /// What the machine waits for.
    pub phase: ActivePhase,
}

impl ActiveSync {
    /// The machine never scans past its tip.
    pub open spec fn wf(self) -> bool {
        !(self.phase is Complete) ==> self.next_height <= self.tip_height
    }

    /// The gathered headers ascend strictly by height, and while the scan
    /// still runs they all lie below the next height to decide, so every
    /// later step can only append higher heights.
    pub open spec fn headers_ascending(self) -> bool {
        &&& forall|i: int, j: int|
            0 <= i < j < self.headers@.len() ==> self.headers@[i].height
                < self.headers@[j].height
        &&& (!(self.phase is Complete) ==> forall|i: int|
            0 <= i < self.headers@.len() ==> (#[trigger] self.headers@[i]).height
                < self.next_height)
    }

    /// The request the current phase calls for, if any.
    pub open spec fn spec_request(self) -> Option<ActiveRequest> {
        match self.phase {
            ActivePhase::NeedHash => Some(ActiveRequest::Hash { height: self.next_height }),
            ActivePhase::NeedHeader { hash } => Some(ActiveRequest::Header { hash }),
            ActivePhase::NeedBulk { hash } => Some(
                ActiveRequest::Bulk { count: BULK_STEP, start: hash },
            ),
            ActivePhase::Complete => None,
        }
    }

    /// Begins an active-chain scan from the reported tips and the tree as it
    /// stands. With no tip above the threshold the scan is already complete
    /// and empty — the threshold is too high for these tips, which is not an
    /// error. With qualifying tips but none active, the node's data is
    /// inconsistent and the scan fails without fetching anything.
    pub fn start(tips: &Vec<ChainTip>, tree: &Tree, min_fork_height: u64, use_rest: bool) -> (r:
        Result<ActiveSync, FetchError>)
        requires
            tips_wf(tips@),
            tree@.len() > 0 ==> tree.spec_has_leaf(),
        ensures
            !some_tip_qualifies(tips@, min_fork_height) ==> (r matches Ok(s) && s.phase
                is Complete && s.headers@ == Seq::<HeaderInfo>::empty()
                && s.headers_ascending()),
            some_tip_qualifies(tips@, min_fork_height) && !has_active(tips@) ==> r == Result::<
                ActiveSync,
                FetchError,
            >::Err(FetchError::NoActiveTip),
            some_tip_qualifies(tips@, min_fork_height) && has_active(tips@) ==> (r matches Ok(s)
                && {
                let current = spec_current_height(
                    *tree,
                    spec_scan_start(min_qualifying_fork_root(tips@, min_fork_height)),
                );
                &&& s.wf()
                &&& s.headers_ascending()
                &&& s.use_rest == use_rest
                &&& s.headers@ == Seq::<HeaderInfo>::empty()
                &&& s.tip_height == last_active_height(tips@)
                &&& (current >= s.tip_height ==> s.phase is Complete)
                &&& (current < s.tip_height ==> s.phase is NeedHash && s.next_height == current
                    + 1)
            }),
    {
        let mut have: bool = false;
        let mut min_root: u64 = 0;
        let mut i: usize = 0;
        while i < tips.len()
            invariant
                tips_wf(tips@),
                i <= tips@.len(),
                have == some_tip_qualifies(tips@.take(i as int), min_fork_height),
                have ==> min_root == min_qualifying_fork_root(
                    tips@.take(i as int),
                    min_fork_height,
                ),
            decreases tips@.len() - i,
        {
            proof {
                assert(tips@.take(i as int + 1).drop_last() =~= tips@.take(i as int));
                assert(tips@.take(i as int + 1).last() == tips@[i as int]);
            }
            let tip = tips[i];
            if tip.height - tip.branchlen > min_fork_height {
                let root = tip.height - tip.branchlen;
                if !have || root < min_root {
                    min_root = root;
                }
                have = true;
            }
            i += 1;
        }
        proof {
            assert(tips@.take(tips@.len() as int) =~= tips@);
        }
        if !have {
            return Ok(
                ActiveSync {
                    use_rest,
                    tip_height: 0,
                    next_height: 0,
                    headers: Vec::new(),
                    phase: ActivePhase::Complete,
                },
            );
        }
        let mut found_active: bool = false;
        let mut active_height: u64 = 0;
        let mut j: usize = 0;
        while j < tips.len()
            invariant
                j <= tips@.len(),
                found_active == has_active(tips@.take(j as int)),
                found_active ==> active_height == last_active_height(tips@.take(j as int)),
            decreases tips@.len() - j,
        {
            proof {
                assert(tips@.take(j as int + 1).drop_last() =~= tips@.take(j as int));
                assert(tips@.take(j as int + 1).last() == tips@[j as int]);
            }
            let tip = tips[j];
            if tip.status == ChainTipStatus::Active {
                active_height = tip.height;
                found_active = true;
            }
            j += 1;
        }
        if !found_active {
            return Err(FetchError::NoActiveTip);
        }
        let scan_start: u64 = if min_root > 5 {
            min_root - 5
        } else {
            0
        };
        let current: u64 = if tree.is_empty() {
            scan_start
        } else {
            let h = tree.max_leaf_height();
            proof {
                lemma_max_leaf_height_unique(*tree, h, spec_max_leaf_height(*tree));
            }
            h
        };
        if current >= active_height {
            Ok(
                ActiveSync {
                    use_rest,
                    tip_height: active_height,
                    next_height: active_height,
                    headers: Vec::new(),
                    phase: ActivePhase::Complete,
                },
            )
        } else {
            Ok(
                ActiveSync {
                    use_rest,
                    tip_height: active_height,
                    next_height: current + 1,
                    headers: Vec::new(),
                    phase: ActivePhase::NeedHash,
                },
            )
        }
    }

    /// The request the caller must perform next, or nothing when complete.
    pub fn request(&self) -> (r: Option<ActiveRequest>)
        ensures
            r == self.spec_request(),
    {
        match self.phase {
            ActivePhase::NeedHash => Some(ActiveRequest::Hash { height: self.next_height }),
            ActivePhase::NeedHeader { hash } => Some(ActiveRequest::Header { hash }),
            ActivePhase::NeedBulk { hash } => Some(
                ActiveRequest::Bulk { count: BULK_STEP, start: hash },
            ),
            ActivePhase::Complete => None,
        }
    }

    /// Decides what to do with the hash reported for the current height. A
    /// hash the tree already holds is never fetched again: the machine skips
    /// straight to the next height and records nothing for it. A missing
    /// hash turns into a header request — bulk where the backend allows it.
    pub fn offer_hash(&mut self, tree: &Tree, hash: BlockHash)
        requires
            old(self).wf(),
            old(self).phase is NeedHash,
        ensures
            final(self).wf(),
            old(self).headers_ascending() ==> final(self).headers_ascending(),
            final(self).use_rest == old(self).use_rest,
            final(self).tip_height == old(self).tip_height,
            tree.spec_contains(hash@) ==> {
                &&& final(self).headers@ == old(self).headers@
                &&& !(final(self).spec_request() matches Some(ActiveRequest::Header { .. }))
                &&& !(final(self).spec_request() matches Some(ActiveRequest::Bulk { .. }))
                &&& (old(self).next_height == old(self).tip_height ==> final(self).phase
                    is Complete)
                &&& (old(self).next_height < old(self).tip_height ==> final(self).phase
                    is NeedHash && final(self).next_height == old(self).next_height + 1)
            },
            !tree.spec_contains(hash@) ==> {
                &&& final(self).headers@ == old(self).headers@
                &&& final(self).next_height == old(self).next_height
                &&& (old(self).use_rest ==> final(self).phase == (ActivePhase::NeedBulk { hash }))
                &&& (!old(self).use_rest ==> final(self).phase == (ActivePhase::NeedHeader {
                    hash,
                }))
            },
    {
        if tree.contains(&hash) {
            if self.next_height == self.tip_height {
                self.phase = ActivePhase::Complete;
            } else {
                self.next_height = self.next_height + 1;
            }
        } else {
            if self.use_rest {
                self.phase = ActivePhase::NeedBulk { hash };
            } else {
                self.phase = ActivePhase::NeedHeader { hash };
            }
        }
    }

    /// Records the header fetched for the current height and moves on.
    pub fn offer_header(&mut self, header: BlockHeader)
        requires
            old(self).wf(),
            old(self).phase matches ActivePhase::NeedHeader { .. },
        ensures
            final(self).wf(),
            old(self).headers_ascending() ==> final(self).headers_ascending(),
            final(self).use_rest == old(self).use_rest,
            final(self).tip_height == old(self).tip_height,
            final(self).headers@ == old(self).headers@.push(
                HeaderInfo { height: old(self).next_height, header },
            ),
            old(self).next_height == old(self).tip_height ==> final(self).phase is Complete,
            old(self).next_height < old(self).tip_height ==> final(self).phase is NeedHash
                && final(self).next_height == old(self).next_height + 1,
    {
        self.headers.push(HeaderInfo { height: self.next_height, header });
        if self.next_height == self.tip_height {
            self.phase = ActivePhase::Complete;
        } else {
            self.next_height = self.next_height + 1;
            self.phase = ActivePhase::NeedHash;
        }
    }

    /// Records one bulk batch: the returned headers fill consecutive heights
    /// from the current one, in server order, and the scan advances by
    /// exactly the number of headers returned. An empty batch means the
    /// endpoint has nothing from that hash, and the scan ends rather than
    /// asking forever.
    pub fn offer_bulk(&mut self, batch: Vec<BlockHeader>)
        requires
            old(self).wf(),
            old(self).phase matches ActivePhase::NeedBulk { .. },
            old(self).next_height + batch@.len() <= u64::MAX as int + 1,
        ensures
            final(self).wf(),
            old(self).headers_ascending() ==> final(self).headers_ascending(),
            final(self).use_rest == old(self).use_rest,
            final(self).tip_height == old(self).tip_height,
            final(self).headers@ == old(self).headers@ + Seq::new(
                batch@.len(),
                |i: int| HeaderInfo { height: (old(self).next_height + i) as u64, header: batch@[i] },
            ),
            batch@.len() == 0 ==> final(self).phase is Complete,
            batch@.len() > 0 && old(self).next_height + batch@.len() > old(self).tip_height
                ==> final(self).phase is Complete,
            batch@.len() > 0 && old(self).next_height + batch@.len() <= old(self).tip_height
                ==> final(self).phase is NeedHash
                && final(self).next_height == old(self).next_height + batch@.len(),
    {
        let len = batch.len();
        let mut i: usize = 0;
        while i < len
            invariant
                len == batch@.len(),
                self.next_height == old(self).next_height,
                self.next_height + len <= u64::MAX as int + 1,
                self.tip_height == old(self).tip_height,
                self.use_rest == old(self).use_rest,
                self.phase == old(self).phase,
                i <= len,
                self.headers@ == old(self).headers@ + Seq::new(
                    i as nat,
                    |j: int| HeaderInfo {
                        height: (old(self).next_height + j) as u64,
                        header: batch@[j],
                    },
                ),
            decreases len - i,
        {
            self.headers.push(
                HeaderInfo { height: self.next_height + i as u64, header: batch[i] },
            );
            proof {
                assert(self.headers@ =~= old(self).headers@ + Seq::new(
                    i as nat + 1,
                    |j: int| HeaderInfo {
                        height: (old(self).next_height + j) as u64,
                        header: batch@[j],
                    },
                ));
            }
            i += 1;
        }
        if len == 0 {
            self.phase = ActivePhase::Complete;
        } else {
            let remaining = self.tip_height - self.next_height;
            if len as u64 > remaining {
                self.next_height = self.tip_height;
                self.phase = ActivePhase::Complete;
            } else {
                self.next_height = self.next_height + len as u64;
                self.phase = ActivePhase::NeedHash;
            }
        }
    }

    /// Whether nothing more is wanted.
    pub fn is_complete(&self) -> (r: bool)
        ensures
            r == (self.phase is Complete),
    {
        match self.phase {
            ActivePhase::Complete => true,
            _ => false,
        }
    }

    /// Hands out the gathered headers once the scan is complete.
    pub fn finish(self) -> (r: Vec<HeaderInfo>)
        requires
            self.phase is Complete,
        ensures
            r@ == self.headers@,
    {
        self.headers
    }
}

/// The tips whose branches must be walked: those above the threshold that do
/// not report the active status, in the order the node reported them.
pub open spec fn nonactive_selection(tips: Seq<ChainTip>, min_fork_height: u64) -> Seq<ChainTip>
    decreases tips.len(),
{
    if tips.len() == 0 {
        Seq::empty()
    } else {
        let rest = nonactive_selection(tips.drop_last(), min_fork_height);
        let last = tips.last();
        if last.qualifies(min_fork_height) && last.status != ChainTipStatus::Active {
            rest.push(last)
        } else {
            rest
        }
    }
}

/// What the caller must do next for the non-active branches.
#[derive(Clone, Copy, Debug, PartialEq, Eq)]
pub enum NonactiveRequest {
    /// Look `hash` up in the tree, under the caller's lock, and offer the
    /// tree back.
    TreeCheck { hash: BlockHash },
    /// Ask the node for the header of the block `hash` and offer it back.
    Header { hash: BlockHash },
}

/// Recovers the headers of every non-active branch above the threshold by
/// walking backward from each tip, one parent hash at a time. Bulk transport
/// is of no use here: it only returns descendant runs from a starting hash,
/// never ancestors. A tip whose own hash the tree already holds is skipped
/// whole; the check is made once per tip, not at every step back, so a
/// branch whose tail is already recorded is still walked in full.
#[derive(Debug, PartialEq, Eq)]
pub struct NonactiveSync {
    /// The tips still to walk, as selected by `nonactive_selection`.
    pub tips: Vec<ChainTip>,
    /// The tip currently under consideration.
    pub idx: usize,
    /// How many steps back the current walk has taken.
    pub step: u64,
    /// The hash the current walk fetches next.
    pub cursor: BlockHash,
    /// Whether a walk is under way; otherwise the tip at `idx` still has to
    /// be checked against the tree.
    pub walking: bool,
    /// The headers gathered so far: for each walked tip, descending by
    /// height from the tip itself.
    pub headers: Vec<HeaderInfo>,
}

impl NonactiveSync {
    pub open spec fn wf(self) -> bool {
        &&& tips_wf(self.tips@)
        &&& self.idx <= self.tips@.len()
        &&& (self.walking ==> self.idx < self.tips@.len() && self.step
            <= self.tips@[self.idx as int].branchlen)
    }

    /// The request the machine waits for, or nothing once every tip is done.
    pub open spec fn spec_request(self) -> Option<NonactiveRequest> {
        if self.idx >= self.tips@.len() {
            None
        } else if !self.walking {
            Some(NonactiveRequest::TreeCheck { hash: self.tips@[self.idx as int].block_hash })
        } else {
            Some(NonactiveRequest::Header { hash: self.cursor })
        }
    }

    /// Selects the non-active tips above the threshold, in report order.
    pub fn start(tips: &Vec<ChainTip>, min_fork_height: u64) -> (s: NonactiveSync)
        requires
            tips_wf(tips@),
        ensures
            s.wf(),
            s.tips@ == nonactive_selection(tips@, min_fork_height),
            s.idx == 0,
            !s.walking,
            s.headers@ == Seq::<HeaderInfo>::empty(),
    {
        let mut selected: Vec<ChainTip> = Vec::new();
        let mut i: usize = 0;
        while i < tips.len()
            invariant
                tips_wf(tips@),
                i <= tips@.len(),
                selected@ == nonactive_selection(tips@.take(i as int), min_fork_height),
            decreases tips@.len() - i,
        {
            proof {
                assert(tips@.take(i as int + 1).drop_last() =~= tips@.take(i as int));
                assert(tips@.take(i as int + 1).last() == tips@[i as int]);
            }
            let tip = tips[i];
            if tip.height - tip.branchlen > min_fork_height && !(tip.status
                == ChainTipStatus::Active) {
                selected.push(tip);
            }
            i += 1;
        }
        proof {
            assert(tips@.take(tips@.len() as int) =~= tips@);
            assert forall|k: int|
                0 <= k < nonactive_selection(tips@, min_fork_height).len() implies (
            #[trigger] nonactive_selection(tips@, min_fork_height)[k]).branchlen
                <= nonactive_selection(tips@, min_fork_height)[k].height by {
                lemma_nonactive_selection_wf(tips@, min_fork_height);
            }
        }
        NonactiveSync {
            tips: selected,
            idx: 0,
            step: 0,
            cursor: BlockHash { bytes: [0u8; 32] },
            walking: false,
            headers: Vec::new(),
        }
    }

    /// The request the caller must perform next, or nothing when done.
    pub fn request(&self) -> (r: Option<NonactiveRequest>)
        ensures
            r == self.spec_request(),
    {
        if self.idx >= self.tips.len() {
            None
        } else if !self.walking {
            Some(NonactiveRequest::TreeCheck { hash: self.tips[self.idx].block_hash })
        } else {
            Some(NonactiveRequest::Header { hash: self.cursor })
        }
    }

    /// Decides whether the current tip's branch must be walked at all. A tip
    /// whose own hash the tree already holds is skipped entirely, whatever
    /// its branch length: nothing is recorded for it and the machine moves
    /// to the next tip. Otherwise the walk begins at the tip's own hash.
    pub fn offer_tree(&mut self, tree: &Tree)
        requires
            old(self).wf(),
            !old(self).walking,
            old(self).idx < old(self).tips@.len(),
        ensures
            final(self).wf(),
            final(self).tips == old(self).tips,
            tree.spec_contains(old(self).tips@[old(self).idx as int].block_hash@) ==> {
                &&& final(self).headers@ == old(self).headers@
                &&& final(self).idx == old(self).idx + 1
                &&& !final(self).walking
            },
            !tree.spec_contains(old(self).tips@[old(self).idx as int].block_hash@) ==> {
                &&& final(self).headers@ == old(self).headers@
                &&& final(self).idx == old(self).idx
                &&& final(self).walking
                &&& final(self).step == 0
                &&& final(self).cursor == old(self).tips@[old(self).idx as int].block_hash
            },
    {
        let _n: usize = self.tips.len();
        let tip_hash = self.tips[self.idx].block_hash;
        if tree.contains(&tip_hash) {
            self.idx = self.idx + 1;
        } else {
            self.walking = true;
            self.step = 0;
            self.cursor = tip_hash;
        }
    }

    /// Records one step of the backward walk: the fetched header stands at
    /// the tip's height minus the number of steps taken, and the walk moves
    /// to the parent hash the header names. After `branchlen + 1` records the
    /// branch is covered down to its fork root and the machine moves on.
    pub fn offer_header(&mut self, header: BlockHeader)
        requires
            old(self).wf(),
            old(self).walking,
        ensures
            final(self).wf(),
            final(self).tips == old(self).tips,
            final(self).headers@ == old(self).headers@.push(
                HeaderInfo {
                    height: (old(self).tips@[old(self).idx as int].height - old(self).step) as u64,
                    header,
                },
            ),
            old(self).step < old(self).tips@[old(self).idx as int].branchlen ==> {
                &&& final(self).idx == old(self).idx
                &&& final(self).walking
                &&& final(self).step == old(self).step + 1
                &&& final(self).cursor == header.prev_blockhash
            },
            old(self).step == old(self).tips@[old(self).idx as int].branchlen ==> {
                &&& final(self).idx == old(self).idx + 1
                &&& !final(self).walking
            },
    {
        let _n: usize = self.tips.len();
        let tip = self.tips[self.idx];
        self.headers.push(HeaderInfo { height: tip.height - self.step, header });
        if self.step < tip.branchlen {
            self.step = self.step + 1;
            self.cursor = header.prev_blockhash;
        } else {
            self.idx = self.idx + 1;
            self.walking = false;
        }
    }

    /// Whether every selected tip has been handled.
    pub fn is_complete(&self) -> (r: bool)
        ensures
            r == (self.idx >= self.tips@.len()),
    {
        self.idx >= self.tips.len()
    }

    /// Hands out the gathered headers once every tip has been handled.
    pub fn finish(self) -> (r: Vec<HeaderInfo>)
        requires
            self.idx >= self.tips@.len(),
        ensures
            r@ == self.headers@,
    {
        self.headers
    }
}

/// What `nonactive_selection` keeps is drawn from the given tips, so their
/// branch lengths stay within their heights.
pub proof fn lemma_nonactive_selection_wf(tips: Seq<ChainTip>, min_fork_height: u64)
    requires
        tips_wf(tips),
    ensures
        tips_wf(nonactive_selection(tips, min_fork_height)),
    decreases tips.len(),
{
    if tips.len() > 0 {
        assert(tips_wf(tips.drop_last()));
        lemma_nonactive_selection_wf(tips.drop_last(), min_fork_height);
    }
}

/// The combined result of one cycle: the active-chain headers followed by
/// the non-active ones, each sub-list in its own order, not interleaved and
/// not globally sorted.
pub fn combine_headers(active: Vec<HeaderInfo>, nonactive: Vec<HeaderInfo>) -> (r: Vec<HeaderInfo>)
    ensures
        r@ == active@ + nonactive@,
{
    let mut r = active;
    let mut rest = nonactive;
    r.append(&mut rest);
    r
}

} // verus!
