use forksync::ActivePhase;
use forksync::ActiveRequest;
use forksync::ActiveSync;
use forksync::BlockHash;
use forksync::BlockHeader;
use forksync::ChainTip;
use forksync::ChainTipStatus;
use forksync::FetchError;
use forksync::HeaderInfo;
use forksync::NonactiveRequest;
use forksync::NonactiveSync;
use forksync::Tree;
use forksync::combine_headers;

fn h(n: u8) -> BlockHash {
    BlockHash::new([n; 32])
}

fn header(prev: BlockHash, nonce: u32) -> BlockHeader {
    BlockHeader {
        version: 1,
        prev_blockhash: prev,
        merkle_root: h(0),
        time: 0,
        bits: 0,
        nonce,
    }
}

/// Empty tree, threshold 0, one active tip at height 100 with no branch,
/// non-bulk backend: exactly five hash fetches and five header fetches, for
/// heights 96 through 100, and five records in ascending order.
#[test]
fn active_sync_five_headers_from_scan_margin() {
    let tree = Tree::new();
    let tips = vec![ChainTip {
        block_hash: h(100),
        height: 100,
        branchlen: 0,
        status: ChainTipStatus::Active,
    }];
    let mut sync = ActiveSync::start(&tips, &tree, 0, false).unwrap();
    let mut hash_fetches: Vec<u64> = Vec::new();
    let mut header_fetches = 0;
    while let Some(req) = sync.request() {
        match req {
            ActiveRequest::Hash { height } => {
                hash_fetches.push(height);
                sync.offer_hash(&tree, h(height as u8));
            }
            ActiveRequest::Header { hash } => {
                header_fetches += 1;
                sync.offer_header(header(hash, 0));
            }
            ActiveRequest::Bulk { .. } => panic!("non-bulk backend must not ask for bulk"),
        }
    }
    assert_eq!(hash_fetches, vec![96, 97, 98, 99, 100]);
    assert_eq!(header_fetches, 5);
    let headers = sync.finish();
    let heights: Vec<u64> = headers.iter().map(|hi| hi.height).collect();
    assert_eq!(heights, vec![96, 97, 98, 99, 100]);
}

/// A hash the tree already holds is never fetched again: the machine skips
/// that height without asking for its header and records nothing for it.
#[test]
fn active_sync_skips_known_hashes() {
    let mut tree = Tree::new();
    tree.insert(h(97), 97, h(96));
    let tips = vec![ChainTip {
        block_hash: h(100),
        height: 100,
        branchlen: 0,
        status: ChainTipStatus::Active,
    }];
    // highest leaf is at 97, so the scan covers 98..=100
    let mut sync = ActiveSync::start(&tips, &tree, 0, false).unwrap();
    assert_eq!(sync.request(), Some(ActiveRequest::Hash { height: 98 }));
    // pretend height 98 still carries the hash the tree already knows
    sync.offer_hash(&tree, h(97));
    // no header request follows: the next step asks for height 99
    assert_eq!(sync.request(), Some(ActiveRequest::Hash { height: 99 }));
    sync.offer_hash(&tree, h(99));
    match sync.request() {
        Some(ActiveRequest::Header { hash }) => assert_eq!(hash, h(99)),
        other => panic!("expected a header request, got {:?}", other),
    }
    sync.offer_header(header(h(98), 0));
    sync.offer_hash(&tree, h(100));
    sync.offer_header(header(h(99), 0));
    assert!(sync.is_complete());
    let headers = sync.finish();
    let heights: Vec<u64> = headers.iter().map(|hi| hi.height).collect();
    assert_eq!(heights, vec![99, 100]);
}

/// With qualifying tips but none active, the scan fails with the
/// data-consistency error and fetches nothing.
#[test]
fn active_sync_without_active_tip_fails() {
    let tree = Tree::new();
    let tips = vec![ChainTip {
        block_hash: h(1),
        height: 100,
        branchlen: 2,
        status: ChainTipStatus::ValidFork,
    }];
    let r = ActiveSync::start(&tips, &tree, 0, false);
    assert_eq!(r, Err(FetchError::NoActiveTip));
}

/// With every fork root at or below the threshold, the scan returns an empty
/// list and no error.
#[test]
fn active_sync_threshold_too_high_is_empty_not_error() {
    let tree = Tree::new();
    let tips = vec![ChainTip {
        block_hash: h(1),
        height: 100,
        branchlen: 0,
        status: ChainTipStatus::Active,
    }];
    let sync = ActiveSync::start(&tips, &tree, 100, false).unwrap();
    assert!(sync.is_complete());
    assert_eq!(sync.finish(), Vec::<HeaderInfo>::new());
}

/// No tips at all: nothing qualifies, so the result is empty, not an error.
#[test]
fn active_sync_no_tips_is_empty() {
    let tree = Tree::new();
    let tips: Vec<ChainTip> = Vec::new();
    let sync = ActiveSync::start(&tips, &tree, 0, false).unwrap();
    assert!(sync.is_complete());
    assert_eq!(sync.finish(), Vec::<HeaderInfo>::new());
}

/// A bulk-capable backend asks for a batch at the first missing height and
/// advances by the number of headers actually returned.
#[test]
fn active_sync_bulk_batches() {
    let tree = Tree::new();
    let tips = vec![ChainTip {
        block_hash: h(100),
        height: 100,
        branchlen: 0,
        status: ChainTipStatus::Active,
    }];
    let mut sync = ActiveSync::start(&tips, &tree, 0, true).unwrap();
    assert_eq!(sync.request(), Some(ActiveRequest::Hash { height: 96 }));
    sync.offer_hash(&tree, h(96));
    match sync.request() {
        Some(ActiveRequest::Bulk { count, start }) => {
            assert_eq!(count, 2000);
            assert_eq!(start, h(96));
        }
        other => panic!("expected a bulk request, got {:?}", other),
    }
    // the server returns three headers: heights 96, 97, 98
    sync.offer_bulk(vec![header(h(95), 96), header(h(96), 97), header(h(97), 98)]);
    assert_eq!(sync.request(), Some(ActiveRequest::Hash { height: 99 }));
    sync.offer_hash(&tree, h(99));
    // a batch that runs past the tip completes the scan
    sync.offer_bulk(vec![header(h(98), 99), header(h(99), 100), header(h(100), 101)]);
    assert!(sync.is_complete());
    let heights: Vec<u64> = sync.finish().iter().map(|hi| hi.height).collect();
    assert_eq!(heights, vec![96, 97, 98, 99, 100, 101]);
}

/// An empty bulk batch ends the scan instead of asking forever.
#[test]
fn active_sync_empty_bulk_batch_completes() {
    let tree = Tree::new();
    let tips = vec![ChainTip {
        block_hash: h(10),
        height: 10,
        branchlen: 0,
        status: ChainTipStatus::Active,
    }];
    let mut sync = ActiveSync::start(&tips, &tree, 0, true).unwrap();
    sync.offer_hash(&tree, h(6));
    sync.offer_bulk(Vec::new());
    assert!(sync.is_complete());
    assert_eq!(sync.finish(), Vec::<HeaderInfo>::new());
}

/// A non-active tip with branch length 3 and four linked, previously unseen
/// headers yields exactly four records, at the tip's height and the three
/// below it, in that order.
#[test]
fn nonactive_sync_walks_branch_backwards() {
    let tree = Tree::new();
    let tip_hash = h(4);
    let tips = vec![ChainTip {
        block_hash: tip_hash,
        height: 50,
        branchlen: 3,
        status: ChainTipStatus::ValidFork,
    }];
    // tip -> parent -> grandparent -> great-grandparent
    let linked = [h(4), h(3), h(2), h(1)];
    let mut sync = NonactiveSync::start(&tips, 0);
    assert_eq!(
        sync.request(),
        Some(NonactiveRequest::TreeCheck { hash: tip_hash })
    );
    sync.offer_tree(&tree);
    for i in 0..4 {
        match sync.request() {
            Some(NonactiveRequest::Header { hash }) => assert_eq!(hash, linked[i]),
            other => panic!("expected a header request, got {:?}", other),
        }
        let prev = if i < 3 { linked[i + 1] } else { h(0) };
        sync.offer_header(header(prev, i as u32));
    }
    assert!(sync.is_complete());
    let headers = sync.finish();
    let heights: Vec<u64> = headers.iter().map(|hi| hi.height).collect();
    assert_eq!(heights, vec![50, 49, 48, 47]);
}

/// A non-active tip whose own hash the tree already holds is skipped whole,
/// whatever its branch length.
#[test]
fn nonactive_sync_skips_known_tip() {
    let mut tree = Tree::new();
    tree.insert(h(9), 60, h(8));
    let tips = vec![ChainTip {
        block_hash: h(9),
        height: 60,
        branchlen: 25,
        status: ChainTipStatus::HeadersOnly,
    }];
    let mut sync = NonactiveSync::start(&tips, 0);
    sync.offer_tree(&tree);
    assert!(sync.is_complete());
    assert_eq!(sync.finish(), Vec::<HeaderInfo>::new());
}

/// Active tips are not walked, and tips at or below the threshold are not
/// considered.
#[test]
fn nonactive_sync_selects_only_qualifying_forks() {
    let tips = vec![
        ChainTip {
            block_hash: h(1),
            height: 100,
            branchlen: 0,
            status: ChainTipStatus::Active,
        },
        ChainTip {
            block_hash: h(2),
            height: 40,
            branchlen: 39,
            status: ChainTipStatus::ValidFork,
        },
        ChainTip {
            block_hash: h(3),
            height: 80,
            branchlen: 1,
            status: ChainTipStatus::ValidHeaders,
        },
    ];
    // threshold 50: the fork rooted at 1 does not qualify, the one at 79 does
    let sync = NonactiveSync::start(&tips, 50);
    assert_eq!(
        sync.request(),
        Some(NonactiveRequest::TreeCheck { hash: h(3) })
    );
}

/// The combined cycle result is the active list followed by the non-active
/// one, not interleaved and not re-sorted.
#[test]
fn combine_keeps_sublist_order() {
    let a = vec![
        HeaderInfo { height: 7, header: header(h(1), 0) },
        HeaderInfo { height: 8, header: header(h(2), 0) },
    ];
    let b = vec![HeaderInfo { height: 3, header: header(h(3), 0) }];
    let all = combine_headers(a.clone(), b.clone());
    assert_eq!(all, vec![a[0], a[1], b[0]]);
}

/// The phase after completion reports no request.
#[test]
fn complete_machine_requests_nothing() {
    let tree = Tree::new();
    let tips = vec![ChainTip {
        block_hash: h(1),
        height: 3,
        branchlen: 0,
        status: ChainTipStatus::Active,
    }];
    let mut sync = ActiveSync::start(&tips, &tree, 0, false).unwrap();
    while let Some(req) = sync.request() {
        match req {
            ActiveRequest::Hash { height } => sync.offer_hash(&tree, h(height as u8)),
            ActiveRequest::Header { hash } => sync.offer_header(header(hash, 0)),
            ActiveRequest::Bulk { .. } => panic!("non-bulk backend must not ask for bulk"),
        }
    }
    assert!(sync.is_complete());
    assert!(matches!(sync.phase, ActivePhase::Complete));
}

/// The scan base is the smallest qualifying fork root, five blocks back:
/// with a stale fork rooted below the active tip, the scan starts from the
/// fork's root, not from the tip.
#[test]
fn active_sync_scans_from_lowest_qualifying_fork_root() {
    let tree = Tree::new();
    let tips = vec![
        ChainTip {
            block_hash: h(1),
            height: 100,
            branchlen: 0,
            status: ChainTipStatus::Active,
        },
        ChainTip {
            block_hash: h(2),
            height: 60,
            branchlen: 10,
            status: ChainTipStatus::ValidFork,
        },
    ];
    // fork roots are 100 and 50; the scan begins at max(50 - 5, 0) + 1
    let sync = ActiveSync::start(&tips, &tree, 0, false).unwrap();
    assert_eq!(sync.request(), Some(ActiveRequest::Hash { height: 46 }));
}

/// A fork root at or below the threshold does not drag the scan base down.
#[test]
fn active_sync_threshold_filters_fork_roots() {
    let tree = Tree::new();
    let tips = vec![
        ChainTip {
            block_hash: h(1),
            height: 100,
            branchlen: 0,
            status: ChainTipStatus::Active,
        },
        ChainTip {
            block_hash: h(2),
            height: 60,
            branchlen: 10,
            status: ChainTipStatus::ValidFork,
        },
    ];
    // threshold 50 disqualifies the fork rooted exactly at 50
    let sync = ActiveSync::start(&tips, &tree, 50, false).unwrap();
    assert_eq!(sync.request(), Some(ActiveRequest::Hash { height: 96 }));
}
