use forksync::BlockHash;
use forksync::BtcdNode;
use forksync::FetchError;
use forksync::NodeInfo;
use forksync::Tree;
use forksync::hash_eq;

fn h(n: u8) -> BlockHash {
    BlockHash::new([n; 32])
}

#[test]
fn empty_tree_contains_nothing() {
    let tree = Tree::new();
    assert!(tree.is_empty());
    assert_eq!(tree.len(), 0);
    assert!(!tree.contains(&h(1)));
    assert!(!tree.has_leaf());
}

#[test]
fn insert_then_contains() {
    let mut tree = Tree::new();
    assert!(tree.insert(h(1), 10, h(0)));
    assert!(tree.contains(&h(1)));
    assert!(!tree.contains(&h(2)));
    assert_eq!(tree.len(), 1);
}

/// Insertion is monotonic and a hash appears at most once: re-inserting an
/// existing hash changes nothing.
#[test]
fn duplicate_insert_is_ignored() {
    let mut tree = Tree::new();
    assert!(tree.insert(h(1), 10, h(0)));
    assert!(!tree.insert(h(1), 99, h(7)));
    assert_eq!(tree.len(), 1);
}

/// The highest-leaf scan looks only at entries no other entry names as
/// parent: an inner node of the chain does not count, however high it is.
#[test]
fn max_leaf_height_ignores_inner_nodes() {
    let mut tree = Tree::new();
    tree.insert(h(1), 10, h(0));
    assert!(tree.has_leaf());
    assert_eq!(tree.max_leaf_height(), 10);
    // extend the chain: 1 <- 2 <- 3; only 3 is a leaf now
    tree.insert(h(2), 11, h(1));
    tree.insert(h(3), 12, h(2));
    assert_eq!(tree.max_leaf_height(), 12);
    // a separate stale branch tip below the best leaf does not win
    tree.insert(h(4), 11, h(1));
    assert_eq!(tree.max_leaf_height(), 12);
}

#[test]
fn hash_eq_compares_bytes() {
    assert!(hash_eq(&h(5), &h(5)));
    assert!(!hash_eq(&h(5), &h(6)));
    let mut almost = [5u8; 32];
    almost[31] = 6;
    assert!(!hash_eq(&h(5), &BlockHash::new(almost)));
}

#[test]
fn btcd_node_reports_its_capabilities() {
    let node = BtcdNode::new(
        NodeInfo {
            id: 3,
            name: String::from("node-three"),
            description: String::from("a backend without bulk transport"),
        },
        String::from("127.0.0.1:8334"),
        String::from("user"),
        String::from("pass"),
    );
    assert!(!node.use_rest());
    assert_eq!(node.version(), Err(FetchError::NotSupported));
    assert_eq!(node.info.id, 3);
    assert_eq!(node.rpc_url, "127.0.0.1:8334");
}
