//! Plain data carried through the synchronization logic.

use vstd::prelude::*;

verus! {

/// A block hash: 32 raw bytes, as the wire protocol carries them
/// (display order is the byte-wise reverse of this).
#[derive(Clone, Copy, Debug, PartialEq, Eq, Hash)]
pub struct BlockHash {
    pub bytes: [u8; 32],
}

impl View for BlockHash {
    type V = Seq<u8>;

    open spec fn view(&self) -> Seq<u8> {
        self.bytes@
    }
}

impl BlockHash {
    pub fn new(bytes: [u8; 32]) -> (r: Self)
        ensures
            r@ == bytes@,
    {
        BlockHash { bytes }
    }
}

/// Two hashes are the same exactly when their bytes are.
pub fn hash_eq(a: &BlockHash, b: &BlockHash) -> (r: bool)
    ensures
        r == (a@ == b@),
{
    let mut i: usize = 0;
    while i < 32
        invariant
            i <= 32,
            forall|j: int| 0 <= j < i ==> a@[j] == b@[j],
        decreases 32 - i,
    {
        if a.bytes[i] != b.bytes[i] {
            return false;
        }
        i += 1;
    }
    proof {
        assert(a@ =~= b@);
    }
    true
}

/// A block header as the 80-byte wire encoding lays it out: four
/// little-endian 32-bit words around the two 32-byte hashes.
#[derive(Clone, Copy, Debug, PartialEq, Eq)]
pub struct BlockHeader {
    pub version: u32,
    pub prev_blockhash: BlockHash,
    pub merkle_root: BlockHash,
    pub time: u32,
    pub bits: u32,
    pub nonce: u32,
}

/// The status a node reports for one of its chain tips.
#[derive(Clone, Copy, Debug, PartialEq, Eq, Structural)]
pub enum ChainTipStatus {
    Active,
    ValidFork,
    ValidHeaders,
    HeadersOnly,
    Invalid,
}

/// One chain tip as a node reports it: the terminal hash of a branch, its
/// height, how many blocks ago the branch left the active chain, and its
/// status. The fork-root height of the tip is `height - branchlen`.
#[derive(Clone, Copy, Debug, PartialEq, Eq)]
pub struct ChainTip {
    pub block_hash: BlockHash,
    pub height: u64,
    pub branchlen: u64,
    pub status: ChainTipStatus,
}

impl ChainTip {
    /// The height at which this tip's branch split off the active chain.
    pub open spec fn fork_root(self) -> int {
        self.height - self.branchlen
    }

    /// Whether a tip's branch left the active chain above the configured
    /// threshold, so that synchronization must consider it.
    pub open spec fn qualifies(self, min_fork_height: u64) -> bool {
        self.fork_root() > min_fork_height
    }
}

/// A fetched header together with the height the reporting node assigned it.
#[derive(Clone, Copy, Debug, PartialEq, Eq)]
pub struct HeaderInfo {
    pub height: u64,
    pub header: BlockHeader,
}

/// Why a fetch could not be completed.
#[derive(Clone, Debug, PartialEq, Eq)]
pub enum FetchError {
    /// No tip carried the active status: the node's tip data is inconsistent.
    NoActiveTip,
    /// The bulk header endpoint answered with a status other than 200; the
    /// status code, reason phrase and body are kept for diagnosis.
    RestStatus { status: i32, reason: String, body: String },
    /// A bulk header payload could not be split into whole 80-byte headers.
    RestDecode { length: usize },
    /// A request/response call failed; the message carries backend context.
    Rpc { message: String },
    /// The backend does not support the requested operation.
    NotSupported,
}

/// Identity of a monitored node, used for addressing and logging.
#[derive(Clone, Debug, Hash)]
pub struct NodeInfo {
    pub id: u8,
    pub name: String,
    pub description: String,
}

/// Connection record for a backend that talks a raw request/response
/// protocol only: no bulk transport and no version query.
#[derive(Clone, Debug, Hash)]
pub struct BtcdNode {
    pub info: NodeInfo,
    pub rpc_url: String,
    pub rpc_user: String,
    pub rpc_password: String,
}

impl BtcdNode {
    pub fn new(info: NodeInfo, rpc_url: String, rpc_user: String, rpc_password: String) -> (r: Self)
        ensures
            r.info == info,
            r.rpc_url == rpc_url,
            r.rpc_user == rpc_user,
            r.rpc_password == rpc_password,
    {
        BtcdNode { info, rpc_url, rpc_user, rpc_password }
    }

    /// This backend never exposes the bulk binary endpoint.
    pub fn use_rest(&self) -> (r: bool)
        ensures
            r == false,
    {
        false
    }

    /// This backend has no version query: the capability is reported as
    /// unsupported, never as a crash.
    pub fn version(&self) -> (r: Result<String, FetchError>)
        ensures
            r == Result::<String, FetchError>::Err(FetchError::NotSupported),
    {
        Err(FetchError::NotSupported)
    }
}

} // verus!
