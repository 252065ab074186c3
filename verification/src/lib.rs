//! Header synchronization for a blockchain fork monitor.
//!
//! Given the chain tips reported by a full node and the header tree known so
//! far, the library computes exactly the block headers that are still missing
//! on the node's active chain and on its non-active fork branches, and drives
//! their retrieval through small request/response steps, so that a caller can
//! perform the actual network transfers and feed the results back in.

mod codec;
mod sync;
mod tree;
mod types;

pub use sync::combine_headers;
pub use sync::ActivePhase;
pub use sync::ActiveRequest;
pub use sync::ActiveSync;
pub use sync::NonactiveRequest;
pub use sync::NonactiveSync;

pub use codec::decode_header;
pub use codec::hash_hex;
pub use codec::decode_headers_payload;
pub use codec::parse_bulk_response;
pub use tree::Tree;
pub use tree::TreeEntry;
pub use types::hash_eq;
pub use types::BlockHash;
pub use types::BlockHeader;
pub use types::BtcdNode;
pub use types::ChainTip;
pub use types::ChainTipStatus;
pub use types::FetchError;
pub use types::HeaderInfo;
pub use types::NodeInfo;
