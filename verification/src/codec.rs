//! The bulk binary header protocol: a successful response body is the
//! concatenation of fixed 80-byte header encodings, in ascending height
//! order from the requested start hash.
//!
//! An 80-byte encoding lays out, in order: the version word, the parent
//! hash, the merkle root, the timestamp, the difficulty word and the nonce;
//! every word is 32 bits little-endian and the hashes are 32 raw bytes.

use vstd::prelude::*;

use crate::types::BlockHash;
use crate::types::BlockHeader;
use crate::types::FetchError;

verus! {

/// The 32-bit word that bytes `off .. off + 4` of `b` encode, little-endian.
pub open spec fn le32_at(b: Seq<u8>, off: int) -> int {
    b[off] + b[off + 1] * 0x100 + b[off + 2] * 0x10000 + b[off + 3] * 0x1000000
}

/// `h` is exactly the header that bytes `off .. off + 80` of `b` encode.
pub open spec fn header_matches(h: BlockHeader, b: Seq<u8>, off: int) -> bool {
    &&& h.version == le32_at(b, off)
    &&& h.prev_blockhash@ == b.subrange(off + 4, off + 36)
    &&& h.merkle_root@ == b.subrange(off + 36, off + 68)
    &&& h.time == le32_at(b, off + 68)
    &&& h.bits == le32_at(b, off + 72)
    &&& h.nonce == le32_at(b, off + 76)
}

/// `hs` is exactly the header sequence that the whole of `b` encodes.
pub open spec fn headers_match(hs: Seq<BlockHeader>, b: Seq<u8>) -> bool {
    &&& b.len() == hs.len() * 80
    &&& forall|i: int| 0 <= i < hs.len() ==> header_matches(#[trigger] hs[i], b, i * 80)
}

fn read_le32(b: &Vec<u8>, off: usize) -> (r: u32)
    requires
        off + 4 <= b@.len(),
    ensures
        r == le32_at(b@, off as int),
{
    let _n: usize = b.len();
    (b[off] as u32) + (b[off + 1] as u32) * 0x100 + (b[off + 2] as u32) * 0x10000 + (b[off + 3]
        as u32) * 0x1000000
}

fn read_hash(b: &Vec<u8>, off: usize) -> (r: BlockHash)
    requires
        off + 32 <= b@.len(),
    ensures
        r@ == b@.subrange(off as int, off as int + 32),
{
    let _n: usize = b.len();
    let mut bytes: [u8; 32] = [0u8; 32];
    let mut i: usize = 0;
    while i < 32
        invariant
            off + 32 <= b@.len(),
            b@.len() <= usize::MAX,
            i <= 32,
            forall|j: int| 0 <= j < i ==> bytes@[j] == b@[off + j],
        decreases 32 - i,
    {
        bytes[i] = b[off + i];
        i += 1;
    }
    proof {
        assert(bytes@ =~= b@.subrange(off as int, off as int + 32));
    }
    BlockHash { bytes }
}

/// Decodes the 80-byte header at `off`.
pub fn decode_header(b: &Vec<u8>, off: usize) -> (h: BlockHeader)
    requires
        off + 80 <= b@.len(),
    ensures
        header_matches(h, b@, off as int),
{
    let _n: usize = b.len();
    BlockHeader {
        version: read_le32(b, off),
        prev_blockhash: read_hash(b, off + 4),
        merkle_root: read_hash(b, off + 36),
        time: read_le32(b, off + 68),
        bits: read_le32(b, off + 72),
        nonce: read_le32(b, off + 76),
    }
}

/// Splits a bulk response body into consecutive 80-byte chunks and decodes
/// each in order. A body whose length is not a multiple of 80 leaves a
/// partial chunk that no header can fill, so the whole batch is discarded
/// with a decode failure; nothing partial is returned.
pub fn decode_headers_payload(b: &Vec<u8>) -> (r: Result<Vec<BlockHeader>, FetchError>)
    ensures
        b@.len() % 80 == 0 ==> (r matches Ok(hs) && headers_match(hs@, b@)),
        b@.len() % 80 != 0 ==> r == Result::<Vec<BlockHeader>, FetchError>::Err(
            FetchError::RestDecode { length: b@.len() as usize },
        ),
{
    if b.len() % 80 != 0 {
        return Err(FetchError::RestDecode { length: b.len() });
    }
    let count = b.len() / 80;
    proof {
        vstd::arithmetic::div_mod::lemma_fundamental_div_mod(b@.len() as int, 80);
    }
    let mut headers: Vec<BlockHeader> = Vec::new();
    let mut i: usize = 0;
    while i < count
        invariant
            b@.len() == count * 80,
            b@.len() <= usize::MAX,
            i <= count,
            headers@.len() == i,
            forall|j: int| 0 <= j < i ==> header_matches(#[trigger] headers@[j], b@, j * 80),
        decreases count - i,
    {
        let h = decode_header(b, i * 80);
        headers.push(h);
        i += 1;
    }
    Ok(headers)
}

/// Judges one bulk endpoint response. A status other than 200 is a
/// transport failure carrying the status, reason phrase and body text;
/// a 200 body is decoded as a run of 80-byte headers.
pub fn parse_bulk_response(status: i32, reason: String, body_text: String, body: &Vec<u8>) -> (r:
    Result<Vec<BlockHeader>, FetchError>)
    ensures
        status != 200 ==> r == Result::<Vec<BlockHeader>, FetchError>::Err(
            FetchError::RestStatus { status, reason, body: body_text },
        ),
        status == 200 && whole_headers_len(body@.len() as int) ==> (r matches Ok(hs) && headers_match(hs@, body@)),
        status == 200 && !whole_headers_len(body@.len() as int) ==> r == Result::<Vec<BlockHeader>, FetchError>::Err(
            FetchError::RestDecode { length: body@.len() as usize },
        ),
{
    if status != 200 {
        return Err(FetchError::RestStatus { status, reason, body: body_text });
    }
    decode_headers_payload(body)
}

/// A byte count that whole 80-byte headers can fill.
pub open spec fn whole_headers_len(n: int) -> bool {
    n % 80 == 0
}

/// The lowercase hex digit (as an ASCII byte) for a nibble.
pub open spec fn hex_char_of(n: int) -> u8 {
    if n < 10 {
        (48 + n) as u8
    } else {
        (87 + n) as u8
    }
}

/// The display form of a hash: its bytes reversed, each written as two
/// lowercase hex digits. The bulk endpoint addresses a start hash this way.
pub open spec fn hash_hex_spec(h: Seq<u8>) -> Seq<u8> {
    Seq::new(
        h.len() * 2,
        |i: int|
            {
                let b = h[h.len() - 1 - i / 2] as int;
                if i % 2 == 0 {
                    hex_char_of(b / 16)
                } else {
                    hex_char_of(b % 16)
                }
            },
    )
}

fn hex_char(n: u8) -> (r: u8)
    requires
        n < 16,
    ensures
        r == hex_char_of(n as int),
{
    if n < 10 {
        48 + n
    } else {
        87 + n
    }
}

/// Writes a hash in its display form: reversed, lowercase hex, 64 ASCII
/// bytes. The caller splices this into the bulk endpoint's path.
pub fn hash_hex(h: &BlockHash) -> (r: Vec<u8>)
    ensures
        r@ == hash_hex_spec(h@),
{
    let mut r: Vec<u8> = Vec::new();
    let mut i: usize = 0;
    while i < 32
        invariant
            i <= 32,
            r@.len() == 2 * i,
            forall|j: int| 0 <= j < 2 * i ==> r@[j] == hash_hex_spec(h@)[j],
        decreases 32 - i,
    {
        let b = h.bytes[31 - i];
        r.push(hex_char(b / 16));
        r.push(hex_char(b % 16));
        i += 1;
    }
    proof {
        assert(r@ =~= hash_hex_spec(h@));
    }
    r
}

} // verus!
