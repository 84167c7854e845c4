//! An append-only chain of blocks, each bound to the one before it by a hash.
//!
//! A block's hash is the SHA-256 digest, in lower-case hexadecimal, of the
//! text made of its index, its timestamp, its payload and the hash of the
//! block before it. A chain is valid where every block after the first
//! carries the hash of its own fields and the hash of its predecessor.

use vstd::prelude::*;
use vstd::utf8::encode_utf8;
use crate::text::{decimal_string, decimal_text, hex_text, to_hex};
use crate::time::{rfc3339_text, Timestamp};

verus! {

/// The SHA-256 digest of `message`.
pub uninterp spec fn sha256(message: Seq<u8>) -> Seq<u8>;

/// The text that a block's hash is taken of: index, timestamp, payload and
/// previous hash, one after the other.
pub open spec fn block_text(
    index: nat,
    timestamp: Timestamp,
    data: Seq<char>,
    prev_hash: Seq<char>,
) -> Seq<char> {
    decimal_text(index) + rfc3339_text(timestamp.spec_secs(), timestamp.spec_nanos()) + data
        + prev_hash
}

/// The hash of a block with the given fields.
pub open spec fn block_hash(
    index: nat,
    timestamp: Timestamp,
    data: Seq<char>,
    prev_hash: Seq<char>,
) -> Seq<char> {
    hex_text(sha256(encode_utf8(block_text(index, timestamp, data, prev_hash))))
}

/// The previous-hash that the first block of every chain carries.
pub open spec fn genesis_prev_hash() -> Seq<char> {
    "0"@
}

/// The payload that the first block of every chain carries.
pub open spec fn genesis_data() -> Seq<char> {
    "Genesis Block"@
}

/// One record of the chain.
#[derive(Debug)]
pub struct Block {
    /// Position in the chain, counted from zero.
    pub index: usize,
    /// When the block was made.
    pub timestamp: Timestamp,
    /// The payload.
    pub data: String,
    /// The hash of the block before this one.
    pub prev_hash: String,
    /// The hash of this block's other fields.
    pub hash: String,
}

/// The chain.
pub struct Blockchain {
    pub blocks: Vec<Block>,
}

/// Whether block `i` of `blocks` carries the hash of its own fields and the
/// hash of the block before it.
pub open spec fn link_ok(blocks: Seq<Block>, i: int) -> bool {
    &&& blocks[i].sealed()
    &&& blocks[i].prev_hash@ == blocks[i - 1].hash@
}

/// Whether every block after the first is sealed and linked to the one
/// before it.
pub open spec fn chain_valid(blocks: Seq<Block>) -> bool {
    forall|i: int| 1 <= i < blocks.len() ==> #[trigger] link_ok(blocks, i)
}

/// Whether every block's index is its position.
pub open spec fn chain_indexed(blocks: Seq<Block>) -> bool {
    forall|i: int| 0 <= i < blocks.len() ==> (#[trigger] blocks[i]).index == i
}

/// Whether the chain starts with a genesis block: index zero, the fixed
/// previous-hash and payload, and a hash taken by the rule for every block.
pub open spec fn chain_rooted(blocks: Seq<Block>) -> bool {
    &&& blocks.len() > 0
    &&& blocks[0].index == 0
    &&& blocks[0].prev_hash@ == genesis_prev_hash()
    &&& blocks[0].data@ == genesis_data()
    &&& blocks[0].sealed()
}

/// The text that a block's hash is taken of, given the text of its
/// timestamp.
pub fn block_message(index: usize, time: &str, data: &str, prev_hash: &str) -> (r: String)
    ensures
        r@ == decimal_text(index as nat) + time@ + data@ + prev_hash@,
{
    let mut text = decimal_string(index as u64);
    text.append(time);
    text.append(data);
    text.append(prev_hash);
    text
}

/// The hash of a block with the given fields.
pub fn hash_block(index: usize, timestamp: &Timestamp, data: &str, prev_hash: &str) -> (r: String)
    ensures
        r@ == block_hash(index as nat, *timestamp, data@, prev_hash@),
{
    let time = timestamp.to_rfc3339();
    let text = block_message(index, time.as_str(), data, prev_hash);
    let digest = sha256_digest(text.as_str().as_bytes());
    to_hex(&digest)
}

impl Clone for Block {
    fn clone(&self) -> (r: Block)
        ensures
            r == *self,
    {
        Block {
            index: self.index,
            timestamp: self.timestamp,
            data: self.data.clone(),
            prev_hash: self.prev_hash.clone(),
            hash: self.hash.clone(),
        }
    }
}

impl Block {
    /// The hash that this block's index, timestamp, payload and previous
    /// hash give.
    pub open spec fn expected_hash(self) -> Seq<char> {
        block_hash(self.index as nat, self.timestamp, self.data@, self.prev_hash@)
    }

    /// Whether the block carries the hash of its own fields.
    pub open spec fn sealed(self) -> bool {
        self.hash@ == self.expected_hash()
    }

    /// A block with the given fields and the hash that they give.
    pub fn new(index: usize, timestamp: Timestamp, data: String, prev_hash: String) -> (r: Block)
        ensures
            r.index == index,
            r.timestamp == timestamp,
            r.data@ == data@,
            r.prev_hash@ == prev_hash@,
            r.sealed(),
    {
        let hash = hash_block(index, &timestamp, data.as_str(), prev_hash.as_str());
        Block { index, timestamp, data, prev_hash, hash }
    }

    /// Takes the hash of the block's index, timestamp, payload and previous
    /// hash anew; the stored hash plays no part in it.
    pub fn calculate_hash(&self) -> (r: String)
        ensures
            r@ == self.expected_hash(),
    {
        hash_block(self.index, &self.timestamp, self.data.as_str(), self.prev_hash.as_str())
    }
}

impl Blockchain {
    /// Whether the chain is what [`Blockchain::new`] and
    /// [`Blockchain::add_blocks`] make of it: rooted in a genesis block,
    /// indexed without gaps, and valid.
    pub open spec fn wf(self) -> bool {
        &&& chain_rooted(self.blocks@)
        &&& chain_indexed(self.blocks@)
        &&& chain_valid(self.blocks@)
    }

    /// A chain that holds a genesis block made now.
    pub fn new() -> (r: Blockchain)
        ensures
            r.blocks@.len() == 1,
            r.wf(),
    {
        Blockchain::with_genesis_at(Timestamp::now())
    }

    /// A chain that holds a genesis block made at `timestamp`.
    pub fn with_genesis_at(timestamp: Timestamp) -> (r: Blockchain)
        ensures
            r.blocks@.len() == 1,
            r.blocks@[0].timestamp == timestamp,
            r.wf(),
    {
        let genesis = Block::new(0, timestamp, String::from_str("Genesis Block"), String::from_str("0"));
        let mut blocks = Vec::new();
        blocks.push(genesis);
        Blockchain { blocks }
    }

    /// Appends a block made now that holds `data`.
    ///
    /// The new block takes the next index and the hash of the block that was
    /// last; the blocks that were there stay as they were. A chain that was
    /// well formed stays so.
    pub fn add_blocks(&mut self, data: String)
        requires
            old(self).blocks@.len() > 0,
        ensures
            final(self).blocks@.len() == old(self).blocks@.len() + 1,
            final(self).blocks@.drop_last() == old(self).blocks@,
            final(self).blocks@.last().index == old(self).blocks@.len(),
            final(self).blocks@.last().data@ == data@,
            final(self).blocks@.last().prev_hash@ == old(self).blocks@.last().hash@,
            final(self).blocks@.last().sealed(),
            chain_valid(old(self).blocks@) ==> chain_valid(final(self).blocks@),
            old(self).wf() ==> final(self).wf(),
    {
        self.append_at(Timestamp::now(), data)
    }

    /// Appends a block made at `timestamp` that holds `data`.
    pub fn append_at(&mut self, timestamp: Timestamp, data: String)
        requires
            old(self).blocks@.len() > 0,
        ensures
            final(self).blocks@.len() == old(self).blocks@.len() + 1,
            final(self).blocks@.drop_last() == old(self).blocks@,
            final(self).blocks@.last().index == old(self).blocks@.len(),
            final(self).blocks@.last().timestamp == timestamp,
            final(self).blocks@.last().data@ == data@,
            final(self).blocks@.last().prev_hash@ == old(self).blocks@.last().hash@,
            final(self).blocks@.last().sealed(),
            chain_valid(old(self).blocks@) ==> chain_valid(final(self).blocks@),
            old(self).wf() ==> final(self).wf(),
    {
        let count = self.blocks.len();
        let prev_hash = self.blocks[count - 1].hash.clone();
        let block = Block::new(count, timestamp, data, prev_hash);
        proof {
            lemma_append_keeps_valid(self.blocks@, block);
            lemma_append_keeps_indexed(self.blocks@, block);
        }
        self.blocks.push(block);
        assert(self.blocks@.drop_last() == old(self).blocks@);
    }

    /// Whether every block after the first carries the hash of its own
    /// fields, taken anew, and the hash of the block before it.
    pub fn is_valid(&self) -> (r: bool)
        ensures
            r == chain_valid(self.blocks@),
    {
        let mut i: usize = 1;
        while i < self.blocks.len()
            invariant
                1 <= i,
                forall|j: int| 1 <= j < i && j < self.blocks@.len() ==> #[trigger] link_ok(
                    self.blocks@,
                    j,
                ),
            decreases self.blocks.len() - i,
        {
            let block = &self.blocks[i];
            let recomputed = block.calculate_hash();
            if !(recomputed == block.hash) {
                assert(!link_ok(self.blocks@, i as int));
                return false;
            }
            if !(block.prev_hash == self.blocks[i - 1].hash) {
                assert(!link_ok(self.blocks@, i as int));
                return false;
            }
            i = i + 1;
        }
        true
    }
}

/// Appending a sealed block that carries the hash of the last block keeps a
/// valid chain valid: an untouched chain verifies, however many blocks were
/// appended to it.
pub proof fn lemma_append_keeps_valid(blocks: Seq<Block>, block: Block)
    requires
        blocks.len() > 0,
        block.sealed(),
        block.prev_hash@ == blocks.last().hash@,
    ensures
        chain_valid(blocks) ==> chain_valid(blocks.push(block)),
{
    let longer = blocks.push(block);
    if chain_valid(blocks) {
        assert forall|i: int| 1 <= i < longer.len() implies #[trigger] link_ok(longer, i) by {
            if i < blocks.len() {
                assert(link_ok(blocks, i));
            }
        }
    }
}

/// Appending a block whose index is the length of the chain keeps every
/// block's index equal to its position, and the genesis block in place.
pub proof fn lemma_append_keeps_indexed(blocks: Seq<Block>, block: Block)
    requires
        block.index == blocks.len(),
    ensures
        chain_indexed(blocks) ==> chain_indexed(blocks.push(block)),
        chain_rooted(blocks) ==> chain_rooted(blocks.push(block)),
{
}

/// Putting another payload into a block after the first, without taking its
/// hash anew, makes a valid chain invalid, provided the digest tells the two
/// payloads apart.
pub proof fn lemma_tampering_detected(blocks: Seq<Block>, i: int, data: String)
    requires
        chain_valid(blocks),
        1 <= i < blocks.len(),
        block_hash(blocks[i].index as nat, blocks[i].timestamp, data@, blocks[i].prev_hash@)
            != block_hash(
            blocks[i].index as nat,
            blocks[i].timestamp,
            blocks[i].data@,
            blocks[i].prev_hash@,
        ),
    ensures
        !chain_valid(
            blocks.update(
                i,
                (Block {
                    index: blocks[i].index,
                    timestamp: blocks[i].timestamp,
                    data: data,
                    prev_hash: blocks[i].prev_hash,
                    hash: blocks[i].hash,
                }),
            ),
        ),
{
    let tampered = Block {
        index: blocks[i].index,
        timestamp: blocks[i].timestamp,
        data: data,
        prev_hash: blocks[i].prev_hash,
        hash: blocks[i].hash,
    };
    let changed = blocks.update(i, tampered);
    assert(link_ok(blocks, i));
    assert(!changed[i].sealed());
    assert(!link_ok(changed, i));
}

/// Takes the SHA-256 digest of `message` with `sha2::Sha256` through
/// `Digest::digest`, and copies the 32 bytes out.
///
/// The digest depends on the message alone; the contract gives it the name
/// [`sha256`] and states its length.
#[verifier::external_body]
fn sha256_digest(message: &[u8]) -> (r: Vec<u8>)
    ensures
        r@ == sha256(message@),
        r@.len() == 32,
{
    <sha2::Sha256 as sha2::Digest>::digest(message).to_vec()
}

} // verus!
