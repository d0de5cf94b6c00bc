//! Hash-sealed blocks and the canonical JSON text that their hash covers.
use vstd::prelude::*;
use vstd::string::StringSliceAdditionalSpecFns;
use crate::codec::{decimal, hex_chars, push_bytes, push_decimal};
use crate::primitives::{hex_encode, json_string, json_string_of, sha256, sha256_of};
use crate::transaction::Transaction;

verus! {

/// Milliseconds since the Unix epoch stamped on the genesis block.
pub const GENESIS_TIMESTAMP: u128 = 1_690_000_000_000;

/// A block of ordered transactions, linked to its predecessor by hash.
#[derive(Debug)]
pub struct Block {
    pub index: u64,
    pub data: String,
    pub nonce: u64,
    pub transactions: Vec<Transaction>,
    pub timestamp: u128,
    pub previous_hash: String,
    pub hash: String,
}

/// Byte values of a JSON array of numbers, without the brackets.
pub open spec fn json_number_items(b: Seq<u8>) -> Seq<u8>
    decreases b.len(),
{
    if b.len() == 0 {
        seq![]
    } else if b.len() == 1 {
        decimal(b[0] as nat)
    } else {
        json_number_items(b.drop_last()) + seq![44u8] + decimal(b.last() as nat)
    }
}

/// A byte string as a JSON array of numbers.
pub open spec fn json_byte_array(b: Seq<u8>) -> Seq<u8> {
    seq![91u8] + json_number_items(b) + seq![93u8]
}

/// A transaction as a JSON object, fields in declaration order.
pub open spec fn transaction_json(t: Transaction) -> Seq<u8> {
    "{\"sender\":".spec_bytes() + json_byte_array(t.sender@) + ",\"receiver\":".spec_bytes()
        + json_byte_array(t.receiver@) + ",\"amount\":".spec_bytes() + decimal(t.amount as nat)
        + ",\"signature\":".spec_bytes() + json_byte_array(t.signature@) + "}".spec_bytes()
}

/// Transactions as JSON objects separated by commas.
pub open spec fn transaction_items(ts: Seq<Transaction>) -> Seq<u8>
    decreases ts.len(),
{
    if ts.len() == 0 {
        seq![]
    } else if ts.len() == 1 {
        transaction_json(ts[0])
    } else {
        transaction_items(ts.drop_last()) + seq![44u8] + transaction_json(ts.last())
    }
}

/// The canonical JSON text of a block with its hash field empty.
pub open spec fn block_json(b: Block) -> Seq<u8> {
    "{\"index\":".spec_bytes() + decimal(b.index as nat) + ",\"data\":".spec_bytes()
        + json_string_of(b.data@) + ",\"nonce\":".spec_bytes() + decimal(b.nonce as nat)
        + ",\"transactions\":[".spec_bytes() + transaction_items(b.transactions@)
        + "],\"timestamp\":".spec_bytes() + decimal(b.timestamp as nat)
        + ",\"previous_hash\":".spec_bytes() + json_string_of(b.previous_hash@)
        + ",\"hash\":\"\"}".spec_bytes()
}

/// The content hash of a block: hex SHA-256 of its canonical JSON text.
pub open spec fn block_hash_of(b: Block) -> Seq<char> {
    hex_chars(sha256_of(block_json(b)))
}

fn push_str(out: &mut Vec<u8>, s: &str)
    ensures
        final(out)@ == old(out)@ + s.spec_bytes(),
{
    push_bytes(out, s.as_bytes());
}

fn push_json_byte_array(out: &mut Vec<u8>, b: &Vec<u8>)
    ensures
        final(out)@ == old(out)@ + json_byte_array(b@),
{
    let ghost start = out@;
    out.push(91);
    let mut i: usize = 0;
    while i < b.len()
        invariant
            i <= b@.len(),
            out@ == start + seq![91u8] + json_number_items(b@.subrange(0, i as int)),
        decreases b@.len() - i,
    {
        let ghost prev = out@;
        if i > 0 {
            out.push(44);
        }
        push_decimal(out, b[i] as u128);
        proof {
            let s = b@.subrange(0, i + 1);
            assert(s.drop_last() =~= b@.subrange(0, i as int));
            if i == 0 {
                assert(prev =~= start + seq![91u8]);
            }
        }
        i += 1;
        assert(out@ =~= start + seq![91u8] + json_number_items(b@.subrange(0, i as int)));
    }
    assert(b@.subrange(0, b@.len() as int) =~= b@);
    out.push(93);
    assert(out@ =~= start + json_byte_array(b@));
}

fn push_transaction_json(out: &mut Vec<u8>, t: &Transaction)
    ensures
        final(out)@ == old(out)@ + transaction_json(*t),
{
    let ghost start = out@;
    push_str(out, "{\"sender\":");
    push_json_byte_array(out, &t.sender);
    push_str(out, ",\"receiver\":");
    push_json_byte_array(out, &t.receiver);
    push_str(out, ",\"amount\":");
    push_decimal(out, t.amount as u128);
    push_str(out, ",\"signature\":");
    push_json_byte_array(out, &t.signature);
    push_str(out, "}");
    assert(out@ =~= start + transaction_json(*t));
}

fn push_transaction_items(out: &mut Vec<u8>, ts: &Vec<Transaction>)
    ensures
        final(out)@ == old(out)@ + transaction_items(ts@),
{
    let ghost start = out@;
    let mut i: usize = 0;
    while i < ts.len()
        invariant
            i <= ts@.len(),
            out@ == start + transaction_items(ts@.subrange(0, i as int)),
        decreases ts@.len() - i,
    {
        let ghost prev = out@;
        if i > 0 {
            out.push(44);
        }
        push_transaction_json(out, &ts[i]);
        proof {
            let s = ts@.subrange(0, i + 1);
            assert(s.drop_last() =~= ts@.subrange(0, i as int));
            if i == 0 {
                assert(ts@.subrange(0, 0) =~= Seq::<Transaction>::empty());
            }
        }
        i += 1;
        assert(out@ =~= start + transaction_items(ts@.subrange(0, i as int)));
    }
    assert(ts@.subrange(0, ts@.len() as int) =~= ts@);
}

/// The canonical JSON text of `b`, with its hash field written empty.
pub fn serialize_block(b: &Block) -> (r: Vec<u8>)
    ensures
        r@ == block_json(*b),
{
    let mut out: Vec<u8> = Vec::new();
    push_str(&mut out, "{\"index\":");
    push_decimal(&mut out, b.index as u128);
    push_str(&mut out, ",\"data\":");
    let data = json_string(&b.data);
    push_bytes(&mut out, data.as_slice());
    push_str(&mut out, ",\"nonce\":");
    push_decimal(&mut out, b.nonce as u128);
    push_str(&mut out, ",\"transactions\":[");
    push_transaction_items(&mut out, &b.transactions);
    push_str(&mut out, "],\"timestamp\":");
    push_decimal(&mut out, b.timestamp);
    push_str(&mut out, ",\"previous_hash\":");
    let previous = json_string(&b.previous_hash);
    push_bytes(&mut out, previous.as_slice());
    push_str(&mut out, ",\"hash\":\"\"}");
    assert(out@ =~= block_json(*b));
    out
}

impl Block {
    /// The stored hash is the content hash of the other fields.
    pub open spec fn is_sealed(&self) -> bool {
        self.hash@ == block_hash_of(*self)
    }

    /// Assembles a block and seals it with its content hash.
    pub fn new(
        index: u64,
        data: String,
        nonce: u64,
        transactions: Vec<Transaction>,
        timestamp: u128,
        previous_hash: String,
    ) -> (r: Block)
        ensures
            r.index == index,
            r.data == data,
            r.nonce == nonce,
            r.transactions == transactions,
            r.timestamp == timestamp,
            r.previous_hash == previous_hash,
            r.is_sealed(),
    {
        let mut block = Block {
            index,
            data,
            nonce,
            transactions,
            timestamp,
            previous_hash,
            hash: String::new(),
        };
        block.hash = Block::calculate_hash(&block);
        block
    }

    /// The content hash of `block`'s fields, its own hash field aside.
    pub fn calculate_hash(block: &Block) -> (r: String)
        ensures
            r@ == block_hash_of(*block),
    {
        let serialized = serialize_block(block);
        let digest = sha256(&serialized);
        hex_encode(&digest)
    }

    /// The first block of every chain.
    pub fn genesis() -> (r: Block)
        ensures
            r.index == 0,
            r.data@ == "Genesis Block"@,
            r.nonce == 0,
            r.transactions@.len() == 0,
            r.timestamp == GENESIS_TIMESTAMP,
            r.previous_hash@ == "0"@,
            r.is_sealed(),
    {
        Block::new(0, "Genesis Block".to_owned(), 0, Vec::new(), GENESIS_TIMESTAMP, "0".to_owned())
    }
}

/// The content hash does not read the hash field: clearing or changing it and
/// hashing again gives the same value, so a sealed block reproduces its hash.
pub proof fn lemma_hash_ignores_hash_field(b: Block, other: Block)
    requires
        other.index == b.index,
        other.data == b.data,
        other.nonce == b.nonce,
        other.transactions == b.transactions,
        other.timestamp == b.timestamp,
        other.previous_hash == b.previous_hash,
        b.is_sealed(),
    ensures
        block_hash_of(other) == b.hash@,
{
}

} // verus!
