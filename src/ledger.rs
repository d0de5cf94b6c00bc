//! The ledger: mempool admission, proof-of-work, batching into blocks and the
//! append-only chain.
use vstd::prelude::*;
use crate::block::{Block, GENESIS_TIMESTAMP};
use crate::identity::Identity;
use crate::codec::{decimal, hex_chars, hex_starts_with_zeros, push_decimal};
use crate::primitives::{
    ed25519_generate_pkcs8, now_millis, par_find_nonce, sha256, sha256_of,
};
use crate::transaction::Transaction;

verus! {

/// The most pending transactions that one block takes from the mempool.
pub const BATCH_CAP: usize = 100;

/// Leading zero hex digits that a proof-of-work digest needs by default.
pub const DEFAULT_DIFFICULTY: usize = 6;

/// The amount credited to the block producer per block.
pub const BLOCK_REWARD: u64 = 5;

/// Why no key pair could be made.
#[derive(Debug, PartialEq, Eq)]
pub enum KeyError {
    /// The system's random source failed.
    Generation,
    /// The generated key material was rejected.
    Rejected,
}

/// Why block production stopped before the mempool was empty.
#[derive(Debug, PartialEq, Eq)]
pub enum ProduceError {
    /// No nonce solves the puzzle at the last block's nonce.
    NoValidNonce,
    /// The wall clock gave no time at or after the Unix epoch.
    ClockUnavailable,
}

/// An append-only chain of blocks and the pool of transactions awaiting one.
pub struct Blockchain {
    chain: Vec<Block>,
    pub mempool: Vec<Transaction>,
    difficulty: usize,
    miner_address: Vec<u8>,
    reward: u64,
}

/// Whether `s` starts with `d` characters `'0'`.
pub open spec fn leading_zeros(s: Seq<char>, d: nat) -> bool {
    d <= s.len() && forall|i: int| 0 <= i < d ==> s[i] == '0'
}

/// Whether `nonce` solves the puzzle anchored at `last_nonce`: the hex SHA-256
/// of the decimal text of `last_nonce` followed by that of `nonce` starts with
/// `difficulty` zeros.
pub open spec fn proof_holds(last_nonce: u64, nonce: u64, difficulty: usize) -> bool {
    leading_zeros(
        hex_chars(sha256_of(decimal(last_nonce as nat) + decimal(nonce as nat))),
        difficulty as nat,
    )
}

/// `b` has the fields of the genesis block and is sealed.
pub open spec fn is_genesis(b: Block) -> bool {
    &&& b.index == 0
    &&& b.data@ == "Genesis Block"@
    &&& b.nonce == 0
    &&& b.transactions@.len() == 0
    &&& b.timestamp == GENESIS_TIMESTAMP
    &&& b.previous_hash@ == "0"@
    &&& b.is_sealed()
}

/// How many of `n` pending transactions the first `k` batches take.
pub open spec fn consumed(n: nat, k: nat) -> nat {
    if BATCH_CAP * k < n {
        (BATCH_CAP * k) as nat
    } else {
        n
    }
}

/// The number of blocks that `n` pending transactions fill.
pub open spec fn batch_count(n: nat) -> nat {
    ((n + BATCH_CAP - 1) / (BATCH_CAP as int)) as nat
}

/// Block `b`, produced after `prev`, holds batch `j` of `pending` followed by a
/// reward of `reward` from `producer` to itself, signed by `producer`; it
/// carries `data` and solves the puzzle at `prev`'s nonce.
pub open spec fn block_from_batch(
    prev: Block,
    b: Block,
    pending: Seq<Transaction>,
    j: nat,
    data: Seq<char>,
    reward: u64,
    difficulty: usize,
    producer: Seq<u8>,
) -> bool {
    let start = BATCH_CAP * j;
    &&& start < pending.len()
    &&& b.transactions@.len() >= 1
    &&& b.transactions@.drop_last() == pending.subrange(start as int, consumed(pending.len(), j + 1) as int)
    &&& b.transactions@.last().sender@ == producer
    &&& b.transactions@.last().receiver@ == producer
    &&& b.transactions@.last().amount == reward
    &&& b.transactions@.last().verifies_under(producer)
    &&& b.data@ == data
    &&& proof_holds(prev.nonce, b.nonce, difficulty)
}

/// `chain` and `mempool` are what `k` rounds of block production make of
/// `old_chain` and `old_mempool`.
#[verifier::opaque]
pub open spec fn produced(
    old_chain: Seq<Block>,
    old_mempool: Seq<Transaction>,
    chain: Seq<Block>,
    mempool: Seq<Transaction>,
    k: nat,
    data: Seq<char>,
    reward: u64,
    difficulty: usize,
    producer: Seq<u8>,
) -> bool {
    &&& chain.len() == old_chain.len() + k
    &&& chain.subrange(0, old_chain.len() as int) == old_chain
    &&& mempool == old_mempool.subrange(consumed(old_mempool.len(), k) as int, old_mempool.len() as int)
    &&& forall|j: nat|
        j < k ==> #[trigger] block_from_batch(
            chain[old_chain.len() + j - 1 as int],
            chain[old_chain.len() + j as int],
            old_mempool,
            j,
            data,
            reward,
            difficulty,
            producer,
        )
}

/// The chain starts with a genesis block, and each block sits at its own
/// index, is sealed, and names its predecessor's hash.
#[verifier::opaque]
pub open spec fn chain_wf(chain: Seq<Block>) -> bool {
    &&& chain.len() >= 1
    &&& chain[0].previous_hash@ == "0"@
    &&& chain[0].transactions@.len() == 0
    &&& forall|i: int| 0 <= i < chain.len() ==> (#[trigger] chain[i]).index == i && chain[i].is_sealed()
    &&& forall|i: int| 0 < i < chain.len() ==> (#[trigger] chain[i]).previous_hash@ == chain[i - 1].hash@
}

/// Every pending transaction is signed by its sender.
pub open spec fn mempool_wf(mempool: Seq<Transaction>) -> bool {
    forall|j: int| 0 <= j < mempool.len() ==> (#[trigger] mempool[j]).self_signed()
}

/// Appending a sealed block at the next index that names the last block's
/// hash keeps the chain well formed.
proof fn lemma_chain_wf_push(chain: Seq<Block>, b: Block)
    requires
        chain_wf(chain),
        b.index == chain.len(),
        b.is_sealed(),
        b.previous_hash@ == chain.last().hash@,
    ensures
        chain_wf(chain.push(b)),
{
    reveal(chain_wf);
    let c = chain.push(b);
    assert forall|i: int| 0 < i < c.len() implies (#[trigger] c[i]).previous_hash@ == c[i - 1].hash@ by {
        if i < chain.len() {
            assert(c[i] == chain[i]);
        }
    }
}

/// The pending transactions from position `at` on are still signed by their
/// senders.
proof fn lemma_mempool_wf_suffix(m: Seq<Transaction>, at: int)
    requires
        mempool_wf(m),
        0 <= at <= m.len(),
    ensures
        mempool_wf(m.subrange(at, m.len() as int)),
{
    let t = m.subrange(at, m.len() as int);
    assert forall|j: int| 0 <= j < t.len() implies (#[trigger] t[j]).self_signed() by {
        assert(t[j] == m[at + j]);
    }
}

/// One more round of block production extends what `k` rounds made.
proof fn lemma_produced_step(
    old_chain: Seq<Block>,
    old_mempool: Seq<Transaction>,
    chain: Seq<Block>,
    mempool: Seq<Transaction>,
    b: Block,
    k: nat,
    data: Seq<char>,
    reward: u64,
    difficulty: usize,
    producer: Seq<u8>,
)
    requires
        old_chain.len() >= 1,
        produced(old_chain, old_mempool, chain, mempool, k, data, reward, difficulty, producer),
        block_from_batch(chain.last(), b, old_mempool, k, data, reward, difficulty, producer),
    ensures
        produced(
            old_chain,
            old_mempool,
            chain.push(b),
            old_mempool.subrange(consumed(old_mempool.len(), k + 1) as int, old_mempool.len() as int),
            k + 1,
            data,
            reward,
            difficulty,
            producer,
        ),
{
    reveal(produced);
    let c = chain.push(b);
    assert(c.subrange(0, old_chain.len() as int) =~= chain.subrange(0, old_chain.len() as int));
    assert forall|j: nat| j < k + 1 implies #[trigger] block_from_batch(
        c[old_chain.len() + j - 1 as int],
        c[old_chain.len() + j as int],
        old_mempool,
        j,
        data,
        reward,
        difficulty,
        producer,
    ) by {
        if j < k {
            assert(c[old_chain.len() + j - 1 as int] == chain[old_chain.len() + j - 1 as int]);
            assert(c[old_chain.len() + j as int] == chain[old_chain.len() + j as int]);
        }
    }
}

impl Blockchain {
    /// The blocks, genesis first.
    pub closed spec fn chain_spec(&self) -> Seq<Block> {
        self.chain@
    }

    /// The pending transactions, oldest first.
    pub closed spec fn mempool_spec(&self) -> Seq<Transaction> {
        self.mempool@
    }

    /// Leading zero hex digits required of a proof-of-work digest.
    pub closed spec fn difficulty_spec(&self) -> usize {
        self.difficulty
    }

    /// The label that names the block producer in reports.
    pub closed spec fn miner_address_spec(&self) -> Seq<u8> {
        self.miner_address@
    }

    /// The amount paid to the producer of each block.
    pub closed spec fn reward_spec(&self) -> u64 {
        self.reward
    }

    /// The chain is well formed and every pending transaction is signed by
    /// its sender.
    pub closed spec fn wf(&self) -> bool {
        chain_wf(self.chain@) && mempool_wf(self.mempool@)
    }

    /// A ledger with only the genesis block, an empty mempool, the default
    /// difficulty and reward.
    pub fn new() -> (r: Blockchain)
        ensures
            r.wf(),
            r.chain_spec().len() == 1,
            is_genesis(r.chain_spec()[0]),
            r.mempool_spec().len() == 0,
            r.difficulty_spec() == DEFAULT_DIFFICULTY,
            r.reward_spec() == BLOCK_REWARD,
            r.miner_address_spec() == seq![1u8, 2, 3, 4, 5],
    {
        Blockchain::with_difficulty(DEFAULT_DIFFICULTY)
    }

    /// A ledger like `new` whose puzzle asks for `difficulty` zeros.
    pub fn with_difficulty(difficulty: usize) -> (r: Blockchain)
        ensures
            r.wf(),
            r.chain_spec().len() == 1,
            is_genesis(r.chain_spec()[0]),
            r.mempool_spec().len() == 0,
            r.difficulty_spec() == difficulty,
            r.reward_spec() == BLOCK_REWARD,
            r.miner_address_spec() == seq![1u8, 2, 3, 4, 5],
    {
        let mut blockchain = Blockchain {
            chain: Vec::new(),
            mempool: Vec::new(),
            difficulty,
            miner_address: vec![1, 2, 3, 4, 5],
            reward: BLOCK_REWARD,
        };
        blockchain.chain.push(Block::genesis());
        proof {
            reveal(chain_wf);
            assert(blockchain.miner_address@ =~= seq![1u8, 2, 3, 4, 5]);
        }
        blockchain
    }

    /// Admits `tx` to the mempool when its signature verifies under its own
    /// sender; otherwise drops it.
    pub fn add_transaction(&mut self, tx: Transaction)
        requires
            old(self).wf(),
        ensures
            final(self).wf(),
            final(self).chain_spec() == old(self).chain_spec(),
            final(self).difficulty_spec() == old(self).difficulty_spec(),
            final(self).reward_spec() == old(self).reward_spec(),
            final(self).miner_address_spec() == old(self).miner_address_spec(),
            tx.self_signed() ==> final(self).mempool_spec() == old(self).mempool_spec().push(tx),
            !tx.self_signed() ==> final(self).mempool_spec() == old(self).mempool_spec(),
    {
        if tx.verify_signature(&tx.sender) {
            self.mempool.push(tx);
        }
    }

    fn latest_block(&self) -> (r: &Block)
        requires
            self.wf(),
        ensures
            *r == self.chain_spec().last(),
            r.index == self.chain_spec().len() - 1,
    {
        reveal(chain_wf);
        &self.chain[self.chain.len() - 1]
    }

    /// Searches every `u64` nonce in parallel for one that solves the puzzle
    /// anchored at `last_nonce`; none only when there is none.
    pub fn mine_block(&self, last_nonce: u64, difficulty: usize) -> (r: Option<u64>)
        ensures
            r matches Some(n) ==> proof_holds(last_nonce, n, difficulty),
            r is None ==> forall|n: u64| !proof_holds(last_nonce, n, difficulty),
    {
        par_find_nonce(last_nonce, difficulty)
    }

    /// Whether the hex SHA-256 of the decimal text of `last_nonce` followed by
    /// that of `nonce` starts with `difficulty` zeros.
    pub fn valid_proof(last_nonce: u64, nonce: u64, difficulty: usize) -> (r: bool)
        ensures
            r == proof_holds(last_nonce, nonce, difficulty),
    {
        let mut guess: Vec<u8> = Vec::new();
        push_decimal(&mut guess, last_nonce as u128);
        push_decimal(&mut guess, nonce as u128);
        let digest = sha256(&guess);
        hex_starts_with_zeros(&digest, difficulty)
    }

    /// Produces blocks until the mempool is empty: each takes up to
    /// `BATCH_CAP` pending transactions in arrival order, appends a reward
    /// from `producer` to itself signed by `producer`, carries `data`, solves
    /// the puzzle at its predecessor's nonce and is linked to it by hash. On an
    /// error the blocks made so far are kept and the rest stays pending.
    #[verifier::rlimit(60)]
    pub fn add_block(&mut self, data: String, producer: &Identity) -> (r: Result<(), ProduceError>)
        requires
            old(self).wf(),
            old(self).chain_spec().len() + old(self).mempool_spec().len() <= u64::MAX,
        ensures
            final(self).wf(),
            final(self).difficulty_spec() == old(self).difficulty_spec(),
            final(self).reward_spec() == old(self).reward_spec(),
            final(self).miner_address_spec() == old(self).miner_address_spec(),
            r is Ok == (final(self).mempool_spec().len() == 0),
            r is Ok ==> produced(
                old(self).chain_spec(),
                old(self).mempool_spec(),
                final(self).chain_spec(),
                final(self).mempool_spec(),
                batch_count(old(self).mempool_spec().len()),
                data@,
                old(self).reward_spec(),
                old(self).difficulty_spec(),
                producer.public_key_spec(),
            ),
            r is Err ==> exists|k: nat| #[trigger]
                produced(
                    old(self).chain_spec(),
                    old(self).mempool_spec(),
                    final(self).chain_spec(),
                    final(self).mempool_spec(),
                    k,
                    data@,
                    old(self).reward_spec(),
                    old(self).difficulty_spec(),
                    producer.public_key_spec(),
                ),
            r == Err::<(), ProduceError>(ProduceError::NoValidNonce) ==> forall|n: u64|
                !proof_holds(final(self).chain_spec().last().nonce, n, final(self).difficulty_spec()),
    {
        let ghost old_chain = self.chain@;
        let ghost old_mempool = self.mempool@;
        let ghost pk = producer.public_key_spec();
        let ghost mut k: nat = 0;
        proof {
            reveal(produced);
            reveal(chain_wf);
            assert(self.chain@.subrange(0, old_chain.len() as int) =~= old_chain);
            assert(self.mempool@ =~= old_mempool.subrange(0, old_mempool.len() as int));
        }
        while self.mempool.len() > 0
            invariant
                self.wf(),
                old_chain == old(self).chain@,
                old_mempool == old(self).mempool@,
                pk == producer.public_key_spec(),
                self.difficulty == old(self).difficulty,
                self.reward == old(self).reward,
                self.miner_address == old(self).miner_address,
                old_chain.len() + old_mempool.len() <= u64::MAX,
                old_chain.len() >= 1,
                produced(old_chain, old_mempool, self.chain@, self.mempool@, k, data@, self.reward, self.difficulty, pk),
                self.chain@.len() == old_chain.len() + k,
                self.mempool@ == old_mempool.subrange(consumed(old_mempool.len(), k) as int, old_mempool.len() as int),
                self.mempool@.len() > 0 ==> BATCH_CAP * k < old_mempool.len(),
                k > 0 ==> BATCH_CAP * (k - 1) < old_mempool.len(),
                k <= old_mempool.len(),
            decreases self.mempool@.len(),
        {
            let previous_block = self.latest_block();
            let previous_index = previous_block.index;
            let previous_hash = previous_block.hash.clone();
            let previous_nonce = previous_block.nonce;
            assert(produced(
                old(self).chain_spec(),
                old(self).mempool_spec(),
                self.chain_spec(),
                self.mempool_spec(),
                k,
                data@,
                old(self).reward_spec(),
                old(self).difficulty_spec(),
                pk,
            ));
            let timestamp = match now_millis() {
                Some(t) => t,
                None => {
                    return Err(ProduceError::ClockUnavailable);
                },
            };
            let nonce = match self.mine_block(previous_nonce, self.difficulty) {
                Some(n) => n,
                None => {
                    return Err(ProduceError::NoValidNonce);
                },
            };
            let take: usize = if self.mempool.len() < BATCH_CAP {
                self.mempool.len()
            } else {
                BATCH_CAP
            };
            let ghost pending = self.mempool@;
            let mut batch = self.mempool.split_off(take);
            std::mem::swap(&mut self.mempool, &mut batch);
            proof {
                lemma_mempool_wf_suffix(pending, take as int);
            }
            let mut reward_transaction = Transaction::new(
                producer.public_key().clone(),
                producer.public_key().clone(),
                self.reward,
            );
            reward_transaction.sign(producer);
            let ghost taken = batch@;
            batch.push(reward_transaction);
            let ghost chain_before = self.chain@;
            let new_block = Block::new(
                previous_index + 1,
                data.clone(),
                nonce,
                batch,
                timestamp,
                previous_hash,
            );
            proof {
                lemma_chain_wf_push(self.chain@, new_block);
            }
            self.chain.push(new_block);
            proof {
                let n = old_mempool.len();
                assert(pending.subrange(0, take as int) =~= old_mempool.subrange(
                    (BATCH_CAP * k) as int, (BATCH_CAP * k + take) as int));
                assert(taken =~= old_mempool.subrange((BATCH_CAP * k) as int, consumed(n, k + 1) as int));
                assert(new_block.transactions@.drop_last() =~= taken);
                lemma_produced_step(
                    old_chain, old_mempool, chain_before, pending, new_block, k, data@, self.reward,
                    self.difficulty, pk,
                );
                assert(self.mempool@ =~= old_mempool.subrange(consumed(n, k + 1) as int, n as int));
                k = k + 1;
            }
        }
        proof {
            let n = old_mempool.len();
            assert(consumed(n, k) == n);
            assert(k == batch_count(n)) by (nonlinear_arith)
                requires
                    k == 0 ==> n == 0,
                    k > 0 ==> BATCH_CAP * (k - 1) < n,
                    n <= BATCH_CAP * k,
                    BATCH_CAP == 100,
                    batch_count(n) == (n + 99) / 100,
            ;
        }
        Ok(())
    }

    /// The amount paid to the producer of each block.
    pub fn reward(&self) -> (r: u64)
        ensures
            r == self.reward_spec(),
    {
        self.reward
    }

    /// The label that names the block producer in reports.
    pub fn miner_address(&self) -> (r: &Vec<u8>)
        ensures
            r@ == self.miner_address_spec(),
    {
        &self.miner_address
    }

    /// The pending transactions, oldest first: the public `mempool` field as
    /// the contracts see it.
    pub fn get_mempool(&self) -> (r: &Vec<Transaction>)
        ensures
            r@ == self.mempool_spec(),
    {
        &self.mempool
    }

    /// The blocks, genesis first.
    pub fn get_chain(&self) -> (r: &Vec<Block>)
        ensures
            r@ == self.chain_spec(),
    {
        &self.chain
    }
}

/// A fresh Ed25519 signing identity drawn from the system's random source.
pub fn generate_keypair() -> (r: Result<Identity, KeyError>)
    ensures
        r matches Ok(id) ==> id.public_key_spec().len() == 32,
{
    match ed25519_generate_pkcs8() {
        None => Err(KeyError::Generation),
        Some(pkcs8) => match Identity::from_pkcs8(&pkcs8) {
            None => Err(KeyError::Rejected),
            Some(identity) => Ok(identity),
        },
    }
}

/// Every block after genesis names the hash of the block whose index is one
/// below its own.
pub proof fn lemma_chain_linked(bc: Blockchain, i: int)
    requires
        bc.wf(),
        0 < i < bc.chain_spec().len(),
    ensures
        bc.chain_spec()[i].index == i,
        bc.chain_spec()[i].previous_hash@ == bc.chain_spec()[bc.chain_spec()[i].index - 1].hash@,
{
    reveal(chain_wf);
}

/// Every block of the chain reproduces its stored hash from its other fields.
pub proof fn lemma_chain_sealed(bc: Blockchain, i: int)
    requires
        bc.wf(),
        0 <= i < bc.chain_spec().len(),
    ensures
        bc.chain_spec()[i].is_sealed(),
{
    reveal(chain_wf);
}

/// The first block is the genesis block: index 0, previous hash "0", no
/// transactions.
pub proof fn lemma_genesis_first(bc: Blockchain)
    requires
        bc.wf(),
    ensures
        bc.chain_spec().len() >= 1,
        bc.chain_spec()[0].index == 0,
        bc.chain_spec()[0].previous_hash@ == "0"@,
        bc.chain_spec()[0].transactions@.len() == 0,
{
    reveal(chain_wf);
}

/// At difficulty zero every nonce solves the puzzle.
pub proof fn lemma_difficulty_zero_accepts_all(last_nonce: u64, nonce: u64)
    ensures
        proof_holds(last_nonce, nonce, 0),
{
}

} // verus!
