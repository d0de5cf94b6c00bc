use blockchain::block::{serialize_block, GENESIS_TIMESTAMP};
use blockchain::codec::{hex_starts_with_zeros, push_decimal, push_le_bytes};
use blockchain::ledger::{BATCH_CAP, BLOCK_REWARD};
use blockchain::{generate_keypair, Block, Blockchain, Identity, Transaction};

fn keypair() -> Identity {
    generate_keypair().expect("key generation")
}

fn public(kp: &Identity) -> Vec<u8> {
    kp.public_key().clone()
}

fn sha256_hex(bytes: &[u8]) -> String {
    hex::encode(ring::digest::digest(&ring::digest::SHA256, bytes).as_ref())
}

fn signed(from: &Identity, to: &Identity, amount: u64) -> Transaction {
    let mut tx = Transaction::new(public(from), public(to), amount);
    tx.sign(from);
    tx
}

#[test]
fn decimal_text_of_integers() {
    let mut out = Vec::new();
    push_decimal(&mut out, 0);
    push_decimal(&mut out, 1690000000000);
    push_decimal(&mut out, u128::MAX);
    let expected = format!("0{}{}", 1690000000000u128, u128::MAX);
    assert_eq!(out, expected.into_bytes());
}

#[test]
fn little_endian_amount_bytes() {
    let mut out = Vec::new();
    push_le_bytes(&mut out, 0x0102_0304_0506_0708, 8);
    assert_eq!(out, 0x0102_0304_0506_0708u64.to_le_bytes().to_vec());
}

#[test]
fn signing_message_is_sender_receiver_amount() {
    let tx = Transaction::new(vec![1, 2], vec![3], 258);
    assert_eq!(tx.get_message_for_signing(), vec![1, 2, 3, 2, 1, 0, 0, 0, 0, 0, 0]);
}

#[test]
fn new_transaction_is_unsigned() {
    let tx = Transaction::new(vec![9], vec![8], 7);
    assert!(tx.signature.is_empty());
    assert_eq!(tx.amount, 7);
}

#[test]
fn signed_transaction_verifies_under_sender() {
    let a = keypair();
    let b = keypair();
    let mut tx = Transaction::new(public(&a), public(&b), 42);
    tx.sign(&a);
    assert_eq!(public(&a).len(), 32);
    assert_eq!(tx.signature.len(), 64);
    assert!(tx.verify_signature(&tx.sender.clone()));
}

#[test]
fn signing_twice_gives_the_same_signature() {
    let a = keypair();
    let mut tx = Transaction::new(public(&a), vec![1, 2, 3], 5);
    tx.sign(&a);
    let first = tx.signature.clone();
    tx.sign(&a);
    assert_eq!(tx.signature, first);
}

#[test]
fn unsigned_transaction_fails_verification() {
    let a = keypair();
    let tx = Transaction::new(public(&a), vec![1], 1);
    assert!(!tx.verify_signature(&public(&a)));
}

#[test]
fn signature_of_other_identity_fails_verification() {
    let a = keypair();
    let b = keypair();
    let mut tx = Transaction::new(public(&a), public(&b), 10);
    tx.sign(&b);
    assert!(!tx.verify_signature(&public(&a)));
}

#[test]
fn altered_amount_fails_verification() {
    let a = keypair();
    let mut tx = Transaction::new(public(&a), vec![4, 5], 10);
    tx.sign(&a);
    tx.amount = 11;
    assert!(!tx.verify_signature(&public(&a)));
}

#[test]
fn genesis_block_fields_and_hash() {
    let g = Block::genesis();
    assert_eq!(g.index, 0);
    assert_eq!(g.data, "Genesis Block");
    assert_eq!(g.nonce, 0);
    assert!(g.transactions.is_empty());
    assert_eq!(g.timestamp, GENESIS_TIMESTAMP);
    assert_eq!(g.previous_hash, "0");
    let json = "{\"index\":0,\"data\":\"Genesis Block\",\"nonce\":0,\"transactions\":[],\"timestamp\":1690000000000,\"previous_hash\":\"0\",\"hash\":\"\"}";
    assert_eq!(g.hash, sha256_hex(json.as_bytes()));
    assert_eq!(g.hash.len(), 64);
}

#[test]
fn block_serialization_is_canonical_json() {
    let tx = Transaction {
        sender: vec![1, 255],
        receiver: vec![],
        amount: 9,
        signature: vec![0, 10],
    };
    let b = Block::new(3, "say \"hi\"\n".to_string(), 77, vec![tx.clone(), tx], 12, "ab".to_string());
    let expected = "{\"index\":3,\"data\":\"say \\\"hi\\\"\\n\",\"nonce\":77,\"transactions\":[{\"sender\":[1,255],\"receiver\":[],\"amount\":9,\"signature\":[0,10]},{\"sender\":[1,255],\"receiver\":[],\"amount\":9,\"signature\":[0,10]}],\"timestamp\":12,\"previous_hash\":\"ab\",\"hash\":\"\"}";
    assert_eq!(String::from_utf8(serialize_block(&b)).unwrap(), expected);
    assert_eq!(b.hash, sha256_hex(expected.as_bytes()));
}

#[test]
fn recomputed_hash_matches_stored_hash() {
    let a = keypair();
    let b = Block::new(1, "x".to_string(), 5, vec![signed(&a, &a, 3)], 99, "prev".to_string());
    assert_eq!(Block::calculate_hash(&b), b.hash);
    let mut changed = Block::new(1, "x".to_string(), 6, vec![], 99, "prev".to_string());
    assert_ne!(changed.hash, b.hash);
    changed.hash = String::new();
    assert_eq!(Block::calculate_hash(&changed), Block::new(1, "x".to_string(), 6, vec![], 99, "prev".to_string()).hash);
}

#[test]
fn valid_proof_matches_digest_prefix() {
    let digest = sha256_hex(b"1234");
    let zeros = digest.chars().take_while(|c| *c == '0').count();
    for d in 0..4usize {
        assert_eq!(Blockchain::valid_proof(12, 34, d), d <= zeros);
    }
    assert!(!Blockchain::valid_proof(12, 34, 65));
}

#[test]
fn difficulty_zero_accepts_every_nonce() {
    for n in [0u64, 1, 17, u64::MAX] {
        assert!(Blockchain::valid_proof(5, n, 0));
    }
    let chain = Blockchain::new();
    assert!(chain.mine_block(5, 0).is_some());
}

#[test]
fn mined_nonce_satisfies_proof() {
    let chain = Blockchain::new();
    let nonce = chain.mine_block(100, 2).expect("nonce");
    assert!(Blockchain::valid_proof(100, nonce, 2));
    let digest = sha256_hex(format!("100{}", nonce).as_bytes());
    assert!(digest.starts_with("00"));
}

#[test]
fn new_chain_holds_only_genesis() {
    let chain = Blockchain::new();
    assert_eq!(chain.get_chain().len(), 1);
    assert_eq!(chain.get_chain()[0].hash, Block::genesis().hash);
    assert!(chain.mempool.is_empty());
}

#[test]
fn valid_transaction_is_admitted() {
    let a = keypair();
    let b = keypair();
    let mut chain = Blockchain::new();
    chain.add_transaction(signed(&a, &b, 1));
    assert_eq!(chain.mempool.len(), 1);
    assert_eq!(chain.get_mempool()[0].amount, 1);
}

#[test]
fn forged_sender_is_dropped() {
    let a = keypair();
    let b = keypair();
    let mut chain = Blockchain::new();
    chain.add_transaction(signed(&a, &b, 1));
    let mut forged = Transaction::new(public(&b), public(&a), 50);
    forged.sign(&a);
    chain.add_transaction(forged);
    assert_eq!(chain.mempool.len(), 1);
    chain.add_transaction(Transaction::new(public(&a), public(&b), 2));
    assert_eq!(chain.mempool.len(), 1);
}

#[test]
fn empty_mempool_produces_no_block() {
    let miner = keypair();
    let mut chain = Blockchain::with_difficulty(1);
    assert_eq!(chain.add_block("idle".to_string(), &miner), Ok(()));
    assert_eq!(chain.get_chain().len(), 1);
}

#[test]
fn batches_of_one_hundred_with_reward() {
    let miner = keypair();
    let u1 = keypair();
    let u2 = keypair();
    let mut chain = Blockchain::with_difficulty(2);
    for i in 0..150u64 {
        let (from, to) = if i % 2 == 0 { (&u1, &u2) } else { (&u2, &u1) };
        chain.add_transaction(signed(from, to, i + 1));
    }
    assert_eq!(chain.mempool.len(), 150);
    assert_eq!(chain.add_block("Block 1".to_string(), &miner), Ok(()));
    assert!(chain.mempool.is_empty());
    let blocks = chain.get_chain();
    assert_eq!(blocks.len(), 3);
    assert_eq!(blocks[1].transactions.len(), BATCH_CAP + 1);
    assert_eq!(blocks[2].transactions.len(), 51);
    assert_eq!(blocks[1].transactions[0].amount, 1);
    assert_eq!(blocks[1].transactions[99].amount, 100);
    assert_eq!(blocks[2].transactions[0].amount, 101);
    assert_eq!(blocks[2].transactions[49].amount, 150);
    for (i, b) in blocks.iter().enumerate() {
        assert_eq!(b.index, i as u64);
        assert_eq!(Block::calculate_hash(b), b.hash);
        if i > 0 {
            assert_eq!(b.previous_hash, blocks[i - 1].hash);
            assert_eq!(b.data, "Block 1");
            assert!(Blockchain::valid_proof(blocks[i - 1].nonce, b.nonce, 2));
            let reward = b.transactions.last().unwrap();
            assert_eq!(reward.amount, BLOCK_REWARD);
            assert_eq!(reward.sender, public(&miner));
            assert_eq!(reward.receiver, public(&miner));
            assert!(reward.verify_signature(&public(&miner)));
        }
    }
}

#[test]
fn difficulty_zero_chain_links_blocks() {
    let miner = keypair();
    let u = keypair();
    let mut chain = Blockchain::with_difficulty(0);
    chain.add_transaction(signed(&u, &miner, 3));
    assert_eq!(chain.add_block("a".to_string(), &miner), Ok(()));
    chain.add_transaction(signed(&u, &miner, 4));
    assert_eq!(chain.add_block("b".to_string(), &miner), Ok(()));
    let blocks = chain.get_chain();
    assert_eq!(blocks.len(), 3);
    assert_eq!(blocks[2].previous_hash, blocks[1].hash);
    assert_eq!(blocks[1].previous_hash, blocks[0].hash);
    assert_eq!(blocks[2].transactions.len(), 2);
}

#[test]
fn new_chain_starts_with_genesis_fields() {
    let chain = Blockchain::new();
    let g = &chain.get_chain()[0];
    assert_eq!(g.data, "Genesis Block");
    assert_eq!(g.timestamp, GENESIS_TIMESTAMP);
    assert_eq!(g.nonce, 0);
    assert_eq!(chain.reward(), BLOCK_REWARD);
    assert_eq!(chain.miner_address(), &vec![1u8, 2, 3, 4, 5]);
}

#[test]
fn leading_zero_nibbles_of_a_digest() {
    let digest = vec![0x00u8, 0x0f, 0xa0];
    assert!(hex_starts_with_zeros(&digest, 0));
    assert!(hex_starts_with_zeros(&digest, 3));
    assert!(!hex_starts_with_zeros(&digest, 4));
    assert!(!hex_starts_with_zeros(&vec![0u8; 2], 5));
    assert!(hex_starts_with_zeros(&vec![0u8; 2], 4));
}
