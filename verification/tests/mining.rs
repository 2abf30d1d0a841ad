use pow_block::consensus::pow::generate_block_with_pow;
use pow_block::consensus::pow::meets_difficulty;
use pow_block::consensus::pow::mine_block;
use pow_block::consensus::pow::Block;
use pow_block::consensus::pow::PowError;
use std::time::SystemTime;
use std::time::UNIX_EPOCH;

// Helper function to create a dummy previous block
fn create_genesis_block<'a>() -> Block<'a> {
    Block::new(
        0,
        SystemTime::now()
            .duration_since(UNIX_EPOCH)
            .unwrap()
            .as_secs(),
        "0",
        "Genesis Block",
        0,
        2, // difficulty of 2 (example)
    )
}

fn fixed_genesis_block<'a>() -> Block<'a> {
    Block::new(0, 0, "0", "Genesis Block", 0, 2)
}

#[test]
fn test_proof_of_work() {
    let genesis_block = create_genesis_block();
    let difficulty = 2;
    let new_block = generate_block_with_pow(&genesis_block, "New Block Data", difficulty).unwrap();

    // Hash must start with the correct number of leading zeros based on difficulty
    assert!(new_block.hash().starts_with(&"0".repeat(difficulty as usize)));

    // Ensure the block's data matches expectations
    assert_eq!(new_block.index(), genesis_block.index() + 1);
    assert_eq!(new_block.prev_hash(), genesis_block.hash());
    assert_eq!(new_block.data(), "New Block Data");
}

#[test]
fn generated_block_is_stamped_and_sealed() {
    let before = SystemTime::now().duration_since(UNIX_EPOCH).unwrap().as_secs();
    let genesis = fixed_genesis_block();
    let block = generate_block_with_pow(&genesis, "payload", 1).unwrap();
    let after = SystemTime::now().duration_since(UNIX_EPOCH).unwrap().as_secs();
    assert!(before <= block.timestamp() && block.timestamp() <= after);
    assert_eq!(block.difficulty(), 1);
    assert_eq!(block.hash(), block.calculate_hash());
    assert!(block.hash().starts_with('0'));
    assert!(block.nonce() >= 0);
    // no smaller nonce meets the target
    for nonce in 0..block.nonce() {
        let candidate = Block::new(1, block.timestamp(), genesis.hash(), "payload", nonce, 1);
        assert!(!candidate.hash().starts_with('0'));
    }
}

#[test]
fn genesis_hash_with_nonce_zero() {
    let genesis = fixed_genesis_block();
    assert_eq!(
        genesis.hash(),
        "988c37d9df7b23e7462ca89ec726f16480efc0f7d7d42e17c0a4adc3b334b96b"
    );
}

#[test]
fn mining_at_difficulty_zero_keeps_nonce_zero() {
    let genesis = fixed_genesis_block();
    let block = mine_block(&genesis, "New Block Data", 0, 1_700_000_000, 0).unwrap();
    assert_eq!(block.nonce(), 0);
    let candidate = Block::new(1, 1_700_000_000, genesis.hash(), "New Block Data", 0, 0);
    assert_eq!(block.hash(), candidate.calculate_hash());
    assert_eq!(
        block.hash(),
        "2aa616f70f5fb4fcd2d893535c01859d3f409fa65aa40d0e5188116fa8ce45e8"
    );

    let generated = generate_block_with_pow(&genesis, "New Block Data", 0).unwrap();
    assert_eq!(generated.nonce(), 0);
    assert_eq!(generated.hash(), generated.calculate_hash());
}

#[test]
fn mining_at_difficulty_one_ends_soon() {
    let genesis = fixed_genesis_block();
    let block = mine_block(&genesis, "New Block Data", 1, 1_700_000_000, 0).unwrap();
    assert!(block.hash().starts_with('0'));
    assert!(block.nonce() >= 0);
    assert!(block.nonce() < 1000);
    assert_eq!(block.hash(), block.calculate_hash());
}

#[test]
fn mining_finds_the_first_nonce() {
    let genesis = fixed_genesis_block();
    let one = mine_block(&genesis, "New Block Data", 1, 1_700_000_000, 0).unwrap();
    assert_eq!(one.nonce(), 5);
    assert_eq!(
        one.hash(),
        "0b90d18dcc4989367755c90cc30cb19939a01943c19551f7d8325d80497ed161"
    );
    let two = mine_block(&genesis, "New Block Data", 2, 1_700_000_000, 0).unwrap();
    assert_eq!(two.nonce(), 492);
    assert_eq!(
        two.hash(),
        "0069b2b4b71a134d0d00a19e53b545a5e52b05a9a2ef2796172ed192b8332cfa"
    );
    let three = mine_block(&genesis, "New Block Data", 3, 1_700_000_000, 0).unwrap();
    assert_eq!(three.nonce(), 576);
    assert_eq!(
        three.hash(),
        "000f70dcbb4ec2956eb133c49e87d2ac78eafceabbc787c5e4583c62e7636be7"
    );
}

#[test]
fn mined_block_follows_its_parent() {
    let parent = Block::new(41, 5, "older", "parent payload", 9, 1);
    let block = mine_block(&parent, "child payload", 2, 77, 0).unwrap();
    assert_eq!(block.index(), 42);
    assert_eq!(block.prev_hash(), parent.hash());
    assert_eq!(block.data(), "child payload");
    assert_eq!(block.timestamp(), 77);
    assert_eq!(block.difficulty(), 2);
    assert!(block.hash().starts_with("00"));
    assert!(meets_difficulty(block.hash(), block.difficulty()));
    assert_eq!(block.hash(), block.calculate_hash());
    for nonce in 0..block.nonce() {
        let candidate = Block::new(42, 77, parent.hash(), "child payload", nonce, 2);
        assert!(!meets_difficulty(candidate.hash(), 2));
    }
}

#[test]
fn mining_twice_gives_the_same_block() {
    let genesis = fixed_genesis_block();
    let a = mine_block(&genesis, "same", 2, 123, 0).unwrap();
    let b = mine_block(&genesis, "same", 2, 123, 0).unwrap();
    assert_eq!(a.nonce(), b.nonce());
    assert_eq!(a.hash(), b.hash());
    assert_eq!(a.to_text(), b.to_text());
}

#[test]
fn mining_from_a_negative_index() {
    let parent = Block::new(-1, 0, "0", "", 0, 0);
    let block = mine_block(&parent, "root", 1, 0, 0).unwrap();
    assert_eq!(block.index(), 0);
    assert!(block.hash().starts_with('0'));
}

#[test]
fn difficulty_out_of_range_is_refused() {
    let genesis = fixed_genesis_block();
    assert_eq!(
        mine_block(&genesis, "x", -1, 0, 0).err(),
        Some(PowError::InvalidDifficulty)
    );
    assert_eq!(
        mine_block(&genesis, "x", 65, 0, 0).err(),
        Some(PowError::InvalidDifficulty)
    );
    assert_eq!(
        mine_block(&genesis, "x", i32::MIN, 0, 0).err(),
        Some(PowError::InvalidDifficulty)
    );
    assert_eq!(
        generate_block_with_pow(&genesis, "x", -1).err(),
        Some(PowError::InvalidDifficulty)
    );
    assert_eq!(
        generate_block_with_pow(&genesis, "x", 65).err(),
        Some(PowError::InvalidDifficulty)
    );
    assert_eq!(
        generate_block_with_pow(&genesis, "x", i32::MAX).err(),
        Some(PowError::InvalidDifficulty)
    );
}

#[test]
fn last_index_has_no_successor() {
    let last = Block::new(i32::MAX, 0, "0", "last", 0, 0);
    assert_eq!(
        mine_block(&last, "x", 0, 0, 0).err(),
        Some(PowError::IndexOverflow)
    );
    assert_eq!(
        generate_block_with_pow(&last, "x", 1).err(),
        Some(PowError::IndexOverflow)
    );
    // the difficulty is judged first
    assert_eq!(
        mine_block(&last, "x", 65, 0, 0).err(),
        Some(PowError::InvalidDifficulty)
    );
    let almost = Block::new(i32::MAX - 1, 0, "0", "almost", 0, 0);
    let block = mine_block(&almost, "x", 0, 0, 0).unwrap();
    assert_eq!(block.index(), i32::MAX);
}

#[test]
fn meets_difficulty_counts_leading_zeros() {
    assert!(meets_difficulty("00ab", 0));
    assert!(meets_difficulty("00ab", 1));
    assert!(meets_difficulty("00ab", 2));
    assert!(!meets_difficulty("00ab", 3));
    assert!(!meets_difficulty("00ab", 4));
    assert!(!meets_difficulty("a000", 1));
    assert!(meets_difficulty("a000", 0));
    assert!(meets_difficulty("0000", 4));
}

#[test]
fn meets_difficulty_at_the_edges() {
    assert!(meets_difficulty("", 0));
    assert!(!meets_difficulty("", 1));
    assert!(!meets_difficulty("0000", 5));
    assert!(!meets_difficulty("0000", -1));
    assert!(!meets_difficulty("0000", i32::MIN));
    assert!(!meets_difficulty("0000", i32::MAX));
    // characters are counted, not bytes
    assert!(!meets_difficulty("é", 2));
    assert!(meets_difficulty("0é", 1));
    assert!(!meets_difficulty("é0", 1));
    let zeros = "0".repeat(64);
    assert!(meets_difficulty(&zeros, 64));
    assert!(!meets_difficulty(&zeros, 65));
}

#[test]
fn meets_difficulty_agrees_with_starts_with() {
    let block = Block::new(3, 4, "5", "6", 7, 0);
    for difficulty in 0..70 {
        assert_eq!(
            meets_difficulty(block.hash(), difficulty),
            block.hash().starts_with(&"0".repeat(difficulty as usize))
        );
    }
}

#[test]
fn search_starts_at_the_seed() {
    let genesis = fixed_genesis_block();
    let at_solution = mine_block(&genesis, "New Block Data", 1, 1_700_000_000, 5).unwrap();
    assert_eq!(at_solution.nonce(), 5);
    let past_solution = mine_block(&genesis, "New Block Data", 1, 1_700_000_000, 6).unwrap();
    assert_eq!(past_solution.nonce(), 34);
    assert_eq!(
        past_solution.hash(),
        "04d597a2bf013d084e4d8bc90b4a1964d7477d4449e024852c86db4b5e33166f"
    );
    let below_zero = mine_block(&genesis, "New Block Data", 1, 1_700_000_000, -3).unwrap();
    assert_eq!(below_zero.nonce(), 5);
    let harder = mine_block(&genesis, "New Block Data", 2, 1_700_000_000, 493).unwrap();
    assert_eq!(harder.nonce(), 576);
}

#[test]
fn difficulty_zero_takes_the_seed() {
    let genesis = fixed_genesis_block();
    let block = mine_block(&genesis, "New Block Data", 0, 1_700_000_000, i32::MAX).unwrap();
    assert_eq!(block.nonce(), i32::MAX);
    assert_eq!(
        block.hash(),
        "a7691bae0fc1f3b8576f41f84d5dd68f4478c03b7ae0c995f7069c6ad9750f72"
    );
    let block = mine_block(&genesis, "New Block Data", 0, 1_700_000_000, -9).unwrap();
    assert_eq!(block.nonce(), -9);
}

#[test]
fn search_ends_at_the_largest_nonce() {
    let genesis = fixed_genesis_block();
    assert_eq!(
        mine_block(&genesis, "New Block Data", 1, 1_700_000_000, i32::MAX - 5).err(),
        Some(PowError::NonceExhausted)
    );
    assert_eq!(
        mine_block(&genesis, "New Block Data", 8, 1_700_000_000, i32::MAX).err(),
        Some(PowError::NonceExhausted)
    );
    assert_eq!(
        mine_block(&genesis, "New Block Data", 64, 1_700_000_000, i32::MAX - 5).err(),
        Some(PowError::NonceExhausted)
    );
}

#[test]
fn hash_may_start_with_more_zeros_than_asked() {
    let genesis = fixed_genesis_block();
    let block = mine_block(&genesis, "payload 2", 1, 1_700_000_000, 0).unwrap();
    assert_eq!(block.nonce(), 6);
    assert_eq!(
        block.hash(),
        "00eaa39d2b8131b310152c06192faa85b10a64ced79380a53c0c300353fab8b9"
    );
    assert!(meets_difficulty(block.hash(), 1));
    assert!(meets_difficulty(block.hash(), 2));
}
