//! Proof of work on a single block: a block record that carries its own
//! digest, and the search for the first nonce whose digest starts with the
//! required number of zeros.

use crate::clock::unix_timestamp;
use crate::decimal::append_i32;
use crate::decimal::append_u64;
use crate::decimal::int_decimal;
use crate::decimal::nat_decimal;
use crate::digest::is_hex_digest;
use crate::digest::sha256_digest;
use crate::digest::sha256_hex;
use crate::digest::DIGEST_HEX_LEN;
use vstd::prelude::*;
use vstd::string::*;

verus! {

/// The text that is hashed for a block: index, timestamp, parent hash,
/// payload and nonce, in that order, the integers in decimal, with nothing
/// between the fields.
pub open spec fn record_text(
    index: int,
    timestamp: nat,
    prev_hash: Seq<char>,
    data: Seq<char>,
    nonce: int,
) -> Seq<char> {
    int_decimal(index) + nat_decimal(timestamp) + prev_hash + data + int_decimal(nonce)
}

/// The digest of a block with the given fields: the SHA-256 digest of its
/// record text, in lowercase hexadecimal.
pub open spec fn block_digest(
    index: int,
    timestamp: nat,
    prev_hash: Seq<char>,
    data: Seq<char>,
    nonce: int,
) -> Seq<char> {
    sha256_hex(record_text(index, timestamp, prev_hash, data, nonce))
}

/// A hash meets a difficulty when it starts with that many `'0'` characters.
/// No hash meets a negative difficulty, or one above its own length.
pub open spec fn meets_target(hash: Seq<char>, difficulty: int) -> bool {
    &&& 0 <= difficulty <= hash.len()
    &&& forall|i: int| 0 <= i < difficulty ==> hash[i] == '0'
}

/// The mathematical value of a [`Block`].
pub struct BlockView {
    pub index: int,
    pub timestamp: nat,
    pub prev_hash: Seq<char>,
    pub data: Seq<char>,
    pub nonce: int,
    pub difficulty: int,
    pub hash: Seq<char>,
}

impl BlockView {
    /// The digest that belongs to the fields of this block. The difficulty
    /// and the stored hash take no part in it.
    pub open spec fn digest(self) -> Seq<char> {
        block_digest(self.index, self.timestamp, self.prev_hash, self.data, self.nonce)
    }

    /// The block with the given fields whose stored hash is their digest.
    pub open spec fn sealed(
        index: int,
        timestamp: nat,
        prev_hash: Seq<char>,
        data: Seq<char>,
        nonce: int,
        difficulty: int,
    ) -> BlockView {
        BlockView {
            index,
            timestamp,
            prev_hash,
            data,
            nonce,
            difficulty,
            hash: block_digest(index, timestamp, prev_hash, data, nonce),
        }
    }
}

/// The one-line text of a block: every field by name, in the order in
/// which the block holds them.
pub open spec fn display_text(block: BlockView) -> Seq<char> {
    "Block { index: "@ + int_decimal(block.index) + ", timestamp: "@ + nat_decimal(
        block.timestamp,
    ) + ", prev_hash: "@ + block.prev_hash + ", data: "@ + block.data + ", nonce: "@ + int_decimal(
        block.nonce,
    ) + ", difficulty: "@ + int_decimal(block.difficulty) + ", hash: "@ + block.hash + " }"@
}

/// One block of a chain. Its fields are fixed at construction, and the
/// stored hash is always the digest of the other fields.
#[derive(Debug)]
pub struct Block<'a> {
    index: i32,
    timestamp: u64,
    prev_hash: &'a str,
    data: &'a str,
    nonce: i32,
    difficulty: i32,
    hash: String,
}

impl<'a> View for Block<'a> {
    type V = BlockView;

    closed spec fn view(&self) -> BlockView {
        BlockView {
            index: self.index as int,
            timestamp: self.timestamp as nat,
            prev_hash: self.prev_hash@,
            data: self.data@,
            nonce: self.nonce as int,
            difficulty: self.difficulty as int,
            hash: self.hash@,
        }
    }
}

/// Builds the text that is hashed for a block with the given fields.
pub fn hash_record(index: i32, timestamp: u64, prev_hash: &str, data: &str, nonce: i32) -> (record:
    String)
    ensures
        record@ == record_text(index as int, timestamp as nat, prev_hash@, data@, nonce as int),
{
    let mut record = String::new();
    append_i32(&mut record, index);
    append_u64(&mut record, timestamp);
    record.append(prev_hash);
    record.append(data);
    append_i32(&mut record, nonce);
    assert(record@ =~= record_text(
        index as int,
        timestamp as nat,
        prev_hash@,
        data@,
        nonce as int,
    ));
    record
}

/// Computes the digest of a block with the given fields.
fn compute_digest(index: i32, timestamp: u64, prev_hash: &str, data: &str, nonce: i32) -> (digest:
    String)
    ensures
        digest@ == block_digest(index as int, timestamp as nat, prev_hash@, data@, nonce as int),
        is_hex_digest(digest@),
{
    let record = hash_record(index, timestamp, prev_hash, data, nonce);
    sha256_digest(record.as_str())
}

impl<'a> Block<'a> {
    #[verifier::type_invariant]
    spec fn hash_is_current(&self) -> bool {
        &&& self.hash@ == block_digest(
            self.index as int,
            self.timestamp as nat,
            self.prev_hash@,
            self.data@,
            self.nonce as int,
        )
        &&& is_hex_digest(self.hash@)
    }

    /// Builds a block from its fields and stores their digest as its hash.
    /// Every value is accepted as it is.
    pub fn new(
        index: i32,
        timestamp: u64,
        prev_hash: &'a str,
        data: &'a str,
        nonce: i32,
        difficulty: i32,
    ) -> (block: Self)
        ensures
            block@ == BlockView::sealed(
                index as int,
                timestamp as nat,
                prev_hash@,
                data@,
                nonce as int,
                difficulty as int,
            ),
            block@.hash == block@.digest(),
            is_hex_digest(block@.hash),
    {
        let hash = compute_digest(index, timestamp, prev_hash, data, nonce);
        Block { index, timestamp, prev_hash, data, nonce, difficulty, hash }
    }

    /// Computes the digest of this block's fields. It is a function of the
    /// index, timestamp, parent hash, payload and nonce alone, and equals the
    /// stored hash.
    pub fn calculate_hash(&self) -> (digest: String)
        ensures
            digest@ == self@.digest(),
            digest@ == self@.hash,
            is_hex_digest(digest@),
    {
        proof {
            use_type_invariant(self);
        }
        compute_digest(self.index, self.timestamp, self.prev_hash, self.data, self.nonce)
    }

    /// The position of this block in its chain.
    pub fn index(&self) -> (index: i32)
        ensures
            index == self@.index,
    {
        self.index
    }

    /// The time at which this block was made, in seconds since the epoch.
    pub fn timestamp(&self) -> (timestamp: u64)
        ensures
            timestamp == self@.timestamp,
    {
        self.timestamp
    }

    /// The hash of the parent block.
    pub fn prev_hash(&self) -> (prev_hash: &'a str)
        ensures
            prev_hash@ == self@.prev_hash,
    {
        self.prev_hash
    }

    /// The payload.
    pub fn data(&self) -> (data: &'a str)
        ensures
            data@ == self@.data,
    {
        self.data
    }

    /// The nonce.
    pub fn nonce(&self) -> (nonce: i32)
        ensures
            nonce == self@.nonce,
    {
        self.nonce
    }

    /// The number of leading zeros that was asked of this block's hash.
    pub fn difficulty(&self) -> (difficulty: i32)
        ensures
            difficulty == self@.difficulty,
    {
        self.difficulty
    }

    /// The stored hash, which is the digest of the other fields.
    pub fn hash(&self) -> (hash: &str)
        ensures
            hash@ == self@.hash,
            hash@ == self@.digest(),
            is_hex_digest(hash@),
    {
        proof {
            use_type_invariant(self);
        }
        self.hash.as_str()
    }

    /// Renders the block on one line, every field by name.
    pub fn to_text(&self) -> (text: String)
        ensures
            text@ == display_text(self@),
    {
        let mut text = String::new();
        text.append("Block { index: ");
        append_i32(&mut text, self.index);
        text.append(", timestamp: ");
        append_u64(&mut text, self.timestamp);
        text.append(", prev_hash: ");
        text.append(self.prev_hash);
        text.append(", data: ");
        text.append(self.data);
        text.append(", nonce: ");
        append_i32(&mut text, self.nonce);
        text.append(", difficulty: ");
        append_i32(&mut text, self.difficulty);
        text.append(", hash: ");
        text.append(self.hash.as_str());
        text.append(" }");
        assert(text@ =~= display_text(self@));
        text
    }
}

/// Blocks that agree on index, timestamp, parent hash, payload and nonce
/// have the same digest, whatever their difficulty and stored hash: the
/// digest is a function of those five fields alone.
pub proof fn lemma_digest_deterministic(a: BlockView, b: BlockView)
    requires
        a.index == b.index,
        a.timestamp == b.timestamp,
        a.prev_hash == b.prev_hash,
        a.data == b.data,
        a.nonce == b.nonce,
    ensures
        a.digest() == b.digest(),
{
}

/// Why no block could be mined.
#[derive(Clone, Copy, Debug, PartialEq, Eq, Structural)]
pub enum PowError {
    /// The difficulty is negative or above the length of a digest, so no
    /// hash can meet it.
    InvalidDifficulty,
    /// The parent has the largest index there is, so no block can follow it.
    IndexOverflow,
    /// The system clock stands before the Unix epoch.
    ClockUnavailable,
    /// No nonce from the first one tried to the largest there is meets the
    /// difficulty.
    NonceExhausted,
}

/// The difficulties that a digest can meet: 0 up to its length.
pub open spec fn valid_difficulty(difficulty: int) -> bool {
    0 <= difficulty <= DIGEST_HEX_LEN
}

/// The block that follows `parent` with the given timestamp, payload and
/// nonce meets the difficulty.
pub open spec fn solves(
    parent: BlockView,
    timestamp: nat,
    data: Seq<char>,
    difficulty: int,
    nonce: int,
) -> bool {
    meets_target(block_digest(parent.index + 1, timestamp, parent.hash, data, nonce), difficulty)
}

/// `nonce` is the smallest nonce from `seed` upwards that solves the block.
pub open spec fn first_solution(
    parent: BlockView,
    timestamp: nat,
    data: Seq<char>,
    difficulty: int,
    seed: int,
    nonce: int,
) -> bool {
    &&& seed <= nonce <= i32::MAX
    &&& solves(parent, timestamp, data, difficulty, nonce)
    &&& forall|n: int| seed <= n < nonce ==> !solves(parent, timestamp, data, difficulty, n)
}

/// No nonce from `seed` to the largest that a block can hold solves the
/// block.
pub open spec fn no_solution(
    parent: BlockView,
    timestamp: nat,
    data: Seq<char>,
    difficulty: int,
    seed: int,
) -> bool {
    forall|n: int| seed <= n <= i32::MAX ==> !solves(parent, timestamp, data, difficulty, n)
}

/// `block` is what mining on `parent` yields for the given payload,
/// difficulty and timestamp when the search starts at `seed`: the successor
/// of `parent`, sealed, with the first nonce from `seed` upwards that solves
/// it.
pub open spec fn mined_from(
    parent: BlockView,
    data: Seq<char>,
    difficulty: int,
    timestamp: nat,
    seed: int,
    block: BlockView,
) -> bool {
    &&& block == BlockView::sealed(
        parent.index + 1,
        timestamp,
        parent.hash,
        data,
        block.nonce,
        difficulty,
    )
    &&& first_solution(parent, timestamp, data, difficulty, seed, block.nonce)
}

/// A mined block follows its parent, repeats the parent's hash, carries the
/// payload, timestamp and difficulty it was mined for, stores the digest of
/// its own fields, and that digest starts with `difficulty` zeros. At
/// difficulty 0 its nonce is the first one tried.
pub proof fn lemma_mined_block(
    parent: BlockView,
    data: Seq<char>,
    difficulty: int,
    timestamp: nat,
    seed: int,
    block: BlockView,
)
    requires
        mined_from(parent, data, difficulty, timestamp, seed, block),
    ensures
        block.index == parent.index + 1,
        block.prev_hash == parent.hash,
        block.data == data,
        block.timestamp == timestamp,
        block.difficulty == difficulty,
        block.hash == block.digest(),
        meets_target(block.hash, difficulty),
        seed <= block.nonce <= i32::MAX,
        difficulty == 0 ==> block.nonce == seed,
{
    if difficulty == 0 && block.nonce > seed {
        assert(solves(parent, timestamp, data, difficulty, seed));
    }
}

/// Mining has one outcome: two blocks mined from the same parent, payload,
/// difficulty, timestamp and seed are equal, and where a block can be mined
/// the nonces are not exhausted.
pub proof fn lemma_mining_deterministic(
    parent: BlockView,
    data: Seq<char>,
    difficulty: int,
    timestamp: nat,
    seed: int,
    a: BlockView,
    b: BlockView,
)
    requires
        mined_from(parent, data, difficulty, timestamp, seed, a),
        mined_from(parent, data, difficulty, timestamp, seed, b),
    ensures
        a == b,
        !no_solution(parent, timestamp, data, difficulty, seed),
{
    if a.nonce < b.nonce {
        assert(!solves(parent, timestamp, data, difficulty, a.nonce));
    }
    if b.nonce < a.nonce {
        assert(!solves(parent, timestamp, data, difficulty, b.nonce));
    }
    assert(solves(parent, timestamp, data, difficulty, a.nonce));
}

/// A digest meets valid difficulties only: the difficulties that mining
/// refuses are those that no digest can meet.
pub proof fn lemma_digest_meets_valid_difficulty_only(hash: Seq<char>, difficulty: int)
    requires
        is_hex_digest(hash),
        meets_target(hash, difficulty),
    ensures
        valid_difficulty(difficulty),
{
}

/// Tells whether `hash` starts with `difficulty` characters `'0'`.
pub fn meets_difficulty(hash: &str, difficulty: i32) -> (met: bool)
    ensures
        met == meets_target(hash@, difficulty as int),
{
    if difficulty < 0 {
        return false;
    }
    let wanted: usize = difficulty as usize;
    let len: usize = hash.unicode_len();
    if wanted > len {
        return false;
    }
    let mut i: usize = 0;
    while i < wanted
        invariant
            i <= wanted <= len,
            len == hash@.len(),
            wanted == difficulty,
            forall|k: int| 0 <= k < i ==> hash@[k] == '0',
        decreases wanted - i,
    {
        if hash.get_char(i) != '0' {
            return false;
        }
        i = i + 1;
    }
    true
}

/// Mines the block that follows `prev_block` with the given payload,
/// difficulty and timestamp: tries the nonces `seed`, `seed + 1`, ... in
/// this order and returns the block of the first one whose digest meets the
/// difficulty.
///
/// Fails with `InvalidDifficulty` exactly when the difficulty is not in
/// 0..=64, else with `IndexOverflow` exactly when the parent's index is the
/// largest there is, else with `NonceExhausted` exactly when no nonce from
/// `seed` upwards solves the block. It never fails with `ClockUnavailable`.
pub fn mine_block<'a>(
    prev_block: &'a Block<'_>,
    data: &'a str,
    difficulty: i32,
    timestamp: u64,
    seed: i32,
) -> (mined: Result<Block<'a>, PowError>)
    ensures
        match mined {
            Ok(block) => {
                &&& valid_difficulty(difficulty as int)
                &&& prev_block@.index < i32::MAX
                &&& mined_from(
                    prev_block@,
                    data@,
                    difficulty as int,
                    timestamp as nat,
                    seed as int,
                    block@,
                )
            },
            Err(PowError::InvalidDifficulty) => !valid_difficulty(difficulty as int),
            Err(PowError::IndexOverflow) => {
                &&& valid_difficulty(difficulty as int)
                &&& prev_block@.index == i32::MAX
            },
            Err(PowError::NonceExhausted) => {
                &&& valid_difficulty(difficulty as int)
                &&& prev_block@.index < i32::MAX
                &&& no_solution(
                    prev_block@,
                    timestamp as nat,
                    data@,
                    difficulty as int,
                    seed as int,
                )
            },
            Err(PowError::ClockUnavailable) => false,
        },
        difficulty == 0 && prev_block@.index < i32::MAX ==> mined is Ok && mined->Ok_0@.nonce
            == seed,
{
    if difficulty < 0 || difficulty > DIGEST_HEX_LEN {
        return Err(PowError::InvalidDifficulty);
    }
    if prev_block.index == i32::MAX {
        return Err(PowError::IndexOverflow);
    }
    let index: i32 = prev_block.index + 1;
    let prev_hash: &'a str = prev_block.hash.as_str();
    let mut nonce: i32 = seed;
    let mut hash = compute_digest(index, timestamp, prev_hash, data, nonce);
    while !meets_difficulty(hash.as_str(), difficulty)
        invariant
            seed <= nonce <= i32::MAX,
            valid_difficulty(difficulty as int),
            index == prev_block@.index + 1,
            prev_hash@ == prev_block@.hash,
            hash@ == block_digest(
                index as int,
                timestamp as nat,
                prev_hash@,
                data@,
                nonce as int,
            ),
            is_hex_digest(hash@),
            difficulty == 0 ==> nonce == seed,
            forall|n: int|
                seed <= n < nonce ==> !solves(
                    prev_block@,
                    timestamp as nat,
                    data@,
                    difficulty as int,
                    n,
                ),
        decreases i32::MAX - nonce,
    {
        assert(!solves(prev_block@, timestamp as nat, data@, difficulty as int, nonce as int));
        if nonce == i32::MAX {
            return Err(PowError::NonceExhausted);
        }
        nonce = nonce + 1;
        hash = compute_digest(index, timestamp, prev_hash, data, nonce);
    }
    Ok(Block { index, timestamp, prev_hash, data, nonce, difficulty, hash })
}

/// Mines the block that follows `prev_block` with the given payload and
/// difficulty. The timestamp is read from the system clock once, before the
/// search; the search is that of [`mine_block`], from nonce 0.
///
/// The arguments are judged before the clock is read: the call fails with
/// `InvalidDifficulty` exactly when the difficulty is not in 0..=64, else
/// with `IndexOverflow` exactly when the parent's index is the largest
/// there is. Otherwise the outcome depends on the clock: the call fails with
/// `ClockUnavailable` when the clock cannot be read, and else does what
/// [`mine_block`] does with the timestamp that was read.
pub fn generate_block_with_pow<'a>(
    prev_block: &'a Block<'_>,
    data: &'a str,
    difficulty: i32,
) -> (mined: Result<Block<'a>, PowError>)
    ensures
        match mined {
            Ok(block) => {
                &&& valid_difficulty(difficulty as int)
                &&& prev_block@.index < i32::MAX
                &&& mined_from(prev_block@, data@, difficulty as int, block@.timestamp, 0, block@)
                &&& block@.index == prev_block@.index + 1
                &&& block@.prev_hash == prev_block@.hash
                &&& block@.data == data@
                &&& block@.difficulty == difficulty
                &&& block@.hash == block@.digest()
                &&& meets_target(block@.hash, difficulty as int)
                &&& difficulty == 0 ==> block@.nonce == 0
            },
            Err(PowError::InvalidDifficulty) => !valid_difficulty(difficulty as int),
            Err(PowError::IndexOverflow) => {
                &&& valid_difficulty(difficulty as int)
                &&& prev_block@.index == i32::MAX
            },
            Err(PowError::ClockUnavailable) => {
                &&& valid_difficulty(difficulty as int)
                &&& prev_block@.index < i32::MAX
            },
            Err(PowError::NonceExhausted) => {
                &&& valid_difficulty(difficulty as int)
                &&& prev_block@.index < i32::MAX
                &&& difficulty > 0
                &&& exists|timestamp: nat|
                    timestamp <= u64::MAX && #[trigger] no_solution(
                        prev_block@,
                        timestamp,
                        data@,
                        difficulty as int,
                        0,
                    )
            },
        },
{
    if difficulty < 0 || difficulty > DIGEST_HEX_LEN {
        return Err(PowError::InvalidDifficulty);
    }
    if prev_block.index == i32::MAX {
        return Err(PowError::IndexOverflow);
    }
    match unix_timestamp() {
        None => Err(PowError::ClockUnavailable),
        Some(timestamp) => mine_block(prev_block, data, difficulty, timestamp, 0),
    }
}

} // verus!
