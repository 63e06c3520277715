use vstd::prelude::*;
use vstd::arithmetic::div_mod::{lemma_breakdown, lemma_div_denominator};

verus! {

/// A 160-bit address, big-endian.
pub type Address = [u8; 20];

/// Why a payload could not be decoded.
#[derive(Debug, Clone, Copy, PartialEq, Eq, Structural)]
pub enum DecodeError {
    /// A word that the action reads lies past the end of the payload.
    OutOfBounds,
    /// A word holds non-zero bytes above the width of the value read from it.
    InvalidEncoding,
    /// The selector names no action of the surface.
    UnknownSelector,
    /// An address corresponds to no ledger-side identifier.
    UnmappedIdentifier,
    /// A declared array length exceeds the configured maximum.
    ArrayTooLong,
    /// A swap path names fewer than two assets.
    InvalidPath,
}

/// Number of bytes in one word of the calling convention.
pub const WORD_BYTES: usize = 32;

/// Number of bytes of the selector that starts every payload.
pub const SELECTOR_BYTES: usize = 4;

/// `256^n`.
pub open spec fn pow256(n: nat) -> nat
    decreases n,
{
    if n == 0 { 1 } else { 256 * pow256((n - 1) as nat) }
}

/// The unsigned big-endian value of a byte sequence.
pub open spec fn be_value(s: Seq<u8>) -> nat
    decreases s.len(),
{
    if s.len() == 0 { 0 } else { (be_value(s.drop_last()) * 256 + s.last()) as nat }
}

/// The `n` low-order bytes of `v`, big-endian.
pub open spec fn be_bytes(v: nat, n: nat) -> Seq<u8> {
    Seq::new(n, |k: int| ((v / pow256((n - 1 - k) as nat)) % 256) as u8)
}

/// The payload is long enough to hold argument words `1..=count`.
pub open spec fn words_present(s: Seq<u8>, count: nat) -> bool {
    s.len() >= 4 + 32 * count
}

/// The 32 bytes of argument word `i` (argument 1 follows the selector).
pub open spec fn word(s: Seq<u8>, i: nat) -> Seq<u8> {
    s.subrange(4 + 32 * (i - 1), (4 + 32 * i) as int)
}

/// The selector at the head of the payload, or `OutOfBounds` when it is short.
pub open spec fn spec_selector(s: Seq<u8>) -> Result<u32, DecodeError> {
    if s.len() < 4 {
        Err(DecodeError::OutOfBounds)
    } else {
        Ok(be_value(s.subrange(0, 4)) as u32)
    }
}

/// Argument word `i` read as an unsigned integer of `n` bytes: the word must be
/// present and its `32 - n` high bytes zero.
pub open spec fn spec_uint_at(s: Seq<u8>, i: nat, n: nat) -> Result<nat, DecodeError> {
    if i < 1 || !words_present(s, i) {
        Err(DecodeError::OutOfBounds)
    } else if exists|k: int| 0 <= k < 32 - n && #[trigger] word(s, i)[k] != 0 {
        Err(DecodeError::InvalidEncoding)
    } else {
        Ok(be_value(word(s, i).subrange(32 - n, 32)))
    }
}

pub open spec fn spec_u32_at(s: Seq<u8>, i: nat) -> Result<u32, DecodeError> {
    match spec_uint_at(s, i, 4) {
        Ok(v) => Ok(v as u32),
        Err(e) => Err(e),
    }
}

pub open spec fn spec_u64_at(s: Seq<u8>, i: nat) -> Result<u64, DecodeError> {
    match spec_uint_at(s, i, 8) {
        Ok(v) => Ok(v as u64),
        Err(e) => Err(e),
    }
}

pub open spec fn spec_balance_at(s: Seq<u8>, i: nat) -> Result<u128, DecodeError> {
    match spec_uint_at(s, i, 16) {
        Ok(v) => Ok(v as u128),
        Err(e) => Err(e),
    }
}

/// The low-order 20 bytes of argument word `i`; the high bytes are not looked at.
pub open spec fn address_word(s: Seq<u8>, i: nat) -> Seq<u8> {
    word(s, i).subrange(12, 32)
}

pub open spec fn spec_address_at(s: Seq<u8>, i: nat) -> Result<Seq<u8>, DecodeError> {
    if i < 1 || !words_present(s, i) {
        Err(DecodeError::OutOfBounds)
    } else {
        Ok(address_word(s, i))
    }
}

/// The word that encodes `v`: sixteen zero bytes, then `v` big-endian.
pub open spec fn u128_word(v: u128) -> Seq<u8> {
    Seq::new(16, |k: int| 0u8) + be_bytes(v as nat, 16)
}

/// The word that encodes an address: twelve zero bytes, then the address.
pub open spec fn address_word_of(a: Seq<u8>) -> Seq<u8> {
    Seq::new(12, |k: int| 0u8) + a
}

pub proof fn lemma_pow256_pos(n: nat)
    ensures
        pow256(n) > 0,
    decreases n,
{
    if n > 0 {
        lemma_pow256_pos((n - 1) as nat);
    }
}

pub proof fn lemma_pow256_mono(a: nat, b: nat)
    requires
        a <= b,
    ensures
        pow256(a) <= pow256(b),
    decreases b,
{
    if a < b {
        lemma_pow256_mono(a, (b - 1) as nat);
        lemma_pow256_pos((b - 1) as nat);
    }
}

pub proof fn lemma_pow256_16()
    ensures
        pow256(16) == 0x1_0000_0000_0000_0000_0000_0000_0000_0000,
{
    reveal_with_fuel(pow256, 17);
}

/// A big-endian value of `n` bytes is below `256^n`.
pub proof fn lemma_be_value_bound(s: Seq<u8>)
    ensures
        be_value(s) < pow256(s.len()),
    decreases s.len(),
{
    if s.len() > 0 {
        let d = s.drop_last();
        lemma_be_value_bound(d);
        let p = pow256(d.len());
        let v = be_value(d);
        let l = s.last() as int;
        assert(v * 256 + l < 256 * p) by (nonlinear_arith)
            requires
                v < p,
                0 <= l < 256,
        ;
    }
}

/// Reading back the `n` big-endian bytes of `v` gives `v` modulo `256^n`.
pub proof fn lemma_be_round_trip(v: nat, n: nat)
    ensures
        be_value(be_bytes(v, n)) == v % pow256(n),
    decreases n,
{
    let s = be_bytes(v, n);
    if n == 0 {
    } else {
        let m = (n - 1) as nat;
        lemma_pow256_pos(m);
        assert forall|k: int| 0 <= k < m implies s.drop_last()[k] == be_bytes(v / 256, m)[k] by {
            let p = pow256((m - 1 - k) as nat);
            lemma_pow256_pos((m - 1 - k) as nat);
            lemma_div_denominator(v as int, 256, p as int);
            assert(pow256((n - 1 - k) as nat) == 256 * p);
        }
        assert(s.drop_last() =~= be_bytes(v / 256, m));
        lemma_be_round_trip(v / 256, m);
        lemma_breakdown(v as int, 256, pow256(m) as int);
        assert(pow256(0) == 1);
        assert(s[m as int] == ((v / pow256(0)) % 256) as u8);
        assert(v / 1 == v);
        assert(s.last() == v % 256);
        assert(pow256(n) == 256 * pow256(m));
        assert(be_value(s) == be_value(s.drop_last()) * 256 + s.last());
    }
}

/// Whole words that fit in `len` bytes number at least `c` exactly when `32 * c <= len`.
pub proof fn lemma_word_count(len: int, c: int)
    requires
        len >= 0,
        c >= 0,
    ensures
        (len / 32 >= c) <==> (len >= 32 * c),
{
    assert((len / 32 >= c) <==> (len >= 32 * c)) by (nonlinear_arith)
        requires
            len >= 0,
            c >= 0,
    ;
}

/// Reads `n` bytes at `start` as a big-endian integer.
fn read_be(input: &[u8], start: usize, n: usize) -> (r: u128)
    requires
        n <= 16,
        start + n <= input@.len(),
    ensures
        r == be_value(input@.subrange(start as int, start + n)),
{
    let len = input.len();
    let mut acc: u128 = 0;
    let mut k: usize = 0;
    while k < n
        invariant
            len == input@.len(),
            k <= n <= 16,
            start + n <= input@.len(),
            acc == be_value(input@.subrange(start as int, start + k)),
        decreases n - k,
    {
        let ghost prev = input@.subrange(start as int, start + k);
        let ghost next = input@.subrange(start as int, start + k + 1);
        proof {
            assert(next.drop_last() =~= prev);
            lemma_be_value_bound(prev);
            lemma_pow256_mono(k as nat, 15);
            lemma_pow256_16();
            assert(pow256(16) == 256 * pow256(15));
        }
        acc = acc * 256 + input[start + k] as u128;
        k = k + 1;
    }
    acc
}

/// Reads the selector at the head of the payload.
pub fn selector(input: &[u8]) -> (r: Result<u32, DecodeError>)
    ensures
        r == spec_selector(input@),
{
    if input.len() < SELECTOR_BYTES {
        return Err(DecodeError::OutOfBounds);
    }
    let v = read_be(input, 0, 4);
    proof {
        lemma_be_value_bound(input@.subrange(0, 4));
        reveal_with_fuel(pow256, 5);
    }
    Ok(v as u32)
}

/// Whether argument words `1..=count` are all within the payload.
pub fn has_words(input: &[u8], count: usize) -> (r: bool)
    ensures
        r == words_present(input@, count as nat),
{
    let len = input.len();
    if len < SELECTOR_BYTES {
        return false;
    }
    let q = (len - SELECTOR_BYTES) / WORD_BYTES;
    proof {
        lemma_word_count((len - 4) as int, count as int);
    }
    q >= count
}

/// Reads argument word `index` as an unsigned integer of `n` bytes.
fn uint_at(input: &[u8], index: usize, n: usize) -> (r: Result<u128, DecodeError>)
    requires
        1 <= n <= 16,
    ensures
        match r {
            Ok(v) => spec_uint_at(input@, index as nat, n as nat) == Ok::<nat, DecodeError>(v as nat),
            Err(e) => spec_uint_at(input@, index as nat, n as nat) == Err::<nat, DecodeError>(e),
        },
        r is Ok ==> r->Ok_0 < pow256(n as nat),
{
    let len = input.len();
    if index < 1 || !has_words(input, index) {
        return Err(DecodeError::OutOfBounds);
    }
    let start = SELECTOR_BYTES + WORD_BYTES * (index - 1);
    let ghost w = word(input@, index as nat);
    let mut k: usize = 0;
    while k < WORD_BYTES - n
        invariant
            len == input@.len(),
            1 <= n <= 16,
            start == 4 + 32 * (index - 1),
            start + 32 <= input@.len(),
            w == input@.subrange(start as int, start + 32),
            k <= 32 - n,
            forall|j: int| 0 <= j < k ==> w[j] == 0,
        decreases 32 - n - k,
    {
        if input[start + k] != 0 {
            assert(w[k as int] != 0);
            return Err(DecodeError::InvalidEncoding);
        }
        k = k + 1;
    }
    let v = read_be(input, start + WORD_BYTES - n, n);
    proof {
        assert(w.subrange(32 - n, 32) =~= input@.subrange(start + 32 - n, start + 32));
        lemma_be_value_bound(w.subrange(32 - n, 32));
    }
    Ok(v)
}

/// Reads argument word `index` as a `u32`.
pub fn u32_at(input: &[u8], index: usize) -> (r: Result<u32, DecodeError>)
    ensures
        r == spec_u32_at(input@, index as nat),
{
    match uint_at(input, index, 4) {
        Ok(v) => {
            proof {
                reveal_with_fuel(pow256, 5);
            }
            Ok(v as u32)
        },
        Err(e) => Err(e),
    }
}

/// Reads argument word `index` as a `u64`.
pub fn u64_at(input: &[u8], index: usize) -> (r: Result<u64, DecodeError>)
    ensures
        r == spec_u64_at(input@, index as nat),
{
    match uint_at(input, index, 8) {
        Ok(v) => {
            proof {
                reveal_with_fuel(pow256, 9);
            }
            Ok(v as u64)
        },
        Err(e) => Err(e),
    }
}

/// Reads argument word `index` as a 128-bit balance.
pub fn balance_at(input: &[u8], index: usize) -> (r: Result<u128, DecodeError>)
    ensures
        r == spec_balance_at(input@, index as nat),
{
    match uint_at(input, index, 16) {
        Ok(v) => Ok(v),
        Err(e) => Err(e),
    }
}

/// Reads the low-order 20 bytes of argument word `index`.
pub fn address_at(input: &[u8], index: usize) -> (r: Result<Address, DecodeError>)
    ensures
        match r {
            Ok(a) => spec_address_at(input@, index as nat) == Ok::<Seq<u8>, DecodeError>(a@),
            Err(e) => spec_address_at(input@, index as nat) == Err::<Seq<u8>, DecodeError>(e),
        },
{
    let len = input.len();
    if index < 1 || !has_words(input, index) {
        return Err(DecodeError::OutOfBounds);
    }
    let start = SELECTOR_BYTES + WORD_BYTES * (index - 1) + 12;
    let mut a: Address = [0u8; 20];
    let mut k: usize = 0;
    while k < 20
        invariant
            len == input@.len(),
            start == 4 + 32 * (index - 1) + 12,
            start + 20 <= input@.len(),
            k <= 20,
            a@.len() == 20,
            forall|j: int| 0 <= j < k ==> a@[j] == input@[start + j],
        decreases 20 - k,
    {
        a[k] = input[start + k];
        k = k + 1;
    }
    assert(a@ =~= address_word(input@, index as nat));
    Ok(a)
}

/// Appends the word that encodes `v`.
fn push_u128_word(out: &mut Vec<u8>, v: u128)
    ensures
        final(out)@ == old(out)@ + u128_word(v),
{
    let ghost start = out@;
    let mut k: usize = 0;
    while k < 16
        invariant
            k <= 16,
            out@ == start + Seq::new(k as nat, |j: int| 0u8),
        decreases 16 - k,
    {
        out.push(0u8);
        proof {
            assert(out@ =~= start + Seq::new((k + 1) as nat, |j: int| 0u8));
        }
        k = k + 1;
    }
    let ghost zeros = out@;
    let ghost bytes = be_bytes(v as nat, 16);
    proof {
        reveal_with_fuel(pow256, 16);
    }
    let mut p: u128 = 0x100_0000_0000_0000_0000_0000_0000_0000;
    let mut k: usize = 0;
    while k < 16
        invariant
            k <= 16,
            k < 16 ==> p == pow256((15 - k) as nat),
            out@ == zeros + bytes.subrange(0, k as int),
            bytes == be_bytes(v as nat, 16),
        decreases 16 - k,
    {
        proof {
            lemma_pow256_pos((15 - k) as nat);
        }
        let b = ((v / p) % 256) as u8;
        out.push(b);
        proof {
            assert(out@ =~= zeros + bytes.subrange(0, k + 1));
        }
        if k < 15 {
            proof {
                assert(pow256((15 - k) as nat) == 256 * pow256((14 - k) as nat));
            }
            p = p / 256;
        }
        k = k + 1;
    }
    proof {
        assert(bytes.subrange(0, 16) =~= bytes);
        assert(zeros =~= start + Seq::new(16, |j: int| 0u8));
        assert(out@ =~= start + u128_word(v));
    }
}

/// The encoding of a single 128-bit value: one word.
pub fn encode_u128(v: u128) -> (r: Vec<u8>)
    ensures
        r@ == u128_word(v),
{
    let mut out: Vec<u8> = Vec::new();
    push_u128_word(&mut out, v);
    proof {
        assert(out@ =~= u128_word(v));
    }
    out
}

/// The encoding of a pair of 128-bit values: two words.
pub fn encode_u128_tuple(a: u128, b: u128) -> (r: Vec<u8>)
    ensures
        r@ == u128_word(a) + u128_word(b),
{
    let mut out: Vec<u8> = Vec::new();
    push_u128_word(&mut out, a);
    push_u128_word(&mut out, b);
    proof {
        assert(out@ =~= u128_word(a) + u128_word(b));
    }
    out
}

/// The encoding of an address: one word, the address right-aligned.
pub fn encode_address(a: &Address) -> (r: Vec<u8>)
    ensures
        r@ == address_word_of(a@),
{
    let mut out: Vec<u8> = Vec::new();
    let mut k: usize = 0;
    while k < 32
        invariant
            k <= 32,
            a@.len() == 20,
            out@ == address_word_of(a@).subrange(0, k as int),
        decreases 32 - k,
    {
        if k < 12 {
            out.push(0u8);
        } else {
            out.push(a[k - 12]);
        }
        proof {
            assert(out@ =~= address_word_of(a@).subrange(0, k + 1));
        }
        k = k + 1;
    }
    proof {
        assert(address_word_of(a@).subrange(0, 32) =~= address_word_of(a@));
    }
    out
}

/// Reading a word produced for a 128-bit value back as a balance gives that value,
/// over the whole range of `u128`.
pub proof fn lemma_u128_round_trip(v: u128)
    ensures
        spec_balance_at(seq![0u8, 0u8, 0u8, 0u8] + u128_word(v), 1) == Ok::<u128, DecodeError>(v),
        be_value(u128_word(v).subrange(16, 32)) == v,
        forall|k: int| 0 <= k < 16 ==> u128_word(v)[k] == 0,
{
    let w = u128_word(v);
    let s = seq![0u8, 0u8, 0u8, 0u8] + w;
    assert(w.subrange(16, 32) =~= be_bytes(v as nat, 16));
    lemma_be_round_trip(v as nat, 16);
    lemma_pow256_16();
    assert(word(s, 1) =~= w);
    assert(words_present(s, 1));
}

} // verus!
