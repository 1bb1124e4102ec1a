//! 256-bit unsigned integers as four 64-bit limbs, and the big-endian reading of byte strings.

use vstd::arithmetic::div_mod::lemma_div_denominator;
use vstd::arithmetic::power::{lemma_pow_positive, pow};
use vstd::arithmetic::power2::{lemma2_to64, lemma2_to64_rest, lemma_pow2_adds, pow2};
use vstd::prelude::*;

verus! {

/// The weight of one limb relative to the limb below it.
pub open spec fn limb_base() -> nat {
    0x1_0000_0000_0000_0000
}

/// The largest number that 256 bits hold.
pub open spec fn u256_max() -> nat {
    0xffff_ffff_ffff_ffff_ffff_ffff_ffff_ffff_ffff_ffff_ffff_ffff_ffff_ffff_ffff_ffffnat
}

/// A 256-bit unsigned integer. The limbs are least significant first.
#[derive(Clone, Copy, Debug, PartialEq, Eq)]
pub struct U256 {
    pub limbs: [u64; 4],
}

impl View for U256 {
    type V = nat;

    /// The number that the limbs stand for.
    open spec fn view(&self) -> nat {
        self.limbs@[0] as nat + limb_base() * (self.limbs@[1] as nat + limb_base() * (
        self.limbs@[2] as nat + limb_base() * self.limbs@[3] as nat))
    }
}

impl U256 {
    /// The integer with the given limbs, least significant first.
    pub fn from_limbs(limbs: [u64; 4]) -> (r: Self)
        ensures
            r.limbs == limbs,
    {
        U256 { limbs }
    }

    /// The integer zero.
    pub fn zero() -> (r: Self)
        ensures
            r.limbs@ == seq![0u64, 0u64, 0u64, 0u64],
            r@ == 0,
    {
        U256 { limbs: [0, 0, 0, 0] }
    }
}

/// The number that a byte string spells in base 256, most significant byte first.
pub open spec fn be_value(bytes: Seq<u8>) -> nat
    decreases bytes.len(),
{
    if bytes.len() == 0 {
        0
    } else {
        be_value(bytes.drop_last()) * 256 + bytes.last() as nat
    }
}

/// The `width` bytes that spell a number in base 256, most significant first.
pub open spec fn be_bytes(value: nat, width: nat) -> Seq<u8>
    decreases width,
{
    if width == 0 {
        Seq::empty()
    } else {
        be_bytes(value / 256, (width - 1) as nat).push((value % 256) as u8)
    }
}

/// The ABI encoding of a 256-bit number: a word of 32 bytes.
pub open spec fn abi_word(value: nat) -> Seq<u8> {
    be_bytes(value, 32)
}

/// A product cut off at the largest 256-bit number.
pub open spec fn saturating_product(a: nat, b: nat) -> nat {
    if a * b <= u256_max() {
        a * b
    } else {
        u256_max()
    }
}

/// The larger of two numbers.
pub open spec fn higher(a: nat, b: nat) -> nat {
    if a <= b {
        b
    } else {
        a
    }
}

/// Calls `alloy_primitives::U256::from_be_slice`. Of a slice of at most 32 bytes, which is as
/// long as that function accepts without panicking, it returns the number that the bytes spell
/// most significant first.
#[verifier::external_body]
pub(crate) fn from_be_slice(bytes: &[u8]) -> (r: U256)
    requires
        bytes@.len() <= 32,
    ensures
        r@ == be_value(bytes@),
{
    U256 { limbs: alloy_primitives::U256::from_be_slice(bytes).into_limbs() }
}

/// Calls `alloy_primitives::U256::saturating_mul`: the product of the two numbers where it fits
/// in 256 bits, and the largest 256-bit number where it does not.
#[verifier::external_body]
pub(crate) fn saturating_mul(a: U256, b: U256) -> (r: U256)
    ensures
        r@ == saturating_product(a@, b@),
{
    let a = alloy_primitives::U256::from_limbs(a.limbs);
    let b = alloy_primitives::U256::from_limbs(b.limbs);
    U256 { limbs: a.saturating_mul(b).into_limbs() }
}

/// Calls `std::cmp::max` on two `alloy_primitives::U256`, whose order is that of the numbers:
/// the larger of the two.
#[verifier::external_body]
pub(crate) fn max(a: U256, b: U256) -> (r: U256)
    ensures
        r@ == higher(a@, b@),
{
    let a = alloy_primitives::U256::from_limbs(a.limbs);
    let b = alloy_primitives::U256::from_limbs(b.limbs);
    U256 { limbs: std::cmp::max(a, b).into_limbs() }
}

/// A byte string of `n` bytes spells a number below 256^n.
proof fn lemma_be_value_bound(bytes: Seq<u8>)
    ensures
        be_value(bytes) < pow(256, bytes.len()),
    decreases bytes.len(),
{
    reveal(pow);
    if bytes.len() > 0 {
        lemma_be_value_bound(bytes.drop_last());
    }
}

/// Spelling a number that fits and reading it back gives the number.
proof fn lemma_be_bytes_value(value: nat, width: nat)
    requires
        value < pow(256, width),
    ensures
        be_bytes(value, width).len() == width,
        be_value(be_bytes(value, width)) == value,
    decreases width,
{
    reveal(pow);
    if width > 0 {
        let front = be_bytes(value / 256, (width - 1) as nat);
        lemma_be_bytes_value(value / 256, (width - 1) as nat);
        assert(front.push((value % 256) as u8).drop_last() =~= front);
    }
}

/// The numbers of 32 bytes are those of 256 bits.
proof fn lemma_word_range()
    ensures
        pow(256, 32) == u256_max() + 1,
{
    reveal_with_fuel(pow, 33);
}

/// What 32 bytes spell is a 256-bit number.
pub proof fn law_word_fits(word: Seq<u8>)
    requires
        word.len() == 32,
    ensures
        be_value(word) <= u256_max(),
{
    lemma_be_value_bound(word);
    lemma_word_range();
}

/// Reading the ABI encoding of a 256-bit number gives the number.
pub proof fn law_abi_word_round_trip(value: nat)
    requires
        value <= u256_max(),
    ensures
        abi_word(value).len() == 32,
        be_value(abi_word(value)) == value,
{
    lemma_word_range();
    lemma_be_bytes_value(value, 32);
}

/// Leading zeros do not change what a byte string spells.
pub proof fn law_leading_zeros(zeros: Seq<u8>, bytes: Seq<u8>)
    requires
        forall|i: int| 0 <= i < zeros.len() ==> zeros[i] == 0,
    ensures
        be_value(zeros + bytes) == be_value(bytes),
    decreases zeros.len() + bytes.len(),
{
    if bytes.len() > 0 {
        assert((zeros + bytes).drop_last() =~= zeros + bytes.drop_last());
        law_leading_zeros(zeros, bytes.drop_last());
    } else if zeros.len() > 0 {
        assert(zeros + bytes =~= zeros);
        assert(zeros.drop_last() + bytes =~= zeros.drop_last());
        law_leading_zeros(zeros.drop_last(), bytes);
    } else {
        assert(zeros + bytes =~= bytes);
    }
}

/// Every value of the type is a number of at most 256 bits.
pub proof fn law_u256_fits(x: U256)
    ensures
        x@ <= u256_max(),
{
}

/// A number has one set of limbs only: equal numbers are equal values.
pub proof fn law_u256_canonical(x: U256, y: U256)
    requires
        x@ == y@,
    ensures
        x == y,
{
    assert(x.limbs@[0] == y.limbs@[0]);
    assert(x.limbs@[1] == y.limbs@[1]);
    assert(x.limbs@[2] == y.limbs@[2]);
    assert(x.limbs =~= y.limbs);
}

/// The powers of two that the limbs weigh.
proof fn lemma_limb_weights()
    ensures
        pow2(64) == 0x1_0000_0000_0000_0000,
        pow2(128) == 0x1_0000_0000_0000_0000_0000_0000_0000_0000nat,
        pow2(192) == 0x1_0000_0000_0000_0000_0000_0000_0000_0000_0000_0000_0000_0000nat,
        pow2(256)
            == 0x1_0000_0000_0000_0000_0000_0000_0000_0000_0000_0000_0000_0000_0000_0000_0000_0000nat,
{
    lemma2_to64();
    lemma2_to64_rest();
    lemma_pow2_adds(64, 64);
    lemma_pow2_adds(128, 64);
    lemma_pow2_adds(192, 64);
}

/// The limbs weigh 2^0, 2^64, 2^128 and 2^192, the first one least.
pub proof fn law_limbs_weigh_by_place(x: U256)
    ensures
        x@ == x.limbs@[0] + x.limbs@[1] * pow2(64) + x.limbs@[2] * pow2(128) + x.limbs@[3] * pow2(
            192,
        ),
{
    lemma_limb_weights();
}

/// The largest 256-bit number is the one before 2^256, and it has all limbs full.
pub proof fn law_largest_number(x: U256)
    ensures
        u256_max() == pow2(256) - 1,
        x@ == pow2(256) - 1 <==> (forall|i: int| 0 <= i < 4 ==> x.limbs@[i] == u64::MAX),
{
    lemma_limb_weights();
    if x@ == pow2(256) - 1 {
        assert(x.limbs@[0] == u64::MAX && x.limbs@[1] == u64::MAX && x.limbs@[2] == u64::MAX
            && x.limbs@[3] == u64::MAX);
    }
}

/// A byte weighs 256 times what the byte behind it weighs: the first of a string weighs most,
/// and the last one counts as it is.
pub proof fn law_bytes_weigh_by_place(bytes: Seq<u8>, byte: u8)
    ensures
        be_value(Seq::<u8>::empty()) == 0,
        be_value(seq![byte] + bytes) == byte * pow(256, bytes.len()) + be_value(bytes),
        be_value(bytes + seq![byte]) == be_value(bytes) * 256 + byte,
    decreases bytes.len(),
{
    reveal(pow);
    assert((bytes + seq![byte]).drop_last() =~= bytes);
    if bytes.len() == 0 {
        assert(seq![byte] + bytes =~= bytes + seq![byte]);
        assert(byte * pow(256, 0) == byte) by (nonlinear_arith)
            requires
                pow(256, 0) == 1,
        ;
    } else {
        let front = bytes.drop_last();
        law_bytes_weigh_by_place(front, byte);
        assert((seq![byte] + bytes).drop_last() =~= seq![byte] + front);
        assert((seq![byte] + bytes).last() == bytes.last());
        let p = pow(256, front.len());
        assert(pow(256, bytes.len()) == 256 * p);
        assert((byte * p) * 256 == byte * (256 * p)) by (nonlinear_arith);
        assert((byte * p + be_value(front)) * 256 == (byte * p) * 256 + be_value(front) * 256)
            by (nonlinear_arith);
    }
}

/// The bytes that spell a number are its digits in base 256.
proof fn lemma_be_bytes_digits(value: nat, width: nat, i: int)
    requires
        0 <= i < width,
    ensures
        be_bytes(value, width).len() == width,
        be_bytes(value, width)[i] == (value as int / pow(256, (width - 1 - i) as nat)) % 256,
    decreases width,
{
    reveal(pow);
    let rest = (width - 1) as nat;
    if i < rest {
        lemma_be_bytes_digits(value / 256, rest, i);
        let p = pow(256, (rest - 1 - i) as nat);
        lemma_pow_positive(256, (rest - 1 - i) as nat);
        lemma_div_denominator(value as int, 256, p);
        assert(pow(256, (width - 1 - i) as nat) == 256 * p);
    } else if rest > 0 {
        lemma_be_bytes_digits(value / 256, rest, 0);
    } else {
        assert(be_bytes(value / 256, rest).len() == 0);
    }
}

/// Each byte of an ABI word is a digit of the number in base 256, the first byte the highest
/// digit.
pub proof fn law_abi_word_digits(value: nat, i: int)
    requires
        0 <= i < 32,
    ensures
        abi_word(value).len() == 32,
        abi_word(value)[i] == (value as int / pow(256, (31 - i) as nat)) % 256,
{
    lemma_be_bytes_digits(value, 32, i);
}

/// Every word of 32 bytes is the ABI encoding of the number that it spells.
pub proof fn law_words_are_abi_words(word: Seq<u8>)
    requires
        word.len() == 32,
    ensures
        abi_word(be_value(word)) == word,
{
    lemma_be_value_bytes(word);
}

/// Spelling what a byte string spells, in as many bytes, gives the string.
proof fn lemma_be_value_bytes(bytes: Seq<u8>)
    ensures
        be_bytes(be_value(bytes), bytes.len()) == bytes,
    decreases bytes.len(),
{
    if bytes.len() > 0 {
        lemma_be_value_bytes(bytes.drop_last());
        assert(bytes =~= bytes.drop_last().push(bytes.last()));
    } else {
        assert(bytes =~= Seq::<u8>::empty());
    }
}

} // verus!
