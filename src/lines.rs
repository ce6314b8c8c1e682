//! Digital line levels: the address driver and the data sampler.
//!
//! A set of lines is modelled by its levels, `true` for high, in line order:
//! line `i` carries bit `i` of the value (least significant first).

use vstd::arithmetic::div_mod::*;
use vstd::arithmetic::power2::*;
use vstd::bits::*;
use vstd::prelude::*;

verus! {

/// Level of line `i` when the lines carry `value`: bit `i` of `value`.
pub open spec fn bit_of(value: nat, i: nat) -> bool {
    (value / pow2(i)) % 2 == 1
}

/// The levels of `n` lines that carry `value`.
pub open spec fn bit_levels(value: nat, n: nat) -> Seq<bool> {
    Seq::new(n, |i: int| bit_of(value, i as nat))
}

/// The value that a set of lines carries: line `i` high adds `2^i`.
pub open spec fn levels_value(levels: Seq<bool>) -> nat
    decreases levels.len(),
{
    if levels.len() == 0 {
        0
    } else {
        let k = (levels.len() - 1) as nat;
        levels_value(levels.take(k as int)) + if levels[k as int] {
            pow2(k)
        } else {
            0
        }
    }
}

/// The value of `n` lines is below `2^n`.
pub proof fn lemma_levels_value_bound(levels: Seq<bool>)
    ensures
        levels_value(levels) < pow2(levels.len()),
    decreases levels.len(),
{
    if levels.len() > 0 {
        let k = (levels.len() - 1) as nat;
        lemma_levels_value_bound(levels.take(k as int));
        lemma_pow2_unfold(levels.len());
    } else {
        lemma2_to64();
    }
}

/// The first `n` lines that carry `value` read back as `value mod 2^n`.
proof fn lemma_levels_value_of_bits(value: nat, n: nat)
    ensures
        levels_value(bit_levels(value, n)) == value % pow2(n),
    decreases n,
{
    if n == 0 {
        lemma2_to64();
    } else {
        let k = (n - 1) as nat;
        assert(bit_levels(value, n).take(k as int) =~= bit_levels(value, k));
        lemma_levels_value_of_bits(value, k);
        lemma_pow2_unfold(n);
        lemma_pow2_pos(k);
        lemma_mod_breakdown(value as int, pow2(k) as int, 2);
    }
}

/// Address round trip: the levels that encode an address below `2^n` on `n`
/// lines decode to that address.
pub proof fn lemma_address_round_trip(address: nat, n: nat)
    requires
        address < pow2(n),
    ensures
        levels_value(bit_levels(address, n)) == address,
{
    lemma_levels_value_of_bits(address, n);
    lemma_small_mod(address, pow2(n));
}

/// Sampler round trip: eight data lines preset to the bits of `v` are read
/// as `v`.
pub proof fn lemma_sample_round_trip(v: u8)
    ensures
        levels_value(bit_levels(v as nat, 8)) == v,
{
    lemma2_to64();
    lemma_address_round_trip(v as nat, 8);
}

/// Bit `i` of a 32-bit value, as the shift of a one-bit mask tests it.
proof fn lemma_mask_tests_bit(value: u32, i: u32)
    requires
        i < 32,
    ensures
        ((value & (1u32 << i)) != 0) == bit_of(value as nat, i as nat),
{
    assert(((value & (1u32 << i)) != 0) == ((value >> i) % 2 == 1)) by (bit_vector)
        requires
            i < 32,
    ;
    lemma_u32_shr_is_div(value, i);
}

/// A 32-bit value has no bit set at or above line 32.
proof fn lemma_high_bits_clear(value: u32, i: nat)
    requires
        i >= 32,
    ensures
        !bit_of(value as nat, i),
{
    if i > 32 {
        lemma_pow2_strictly_increases(32, i);
    }
    lemma2_to64();
    lemma_basic_div(value as int, pow2(i) as int);
}

/// Drives `lines` to carry `address`: line `i` goes high exactly when bit `i`
/// of `address` is set. Lines past the 32nd are driven low.
pub fn set_address(lines: &mut Vec<bool>, address: u32)
    ensures
        final(lines)@ == bit_levels(address as nat, old(lines)@.len()),
{
    let n = lines.len();
    let mut i: usize = 0;
    while i < n
        invariant
            i <= n,
            n == lines@.len(),
            forall|j: int| 0 <= j < i ==> lines@[j] == bit_of(address as nat, j as nat),
        decreases n - i,
    {
        let high = if i < 32 {
            let mask: u32 = 1u32 << (i as u32);
            proof {
                lemma_mask_tests_bit(address, i as u32);
            }
            (address & mask) != 0
        } else {
            proof {
                lemma_high_bits_clear(address, i as nat);
            }
            false
        };
        lines.set(i, high);
        i = i + 1;
    }
    assert(lines@ =~= bit_levels(address as nat, n as nat));
}

/// The levels of `n` address lines that carry `address`.
pub fn encode_address(address: u32, n: usize) -> (levels: Vec<bool>)
    ensures
        levels@ == bit_levels(address as nat, n as nat),
{
    let mut levels = low_levels(n);
    set_address(&mut levels, address);
    levels
}

/// `n` lines driven low, as the address lines are set up before a scan.
pub fn low_levels(n: usize) -> (levels: Vec<bool>)
    ensures
        levels@ == Seq::new(n as nat, |i: int| false),
{
    let mut levels: Vec<bool> = Vec::new();
    let mut i: usize = 0;
    while i < n
        invariant
            i <= n,
            levels@ == Seq::new(i as nat, |j: int| false),
        decreases n - i,
    {
        levels.push(false);
        i = i + 1;
        assert(levels@ =~= Seq::new(i as nat, |j: int| false));
    }
    levels
}

/// Reads back the address that a set of at most 32 lines carries.
pub fn decode_address(levels: &[bool]) -> (address: u32)
    requires
        levels@.len() <= 32,
    ensures
        address == levels_value(levels@),
{
    let n = levels.len();
    let mut value: u32 = 0;
    let mut i: usize = 0;
    while i < n
        invariant
            i <= n,
            n == levels@.len(),
            n <= 32,
            value == levels_value(levels@.take(i as int)),
        decreases n - i,
    {
        proof {
            assert(levels@.take(i + 1).take(i as int) =~= levels@.take(i as int));
            lemma_levels_value_bound(levels@.take(i as int));
            lemma_u32_pow2_no_overflow(i as nat);
            lemma_pow2_unfold(i as nat + 1);
            if i + 1 < 32 {
                lemma_pow2_strictly_increases(i as nat + 1, 32);
            }
            lemma2_to64();
        }
        if levels[i] {
            assert((1u32 << (i as u32)) == pow2(i as nat)) by {
                lemma_u32_shl_is_mul(1, i as u32);
            }
            value = value + (1u32 << (i as u32));
        }
        i = i + 1;
    }
    assert(levels@.take(n as int) =~= levels@);
    value
}

/// Packs the levels of the data lines into a byte: line `i` gives bit `i`.
/// The bus has eight lines; fewer leave the high bits clear.
pub fn read_byte(data_lines: &[bool]) -> (byte: u8)
    requires
        data_lines@.len() <= 8,
    ensures
        byte == levels_value(data_lines@),
{
    proof {
        lemma_levels_value_bound(data_lines@);
        if data_lines@.len() < 8 {
            lemma_pow2_strictly_increases(data_lines@.len(), 8);
        }
        lemma2_to64();
    }
    decode_address(data_lines) as u8
}

} // verus!
