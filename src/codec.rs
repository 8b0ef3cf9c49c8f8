use vstd::prelude::*;

use crate::text::push_char;

verus! {

/// The byte at position `k`, or zero past the end: the bit stream is
/// extended with zero bits to a whole number of 5-bit groups.
pub open spec fn byte_or_zero(s: Seq<u8>, k: int) -> u32 {
    if 0 <= k < s.len() {
        s[k] as u32
    } else {
        0
    }
}

/// The value of the `i`-th 5-bit group of the bit stream of `s`, bits taken
/// most significant first across byte boundaries. The group starts at bit
/// `5 * i`; it lies within the two bytes from `5 * i / 8` on.
pub open spec fn group_value(s: Seq<u8>, i: int) -> u32 {
    let b = 5 * i / 8;
    let window: u32 = (byte_or_zero(s, b) << 8u32) | byte_or_zero(s, b + 1);
    (window >> ((11 - (5 * i) % 8) as u32)) & 31u32
}

/// The RFC 4648 base32 alphabet: `A`..`Z`, then `2`..`7`.
pub open spec fn base32_char(v: int) -> char {
    if v < 26 {
        ('A' as int + v) as char
    } else {
        ('2' as int + (v - 26)) as char
    }
}

/// Number of symbols for `n` bytes: one per 5 bits, a final partial group
/// included, i.e. `ceil(8 * n / 5)`.
pub open spec fn symbol_count(n: nat) -> nat {
    (8 * n + 4) / 5
}

/// Base32 text of `s` without padding.
pub open spec fn base32_unpadded(s: Seq<u8>) -> Seq<char> {
    Seq::new(symbol_count(s.len()), |i: int| base32_char(group_value(s, i) as int))
}

/// Number of `=` that bring `k` symbols up to a multiple of eight.
pub open spec fn padding_count(k: nat) -> nat {
    ((8 - k % 8) % 8) as nat
}

/// Base32 text of `s`, right-padded with `=` to a multiple of eight when
/// `padded` holds.
pub open spec fn base32(s: Seq<u8>, padded: bool) -> Seq<char> {
    let t = base32_unpadded(s);
    if padded {
        t + Seq::new(padding_count(t.len()), |i: int| '=')
    } else {
        t
    }
}

fn symbol_char(v: u32) -> (c: char)
    requires
        v < 32,
    ensures
        c == base32_char(v as int),
{
    if v < 26 {
        ((65u32 + v) as u8) as char
    } else {
        ((50u32 + (v - 26)) as u8) as char
    }
}

/// Where the `j`-th group of the block that starts at byte `start` begins:
/// byte `start + 5 * j / 8`, bit `5 * j % 8` of it.
proof fn lemma_group_position(start: int, j: int)
    requires
        start >= 0,
        start % 5 == 0,
        0 <= j < 8,
    ensures
        5 * (8 * (start / 5) + j) / 8 == start + 5 * j / 8,
        (5 * (8 * (start / 5) + j)) % 8 == 5 * j % 8,
{
    vstd::arithmetic::div_mod::lemma_fundamental_div_mod(start, 5);
    vstd::arithmetic::div_mod::lemma_fundamental_div_mod(5 * j, 8);
    vstd::arithmetic::div_mod::lemma_fundamental_div_mod_converse(
        5 * (8 * (start / 5) + j),
        8,
        start + 5 * j / 8,
        5 * j % 8,
    );
}

/// For `n = 5 * q + r` bytes, the symbols are eight per whole block of five
/// bytes and `symbol_count(r)` for the rest; padded, eight per started block.
proof fn lemma_symbol_count_split(q: int, r: int)
    requires
        q >= 0,
        0 <= r < 5,
    ensures
        symbol_count((5 * q + r) as nat) == 8 * q + symbol_count(r as nat),
        (5 * q + r + 4) / 5 == q + (r + 4) / 5,
{
    vstd::arithmetic::div_mod::lemma_fundamental_div_mod_converse(
        8 * (5 * q + r) + 4,
        5,
        8 * q + (8 * r + 4) / 5,
        (8 * r + 4) % 5,
    );
    vstd::arithmetic::div_mod::lemma_fundamental_div_mod_converse(
        5 * q + r + 4,
        5,
        q + (r + 4) / 5,
        (r + 4) % 5,
    );
}

/// Appends the first `k` symbols of the block that starts at byte `start`.
fn push_block(val: &[u8], start: usize, k: usize, result: &mut String)
    requires
        start <= val@.len(),
        start % 5 == 0,
        k <= 8,
    ensures
        final(result)@ == old(result)@ + Seq::new(
            k as nat,
            |j: int| base32_char(group_value(val@, 8 * (start / 5) + j) as int),
        ),
{
    let ghost init = result@;
    let n: usize = val.len();
    let rem: usize = n - start;
    let mut j: usize = 0;
    while j < k
        invariant
            start <= val@.len(),
            start % 5 == 0,
            n == val@.len(),
            rem == n - start,
            k <= 8,
            j <= k,
            result@ == init + Seq::new(
                j as nat,
                |t: int| base32_char(group_value(val@, 8 * (start / 5) + t) as int),
            ),
        decreases k - j,
    {
        let off: usize = 5 * j / 8;
        let shift: u32 = (11 - 5 * j % 8) as u32;
        let hi: u32 = if off < rem { val[start + off] as u32 } else { 0 };
        let lo: u32 = if off + 1 < rem { val[start + off + 1] as u32 } else { 0 };
        let window: u32 = (hi << 8u32) | lo;
        let v: u32 = (window >> shift) & 31u32;
        assert(v < 32) by (bit_vector)
            requires
                v == (window >> shift) & 31u32,
        ;
        proof {
            lemma_group_position(start as int, j as int);
        }
        assert(v == group_value(val@, 8 * (start / 5) + j));
        push_char(result, symbol_char(v));
        assert(init + Seq::new(
            (j + 1) as nat,
            |t: int| base32_char(group_value(val@, 8 * (start / 5) + t) as int),
        ) =~= (init + Seq::new(
            j as nat,
            |t: int| base32_char(group_value(val@, 8 * (start / 5) + t) as int),
        )).push(base32_char(v as int)));
        j = j + 1;
    }
}

/// Encodes bytes as RFC 4648 base32 text, most significant bit first; a final
/// group of fewer than five bits is filled with zero bits. With
/// `with_padding` the text is padded with `=` to a multiple of eight.
pub fn encode_base32(val: &[u8], with_padding: bool) -> (r: String)
    ensures
        r@ == base32(val@, with_padding),
        !with_padding ==> r@.len() == symbol_count(val@.len()),
        with_padding ==> r@.len() == 8 * ((val@.len() + 4) / 5),
        with_padding ==> r@.len() % 8 == 0,
{
    let n: usize = val.len();
    let ghost full = base32_unpadded(val@);
    let mut result = String::new();
    let mut start: usize = 0;
    while n - start >= 5
        invariant
            n == val@.len(),
            full == base32_unpadded(val@),
            start <= n,
            start % 5 == 0,
            8 * (start / 5) <= full.len(),
            result@ == full.take(8 * (start / 5)),
        decreases n - start,
    {
        proof {
            vstd::arithmetic::div_mod::lemma_fundamental_div_mod(n as int, 5);
            vstd::arithmetic::div_mod::lemma_fundamental_div_mod(start as int, 5);
            lemma_symbol_count_split((n / 5) as int, (n % 5) as int);
            assert(start / 5 + 1 <= n / 5);
        }
        push_block(val, start, 8, &mut result);
        assert(full.take(8 * (start / 5) + 8) =~= full.take(8 * (start / 5)) + Seq::new(
            8,
            |j: int| base32_char(group_value(val@, 8 * (start / 5) + j) as int),
        ));
        start = start + 5;
    }
    let rem: usize = n - start;
    let tail: usize = (8 * rem + 4) / 5;
    proof {
        lemma_symbol_count_split((start / 5) as int, rem as int);
        assert(5 * (start / 5) + rem == n);
    }
    push_block(val, start, tail, &mut result);
    assert(result@ =~= full);
    if with_padding {
        let pad: usize = (8 - tail % 8) % 8;
        assert(pad == padding_count(full.len()));
        let mut j: usize = 0;
        while j < pad
            invariant
                full == base32_unpadded(val@),
                j <= pad,
                result@ == full + Seq::new(j as nat, |k: int| '='),
            decreases pad - j,
        {
            push_char(&mut result, '=');
            assert(full + Seq::new(j as nat + 1, |k: int| '=') =~= (full + Seq::new(
                j as nat,
                |k: int| '=',
            )).push('='));
            j = j + 1;
        }
        assert(result@ =~= base32(val@, true));
    }
    result
}

} // verus!
