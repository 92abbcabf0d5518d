use vstd::prelude::*;

verus! {

/// The `k`-th hexadecimal digit of `id`, counting from the most significant.
pub open spec fn nibble(id: u128, k: int) -> u128 {
    (id >> ((124 - 4 * k) as u128)) & 15
}

/// The lower-case hexadecimal digit of a value below sixteen.
pub open spec fn hex_digit(n: u128) -> char {
    if n == 0 { '0' } else if n == 1 { '1' } else if n == 2 { '2' } else if n == 3 { '3' }
    else if n == 4 { '4' } else if n == 5 { '5' } else if n == 6 { '6' } else if n == 7 { '7' }
    else if n == 8 { '8' } else if n == 9 { '9' } else if n == 10 { 'a' } else if n == 11 { 'b' }
    else if n == 12 { 'c' } else if n == 13 { 'd' } else if n == 14 { 'e' } else { 'f' }
}

/// Which hexadecimal digit of the id stands at position `i` of its text.
pub open spec fn digit_index(i: int) -> int {
    if i < 8 { i } else if i < 13 { i - 1 } else if i < 18 { i - 2 } else if i < 23 { i - 3 } else { i - 4 }
}

/// The character at position `i` of the hyphenated text of `id`.
pub open spec fn uuid_char(id: u128, i: int) -> char {
    if i == 8 || i == 13 || i == 18 || i == 23 {
        '-'
    } else {
        hex_digit(nibble(id, digit_index(i)))
    }
}

/// The hyphenated lower-case text of a UUID given by its 128-bit value: 32
/// hexadecimal digits, most significant first, in groups of 8, 4, 4, 4 and 12
/// separated by dashes.
pub open spec fn uuid_text(id: u128) -> Seq<char> {
    Seq::new(36, |i: int| uuid_char(id, i))
}

proof fn lemma_nibble_bound(x: u128, s: u128)
    ensures
        (x >> s) & 15 <= 15,
{
    assert((x >> s) & 15 <= 15) by (bit_vector);
}

proof fn lemma_hex_digit_injective(x: u128, y: u128)
    requires
        x <= 15,
        y <= 15,
        hex_digit(x) == hex_digit(y),
    ensures
        x == y,
{
}

proof fn lemma_nibbles_determine(a: u128, b: u128)
    requires
        (a >> 124u128) & 15 == (b >> 124u128) & 15,
        (a >> 120u128) & 15 == (b >> 120u128) & 15,
        (a >> 116u128) & 15 == (b >> 116u128) & 15,
        (a >> 112u128) & 15 == (b >> 112u128) & 15,
        (a >> 108u128) & 15 == (b >> 108u128) & 15,
        (a >> 104u128) & 15 == (b >> 104u128) & 15,
        (a >> 100u128) & 15 == (b >> 100u128) & 15,
        (a >> 96u128) & 15 == (b >> 96u128) & 15,
        (a >> 92u128) & 15 == (b >> 92u128) & 15,
        (a >> 88u128) & 15 == (b >> 88u128) & 15,
        (a >> 84u128) & 15 == (b >> 84u128) & 15,
        (a >> 80u128) & 15 == (b >> 80u128) & 15,
        (a >> 76u128) & 15 == (b >> 76u128) & 15,
        (a >> 72u128) & 15 == (b >> 72u128) & 15,
        (a >> 68u128) & 15 == (b >> 68u128) & 15,
        (a >> 64u128) & 15 == (b >> 64u128) & 15,
        (a >> 60u128) & 15 == (b >> 60u128) & 15,
        (a >> 56u128) & 15 == (b >> 56u128) & 15,
        (a >> 52u128) & 15 == (b >> 52u128) & 15,
        (a >> 48u128) & 15 == (b >> 48u128) & 15,
        (a >> 44u128) & 15 == (b >> 44u128) & 15,
        (a >> 40u128) & 15 == (b >> 40u128) & 15,
        (a >> 36u128) & 15 == (b >> 36u128) & 15,
        (a >> 32u128) & 15 == (b >> 32u128) & 15,
        (a >> 28u128) & 15 == (b >> 28u128) & 15,
        (a >> 24u128) & 15 == (b >> 24u128) & 15,
        (a >> 20u128) & 15 == (b >> 20u128) & 15,
        (a >> 16u128) & 15 == (b >> 16u128) & 15,
        (a >> 12u128) & 15 == (b >> 12u128) & 15,
        (a >> 8u128) & 15 == (b >> 8u128) & 15,
        (a >> 4u128) & 15 == (b >> 4u128) & 15,
        (a >> 0u128) & 15 == (b >> 0u128) & 15,
    ensures
        a == b,
{
    assert(a == b) by (bit_vector)
        requires
            (a >> 124u128) & 15 == (b >> 124u128) & 15,
            (a >> 120u128) & 15 == (b >> 120u128) & 15,
            (a >> 116u128) & 15 == (b >> 116u128) & 15,
            (a >> 112u128) & 15 == (b >> 112u128) & 15,
            (a >> 108u128) & 15 == (b >> 108u128) & 15,
            (a >> 104u128) & 15 == (b >> 104u128) & 15,
            (a >> 100u128) & 15 == (b >> 100u128) & 15,
            (a >> 96u128) & 15 == (b >> 96u128) & 15,
            (a >> 92u128) & 15 == (b >> 92u128) & 15,
            (a >> 88u128) & 15 == (b >> 88u128) & 15,
            (a >> 84u128) & 15 == (b >> 84u128) & 15,
            (a >> 80u128) & 15 == (b >> 80u128) & 15,
            (a >> 76u128) & 15 == (b >> 76u128) & 15,
            (a >> 72u128) & 15 == (b >> 72u128) & 15,
            (a >> 68u128) & 15 == (b >> 68u128) & 15,
            (a >> 64u128) & 15 == (b >> 64u128) & 15,
            (a >> 60u128) & 15 == (b >> 60u128) & 15,
            (a >> 56u128) & 15 == (b >> 56u128) & 15,
            (a >> 52u128) & 15 == (b >> 52u128) & 15,
            (a >> 48u128) & 15 == (b >> 48u128) & 15,
            (a >> 44u128) & 15 == (b >> 44u128) & 15,
            (a >> 40u128) & 15 == (b >> 40u128) & 15,
            (a >> 36u128) & 15 == (b >> 36u128) & 15,
            (a >> 32u128) & 15 == (b >> 32u128) & 15,
            (a >> 28u128) & 15 == (b >> 28u128) & 15,
            (a >> 24u128) & 15 == (b >> 24u128) & 15,
            (a >> 20u128) & 15 == (b >> 20u128) & 15,
            (a >> 16u128) & 15 == (b >> 16u128) & 15,
            (a >> 12u128) & 15 == (b >> 12u128) & 15,
            (a >> 8u128) & 15 == (b >> 8u128) & 15,
            (a >> 4u128) & 15 == (b >> 4u128) & 15,
            (a >> 0u128) & 15 == (b >> 0u128) & 15,
    ;
}

/// Different ids have different texts.
pub proof fn lemma_uuid_text_injective(a: u128, b: u128)
    requires
        uuid_text(a) == uuid_text(b),
    ensures
        a == b,
{
    assert forall|k: int| 0 <= k < 32 implies #[trigger] nibble(a, k) == nibble(b, k) by {
        let i = if k < 8 { k } else if k < 12 { k + 1 } else if k < 16 { k + 2 } else if k < 20 { k + 3 } else { k + 4 };
        assert(digit_index(i) == k);
        assert(0 <= i < 36 && i != 8 && i != 13 && i != 18 && i != 23);
        assert(uuid_text(a)[i] == uuid_char(a, i));
        assert(uuid_text(b)[i] == uuid_char(b, i));
        assert(uuid_char(a, i) == hex_digit(nibble(a, k)));
        assert(uuid_char(b, i) == hex_digit(nibble(b, k)));
        lemma_nibble_bound(a, (124 - 4 * k) as u128);
        lemma_nibble_bound(b, (124 - 4 * k) as u128);
        lemma_hex_digit_injective(nibble(a, k), nibble(b, k));
    }
    assert(nibble(a, 0) == nibble(b, 0));
    assert(nibble(a, 1) == nibble(b, 1));
    assert(nibble(a, 2) == nibble(b, 2));
    assert(nibble(a, 3) == nibble(b, 3));
    assert(nibble(a, 4) == nibble(b, 4));
    assert(nibble(a, 5) == nibble(b, 5));
    assert(nibble(a, 6) == nibble(b, 6));
    assert(nibble(a, 7) == nibble(b, 7));
    assert(nibble(a, 8) == nibble(b, 8));
    assert(nibble(a, 9) == nibble(b, 9));
    assert(nibble(a, 10) == nibble(b, 10));
    assert(nibble(a, 11) == nibble(b, 11));
    assert(nibble(a, 12) == nibble(b, 12));
    assert(nibble(a, 13) == nibble(b, 13));
    assert(nibble(a, 14) == nibble(b, 14));
    assert(nibble(a, 15) == nibble(b, 15));
    assert(nibble(a, 16) == nibble(b, 16));
    assert(nibble(a, 17) == nibble(b, 17));
    assert(nibble(a, 18) == nibble(b, 18));
    assert(nibble(a, 19) == nibble(b, 19));
    assert(nibble(a, 20) == nibble(b, 20));
    assert(nibble(a, 21) == nibble(b, 21));
    assert(nibble(a, 22) == nibble(b, 22));
    assert(nibble(a, 23) == nibble(b, 23));
    assert(nibble(a, 24) == nibble(b, 24));
    assert(nibble(a, 25) == nibble(b, 25));
    assert(nibble(a, 26) == nibble(b, 26));
    assert(nibble(a, 27) == nibble(b, 27));
    assert(nibble(a, 28) == nibble(b, 28));
    assert(nibble(a, 29) == nibble(b, 29));
    assert(nibble(a, 30) == nibble(b, 30));
    assert(nibble(a, 31) == nibble(b, 31));
    lemma_nibbles_determine(a, b);
}

} // verus!
