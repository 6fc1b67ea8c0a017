//! The canonical text form of a UUID.
//!
//! UUIDs cross the boundary as 36 characters of text: 32 hexadecimal
//! digits with `-` at positions 8, 13, 18 and 23.  [`uuid_from_string`]
//! reads the 128-bit value back and reports malformed text;
//! [`uuid_to_string`] writes the lower-case canonical form.

use vstd::prelude::*;
use vstd::string::StrSliceExecFns;

verus! {

/// Whether the character is an ASCII hexadecimal digit.
pub open spec fn is_hex_digit(c: char) -> bool {
    (48 <= c as u32 && c as u32 <= 57) || (97 <= c as u32 && c as u32 <= 102) || (65 <= c as u32
        && c as u32 <= 70)
}

/// The numeric value of a hexadecimal digit.
pub open spec fn hex_digit_value(c: char) -> int {
    if 48 <= c as u32 && c as u32 <= 57 {
        c as u32 - 48
    } else if 97 <= c as u32 && c as u32 <= 102 {
        c as u32 - 87
    } else {
        c as u32 - 55
    }
}

/// Whether position `i` of the canonical form holds a `-`.
pub open spec fn uuid_hyphen_pos(i: int) -> bool {
    i == 8 || i == 13 || i == 18 || i == 23
}

/// Whether position `i` holds what the canonical form asks for there.
pub open spec fn uuid_char_ok(s: Seq<char>, i: int) -> bool {
    if uuid_hyphen_pos(i) {
        s[i] == '-'
    } else {
        is_hex_digit(s[i])
    }
}

/// Whether the text is a canonical UUID: 36 characters, hyphens at the
/// four fixed positions, hexadecimal digits everywhere else.
pub open spec fn is_uuid_text(s: Seq<char>) -> bool {
    s.len() == 36 && (forall|i: int| 0 <= i < 36 ==> #[trigger] uuid_char_ok(s, i))
}

/// Whether every digit of the text is lower case.
pub open spec fn is_lower_uuid_text(s: Seq<char>) -> bool {
    forall|i: int|
        0 <= i < 36 && !uuid_hyphen_pos(i) ==> ((48 <= #[trigger] s[i] as u32 && s[i] as u32 <= 57)
            || (97 <= s[i] as u32 && s[i] as u32 <= 102))
}

/// How many of the first `n` positions hold digits.
pub open spec fn uuid_digit_count(n: int) -> int {
    n - (if n > 8 {
        1int
    } else {
        0
    }) - (if n > 13 {
        1int
    } else {
        0
    }) - (if n > 18 {
        1int
    } else {
        0
    }) - (if n > 23 {
        1int
    } else {
        0
    })
}

/// The value of the digits among the first `n` positions, read most
/// significant first.
pub open spec fn uuid_fold(s: Seq<char>, n: int) -> int
    decreases n,
{
    if n <= 0 {
        0
    } else if uuid_hyphen_pos(n - 1) {
        uuid_fold(s, n - 1)
    } else {
        uuid_fold(s, n - 1) * 16 + hex_digit_value(s[n - 1])
    }
}

/// The 128-bit value a canonical UUID text denotes.
pub open spec fn uuid_of_text(s: Seq<char>) -> u128 {
    uuid_fold(s, 36) as u128
}

/// Sixteen to the power `k`.
pub open spec fn pow16(k: int) -> int
    decreases k,
{
    if k <= 0 {
        1
    } else {
        16 * pow16(k - 1)
    }
}

proof fn lemma_pow16_pos(k: int)
    ensures
        pow16(k) >= 1,
    decreases k,
{
    if k > 0 {
        lemma_pow16_pos(k - 1);
    }
}

proof fn lemma_pow16_mono(a: int, b: int)
    requires
        0 <= a <= b,
    ensures
        pow16(a) <= pow16(b),
    decreases b,
{
    if a < b {
        lemma_pow16_mono(a, b - 1);
        lemma_pow16_pos(b - 1);
    }
}

proof fn lemma_pow16_32()
    ensures
        pow16(32) == 0x100000000000000000000000000000000,
{
    reveal_with_fuel(pow16, 33);
}

/// The folded value stays below sixteen to the number of digits read.
proof fn lemma_uuid_fold_bound(s: Seq<char>, n: int)
    requires
        0 <= n <= 36,
        forall|j: int| 0 <= j < n ==> #[trigger] uuid_char_ok(s, j),
    ensures
        0 <= uuid_fold(s, n) < pow16(uuid_digit_count(n)),
    decreases n,
{
    if n > 0 {
        lemma_uuid_fold_bound(s, n - 1);
        if !uuid_hyphen_pos(n - 1) {
            assert(uuid_char_ok(s, n - 1));
            lemma_pow16_pos(uuid_digit_count(n - 1));
        }
    }
}

/// The folded value reads only the first `n` positions.
proof fn lemma_uuid_fold_prefix(s1: Seq<char>, s2: Seq<char>, n: int)
    requires
        forall|j: int| 0 <= j < n ==> s1[j] == s2[j],
    ensures
        uuid_fold(s1, n) == uuid_fold(s2, n),
    decreases n,
{
    if n > 0 {
        lemma_uuid_fold_prefix(s1, s2, n - 1);
    }
}

/// The digit of a hexadecimal value, read or written.
fn hex_digit_of(c: char) -> (r: Option<u8>)
    ensures
        match r {
            Some(d) => is_hex_digit(c) && d < 16 && d as int == hex_digit_value(c),
            None => !is_hex_digit(c),
        },
{
    let x = c as u32;
    if 48 <= x && x <= 57 {
        Some((x - 48) as u8)
    } else if 97 <= x && x <= 102 {
        Some((x - 87) as u8)
    } else if 65 <= x && x <= 70 {
        Some((x - 55) as u8)
    } else {
        None
    }
}

/// The lower-case character of a digit.
fn hex_char(d: u8) -> (c: char)
    requires
        d < 16,
    ensures
        is_hex_digit(c),
        hex_digit_value(c) == d as int,
        (48 <= c as u32 && c as u32 <= 57) || (97 <= c as u32 && c as u32 <= 102),
{
    match d {
        0 => '0',
        1 => '1',
        2 => '2',
        3 => '3',
        4 => '4',
        5 => '5',
        6 => '6',
        7 => '7',
        8 => '8',
        9 => '9',
        10 => 'a',
        11 => 'b',
        12 => 'c',
        13 => 'd',
        14 => 'e',
        _ => 'f',
    }
}

/// Relies on `String::push`: appends exactly the one character.
#[verifier::external_body]
fn push_char(s: &mut String, c: char)
    ensures
        final(s)@ == old(s)@.push(c),
{
    s.push(c);
}

proof fn lemma_uuid_digit_step(v: u128, sh: u128)
    requires
        sh <= 120,
    ensures
        (v >> (sh + 4)) * 16 + ((v >> sh) % 16) == v >> sh,
        (v >> sh) % 16 < 16,
{
    assert((v >> (sh + 4)) * 16 + ((v >> sh) % 16) == v >> sh && (v >> sh) % 16 < 16)
        by (bit_vector)
        requires
            sh <= 120,
    ;
}

proof fn lemma_uuid_top_digit(v: u128)
    ensures
        (v >> 124) % 16 == v >> 124,
        v >> 124 < 16,
{
    assert((v >> 124) % 16 == v >> 124 && v >> 124 < 16) by (bit_vector);
}

proof fn lemma_shr_zero(v: u128)
    ensures
        v >> 0 == v,
{
    assert(v >> 0 == v) by (bit_vector);
}

/// Equal folds read from valid positions come from equal digits.
proof fn lemma_uuid_fold_injective(s1: Seq<char>, s2: Seq<char>, n: int)
    requires
        0 <= n <= 36,
        forall|j: int| 0 <= j < n ==> #[trigger] uuid_char_ok(s1, j),
        forall|j: int| 0 <= j < n ==> #[trigger] uuid_char_ok(s2, j),
        forall|j: int|
            0 <= j < n && !uuid_hyphen_pos(j) ==> ((48 <= #[trigger] s1[j] as u32 && s1[j] as u32
                <= 57) || (97 <= s1[j] as u32 && s1[j] as u32 <= 102)),
        forall|j: int|
            0 <= j < n && !uuid_hyphen_pos(j) ==> ((48 <= #[trigger] s2[j] as u32 && s2[j] as u32
                <= 57) || (97 <= s2[j] as u32 && s2[j] as u32 <= 102)),
        uuid_fold(s1, n) == uuid_fold(s2, n),
    ensures
        forall|j: int| 0 <= j < n ==> s1[j] == s2[j],
    decreases n,
{
    if n > 0 {
        if uuid_hyphen_pos(n - 1) {
            assert(uuid_char_ok(s1, n - 1));
            assert(uuid_char_ok(s2, n - 1));
            lemma_uuid_fold_injective(s1, s2, n - 1);
        } else {
            let a = uuid_fold(s1, n - 1);
            let c = uuid_fold(s2, n - 1);
            let b = hex_digit_value(s1[n - 1]);
            let d = hex_digit_value(s2[n - 1]);
            assert(uuid_char_ok(s1, n - 1));
            assert(uuid_char_ok(s2, n - 1));
            lemma_uuid_fold_bound(s1, n - 1);
            lemma_uuid_fold_bound(s2, n - 1);
            assert(0 <= b < 16 && 0 <= d < 16);
            assert(a * 16 + b == c * 16 + d);
            assert(a == c) by {
                if a < c {
                    assert(c * 16 >= a * 16 + 16) by (nonlinear_arith)
                        requires
                            a < c,
                    ;
                } else if a > c {
                    assert(a * 16 >= c * 16 + 16) by (nonlinear_arith)
                        requires
                            a > c,
                    ;
                }
            }
            assert(b == d);
            assert(s1[n - 1] as u32 == s2[n - 1] as u32);
            vstd::utf8::char_u32_cast(s1[n - 1], s1[n - 1] as u32);
            vstd::utf8::char_u32_cast(s2[n - 1], s2[n - 1] as u32);
            assert(s1[n - 1] == s2[n - 1]);
            lemma_uuid_fold_injective(s1, s2, n - 1);
        }
    }
}

/// LAW: the lower-case canonical text of a UUID value is unique: two
/// canonical, lower-case texts that denote the same 128-bit value are the
/// same text.
pub proof fn lemma_uuid_canonical_text_unique(s1: Seq<char>, s2: Seq<char>)
    requires
        is_uuid_text(s1),
        is_uuid_text(s2),
        is_lower_uuid_text(s1),
        is_lower_uuid_text(s2),
        uuid_of_text(s1) == uuid_of_text(s2),
    ensures
        s1 == s2,
{
    lemma_uuid_fold_bound(s1, 36);
    lemma_uuid_fold_bound(s2, 36);
    lemma_pow16_32();
    lemma_uuid_fold_injective(s1, s2, 36);
    assert(s1 =~= s2);
}

/// Reads the 128-bit value of a UUID written in canonical text form;
/// reports malformed text.
pub fn uuid_from_string(s: &str) -> (r: Option<u128>)
    ensures
        match r {
            Some(u) => is_uuid_text(s@) && u == uuid_of_text(s@),
            None => !is_uuid_text(s@),
        },
{
    let len = s.unicode_len();
    if len != 36 {
        return None;
    }
    let mut acc: u128 = 0;
    let mut i: usize = 0;
    while i < 36
        invariant
            i <= 36,
            s@.len() == 36,
            forall|j: int| 0 <= j < i ==> #[trigger] uuid_char_ok(s@, j),
            acc as int == uuid_fold(s@, i as int),
        decreases 36 - i,
    {
        let c = s.get_char(i);
        if i == 8 || i == 13 || i == 18 || i == 23 {
            if c != '-' {
                assert(!uuid_char_ok(s@, i as int));
                return None;
            }
        } else {
            match hex_digit_of(c) {
                Some(d) => {
                    proof {
                        lemma_uuid_fold_bound(s@, i as int);
                        lemma_pow16_mono(uuid_digit_count(i as int) + 1, 32);
                        lemma_pow16_32();
                    }
                    acc = acc * 16 + (d as u128);
                },
                None => {
                    assert(!uuid_char_ok(s@, i as int));
                    return None;
                },
            }
        }
        i = i + 1;
    }
    proof {
        lemma_uuid_fold_bound(s@, 36);
        lemma_pow16_32();
    }
    Some(acc)
}

/// Writes the lower-case canonical text of a 128-bit UUID value.
pub fn uuid_to_string(u: u128) -> (r: String)
    ensures
        is_uuid_text(r@),
        is_lower_uuid_text(r@),
        uuid_of_text(r@) == u,
{
    let mut out = String::new();
    let mut i: usize = 0;
    let mut dc: usize = 0;
    while i < 36
        invariant
            i <= 36,
            out@.len() == i,
            dc == uuid_digit_count(i as int),
            forall|j: int| 0 <= j < i ==> #[trigger] uuid_char_ok(out@, j),
            forall|j: int|
                0 <= j < i && !uuid_hyphen_pos(j) ==> ((48 <= #[trigger] out@[j] as u32
                    && out@[j] as u32 <= 57) || (97 <= out@[j] as u32 && out@[j] as u32 <= 102)),
            uuid_fold(out@, i as int) == if dc == 0 {
                0int
            } else {
                (u >> ((4 * (32 - dc as u128)) as u128)) as int
            },
        decreases 36 - i,
    {
        let ghost prev = out@;
        if i == 8 || i == 13 || i == 18 || i == 23 {
            push_char(&mut out, '-');
            proof {
                lemma_uuid_fold_prefix(prev, out@, i as int);
                assert forall|j: int| 0 <= j < i + 1 implies #[trigger] uuid_char_ok(out@, j) by {
                    if j < i {
                        assert(out@[j] == prev[j]);
                        assert(uuid_char_ok(prev, j));
                    } else {
                        assert(out@[j] == '-');
                    }
                }
                assert forall|j: int| 0 <= j < i + 1 && !uuid_hyphen_pos(j) implies ((48
                    <= #[trigger] out@[j] as u32 && out@[j] as u32 <= 57) || (97 <= out@[j] as u32
                    && out@[j] as u32 <= 102)) by {
                    assert(out@[j] == prev[j]);
                }
            }
        } else {
            let shift: u128 = 4 * (31 - dc as u128);
            let d: u8 = ((u >> shift) % 16) as u8;
            let c = hex_char(d);
            push_char(&mut out, c);
            proof {
                lemma_uuid_fold_prefix(prev, out@, i as int);
                if dc == 0 {
                    lemma_uuid_top_digit(u);
                } else {
                    lemma_uuid_digit_step(u, shift);
                }
                assert(out@[i as int] == c);
                assert forall|j: int| 0 <= j < i + 1 implies #[trigger] uuid_char_ok(out@, j) by {
                    if j < i {
                        assert(out@[j] == prev[j]);
                        assert(uuid_char_ok(prev, j));
                    }
                }
                assert forall|j: int| 0 <= j < i + 1 && !uuid_hyphen_pos(j) implies ((48
                    <= #[trigger] out@[j] as u32 && out@[j] as u32 <= 57) || (97 <= out@[j] as u32
                    && out@[j] as u32 <= 102)) by {
                    if j < i {
                        assert(out@[j] == prev[j]);
                    }
                }
            }
            dc = dc + 1;
        }
        i = i + 1;
    }
    proof {
        lemma_shr_zero(u);
        lemma_uuid_fold_bound(out@, 36);
        lemma_pow16_32();
    }
    out
}

} // verus!
