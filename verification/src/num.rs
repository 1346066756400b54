//! Decimal and hexadecimal text for the protocol's numeric fields: parsing an
//! 8-bit field, and rendering the zero-padded decimal and hexadecimal forms
//! used in device summaries.

use vstd::prelude::*;

verus! {

pub open spec fn is_dec_digit(c: char) -> bool {
    48 <= c as u32 <= 57
}

pub open spec fn digit_val(c: char) -> int {
    c as u32 - 48
}

/// Value of a string of decimal digits, most significant first.
pub open spec fn dec_val(s: Seq<char>) -> int
    decreases s.len(),
{
    if s.len() == 0 {
        0
    } else {
        dec_val(s.drop_last()) * 10 + digit_val(s.last())
    }
}

pub open spec fn all_dec_digits(s: Seq<char>) -> bool {
    forall|i: int| 0 <= i < s.len() ==> is_dec_digit(s[i])
}

/// The 8-bit value a textual field denotes, if any: an optional leading plus
/// sign, then at least one decimal digit, denoting at most 255.
pub open spec fn u8_field_val(t: Seq<char>) -> Option<u8> {
    let d = if t.len() > 0 && t[0] == '+' {
        t.drop_first()
    } else {
        t
    };
    if d.len() > 0 && all_dec_digits(d) && dec_val(d) <= 255 {
        Some(dec_val(d) as u8)
    } else {
        None
    }
}

pub proof fn lemma_dec_val_nonneg(s: Seq<char>)
    requires
        all_dec_digits(s),
    ensures
        dec_val(s) >= 0,
    decreases s.len(),
{
    if s.len() != 0 {
        assert(all_dec_digits(s.drop_last()));
        lemma_dec_val_nonneg(s.drop_last());
    }
}

/// Appending digits never lowers the denoted value.
pub proof fn lemma_dec_val_prefix_le(s: Seq<char>, j: int)
    requires
        all_dec_digits(s),
        0 <= j <= s.len(),
    ensures
        dec_val(s.take(j)) <= dec_val(s),
    decreases s.len() - j,
{
    if j == s.len() {
        assert(s.take(j) =~= s);
    } else {
        assert(s.take(j + 1).drop_last() =~= s.take(j));
        assert(all_dec_digits(s.take(j)));
        lemma_dec_val_nonneg(s.take(j));
        assert(dec_val(s.take(j + 1)) == dec_val(s.take(j)) * 10 + digit_val(s[j]));
        lemma_dec_val_prefix_le(s, j + 1);
    }
}

/// Reads an 8-bit unsigned value from a textual field.
pub fn parse_u8(t: &str) -> (r: Option<u8>)
    ensures
        r == u8_field_val(t@),
{
    let n = t.unicode_len();
    let start: usize = if n > 0 && t.get_char(0) == '+' {
        1
    } else {
        0
    };
    let ghost d = t@.skip(start as int);
    proof {
        if start == 0 {
            assert(d =~= t@);
        } else {
            assert(d =~= t@.drop_first());
        }
    }
    if start >= n {
        return None;
    }
    let mut v: u16 = 0;
    let mut i: usize = start;
    while i < n
        invariant
            n == t@.len(),
            start <= i <= n,
            start < n,
            start == 1 ==> t@[0] == '+',
            start == 0 ==> t@.len() == 0 || t@[0] != '+',
            start <= 1,
            d == t@.skip(start as int),
            d == (if t@.len() > 0 && t@[0] == '+' {
                t@.drop_first()
            } else {
                t@
            }),
            all_dec_digits(d.take(i - start)),
            v == dec_val(d.take(i - start)),
            v <= 255,
        decreases n - i,
    {
        let c = t.get_char(i);
        let u = c as u32;
        if u < 48 || u > 57 {
            proof {
                assert(d[i - start] == t@[i as int]);
                assert(!is_dec_digit(d[i - start]));
            }
            return None;
        }
        let dv = (u - 48) as u16;
        proof {
            assert(d.take(i - start + 1).drop_last() =~= d.take(i - start));
            assert(d.take(i - start + 1).last() == t@[i as int]);
        }
        if v * 10 + dv > 255 {
            proof {
                let w = dec_val(d.take(i - start + 1));
                assert(w == v * 10 + dv as int);
                assert(w > 255);
                if all_dec_digits(d) && dec_val(d) <= 255 {
                    lemma_dec_val_prefix_le(d, i - start + 1);
                    assert(false);
                }
            }
            return None;
        }
        v = v * 10 + dv;
        i = i + 1;
    }
    proof {
        assert(d.take(n - start) =~= d);
    }
    Some(v as u8)
}

/// The character of one decimal digit.
pub open spec fn dec_digit_char(d: int) -> char {
    if d == 0 {
        '0'
    } else if d == 1 {
        '1'
    } else if d == 2 {
        '2'
    } else if d == 3 {
        '3'
    } else if d == 4 {
        '4'
    } else if d == 5 {
        '5'
    } else if d == 6 {
        '6'
    } else if d == 7 {
        '7'
    } else if d == 8 {
        '8'
    } else {
        '9'
    }
}

/// The character of one hexadecimal digit, lower case.
pub open spec fn hex_digit_char(d: int) -> char {
    if d < 10 {
        dec_digit_char(d)
    } else if d == 10 {
        'a'
    } else if d == 11 {
        'b'
    } else if d == 12 {
        'c'
    } else if d == 13 {
        'd'
    } else if d == 14 {
        'e'
    } else {
        'f'
    }
}

/// Three decimal digits, zero padded, of an 8-bit value.
pub open spec fn dec3_of(n: u8) -> Seq<char> {
    seq![
        dec_digit_char(n as int / 100),
        dec_digit_char((n as int / 10) % 10),
        dec_digit_char(n as int % 10),
    ]
}

/// Four hexadecimal digits, zero padded, of a 16-bit value.
pub open spec fn hex4_of(n: u16) -> Seq<char> {
    seq![
        hex_digit_char(n as int / 4096),
        hex_digit_char((n as int / 256) % 16),
        hex_digit_char((n as int / 16) % 16),
        hex_digit_char(n as int % 16),
    ]
}

/// Decimal digits of a non-negative value, no padding.
pub open spec fn dec_of(n: int) -> Seq<char>
    decreases n,
{
    if 0 <= n < 10 {
        seq![dec_digit_char(n)]
    } else if n >= 10 {
        dec_of(n / 10).push(dec_digit_char(n % 10))
    } else {
        Seq::empty()
    }
}

fn push_dec_digit(s: &mut String, d: u8)
    requires
        d < 10,
    ensures
        final(s)@ == old(s)@.push(dec_digit_char(d as int)),
{
    if d == 0 {
        s.append("0");
        proof {
            reveal_strlit("0");
            assert(s@ =~= old(s)@.push('0'));
        }
    } else if d == 1 {
        s.append("1");
        proof {
            reveal_strlit("1");
            assert(s@ =~= old(s)@.push('1'));
        }
    } else if d == 2 {
        s.append("2");
        proof {
            reveal_strlit("2");
            assert(s@ =~= old(s)@.push('2'));
        }
    } else if d == 3 {
        s.append("3");
        proof {
            reveal_strlit("3");
            assert(s@ =~= old(s)@.push('3'));
        }
    } else if d == 4 {
        s.append("4");
        proof {
            reveal_strlit("4");
            assert(s@ =~= old(s)@.push('4'));
        }
    } else if d == 5 {
        s.append("5");
        proof {
            reveal_strlit("5");
            assert(s@ =~= old(s)@.push('5'));
        }
    } else if d == 6 {
        s.append("6");
        proof {
            reveal_strlit("6");
            assert(s@ =~= old(s)@.push('6'));
        }
    } else if d == 7 {
        s.append("7");
        proof {
            reveal_strlit("7");
            assert(s@ =~= old(s)@.push('7'));
        }
    } else if d == 8 {
        s.append("8");
        proof {
            reveal_strlit("8");
            assert(s@ =~= old(s)@.push('8'));
        }
    } else {
        s.append("9");
        proof {
            reveal_strlit("9");
            assert(s@ =~= old(s)@.push('9'));
        }
    }
}

fn push_hex_digit(s: &mut String, d: u8)
    requires
        d < 16,
    ensures
        final(s)@ == old(s)@.push(hex_digit_char(d as int)),
{
    if d < 10 {
        push_dec_digit(s, d);
    } else if d == 10 {
        s.append("a");
        proof {
            reveal_strlit("a");
            assert(s@ =~= old(s)@.push('a'));
        }
    } else if d == 11 {
        s.append("b");
        proof {
            reveal_strlit("b");
            assert(s@ =~= old(s)@.push('b'));
        }
    } else if d == 12 {
        s.append("c");
        proof {
            reveal_strlit("c");
            assert(s@ =~= old(s)@.push('c'));
        }
    } else if d == 13 {
        s.append("d");
        proof {
            reveal_strlit("d");
            assert(s@ =~= old(s)@.push('d'));
        }
    } else if d == 14 {
        s.append("e");
        proof {
            reveal_strlit("e");
            assert(s@ =~= old(s)@.push('e'));
        }
    } else {
        s.append("f");
        proof {
            reveal_strlit("f");
            assert(s@ =~= old(s)@.push('f'));
        }
    }
}

/// Appends the three-digit decimal form of an 8-bit value.
pub fn append_dec3(s: &mut String, n: u8)
    ensures
        final(s)@ == old(s)@ + dec3_of(n),
{
    push_dec_digit(s, n / 100);
    push_dec_digit(s, (n / 10) % 10);
    push_dec_digit(s, n % 10);
    proof {
        assert(s@ =~= old(s)@ + dec3_of(n));
    }
}

/// Appends the four-digit hexadecimal form of a 16-bit value.
pub fn append_hex4(s: &mut String, n: u16)
    ensures
        final(s)@ == old(s)@ + hex4_of(n),
{
    push_hex_digit(s, (n / 4096) as u8);
    push_hex_digit(s, ((n / 256) % 16) as u8);
    push_hex_digit(s, ((n / 16) % 16) as u8);
    push_hex_digit(s, (n % 16) as u8);
    proof {
        assert(s@ =~= old(s)@ + hex4_of(n));
    }
}

/// Appends the decimal form of a value, no padding.
pub fn append_dec(s: &mut String, n: u64)
    ensures
        final(s)@ == old(s)@ + dec_of(n as int),
    decreases n,
{
    if n < 10 {
        push_dec_digit(s, n as u8);
        proof {
            assert(s@ =~= old(s)@ + dec_of(n as int));
        }
    } else {
        append_dec(s, n / 10);
        push_dec_digit(s, (n % 10) as u8);
        proof {
            assert(s@ =~= old(s)@ + dec_of(n as int));
        }
    }
}

} // verus!
