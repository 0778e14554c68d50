//! Display colors for the presentation layer: a hex code, an RGB triple or
//! a raw integer, all reduced to the single integer the chat platform
//! expects. The hex form parses the code itself (any `#` ignored); a code
//! that is empty, holds a non-hex character, or overflows 32 bits reduces
//! to 0.

use vstd::prelude::*;

verus! {

/// A display color.
#[derive(Debug, Clone, PartialEq, Eq)]
pub enum Color {
    Hex(String),
    Rgb(u32, u32, u32),
    Integer(u32),
}

/// The value of one hex digit, or -1 for any other character.
pub open spec fn hex_digit_val(c: char) -> int {
    if '0' <= c && c <= '9' {
        c as int - '0' as int
    } else if 'a' <= c && c <= 'f' {
        10 + c as int - 'a' as int
    } else if 'A' <= c && c <= 'F' {
        10 + c as int - 'A' as int
    } else {
        -1
    }
}

/// The characters with every `#` removed, in order.
pub open spec fn without_hash(s: Seq<char>) -> Seq<char>
    decreases s.len(),
{
    if s.len() == 0 {
        Seq::empty()
    } else if s.last() == '#' {
        without_hash(s.drop_last())
    } else {
        without_hash(s.drop_last()).push(s.last())
    }
}

/// A non-empty sequence of valid hex digits.
pub open spec fn hex_digits_ok(s: Seq<char>) -> bool {
    s.len() > 0 && forall|j: int| 0 <= j < s.len() ==> hex_digit_val(#[trigger] s[j]) >= 0
}

/// The number the hex digits spell, most significant first.
pub open spec fn hex_val(s: Seq<char>) -> int
    decreases s.len(),
{
    if s.len() == 0 {
        0
    } else {
        hex_val(s.drop_last()) * 16 + hex_digit_val(s.last())
    }
}

/// What a hex color code is worth: its digits' value with `#` ignored, or 0
/// when the code is empty, invalid, or beyond 32 bits.
pub open spec fn hex_color_value(s: Seq<char>) -> int {
    let d = without_hash(s);
    if hex_digits_ok(d) && hex_val(d) <= u32::MAX {
        hex_val(d)
    } else {
        0
    }
}

/// The single integer each color form reduces to.
pub open spec fn color_value_spec(c: Color) -> int {
    match c {
        Color::Hex(code) => hex_color_value(code@),
        Color::Rgb(r, g, b) => r * 65536 + g * 256 + b,
        Color::Integer(i) => i as int,
    }
}

/// A character that is not `#` survives the stripping.
proof fn lemma_without_hash_keeps(s: Seq<char>, i: int)
    requires
        0 <= i < s.len(),
        s[i] != '#',
    ensures
        exists|k: int| 0 <= k < without_hash(s).len() && #[trigger] without_hash(s)[k] == s[i],
    decreases s.len(),
{
    if i == s.len() - 1 {
        assert(without_hash(s)[without_hash(s).len() - 1] == s[i]);
    } else {
        lemma_without_hash_keeps(s.drop_last(), i);
        let k = choose|k: int|
            0 <= k < without_hash(s.drop_last()).len() && #[trigger] without_hash(s.drop_last())[k]
                == s.drop_last()[i];
        assert(without_hash(s)[k] == s[i]);
    }
}

/// Parses a hex color code, ignoring `#`: the digits' value, or 0 when the
/// code is empty, invalid or beyond 32 bits.
fn parse_hex_color(s: &str) -> (r: u32)
    ensures
        r as int == hex_color_value(s@),
{
    if !s.is_ascii() {
        proof {
            let i = choose|i: int| 0 <= i < s@.len() && !('\0' <= #[trigger] s@[i] <= '\u{7f}');
            assert(s@[i] != '#');
            lemma_without_hash_keeps(s@, i);
        }
        return 0;
    }
    let bytes = s.as_bytes();
    proof {
        vstd::string::is_ascii_spec_bytes(s);
        vstd::utf8::is_ascii_chars_nat_bound(s@);
    }
    let n = bytes.len();
    let mut val: u64 = 0;
    let mut over = false;
    let mut valid = true;
    let mut any = false;
    let mut i: usize = 0;
    while i < n
        invariant
            vstd::utf8::is_ascii_chars(s@),
            bytes@.len() == s@.len(),
            n == s@.len(),
            forall|k: int| 0 <= k < s@.len() ==> #[trigger] bytes@[k] == s@[k] as u8,
            forall|k: int| 0 <= k < s@.len() ==> ((#[trigger] s@[k]) as nat) < 128,
            i <= n,
            any <==> without_hash(s@.take(i as int)).len() > 0,
            valid <==> (forall|j: int|
                0 <= j < without_hash(s@.take(i as int)).len() ==> hex_digit_val(
                    #[trigger] without_hash(s@.take(i as int))[j],
                ) >= 0),
            valid ==> hex_val(without_hash(s@.take(i as int))) >= 0,
            valid && !over ==> val as int == hex_val(without_hash(s@.take(i as int))) && val
                <= u32::MAX as u64,
            valid && over ==> hex_val(without_hash(s@.take(i as int))) > u32::MAX,
        decreases n - i,
    {
        let ghost old_st = without_hash(s@.take(i as int));
        let ghost new_st = without_hash(s@.take(i as int + 1));
        proof {
            assert(s@.take(i as int + 1).drop_last() =~= s@.take(i as int));
            assert(s@.take(i as int + 1).last() == s@[i as int]);
            if s@[i as int] == '#' {
                assert(new_st == old_st);
            } else {
                assert(new_st == old_st.push(s@[i as int]));
                assert(new_st.drop_last() =~= old_st);
                assert(hex_val(new_st) == hex_val(old_st) * 16 + hex_digit_val(s@[i as int]));
            }
        }
        let b = bytes[i];
        proof {
            assert(s@[i as int] as u8 == b);
            assert(s@[i as int] as int == b as int);
        }
        if b != 35 {
            // Not '#': this character must be a hex digit.
            let d: i32 = if 48 <= b && b <= 57 {
                (b - 48) as i32
            } else if 97 <= b && b <= 102 {
                (b - 97) as i32 + 10
            } else if 65 <= b && b <= 70 {
                (b - 65) as i32 + 10
            } else {
                -1
            };
            proof {
                assert(d as int == hex_digit_val(s@[i as int]));
                assert(new_st[old_st.len() as int] == s@[i as int]);
                if !valid {
                    let jb = choose|j: int|
                        0 <= j < old_st.len() && hex_digit_val(#[trigger] old_st[j]) < 0;
                    assert(new_st[jb] == old_st[jb]);
                    assert(hex_digit_val(new_st[jb]) < 0);
                }
            }
            if d < 0 {
                valid = false;
            } else if valid && !over {
                val = val * 16 + d as u64;
                if val > u32::MAX as u64 {
                    over = true;
                }
            }
            any = true;
        }
        i = i + 1;
    }
    proof {
        assert(s@.take(n as int) =~= s@);
    }
    if !valid || over || !any {
        0
    } else {
        val as u32
    }
}

impl Color {
    /// RGB channels stay within a byte.
    pub open spec fn rgb_ok(self) -> bool {
        match self {
            Color::Rgb(r, g, b) => r <= 255 && g <= 255 && b <= 255,
            _ => true,
        }
    }

    /// The single integer the chat platform expects for this color.
    pub fn to_u32(&self) -> (r: u32)
        requires
            self.rgb_ok(),
        ensures
            r as int == color_value_spec(*self),
    {
        match self {
            Color::Hex(code) => parse_hex_color(code.as_str()),
            Color::Rgb(r, g, b) => *r * 65536 + *g * 256 + *b,
            Color::Integer(i) => *i,
        }
    }
}

} // verus!
