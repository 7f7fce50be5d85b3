//! Percent-encoding of query keys and values, per standard URL encoding:
//! unreserved characters stand as themselves, every other character as the
//! `%`-escaped hexadecimal bytes of its UTF-8 encoding.

use vstd::prelude::*;
use vstd::string::StrSliceExecFns;
use vstd::string::StringExecFns;
use vstd::utf8::encode_scalar;

verus! {

/// The characters standard URL encoding leaves as they are.
pub open spec fn is_unreserved(c: char) -> bool {
    ('A' <= c && c <= 'Z') || ('a' <= c && c <= 'z') || ('0' <= c && c <= '9') || c == '-' || c
        == '_' || c == '.' || c == '~'
}

/// The character for one hexadecimal digit, upper case.
pub open spec fn hex_digit_char(d: int) -> char {
    if d == 0 {
        '0'
    } else if d == 1 {
        '1'
    } else if d == 2 {
        '2'
    } else if d == 3 {
        '3'
    } else if d == 4 {
        '4'
    } else if d == 5 {
        '5'
    } else if d == 6 {
        '6'
    } else if d == 7 {
        '7'
    } else if d == 8 {
        '8'
    } else if d == 9 {
        '9'
    } else if d == 10 {
        'A'
    } else if d == 11 {
        'B'
    } else if d == 12 {
        'C'
    } else if d == 13 {
        'D'
    } else if d == 14 {
        'E'
    } else {
        'F'
    }
}

/// One byte escaped: `%` and the byte's two hexadecimal digits.
pub open spec fn pct_byte(b: u8) -> Seq<char> {
    seq!['%', hex_digit_char(b as int / 16), hex_digit_char(b as int % 16)]
}

/// A byte sequence with every byte escaped.
pub open spec fn pct_bytes(bs: Seq<u8>) -> Seq<char>
    decreases bs.len(),
{
    if bs.len() == 0 {
        Seq::empty()
    } else {
        pct_byte(bs[0]) + pct_bytes(bs.drop_first())
    }
}

/// One character percent-encoded: an unreserved character stands as
/// itself, any other as the escaped bytes of its UTF-8 encoding.
pub open spec fn pct_char(c: char) -> Seq<char> {
    if is_unreserved(c) {
        seq![c]
    } else {
        pct_bytes(encode_scalar(c as u32))
    }
}

/// A text percent-encoded character by character.
pub open spec fn pct_encoded(s: Seq<char>) -> Seq<char>
    decreases s.len(),
{
    if s.len() == 0 {
        Seq::empty()
    } else {
        pct_char(s[0]) + pct_encoded(s.drop_first())
    }
}

fn is_unreserved_exec(c: char) -> (r: bool)
    ensures
        r == is_unreserved(c),
{
    ('A' <= c && c <= 'Z') || ('a' <= c && c <= 'z') || ('0' <= c && c <= '9') || c == '-' || c
        == '_' || c == '.' || c == '~'
}

fn hex_str(d: u8) -> (r: &'static str)
    requires
        d < 16,
    ensures
        r@ == seq![hex_digit_char(d as int)],
{
    match d {
        0 => {
            proof {
                reveal_strlit("0");
                assert("0"@ =~= seq!['0']);
            }
            "0"
        },
        1 => {
            proof {
                reveal_strlit("1");
                assert("1"@ =~= seq!['1']);
            }
            "1"
        },
        2 => {
            proof {
                reveal_strlit("2");
                assert("2"@ =~= seq!['2']);
            }
            "2"
        },
        3 => {
            proof {
                reveal_strlit("3");
                assert("3"@ =~= seq!['3']);
            }
            "3"
        },
        4 => {
            proof {
                reveal_strlit("4");
                assert("4"@ =~= seq!['4']);
            }
            "4"
        },
        5 => {
            proof {
                reveal_strlit("5");
                assert("5"@ =~= seq!['5']);
            }
            "5"
        },
        6 => {
            proof {
                reveal_strlit("6");
                assert("6"@ =~= seq!['6']);
            }
            "6"
        },
        7 => {
            proof {
                reveal_strlit("7");
                assert("7"@ =~= seq!['7']);
            }
            "7"
        },
        8 => {
            proof {
                reveal_strlit("8");
                assert("8"@ =~= seq!['8']);
            }
            "8"
        },
        9 => {
            proof {
                reveal_strlit("9");
                assert("9"@ =~= seq!['9']);
            }
            "9"
        },
        10 => {
            proof {
                reveal_strlit("A");
                assert("A"@ =~= seq!['A']);
            }
            "A"
        },
        11 => {
            proof {
                reveal_strlit("B");
                assert("B"@ =~= seq!['B']);
            }
            "B"
        },
        12 => {
            proof {
                reveal_strlit("C");
                assert("C"@ =~= seq!['C']);
            }
            "C"
        },
        13 => {
            proof {
                reveal_strlit("D");
                assert("D"@ =~= seq!['D']);
            }
            "D"
        },
        14 => {
            proof {
                reveal_strlit("E");
                assert("E"@ =~= seq!['E']);
            }
            "E"
        },
        _ => {
            proof {
                reveal_strlit("F");
                assert("F"@ =~= seq!['F']);
            }
            "F"
        },
    }
}

/// Appends one escaped byte.
fn push_pct_byte(out: &mut String, b: u8)
    ensures
        final(out)@ == old(out)@ + pct_byte(b),
{
    out.append("%");
    out.append(hex_str(b / 16));
    out.append(hex_str(b % 16));
    proof {
        reveal_strlit("%");
        assert(out@ =~= old(out)@ + pct_byte(b));
    }
}

/// Appends the escaped UTF-8 bytes of one character.
fn push_encoded_char(out: &mut String, c: char)
    ensures
        final(out)@ == old(out)@ + pct_bytes(encode_scalar(c as u32)),
{
    let v = c as u32;
    let ghost bs = encode_scalar(c as u32);
    if v < 0x80 {
        let b0 = (v & 0x7F) as u8;
        push_pct_byte(out, b0);
        proof {
            reveal_with_fuel(pct_bytes, 3);
            assert(bs == seq![b0]);
            assert(seq![b0].drop_first() =~= Seq::<u8>::empty());
            assert(out@ =~= old(out)@ + pct_bytes(bs));
        }
    } else if v < 0x800 {
        let b0 = 0xC0 | (((v >> 6) & 0x1F) as u8);
        let b1 = 0x80 | ((v & 0x3F) as u8);
        push_pct_byte(out, b0);
        push_pct_byte(out, b1);
        proof {
            reveal_with_fuel(pct_bytes, 4);
            assert(bs == seq![b0, b1]);
            assert(seq![b0, b1].drop_first() =~= seq![b1]);
            assert(seq![b1].drop_first() =~= Seq::<u8>::empty());
            assert(out@ =~= old(out)@ + pct_bytes(bs));
        }
    } else if v < 0x10000 {
        let b0 = 0xE0 | (((v >> 12) & 0x0F) as u8);
        let b1 = 0x80 | (((v >> 6) & 0x3F) as u8);
        let b2 = 0x80 | ((v & 0x3F) as u8);
        push_pct_byte(out, b0);
        push_pct_byte(out, b1);
        push_pct_byte(out, b2);
        proof {
            reveal_with_fuel(pct_bytes, 5);
            assert(bs == seq![b0, b1, b2]);
            assert(seq![b0, b1, b2].drop_first() =~= seq![b1, b2]);
            assert(seq![b1, b2].drop_first() =~= seq![b2]);
            assert(seq![b2].drop_first() =~= Seq::<u8>::empty());
            assert(out@ =~= old(out)@ + pct_bytes(bs));
        }
    } else {
        let b0 = 0xF0 | (((v >> 18) & 0x7) as u8);
        let b1 = 0x80 | (((v >> 12) & 0x3F) as u8);
        let b2 = 0x80 | (((v >> 6) & 0x3F) as u8);
        let b3 = 0x80 | ((v & 0x3F) as u8);
        push_pct_byte(out, b0);
        push_pct_byte(out, b1);
        push_pct_byte(out, b2);
        push_pct_byte(out, b3);
        proof {
            reveal_with_fuel(pct_bytes, 6);
            assert(bs == seq![b0, b1, b2, b3]);
            assert(seq![b0, b1, b2, b3].drop_first() =~= seq![b1, b2, b3]);
            assert(seq![b1, b2, b3].drop_first() =~= seq![b2, b3]);
            assert(seq![b2, b3].drop_first() =~= seq![b3]);
            assert(seq![b3].drop_first() =~= Seq::<u8>::empty());
            assert(out@ =~= old(out)@ + pct_bytes(bs));
        }
    }
}

/// Appends the percent-encoding of `s`.
pub(crate) fn append_encoded(out: &mut String, s: &str)
    ensures
        final(out)@ == old(out)@ + pct_encoded(s@),
{
    let n = s.unicode_len();
    proof {
        assert(s@.skip(0) =~= s@);
    }
    let mut i: usize = 0;
    while i < n
        invariant
            i <= n,
            n == s@.len(),
            out@ + pct_encoded(s@.skip(i as int)) == old(out)@ + pct_encoded(s@),
        decreases n - i,
    {
        let ghost pre = out@;
        let ghost tail = s@.skip(i as int);
        proof {
            assert(tail.drop_first() =~= s@.skip(i as int + 1));
            assert(tail[0] == s@[i as int]);
        }
        let c = s.get_char(i);
        if is_unreserved_exec(c) {
            let piece = s.substring_char(i, i + 1);
            out.append(piece);
            proof {
                assert(piece@ =~= seq![c]);
            }
        } else {
            push_encoded_char(out, c);
        }
        proof {
            assert(out@ + pct_encoded(s@.skip(i as int + 1)) =~= pre + pct_encoded(tail));
        }
        i = i + 1;
    }
    proof {
        assert(s@.skip(n as int) =~= Seq::<char>::empty());
        assert(out@ + pct_encoded(s@.skip(n as int)) =~= out@);
    }
}

/// Percent-encodes a text.
pub fn percent_encode(s: &str) -> (r: String)
    ensures
        r@ == pct_encoded(s@),
{
    let mut out = String::new();
    append_encoded(&mut out, s);
    proof {
        assert(Seq::<char>::empty() + pct_encoded(s@) =~= pct_encoded(s@));
    }
    out
}

} // verus!
