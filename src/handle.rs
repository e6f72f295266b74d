//! Handles: 32-bit identifiers written as hexadecimal text.

use vstd::prelude::*;
use vstd::string::{StrSliceExecFns, StringExecFns};
use crate::code_pair::{CodePair, DxfError, PairView, emit, pairs_view, str_pair};

verus! {

/// The value of a hexadecimal digit, or -1 for any other character.
pub open spec fn hex_digit_value(c: char) -> int {
    if '0' <= c && c <= '9' {
        c as int - '0' as int
    } else if 'a' <= c && c <= 'f' {
        c as int - 'a' as int + 10
    } else if 'A' <= c && c <= 'F' {
        c as int - 'A' as int + 10
    } else {
        -1
    }
}

/// The number that a run of hexadecimal digits denotes, most significant first.
pub open spec fn hex_value(s: Seq<char>) -> int
    decreases s.len(),
{
    if s.len() == 0 {
        0
    } else {
        hex_value(s.drop_last()) * 16 + hex_digit_value(s.last())
    }
}

/// Whether `s` is a handle: one or more hexadecimal digits denoting a number
/// that fits in 32 bits.
pub open spec fn is_handle_text(s: Seq<char>) -> bool {
    &&& s.len() > 0
    &&& forall|i: int| 0 <= i < s.len() ==> hex_digit_value(#[trigger] s[i]) >= 0
    &&& hex_value(s) <= u32::MAX
}

/// The upper-case digit of a number below sixteen.
pub open spec fn upper_hex_digit(d: nat) -> char {
    if d < 10 {
        (('0' as nat) + d) as char
    } else {
        (('A' as nat) + d - 10) as char
    }
}

/// Upper-case hexadecimal text of `n` without leading zeros ("0" for zero).
pub open spec fn hex_text(n: nat) -> Seq<char>
    decreases n,
{
    if n < 16 {
        seq![upper_hex_digit(n)]
    } else {
        hex_text(n / 16).push(upper_hex_digit(n % 16))
    }
}

/// Writing a handle as text and parsing it back gives the handle.
pub proof fn lemma_handle_text_round_trip(n: nat)
    ensures
        forall|i: int|
            0 <= i < hex_text(n).len() ==> hex_digit_value(#[trigger] hex_text(n)[i]) >= 0,
        hex_value(hex_text(n)) == n,
        hex_text(n).len() > 0,
    decreases n,
{
    let d = n % 16;
    assert(hex_digit_value(upper_hex_digit(d)) == d);
    if n >= 16 {
        lemma_handle_text_round_trip(n / 16);
        let t = hex_text(n);
        assert(t.drop_last() == hex_text(n / 16));
        assert(t.last() == upper_hex_digit(d));
        assert(hex_value(t) == hex_value(hex_text(n / 16)) * 16 + d);
        assert(n == (n / 16) * 16 + d);
        assert forall|i: int| 0 <= i < t.len() implies hex_digit_value(#[trigger] t[i]) >= 0 by {
            if i < t.len() - 1 {
                assert(t[i] == hex_text(n / 16)[i]);
            }
        }
    } else {
        assert(hex_text(n).drop_last() == Seq::<char>::empty());
        assert(hex_text(n).last() == upper_hex_digit(d));
        assert(hex_value(Seq::<char>::empty()) == 0);
    }
}

/// Parses a handle written as hexadecimal text.
pub fn as_u32(s: String) -> (r: Result<u32, DxfError>)
    ensures
        is_handle_text(s@) ==> r == Ok::<u32, DxfError>(hex_value(s@) as u32),
        !is_handle_text(s@) ==> r == Err::<u32, DxfError>(DxfError::ParseIntError(s)),
{
    let n = s.as_str().unicode_len();
    if n == 0 {
        return Err(DxfError::ParseIntError(s));
    }
    let mut acc: u64 = 0;
    let mut i: usize = 0;
    while i < n
        invariant
            n == s@.len(),
            i <= n,
            acc == hex_value(s@.subrange(0, i as int)),
            acc <= u32::MAX,
            forall|j: int| 0 <= j < i ==> hex_digit_value(#[trigger] s@[j]) >= 0,
        decreases n - i,
    {
        let c = s.as_str().get_char(i);
        let d: u64 = if '0' <= c && c <= '9' {
            (c as u64) - ('0' as u64)
        } else if 'a' <= c && c <= 'f' {
            (c as u64) - ('a' as u64) + 10
        } else if 'A' <= c && c <= 'F' {
            (c as u64) - ('A' as u64) + 10
        } else {
            proof {
                assert(!is_handle_text(s@));
            }
            return Err(DxfError::ParseIntError(s));
        };
        let ghost prefix = s@.subrange(0, i as int + 1);
        assert(prefix.drop_last() == s@.subrange(0, i as int));
        assert(prefix.last() == c);
        if acc > 0x0FFF_FFFF || acc * 16 + d > 0xFFFF_FFFF {
            proof {
                // every longer prefix is at least as large
                lemma_prefix_growth(s@, i as int + 1);
            }
            return Err(DxfError::ParseIntError(s));
        }
        acc = acc * 16 + d;
        i = i + 1;
    }
    assert(s@.subrange(0, n as int) == s@);
    Ok(acc as u32)
}

proof fn lemma_prefix_growth(s: Seq<char>, k: int)
    requires
        0 < k <= s.len(),
        forall|j: int| 0 <= j < k ==> hex_digit_value(#[trigger] s[j]) >= 0,
        hex_value(s.subrange(0, k)) > u32::MAX,
    ensures
        !is_handle_text(s),
    decreases s.len() - k,
{
    if k < s.len() {
        if hex_digit_value(s[k]) >= 0 {
            let p = s.subrange(0, k + 1);
            assert(p.drop_last() == s.subrange(0, k));
            assert(p.last() == s[k]);
            lemma_prefix_growth(s, k + 1);
        }
    } else {
        assert(s.subrange(0, k) == s);
    }
}

/// The upper-case digit of a number below sixteen, as text.
fn hex_digit_text(d: u32) -> (r: &'static str)
    requires
        d < 16,
    ensures
        r@ == seq![upper_hex_digit(d as nat)],
{
    match d {
        0 => {
            proof {
                reveal_strlit("0");
            }
            assert("0"@ =~= seq![upper_hex_digit(0)]);
            "0"
        },
        1 => {
            proof {
                reveal_strlit("1");
            }
            assert("1"@ =~= seq![upper_hex_digit(1)]);
            "1"
        },
        2 => {
            proof {
                reveal_strlit("2");
            }
            assert("2"@ =~= seq![upper_hex_digit(2)]);
            "2"
        },
        3 => {
            proof {
                reveal_strlit("3");
            }
            assert("3"@ =~= seq![upper_hex_digit(3)]);
            "3"
        },
        4 => {
            proof {
                reveal_strlit("4");
            }
            assert("4"@ =~= seq![upper_hex_digit(4)]);
            "4"
        },
        5 => {
            proof {
                reveal_strlit("5");
            }
            assert("5"@ =~= seq![upper_hex_digit(5)]);
            "5"
        },
        6 => {
            proof {
                reveal_strlit("6");
            }
            assert("6"@ =~= seq![upper_hex_digit(6)]);
            "6"
        },
        7 => {
            proof {
                reveal_strlit("7");
            }
            assert("7"@ =~= seq![upper_hex_digit(7)]);
            "7"
        },
        8 => {
            proof {
                reveal_strlit("8");
            }
            assert("8"@ =~= seq![upper_hex_digit(8)]);
            "8"
        },
        9 => {
            proof {
                reveal_strlit("9");
            }
            assert("9"@ =~= seq![upper_hex_digit(9)]);
            "9"
        },
        10 => {
            proof {
                reveal_strlit("A");
            }
            assert("A"@ =~= seq![upper_hex_digit(10)]);
            "A"
        },
        11 => {
            proof {
                reveal_strlit("B");
            }
            assert("B"@ =~= seq![upper_hex_digit(11)]);
            "B"
        },
        12 => {
            proof {
                reveal_strlit("C");
            }
            assert("C"@ =~= seq![upper_hex_digit(12)]);
            "C"
        },
        13 => {
            proof {
                reveal_strlit("D");
            }
            assert("D"@ =~= seq![upper_hex_digit(13)]);
            "D"
        },
        14 => {
            proof {
                reveal_strlit("E");
            }
            assert("E"@ =~= seq![upper_hex_digit(14)]);
            "E"
        },
        _ => {
            proof {
                reveal_strlit("F");
            }
            assert("F"@ =~= seq![upper_hex_digit(15)]);
            "F"
        },
    }
}

/// Upper-case hexadecimal text of `n` without leading zeros.
fn upper_hex(n: u32) -> (r: String)
    ensures
        r@ == hex_text(n as nat),
    decreases n,
{
    if n < 16 {
        String::from_str(hex_digit_text(n))
    } else {
        let mut s = upper_hex(n / 16);
        s.append(hex_digit_text(n % 16));
        s
    }
}

/// The text that stores a handle.
pub fn handle_text(h: u32) -> (r: String)
    ensures
        r@ == hex_text(h as nat),
        is_handle_text(r@),
        hex_value(r@) == h,
{
    let r = upper_hex(h);
    proof {
        lemma_handle_text_round_trip(h as nat);
    }
    r
}

/// One pair per handle, in order, each holding the handle's text.
pub open spec fn handle_pairs(code: int, hs: Seq<u32>) -> Seq<PairView>
    decreases hs.len(),
{
    if hs.len() == 0 {
        Seq::empty()
    } else {
        handle_pairs(code, hs.drop_last()).push(str_pair(code, hex_text(hs.last() as nat)))
    }
}

/// Appends one pair per handle.
pub fn emit_handles(out: &mut Vec<CodePair>, code: i32, hs: &Vec<u32>)
    ensures
        pairs_view(final(out)@) == pairs_view(old(out)@) + handle_pairs(code as int, hs@),
{
    let ghost start = pairs_view(out@);
    let mut i: usize = 0;
    while i < hs.len()
        invariant
            i <= hs@.len(),
            pairs_view(out@) == start + handle_pairs(code as int, hs@.take(i as int)),
        decreases hs@.len() - i,
    {
        emit(out, CodePair::new_str(code, handle_text(hs[i])));
        assert(hs@.take(i as int + 1).drop_last() == hs@.take(i as int));
        i = i + 1;
        assert(pairs_view(out@) =~= start + handle_pairs(code as int, hs@.take(i as int)));
    }
    assert(hs@.take(i as int) == hs@);
}

} // verus!
