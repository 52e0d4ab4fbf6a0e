//! Room codes typed in the lobby: letters and digits only, upper case, at
//! most eight characters.

use vstd::prelude::*;
use vstd::string::*;

verus! {

/// Longest room code.
pub const ROOM_CODE_MAX: usize = 8;

pub open spec fn spec_is_alnum(c: char) -> bool {
    ('0' <= c && c <= '9') || ('A' <= c && c <= 'Z') || ('a' <= c && c <= 'z')
}

/// Upper case of an ASCII letter; other characters are kept.
pub open spec fn spec_upper(c: char) -> char {
    if 'a' <= c && c <= 'z' {
        ((c as u32) - 32) as char
    } else {
        c
    }
}

/// The code characters kept from `s`, upper-cased, before the length cap.
pub open spec fn kept_code_chars(s: Seq<char>) -> Seq<char>
    decreases s.len(),
{
    if s.len() == 0 {
        Seq::empty()
    } else {
        let r = kept_code_chars(s.drop_last());
        if spec_is_alnum(s.last()) {
            r.push(spec_upper(s.last()))
        } else {
            r
        }
    }
}

/// The room code read from `s`: its letters and digits, upper-cased, at
/// most `ROOM_CODE_MAX` of them.
pub open spec fn spec_normalized_code(s: Seq<char>) -> Seq<char> {
    let k = kept_code_chars(s);
    if k.len() <= ROOM_CODE_MAX {
        k
    } else {
        k.take(ROOM_CODE_MAX as int)
    }
}

/// The room-code character for `c`, if `c` is a letter or digit.
pub fn normalize_room_code_char(value: char) -> (r: Option<char>)
    ensures
        spec_is_alnum(value) ==> r == Some(spec_upper(value)),
        !spec_is_alnum(value) ==> r is None,
{
    if '0' <= value && value <= '9' {
        Some(value)
    } else if 'A' <= value && value <= 'Z' {
        Some(value)
    } else if 'a' <= value && value <= 'z' {
        let code = value as u32 - 32;
        let upper = char_from_ascii(code);
        Some(upper)
    } else {
        None
    }
}

fn char_from_ascii(code: u32) -> (c: char)
    requires
        65 <= code <= 90,
    ensures
        c == code as char,
{
    let b = code as u8;
    b as char
}

/// The one-character text of a code character (`c` is a letter or digit;
/// letters come out upper-cased).
pub fn code_char_str(c: char) -> (s: &'static str)
    requires
        spec_is_alnum(c),
    ensures
        s@ == seq![spec_upper(c)],
{
    if c == '0' {
        proof {
            reveal_strlit("0");
        }
        "0"
    } else if c == '1' {
        proof {
            reveal_strlit("1");
        }
        "1"
    } else if c == '2' {
        proof {
            reveal_strlit("2");
        }
        "2"
    } else if c == '3' {
        proof {
            reveal_strlit("3");
        }
        "3"
    } else if c == '4' {
        proof {
            reveal_strlit("4");
        }
        "4"
    } else if c == '5' {
        proof {
            reveal_strlit("5");
        }
        "5"
    } else if c == '6' {
        proof {
            reveal_strlit("6");
        }
        "6"
    } else if c == '7' {
        proof {
            reveal_strlit("7");
        }
        "7"
    } else if c == '8' {
        proof {
            reveal_strlit("8");
        }
        "8"
    } else if c == '9' {
        proof {
            reveal_strlit("9");
        }
        "9"
    } else if c == 'A' || c == 'a' {
        proof {
            reveal_strlit("A");
        }
        "A"
    } else if c == 'B' || c == 'b' {
        proof {
            reveal_strlit("B");
        }
        "B"
    } else if c == 'C' || c == 'c' {
        proof {
            reveal_strlit("C");
        }
        "C"
    } else if c == 'D' || c == 'd' {
        proof {
            reveal_strlit("D");
        }
        "D"
    } else if c == 'E' || c == 'e' {
        proof {
            reveal_strlit("E");
        }
        "E"
    } else if c == 'F' || c == 'f' {
        proof {
            reveal_strlit("F");
        }
        "F"
    } else if c == 'G' || c == 'g' {
        proof {
            reveal_strlit("G");
        }
        "G"
    } else if c == 'H' || c == 'h' {
        proof {
            reveal_strlit("H");
        }
        "H"
    } else if c == 'I' || c == 'i' {
        proof {
            reveal_strlit("I");
        }
        "I"
    } else if c == 'J' || c == 'j' {
        proof {
            reveal_strlit("J");
        }
        "J"
    } else if c == 'K' || c == 'k' {
        proof {
            reveal_strlit("K");
        }
        "K"
    } else if c == 'L' || c == 'l' {
        proof {
            reveal_strlit("L");
        }
        "L"
    } else if c == 'M' || c == 'm' {
        proof {
            reveal_strlit("M");
        }
        "M"
    } else if c == 'N' || c == 'n' {
        proof {
            reveal_strlit("N");
        }
        "N"
    } else if c == 'O' || c == 'o' {
        proof {
            reveal_strlit("O");
        }
        "O"
    } else if c == 'P' || c == 'p' {
        proof {
            reveal_strlit("P");
        }
        "P"
    } else if c == 'Q' || c == 'q' {
        proof {
            reveal_strlit("Q");
        }
        "Q"
    } else if c == 'R' || c == 'r' {
        proof {
            reveal_strlit("R");
        }
        "R"
    } else if c == 'S' || c == 's' {
        proof {
            reveal_strlit("S");
        }
        "S"
    } else if c == 'T' || c == 't' {
        proof {
            reveal_strlit("T");
        }
        "T"
    } else if c == 'U' || c == 'u' {
        proof {
            reveal_strlit("U");
        }
        "U"
    } else if c == 'V' || c == 'v' {
        proof {
            reveal_strlit("V");
        }
        "V"
    } else if c == 'W' || c == 'w' {
        proof {
            reveal_strlit("W");
        }
        "W"
    } else if c == 'X' || c == 'x' {
        proof {
            reveal_strlit("X");
        }
        "X"
    } else if c == 'Y' || c == 'y' {
        proof {
            reveal_strlit("Y");
        }
        "Y"
    } else if c == 'Z' || c == 'z' {
        proof {
            reveal_strlit("Z");
        }
        "Z"
    } else {
        proof {
            reveal_strlit("Z");
        }
        "Z"
    }
}

/// The room code read from `raw`.
pub fn normalize_room_code_text(raw: &str) -> (s: String)
    ensures
        s@ == spec_normalized_code(raw@),
        s@.len() <= ROOM_CODE_MAX,
        forall|i: int| 0 <= i < s@.len() ==> is_code_char(#[trigger] s@[i]),
        spec_normalized_code(s@) == s@,
{
    proof {
        law_room_code_normal_form(raw@);
    }
    let n = raw.unicode_len();
    let mut out = String::new();
    let mut count: usize = 0;
    let mut i: usize = 0;
    while i < n
        invariant
            n == raw@.len(),
            0 <= i <= n,
            count == out@.len(),
            out@ == spec_normalized_code(raw@.take(i as int)),
        decreases n - i,
    {
        let c = raw.get_char(i);
        proof {
            assert(raw@.take(i + 1).drop_last() =~= raw@.take(i as int));
            assert(raw@.take(i + 1).last() == c);
        }
        if count < ROOM_CODE_MAX {
            match normalize_room_code_char(c) {
                Some(_) => {
                    out.append(code_char_str(c));
                    count = count + 1;
                },
                None => {},
            }
        }
        i = i + 1;
        proof {
            let k_prev = kept_code_chars(raw@.take(i - 1));
            let k = kept_code_chars(raw@.take(i as int));
            if k_prev.len() >= ROOM_CODE_MAX as int {
                if spec_is_alnum(c) {
                    assert(k.take(ROOM_CODE_MAX as int) =~= k_prev.take(ROOM_CODE_MAX as int));
                }
            }
        }
    }
    proof {
        assert(raw@.take(n as int) =~= raw@);
    }
    out
}

/// Whether a string holds no character.
pub fn is_empty_text(s: &String) -> (r: bool)
    ensures
        r == (s@.len() == 0),
{
    s.as_str().unicode_len() == 0
}


/// A character that may stand in a room code: an upper-case letter or a
/// digit.
pub open spec fn is_code_char(c: char) -> bool {
    ('0' <= c && c <= '9') || ('A' <= c && c <= 'Z')
}

proof fn lemma_kept_chars_are_code_chars(s: Seq<char>)
    ensures
        forall|i: int| 0 <= i < kept_code_chars(s).len() ==> is_code_char(#[trigger] kept_code_chars(s)[i]),
        kept_code_chars(s).len() <= s.len(),
    decreases s.len(),
{
    if s.len() > 0 {
        lemma_kept_chars_are_code_chars(s.drop_last());
        let c = s.last();
        if spec_is_alnum(c) {
            assert(is_code_char(spec_upper(c))) by {
                if 'a' <= c && c <= 'z' {
                    assert(('a' as u32) == 97);
                    assert(('z' as u32) == 122);
                    assert(('A' as u32) == 65);
                    assert(('Z' as u32) == 90);
                }
            }
        }
    }
}

proof fn lemma_kept_chars_of_code(s: Seq<char>)
    requires
        forall|i: int| 0 <= i < s.len() ==> is_code_char(#[trigger] s[i]),
    ensures
        kept_code_chars(s) == s,
    decreases s.len(),
{
    if s.len() > 0 {
        lemma_kept_chars_of_code(s.drop_last());
        assert(is_code_char(s.last()));
        assert(s.drop_last().push(s.last()) =~= s);
    }
}

/// A room code read from any text holds at most `ROOM_CODE_MAX` upper-case
/// letters and digits, and reading it again gives it back.
pub proof fn law_room_code_normal_form(s: Seq<char>)
    ensures
        spec_normalized_code(s).len() <= ROOM_CODE_MAX,
        forall|i: int| 0 <= i < spec_normalized_code(s).len() ==> is_code_char(#[trigger] spec_normalized_code(s)[i]),
        spec_normalized_code(spec_normalized_code(s)) == spec_normalized_code(s),
{
    lemma_kept_chars_are_code_chars(s);
    let n = spec_normalized_code(s);
    assert forall|i: int| 0 <= i < n.len() implies is_code_char(#[trigger] n[i]) by {
        assert(n[i] == kept_code_chars(s)[i]);
    }
    lemma_kept_chars_of_code(n);
}

} // verus!
