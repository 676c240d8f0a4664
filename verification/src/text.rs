//! Text primitives the interpreter rests on: ASCII-whitespace trimming,
//! extraction of the first space-delimited token of a typed line, and
//! character-wise string equality.

use vstd::prelude::*;
use vstd::string::*;

verus! {

/// The whitespace characters the interpreter strips from typed lines.
pub open spec fn is_wspace(c: char) -> bool {
    c == ' ' || c == '\t' || c == '\n' || c == '\r'
}

/// Number of leading whitespace characters of `s`.
pub open spec fn lead_ws(s: Seq<char>) -> int
    decreases s.len(),
{
    if s.len() > 0 && is_wspace(s[0]) {
        1 + lead_ws(s.drop_first())
    } else {
        0
    }
}

/// Number of trailing whitespace characters of `s`.
pub open spec fn tail_ws(s: Seq<char>) -> int
    decreases s.len(),
{
    if s.len() > 0 && is_wspace(s.last()) {
        1 + tail_ws(s.drop_last())
    } else {
        0
    }
}

/// `s` with leading and trailing whitespace removed.
pub open spec fn trim_spec(s: Seq<char>) -> Seq<char> {
    if lead_ws(s) == s.len() {
        Seq::empty()
    } else {
        s.subrange(lead_ws(s), s.len() - tail_ws(s))
    }
}

/// Length of the prefix of `s` before its first space character.
pub open spec fn head_len(s: Seq<char>) -> int
    decreases s.len(),
{
    if s.len() > 0 && s[0] != ' ' {
        1 + head_len(s.drop_first())
    } else {
        0
    }
}

/// The first space-delimited token of a typed line: the prefix before the
/// first space, then trimmed of surrounding whitespace (which removes a
/// trailing newline when the line holds no space at all).
pub open spec fn first_token_spec(s: Seq<char>) -> Seq<char> {
    trim_spec(s.subrange(0, head_len(s)))
}

/// `lead_ws` counts exactly the longest all-whitespace prefix.
pub proof fn lemma_lead_ws(s: Seq<char>)
    ensures
        0 <= lead_ws(s) <= s.len(),
        forall|k: int| 0 <= k < lead_ws(s) ==> is_wspace(s[k]),
        lead_ws(s) < s.len() ==> !is_wspace(s[lead_ws(s)]),
    decreases s.len(),
{
    if s.len() > 0 && is_wspace(s[0]) {
        lemma_lead_ws(s.drop_first());
        assert forall|k: int| 0 <= k < lead_ws(s) implies is_wspace(s[k]) by {
            if k > 0 {
                assert(s.drop_first()[k - 1] == s[k]);
            }
        }
    }
}

/// `tail_ws` counts exactly the longest all-whitespace suffix.
pub proof fn lemma_tail_ws(s: Seq<char>)
    ensures
        0 <= tail_ws(s) <= s.len(),
        forall|k: int| s.len() - tail_ws(s) <= k < s.len() ==> is_wspace(s[k]),
        tail_ws(s) < s.len() ==> !is_wspace(s[s.len() - 1 - tail_ws(s)]),
    decreases s.len(),
{
    if s.len() > 0 && is_wspace(s.last()) {
        lemma_tail_ws(s.drop_last());
        assert forall|k: int| s.len() - tail_ws(s) <= k < s.len() implies is_wspace(s[k]) by {
            if k < s.len() - 1 {
                assert(s.drop_last()[k] == s[k]);
            }
        }
    }
}

/// `head_len` counts exactly the longest space-free prefix.
pub proof fn lemma_head_len(s: Seq<char>)
    ensures
        0 <= head_len(s) <= s.len(),
        forall|k: int| 0 <= k < head_len(s) ==> s[k] != ' ',
        head_len(s) < s.len() ==> s[head_len(s)] == ' ',
    decreases s.len(),
{
    if s.len() > 0 && s[0] != ' ' {
        lemma_head_len(s.drop_first());
        assert forall|k: int| 0 <= k < head_len(s) implies s[k] != ' ' by {
            if k > 0 {
                assert(s.drop_first()[k - 1] == s[k]);
            }
        }
    }
}

/// Runtime test for the whitespace characters of `is_wspace`.
pub fn is_wspace_char(c: char) -> (b: bool)
    ensures
        b == is_wspace(c),
{
    c == ' ' || c == '\t' || c == '\n' || c == '\r'
}

/// Removes leading and trailing whitespace from `s`.
pub fn trim(s: &str) -> (r: &str)
    ensures
        r@ == trim_spec(s@),
{
    let n = s.unicode_len();
    let mut i: usize = 0;
    while i < n
        invariant_except_break
            i <= n,
            n == s@.len(),
            forall|k: int| 0 <= k < i ==> is_wspace(s@[k]),
        ensures
            i <= n,
            n == s@.len(),
            forall|k: int| 0 <= k < i ==> is_wspace(s@[k]),
            i == n || !is_wspace(s@[i as int]),
        decreases n - i,
    {
        if !is_wspace_char(s.get_char(i)) {
            break ;
        }
        i += 1;
    }
    proof {
        lemma_lead_ws(s@);
        if i < lead_ws(s@) {
            assert(is_wspace(s@[i as int]));
        }
        if lead_ws(s@) < i {
            assert(is_wspace(s@[lead_ws(s@)]));
        }
        assert(i == lead_ws(s@));
    }
    if i == n {
        let r = s.substring_char(n, n);
        proof {
            assert(r@ =~= trim_spec(s@));
        }
        return r;
    }
    let mut j: usize = n;
    while j > i
        invariant_except_break
            i < j <= n,
            i < n,
            n == s@.len(),
            !is_wspace(s@[i as int]),
            forall|k: int| j <= k < n ==> is_wspace(s@[k]),
        ensures
            i < j <= n,
            i < n,
            n == s@.len(),
            !is_wspace(s@[i as int]),
            forall|k: int| j <= k < n ==> is_wspace(s@[k]),
            !is_wspace(s@[j - 1]),
        decreases j,
    {
        if !is_wspace_char(s.get_char(j - 1)) {
            break ;
        }
        j -= 1;
    }
    proof {
        lemma_tail_ws(s@);
        assert(!is_wspace(s@[i as int]));
        // the scan cannot have passed the non-whitespace character at i
        assert(j > i);
        if n - j < tail_ws(s@) {
            assert(is_wspace(s@[j - 1]));
        }
        if tail_ws(s@) < n - j {
            assert(is_wspace(s@[n - 1 - tail_ws(s@)]));
        }
        assert(n - j == tail_ws(s@));
    }
    let r = s.substring_char(i, j);
    proof {
        assert(r@ =~= trim_spec(s@));
    }
    r
}

/// Returns the first space-delimited token of a typed line.
pub fn first_token(s: &str) -> (r: &str)
    ensures
        r@ == first_token_spec(s@),
{
    let n = s.unicode_len();
    let mut i: usize = 0;
    while i < n
        invariant_except_break
            i <= n,
            n == s@.len(),
            forall|k: int| 0 <= k < i ==> s@[k] != ' ',
        ensures
            i <= n,
            n == s@.len(),
            forall|k: int| 0 <= k < i ==> s@[k] != ' ',
            i == n || s@[i as int] == ' ',
        decreases n - i,
    {
        if s.get_char(i) == ' ' {
            break ;
        }
        i += 1;
    }
    proof {
        lemma_head_len(s@);
        if i < head_len(s@) {
            assert(s@[i as int] == ' ');
        }
        if head_len(s@) < i {
            assert(s@[head_len(s@)] == ' ');
        }
        assert(i == head_len(s@));
    }
    let head = s.substring_char(0, i);
    proof {
        assert(head@ =~= s@.subrange(0, head_len(s@)));
    }
    trim(head)
}

/// Character-wise equality of two strings.
pub fn str_eq(a: &str, b: &str) -> (r: bool)
    ensures
        r == (a@ == b@),
{
    let na = a.unicode_len();
    let nb = b.unicode_len();
    if na != nb {
        return false;
    }
    let mut i: usize = 0;
    while i < na
        invariant
            i <= na,
            na == a@.len(),
            nb == b@.len(),
            na == nb,
            forall|k: int| 0 <= k < i ==> a@[k] == b@[k],
        decreases na - i,
    {
        if a.get_char(i) != b.get_char(i) {
            proof {
                assert(a@[i as int] != b@[i as int]);
            }
            return false;
        }
        i += 1;
    }
    proof {
        assert(a@ =~= b@);
    }
    true
}

/// ASCII uppercasing of one character: lowercase letters are mapped to their
/// uppercase counterpart, every other character is left unchanged.
pub open spec fn to_upper(c: char) -> char {
    if c == 'a' {
        'A'
    } else if c == 'b' {
        'B'
    } else if c == 'c' {
        'C'
    } else if c == 'd' {
        'D'
    } else if c == 'e' {
        'E'
    } else if c == 'f' {
        'F'
    } else if c == 'g' {
        'G'
    } else if c == 'h' {
        'H'
    } else if c == 'i' {
        'I'
    } else if c == 'j' {
        'J'
    } else if c == 'k' {
        'K'
    } else if c == 'l' {
        'L'
    } else if c == 'm' {
        'M'
    } else if c == 'n' {
        'N'
    } else if c == 'o' {
        'O'
    } else if c == 'p' {
        'P'
    } else if c == 'q' {
        'Q'
    } else if c == 'r' {
        'R'
    } else if c == 's' {
        'S'
    } else if c == 't' {
        'T'
    } else if c == 'u' {
        'U'
    } else if c == 'v' {
        'V'
    } else if c == 'w' {
        'W'
    } else if c == 'x' {
        'X'
    } else if c == 'y' {
        'Y'
    } else if c == 'z' {
        'Z'
    } else {
        c
    }
}

/// A non-empty string with its first character ASCII-uppercased.
pub open spec fn capitalise_spec(s: Seq<char>) -> Seq<char>
    recommends
        s.len() > 0,
{
    seq![to_upper(s[0])] + s.subrange(1, s.len() as int)
}

/// The uppercase counterpart of a lowercase ASCII letter, as a string.
fn upper_str(c: char) -> (r: &'static str)
    requires
        97 <= c as int <= 122,
    ensures
        r@ == seq![to_upper(c)],
{
    match c {
        'a' => {
            proof {
                reveal_strlit("A");
                assert("A"@ =~= seq![to_upper(c)]);
            }
            "A"
        },
        'b' => {
            proof {
                reveal_strlit("B");
                assert("B"@ =~= seq![to_upper(c)]);
            }
            "B"
        },
        'c' => {
            proof {
                reveal_strlit("C");
                assert("C"@ =~= seq![to_upper(c)]);
            }
            "C"
        },
        'd' => {
            proof {
                reveal_strlit("D");
                assert("D"@ =~= seq![to_upper(c)]);
            }
            "D"
        },
        'e' => {
            proof {
                reveal_strlit("E");
                assert("E"@ =~= seq![to_upper(c)]);
            }
            "E"
        },
        'f' => {
            proof {
                reveal_strlit("F");
                assert("F"@ =~= seq![to_upper(c)]);
            }
            "F"
        },
        'g' => {
            proof {
                reveal_strlit("G");
                assert("G"@ =~= seq![to_upper(c)]);
            }
            "G"
        },
        'h' => {
            proof {
                reveal_strlit("H");
                assert("H"@ =~= seq![to_upper(c)]);
            }
            "H"
        },
        'i' => {
            proof {
                reveal_strlit("I");
                assert("I"@ =~= seq![to_upper(c)]);
            }
            "I"
        },
        'j' => {
            proof {
                reveal_strlit("J");
                assert("J"@ =~= seq![to_upper(c)]);
            }
            "J"
        },
        'k' => {
            proof {
                reveal_strlit("K");
                assert("K"@ =~= seq![to_upper(c)]);
            }
            "K"
        },
        'l' => {
            proof {
                reveal_strlit("L");
                assert("L"@ =~= seq![to_upper(c)]);
            }
            "L"
        },
        'm' => {
            proof {
                reveal_strlit("M");
                assert("M"@ =~= seq![to_upper(c)]);
            }
            "M"
        },
        'n' => {
            proof {
                reveal_strlit("N");
                assert("N"@ =~= seq![to_upper(c)]);
            }
            "N"
        },
        'o' => {
            proof {
                reveal_strlit("O");
                assert("O"@ =~= seq![to_upper(c)]);
            }
            "O"
        },
        'p' => {
            proof {
                reveal_strlit("P");
                assert("P"@ =~= seq![to_upper(c)]);
            }
            "P"
        },
        'q' => {
            proof {
                reveal_strlit("Q");
                assert("Q"@ =~= seq![to_upper(c)]);
            }
            "Q"
        },
        'r' => {
            proof {
                reveal_strlit("R");
                assert("R"@ =~= seq![to_upper(c)]);
            }
            "R"
        },
        's' => {
            proof {
                reveal_strlit("S");
                assert("S"@ =~= seq![to_upper(c)]);
            }
            "S"
        },
        't' => {
            proof {
                reveal_strlit("T");
                assert("T"@ =~= seq![to_upper(c)]);
            }
            "T"
        },
        'u' => {
            proof {
                reveal_strlit("U");
                assert("U"@ =~= seq![to_upper(c)]);
            }
            "U"
        },
        'v' => {
            proof {
                reveal_strlit("V");
                assert("V"@ =~= seq![to_upper(c)]);
            }
            "V"
        },
        'w' => {
            proof {
                reveal_strlit("W");
                assert("W"@ =~= seq![to_upper(c)]);
            }
            "W"
        },
        'x' => {
            proof {
                reveal_strlit("X");
                assert("X"@ =~= seq![to_upper(c)]);
            }
            "X"
        },
        'y' => {
            proof {
                reveal_strlit("Y");
                assert("Y"@ =~= seq![to_upper(c)]);
            }
            "Y"
        },
        'z' => {
            proof {
                reveal_strlit("Z");
                assert("Z"@ =~= seq![to_upper(c)]);
            }
            "Z"
        },
        _ => {
            proof {
                assert(false);
            }
            "A"
        },
    }
}

/// Uppercases the first character of a non-empty string, ASCII-only, as the
/// greeting banner wants a name displayed.
pub fn capitalise(user: &str) -> (r: String)
    requires
        user@.len() > 0,
    ensures
        r@ == capitalise_spec(user@),
{
    let n = user.unicode_len();
    let c = user.get_char(0);
    let rest = user.substring_char(1, n);
    proof {
        assert(user@ =~= seq![user@[0]] + user@.subrange(1, user@.len() as int));
    }
    let code = c as u32;
    if 97 <= code && code <= 122 {
        let s = String::from_str(upper_str(c));
        s.concat(rest)
    } else {
        proof {
            assert(to_upper(user@[0]) == user@[0]);
        }
        String::from_str(user)
    }
}

} // verus!
