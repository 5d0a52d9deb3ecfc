//! Identifier casing: pascal, camel and snake case over ASCII identifiers.
//!
//! The word-boundary conventions follow the usual ones: snake case starts a
//! new word at every uppercase letter not in leading position; pascal and
//! camel case treat `_` as a word separator and capitalize the first letter
//! of every word, camel case re-lowering the very first letter.

use vstd::prelude::*;

use crate::text::chars_to_string;
use crate::text::str_chars;

verus! {

pub open spec fn is_ascii_upper(c: char) -> bool {
    'A' <= c && c <= 'Z'
}

pub open spec fn is_ascii_lower(c: char) -> bool {
    'a' <= c && c <= 'z'
}

pub open spec fn is_ascii_digit(c: char) -> bool {
    '0' <= c && c <= '9'
}

/// The lowercase form of an ASCII letter; any other character is unchanged.
pub open spec fn lower_char(c: char) -> char {
    if is_ascii_upper(c) {
        ((c as u8) + 32) as char
    } else {
        c
    }
}

/// The uppercase form of an ASCII letter; any other character is unchanged.
pub open spec fn upper_char(c: char) -> char {
    if is_ascii_lower(c) {
        ((c as u8) - 32) as char
    } else {
        c
    }
}

/// A character allowed inside an identifier.
pub open spec fn is_ident_char(c: char) -> bool {
    is_ascii_upper(c) || is_ascii_lower(c) || is_ascii_digit(c) || c == '_'
}

/// An identifier: a letter followed by letters, digits and underscores.
pub open spec fn is_identifier(s: Seq<char>) -> bool {
    &&& s.len() > 0
    &&& (is_ascii_upper(s[0]) || is_ascii_lower(s[0]))
    &&& forall|i: int| 0 <= i < s.len() ==> is_ident_char(#[trigger] s[i])
}

/// Snake case: every uppercase letter not in leading position starts a new
/// word, words are joined by `_`, and all letters are lowered. `first` is
/// true when no character has been consumed yet.
pub open spec fn snake_rec(s: Seq<char>, first: bool) -> Seq<char>
    decreases s.len(),
{
    if s.len() == 0 {
        Seq::empty()
    } else {
        let head = if is_ascii_upper(s[0]) && !first {
            seq!['_', lower_char(s[0])]
        } else {
            seq![lower_char(s[0])]
        };
        head + snake_rec(s.skip(1), false)
    }
}

pub open spec fn spec_snake(s: Seq<char>) -> Seq<char> {
    snake_rec(s, true)
}

/// Pascal case: `_` separates words, and the first letter of every word is
/// capitalized. `word_start` is true when the next character starts a word.
pub open spec fn pascal_rec(s: Seq<char>, word_start: bool) -> Seq<char>
    decreases s.len(),
{
    if s.len() == 0 {
        Seq::empty()
    } else if s[0] == '_' {
        pascal_rec(s.skip(1), true)
    } else {
        let c = if word_start {
            upper_char(s[0])
        } else {
            s[0]
        };
        seq![c] + pascal_rec(s.skip(1), false)
    }
}

pub open spec fn spec_pascal(s: Seq<char>) -> Seq<char> {
    pascal_rec(s, true)
}

/// Camel case: pascal case with the leading letter re-lowered.
pub open spec fn spec_camel(s: Seq<char>) -> Seq<char> {
    let p = spec_pascal(s);
    if p.len() == 0 {
        p
    } else {
        seq![lower_char(p[0])] + p.skip(1)
    }
}

/// The lowercase form of an ASCII letter; any other character is unchanged.
fn lower_char_exec(c: char) -> (r: char)
    ensures
        r == lower_char(c),
{
    match c {
        'A' => 'a',
        'B' => 'b',
        'C' => 'c',
        'D' => 'd',
        'E' => 'e',
        'F' => 'f',
        'G' => 'g',
        'H' => 'h',
        'I' => 'i',
        'J' => 'j',
        'K' => 'k',
        'L' => 'l',
        'M' => 'm',
        'N' => 'n',
        'O' => 'o',
        'P' => 'p',
        'Q' => 'q',
        'R' => 'r',
        'S' => 's',
        'T' => 't',
        'U' => 'u',
        'V' => 'v',
        'W' => 'w',
        'X' => 'x',
        'Y' => 'y',
        'Z' => 'z',
        _ => c,
    }
}

/// The uppercase form of an ASCII letter; any other character is unchanged.
fn upper_char_exec(c: char) -> (r: char)
    ensures
        r == upper_char(c),
{
    match c {
        'a' => 'A',
        'b' => 'B',
        'c' => 'C',
        'd' => 'D',
        'e' => 'E',
        'f' => 'F',
        'g' => 'G',
        'h' => 'H',
        'i' => 'I',
        'j' => 'J',
        'k' => 'K',
        'l' => 'L',
        'm' => 'M',
        'n' => 'N',
        'o' => 'O',
        'p' => 'P',
        'q' => 'Q',
        'r' => 'R',
        's' => 'S',
        't' => 'T',
        'u' => 'U',
        'v' => 'V',
        'w' => 'W',
        'x' => 'X',
        'y' => 'Y',
        'z' => 'Z',
        _ => c,
    }
}

fn is_upper_exec(c: char) -> (r: bool)
    ensures
        r == is_ascii_upper(c),
{
    'A' <= c && c <= 'Z'
}

/// Camel case and pascal case of an identifier differ only in the case of
/// the first character.
pub proof fn lemma_camel_pascal_differ_only_in_first(s: Seq<char>)
    requires
        is_identifier(s),
    ensures
        spec_pascal(s).len() > 0,
        spec_camel(s).len() == spec_pascal(s).len(),
        spec_camel(s)[0] == lower_char(spec_pascal(s)[0]),
        forall|i: int|
            1 <= i < spec_pascal(s).len() ==> spec_camel(s)[i] == spec_pascal(s)[i],
{
    assert(s[0] != '_');
    assert(spec_pascal(s) == seq![upper_char(s[0])] + pascal_rec(s.skip(1), false));
    assert(spec_pascal(s).len() > 0);
    let p = spec_pascal(s);
    assert(spec_camel(s) == seq![lower_char(p[0])] + p.skip(1));
    assert forall|i: int| 1 <= i < p.len() implies spec_camel(s)[i] == p[i] by {
        assert(spec_camel(s)[i] == p.skip(1)[i - 1]);
    }
}

proof fn lemma_snake_no_upper(s: Seq<char>, first: bool)
    ensures
        forall|i: int|
            0 <= i < snake_rec(s, first).len() ==> !is_ascii_upper(
                #[trigger] snake_rec(s, first)[i],
            ),
    decreases s.len(),
{
    if s.len() > 0 {
        lemma_snake_no_upper(s.skip(1), false);
        let rest = snake_rec(s.skip(1), false);
        let w = snake_rec(s, first);
        if is_ascii_upper(s[0]) && !first {
            assert(w == seq!['_', lower_char(s[0])] + rest);
            assert forall|i: int| 0 <= i < w.len() implies !is_ascii_upper(w[i]) by {
                if i == 0 {
                    assert(w[i] == '_');
                } else if i == 1 {
                    assert(w[i] == lower_char(s[0]));
                } else {
                    assert(w[i] == rest[i - 2]);
                }
            }
        } else {
            assert(w == seq![lower_char(s[0])] + rest);
            assert forall|i: int| 0 <= i < w.len() implies !is_ascii_upper(w[i]) by {
                if i == 0 {
                    assert(w[i] == lower_char(s[0]));
                } else {
                    assert(w[i] == rest[i - 1]);
                }
            }
        }
    }
}

proof fn lemma_snake_identity(s: Seq<char>, first: bool)
    requires
        forall|i: int| 0 <= i < s.len() ==> !is_ascii_upper(#[trigger] s[i]),
    ensures
        snake_rec(s, first) == s,
    decreases s.len(),
{
    if s.len() > 0 {
        lemma_snake_identity(s.skip(1), false);
        assert(lower_char(s[0]) == s[0]);
        assert(snake_rec(s, first) =~= s);
    } else {
        assert(snake_rec(s, first) =~= s);
    }
}

/// Snake case is idempotent: converting to snake case twice gives the same
/// result as converting once.
pub proof fn lemma_snake_idempotent(s: Seq<char>)
    ensures
        spec_snake(spec_snake(s)) == spec_snake(s),
{
    lemma_snake_no_upper(s, true);
    lemma_snake_identity(spec_snake(s), true);
}

proof fn lemma_pascal_snake_suffix(s: Seq<char>)
    requires
        forall|i: int| 0 <= i < s.len() ==> s[i] != '_',
    ensures
        pascal_rec(snake_rec(s, false), false) == s,
    decreases s.len(),
{
    if s.len() == 0 {
        assert(pascal_rec(snake_rec(s, false), false) =~= s);
    } else {
        lemma_pascal_snake_suffix(s.skip(1));
        let tail = snake_rec(s.skip(1), false);
        if is_ascii_upper(s[0]) {
            let w = snake_rec(s, false);
            assert(w == seq!['_', lower_char(s[0])] + tail);
            assert(w[0] == '_');
            assert(w.skip(1) =~= seq![lower_char(s[0])] + tail);
            let w1 = seq![lower_char(s[0])] + tail;
            assert(w1[0] == lower_char(s[0]));
            assert(w1[0] != '_');
            assert(w1.skip(1) =~= tail);
            assert(upper_char(lower_char(s[0])) == s[0]);
            assert(pascal_rec(w, false) == pascal_rec(w.skip(1), true));
            assert(pascal_rec(w.skip(1), true) == pascal_rec(w1, true));
            assert(pascal_rec(w1, true) == seq![upper_char(w1[0])] + pascal_rec(
                w1.skip(1),
                false,
            ));
            assert(pascal_rec(w1.skip(1), false) == pascal_rec(tail, false));
            assert(pascal_rec(w, false) == seq![s[0]] + pascal_rec(tail, false));
            assert(pascal_rec(w, false) =~= s);
        } else {
            let w = snake_rec(s, false);
            assert(w == seq![lower_char(s[0])] + tail);
            assert(lower_char(s[0]) == s[0]);
            assert(w[0] == s[0]);
            assert(w[0] != '_');
            assert(w.skip(1) =~= tail);
            assert(pascal_rec(w, false) == seq![s[0]] + pascal_rec(tail, false));
            assert(pascal_rec(w, false) =~= s);
        }
    }
}

/// Round trip: camel case after snake case reproduces any identifier that
/// starts with a lowercase letter and contains no underscore.
pub proof fn lemma_camel_snake_round_trip(s: Seq<char>)
    requires
        s.len() > 0,
        is_ascii_lower(s[0]),
        forall|i: int| 0 <= i < s.len() ==> s[i] != '_',
    ensures
        spec_camel(spec_snake(s)) == s,
{
    lemma_pascal_snake_suffix(s.skip(1));
    let tail = snake_rec(s.skip(1), false);
    let w = spec_snake(s);
    assert(lower_char(s[0]) == s[0]);
    assert(w == seq![s[0]] + tail);
    assert(w[0] == s[0]);
    assert(w[0] != '_');
    assert(w.skip(1) =~= tail);
    assert(spec_pascal(w) == seq![upper_char(s[0])] + pascal_rec(tail, false));
    let p = spec_pascal(w);
    assert(p.len() > 0);
    assert(p[0] == upper_char(s[0]));
    assert(lower_char(upper_char(s[0])) == s[0]);
    assert(p.skip(1) =~= s.skip(1));
    assert(spec_camel(w) == seq![s[0]] + s.skip(1));
    assert(spec_camel(w) =~= s);
}

/// Converts an identifier to snake case.
pub fn to_snake_case(s: &str) -> (r: String)
    ensures
        r@ == spec_snake(s@),
{
    let cs = str_chars(s);
    let n = cs.len();
    let mut out: Vec<char> = Vec::new();
    let mut i: usize = 0;
    proof {
        assert(s@.skip(0) =~= s@);
    }
    while i < n
        invariant
            i <= n,
            n == cs@.len(),
            cs@ == s@,
            out@ + snake_rec(s@.skip(i as int), i == 0) =~= spec_snake(s@),
        decreases n - i,
    {
        let c = cs[i];
        proof {
            assert(s@.skip(i as int)[0] == s@[i as int]);
            assert(s@.skip(i as int).skip(1) =~= s@.skip(i as int + 1));
        }
        if is_upper_exec(c) && i != 0 {
            out.push('_');
        }
        out.push(lower_char_exec(c));
        i = i + 1;
    }
    proof {
        assert(s@.skip(n as int) =~= Seq::<char>::empty());
        assert(out@ =~= spec_snake(s@));
    }
    chars_to_string(&out)
}

/// Converts an identifier to pascal case.
pub fn to_pascal_case(s: &str) -> (r: String)
    ensures
        r@ == spec_pascal(s@),
{
    let cs = str_chars(s);
    let n = cs.len();
    let mut out: Vec<char> = Vec::new();
    let mut word_start: bool = true;
    let mut i: usize = 0;
    proof {
        assert(s@.skip(0) =~= s@);
    }
    while i < n
        invariant
            i <= n,
            n == cs@.len(),
            cs@ == s@,
            out@ + pascal_rec(s@.skip(i as int), word_start) =~= spec_pascal(s@),
        decreases n - i,
    {
        let c = cs[i];
        proof {
            assert(s@.skip(i as int)[0] == s@[i as int]);
            assert(s@.skip(i as int).skip(1) =~= s@.skip(i as int + 1));
        }
        if c == '_' {
            word_start = true;
        } else {
            if word_start {
                out.push(upper_char_exec(c));
            } else {
                out.push(c);
            }
            word_start = false;
        }
        i = i + 1;
    }
    proof {
        assert(s@.skip(n as int) =~= Seq::<char>::empty());
        assert(out@ =~= spec_pascal(s@));
    }
    chars_to_string(&out)
}

/// Converts an identifier to camel case: pascal case with the first letter
/// re-lowered.
pub fn to_camel_case(s: &str) -> (r: String)
    ensures
        r@ == spec_camel(s@),
{
    let p = to_pascal_case(s);
    let cs = str_chars(p.as_str());
    if cs.len() == 0 {
        p
    } else {
        let mut out: Vec<char> = Vec::new();
        out.push(lower_char_exec(cs[0]));
        let n = cs.len();
        let mut i: usize = 1;
        while i < n
            invariant
                1 <= i <= n,
                n == cs@.len(),
                cs@.len() > 0,
                out@ =~= seq![lower_char(cs@[0])] + cs@.subrange(1, i as int),
            decreases n - i,
        {
            out.push(cs[i]);
            i = i + 1;
        }
        proof {
            assert(out@ =~= seq![lower_char(cs@[0])] + cs@.skip(1));
            assert(out@ =~= spec_camel(s@));
        }
        chars_to_string(&out)
    }
}

} // verus!
