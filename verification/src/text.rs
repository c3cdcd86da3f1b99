//! Verified text helpers: whitespace tokenization for command lines,
//! ASCII case folding for approval tokens, and line joining for steering.

use vstd::prelude::*;
use crate::protocol::seq_view;

verus! {

/// The whitespace this library splits on.
pub open spec fn is_space(c: char) -> bool {
    c == ' ' || c == '\t' || c == '\n' || c == '\r'
}

/// Whether a character is whitespace.
pub fn space_char(c: char) -> (r: bool)
    ensures
        r == is_space(c),
{
    c == ' ' || c == '\t' || c == '\n' || c == '\r'
}

/// Where the word starting at `i` ends: the first space at or after `i`.
pub open spec fn word_end_from(s: Seq<char>, i: int) -> int
    decreases s.len() - i when 0 <= i
{
    if i >= s.len() || is_space(s[i]) {
        i
    } else {
        word_end_from(s, i + 1)
    }
}

pub proof fn lemma_word_end_from(s: Seq<char>, i: int)
    requires
        0 <= i <= s.len(),
    ensures
        i <= word_end_from(s, i) <= s.len(),
        i < s.len() && !is_space(s[i]) ==> i < word_end_from(s, i),
    decreases s.len() - i,
{
    if i < s.len() && !is_space(s[i]) {
        lemma_word_end_from(s, i + 1);
    }
}

/// The words of `s` from position `i` on, split on whitespace.
pub open spec fn words_from(s: Seq<char>, i: int) -> Seq<Seq<char>>
    decreases s.len() - i when 0 <= i via words_from_decreases
{
    if i >= s.len() {
        Seq::empty()
    } else if is_space(s[i]) {
        words_from(s, i + 1)
    } else {
        seq![s.subrange(i, word_end_from(s, i))] + words_from(s, word_end_from(s, i))
    }
}

#[via_fn]
proof fn words_from_decreases(s: Seq<char>, i: int) {
    if 0 <= i < s.len() && !is_space(s[i]) {
        lemma_word_end_from(s, i);
    }
}

/// The whitespace-separated words of a string.
pub open spec fn spec_words(s: Seq<char>) -> Seq<Seq<char>> {
    words_from(s, 0)
}

/// Splits a line into its whitespace-separated words.
pub fn split_words(s: &str) -> (r: Vec<String>)
    ensures
        seq_view(r@) == spec_words(s@),
{
    let n = s.unicode_len();
    let mut out: Vec<String> = Vec::new();
    let mut i: usize = 0;
    while i < n
        invariant
            i <= n,
            n == s@.len(),
            seq_view(out@) + words_from(s@, i as int) == spec_words(s@),
        decreases n - i,
    {
        let c = s.get_char(i);
        if space_char(c) {
            i += 1;
        } else {
            proof {
                lemma_word_end_from(s@, i as int);
            }
            let mut j: usize = i + 1;
            while j < n && !space_char(s.get_char(j))
                invariant
                    i < j <= n,
                    n == s@.len(),
                    word_end_from(s@, i as int) == word_end_from(s@, j as int),
                decreases n - j,
            {
                j += 1;
            }
            proof {
                assert(word_end_from(s@, j as int) == j);
            }
            let word = s.substring_char(i, j);
            let ghost out0 = out@;
            out.push(word.to_owned());
            proof {
                assert(seq_view(out@) =~= seq_view(out0).push(word@));
                assert(words_from(s@, i as int)
                    == seq![word@] + words_from(s@, j as int));
                assert(seq_view(out@) + words_from(s@, j as int)
                    =~= seq_view(out0) + words_from(s@, i as int));
            }
            i = j;
        }
    }
    proof {
        assert(seq_view(out@) + words_from(s@, n as int) =~= seq_view(out@));
    }
    out
}

/// One character, ASCII letters folded to lower case.
pub open spec fn ascii_lower_char(c: char) -> char {
    if 65 <= c as u32 <= 90 {
        (((c as u32) + 32) as u8) as char
    } else {
        c
    }
}

/// A string with its ASCII letters folded to lower case.
pub open spec fn ascii_lower(s: Seq<char>) -> Seq<char> {
    Seq::new(s.len(), |i: int| ascii_lower_char(s[i]))
}

/// Relies on `String::push`: appends the given character at the end.
#[verifier::external_body]
pub fn append_char(acc: &mut String, c: char)
    ensures
        final(acc)@ == old(acc)@.push(c),
{
    acc.push(c);
}

/// Folds the ASCII letters of a string to lower case.
pub fn to_ascii_lower(s: &str) -> (r: String)
    ensures
        r@ == ascii_lower(s@),
{
    let n = s.unicode_len();
    let mut acc = String::new();
    proof {
        assert(acc@ =~= ascii_lower(s@).subrange(0, 0));
    }
    let mut i: usize = 0;
    while i < n
        invariant
            i <= n,
            n == s@.len(),
            acc@ == ascii_lower(s@).subrange(0, i as int),
        decreases n - i,
    {
        let c = s.get_char(i);
        let code = c as u32;
        if 65 <= code && code <= 90 {
            let lowered: char = ((code + 32) as u8) as char;
            append_char(&mut acc, lowered);
        } else {
            let piece = s.substring_char(i, i + 1);
            acc.append(piece);
            proof {
                assert(piece@ =~= seq![s@[i as int]]);
            }
        }
        proof {
            assert(acc@ =~= ascii_lower(s@).subrange(0, i + 1));
        }
        i += 1;
    }
    proof {
        assert(ascii_lower(s@).subrange(0, n as int) =~= ascii_lower(s@));
    }
    acc
}

/// The given lines joined with a newline between each pair.
pub open spec fn joined_lines(ls: Seq<Seq<char>>) -> Seq<char>
    decreases ls.len(),
{
    if ls.len() == 0 {
        Seq::empty()
    } else if ls.len() == 1 {
        ls[0]
    } else {
        ls[0] + seq!['\n'] + joined_lines(ls.drop_first())
    }
}

pub proof fn lemma_joined_lines_snoc(ls: Seq<Seq<char>>, x: Seq<char>)
    ensures
        joined_lines(ls.push(x)) == if ls.len() == 0 {
            x
        } else {
            joined_lines(ls) + seq!['\n'] + x
        },
    decreases ls.len(),
{
    if ls.len() == 0 {
        assert(ls.push(x) =~= seq![x]);
        assert(joined_lines(ls.push(x)) =~= x);
    } else {
        assert(ls.push(x).drop_first() =~= ls.drop_first().push(x));
        lemma_joined_lines_snoc(ls.drop_first(), x);
        if ls.len() == 1 {
            assert(joined_lines(ls.push(x)) =~= joined_lines(ls) + seq!['\n'] + x);
        } else {
            assert(joined_lines(ls.push(x)) =~= joined_lines(ls) + seq!['\n'] + x);
        }
    }
}

/// Joins lines with newlines.
pub fn join_lines(ls: &Vec<String>) -> (r: String)
    ensures
        r@ == joined_lines(seq_view(ls@)),
{
    let mut acc = String::new();
    proof {
        assert(seq_view(ls@).subrange(0, 0) =~= Seq::<Seq<char>>::empty());
    }
    let mut i: usize = 0;
    while i < ls.len()
        invariant
            i <= ls.len(),
            acc@ == joined_lines(seq_view(ls@).subrange(0, i as int)),
        decreases ls.len() - i,
    {
        if i > 0 {
            append_char(&mut acc, '\n');
        }
        acc.append(ls[i].as_str());
        proof {
            let ghost prefix = seq_view(ls@).subrange(0, i as int);
            assert(prefix.push(ls@[i as int]@) =~= seq_view(ls@).subrange(0, i + 1));
            lemma_joined_lines_snoc(prefix, ls@[i as int]@);
            assert(acc@ =~= joined_lines(seq_view(ls@).subrange(0, i + 1)));
        }
        i += 1;
    }
    proof {
        assert(seq_view(ls@).subrange(0, ls@.len() as int) =~= seq_view(ls@));
    }
    acc
}

/// Whether `s` starts with the characters of `prefix`.
pub fn str_starts_with(s: &str, prefix: &str) -> (r: bool)
    ensures
        r == (s@.len() >= prefix@.len() && s@.subrange(0, prefix@.len() as int) == prefix@),
{
    let n = s.unicode_len();
    let m = prefix.unicode_len();
    if n < m {
        return false;
    }
    let head = s.substring_char(0, m);
    crate::json::str_eq(head, prefix)
}

} // verus!
