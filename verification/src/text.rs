//! Text primitives of the shell: comparing strings, joining names, and
//! splitting an input line into whitespace-separated tokens.

use vstd::prelude::*;
use vstd::string::*;

verus! {

/// The characters that separate tokens: the Unicode `White_Space` code points.
pub open spec fn is_space(c: char) -> bool {
    let u = c as u32;
    ||| (0x09 <= u && u <= 0x0d)
    ||| u == 0x20
    ||| u == 0x85
    ||| u == 0xa0
    ||| u == 0x1680
    ||| (0x2000 <= u && u <= 0x200a)
    ||| u == 0x2028
    ||| u == 0x2029
    ||| u == 0x202f
    ||| u == 0x205f
    ||| u == 0x3000
}

/// Length of the longest prefix of `s` without a separator.
pub open spec fn word_len(s: Seq<char>) -> nat
    decreases s.len(),
{
    if s.len() == 0 || is_space(s[0]) {
        0
    } else {
        1 + word_len(s.skip(1))
    }
}

/// A word: at least one character and no separator.
pub open spec fn is_word(t: Seq<char>) -> bool {
    t.len() > 0 && forall|j: int| 0 <= j < t.len() ==> !is_space(#[trigger] t[j])
}

/// The tokens of a line: its maximal runs of non-separator characters, in order.
pub open spec fn tokens(s: Seq<char>) -> Seq<Seq<char>>
    decreases s.len(),
{
    if s.len() == 0 {
        Seq::empty()
    } else if is_space(s[0]) {
        tokens(s.skip(1))
    } else {
        proof {
            lemma_word_len_bound(s);
        }
        seq![s.take(word_len(s) as int)] + tokens(s.skip(word_len(s) as int))
    }
}

/// The views of a list of string slices.
pub open spec fn views(v: Seq<&str>) -> Seq<Seq<char>> {
    Seq::new(v.len(), |i: int| v[i]@)
}

/// The views of a list of owned strings.
pub open spec fn string_views(v: Seq<String>) -> Seq<Seq<char>> {
    Seq::new(v.len(), |i: int| v[i]@)
}

/// `names` with `sep` between each two neighbours.
pub open spec fn joined(names: Seq<Seq<char>>, sep: Seq<char>) -> Seq<char>
    decreases names.len(),
{
    if names.len() == 0 {
        Seq::empty()
    } else if names.len() == 1 {
        names[0]
    } else {
        joined(names.drop_last(), sep) + sep + names.last()
    }
}

pub proof fn lemma_word_len_bound(s: Seq<char>)
    ensures
        word_len(s) <= s.len(),
        forall|i: int| 0 <= i < word_len(s) ==> !is_space(#[trigger] s[i]),
        word_len(s) < s.len() ==> is_space(s[word_len(s) as int]),
        s.len() > 0 && !is_space(s[0]) ==> word_len(s) > 0,
    decreases s.len(),
{
    if s.len() == 0 || is_space(s[0]) {
    } else {
        let t = s.skip(1);
        lemma_word_len_bound(t);
        assert forall|i: int| 0 <= i < word_len(s) implies !is_space(#[trigger] s[i]) by {
            if i > 0 {
                assert(s[i] == t[i - 1]);
            }
        }
        if word_len(s) < s.len() {
            assert(s[word_len(s) as int] == t[word_len(t) as int]);
        }
    }
}

/// A run of `k` non-separators that ends the sequence or is followed by a
/// separator is exactly the first word.
pub proof fn lemma_word_len_is(s: Seq<char>, k: nat)
    requires
        k <= s.len(),
        forall|i: int| 0 <= i < k ==> !is_space(#[trigger] s[i]),
        k < s.len() ==> is_space(s[k as int]),
    ensures
        word_len(s) == k,
    decreases k,
{
    if k == 0 {
    } else {
        let t = s.skip(1);
        assert forall|i: int| 0 <= i < k - 1 implies !is_space(#[trigger] t[i]) by {
            assert(t[i] == s[i + 1]);
        }
        if k < s.len() {
            assert(t[k - 1] == s[k as int]);
        }
        assert(!is_space(s[0]));
        lemma_word_len_is(t, (k - 1) as nat);
    }
}

/// Whether two strings hold the same characters.
pub fn str_eq(a: &str, b: &str) -> (r: bool)
    ensures
        r == (a@ == b@),
{
    let x = String::from_str(a);
    let y = String::from_str(b);
    x == y
}

/// Whether `c` separates tokens.
pub fn is_separator(c: char) -> (r: bool)
    ensures
        r == is_space(c),
{
    let u: u32 = c as u32;
    (0x09 <= u && u <= 0x0d) || u == 0x20 || u == 0x85 || u == 0xa0 || u == 0x1680 || (0x2000 <= u
        && u <= 0x200a) || u == 0x2028 || u == 0x2029 || u == 0x202f || u == 0x205f || u == 0x3000
}

/// A separator at the head of a line adds no token.
pub proof fn lemma_tokens_skip_space(s: Seq<char>)
    requires
        s.len() > 0,
        is_space(s[0]),
    ensures
        tokens(s) == tokens(s.skip(1)),
{
}

/// A line that starts with a word of `k` characters yields that word, then
/// the tokens of what follows it.
pub proof fn lemma_tokens_word(s: Seq<char>, k: nat)
    requires
        0 < k <= s.len(),
        forall|i: int| 0 <= i < k ==> !is_space(#[trigger] s[i]),
        k < s.len() ==> is_space(s[k as int]),
    ensures
        tokens(s) == seq![s.take(k as int)] + tokens(s.skip(k as int)),
{
    lemma_word_len_is(s, k);
    assert(!is_space(s[0]));
}

/// Splits a line into its tokens.
pub fn tokenize(line: &str) -> (toks: Vec<&str>)
    ensures
        views(toks@) == tokens(line@),
{
    let len = line.unicode_len();
    let mut toks: Vec<&str> = Vec::new();
    let mut i: usize = 0;
    let mut start: usize = 0;
    let mut inside = false;
    proof {
        assert(views(toks@) =~= Seq::<Seq<char>>::empty());
        assert(line@.skip(0) =~= line@);
    }
    for c in it: line.chars()
        invariant
            i == it.index(),
            it.seq() == line@,
            len == line@.len(),
            start <= i,
            inside ==> start < i,
            inside ==> forall|j: int| start <= j < i ==> !is_space(#[trigger] line@[j]),
            inside ==> tokens(line@) == views(toks@) + tokens(line@.skip(start as int)),
            !inside ==> tokens(line@) == views(toks@) + tokens(line@.skip(i as int)),
    {
        let sep = is_separator(c);
        if sep {
            if inside {
                let word = line.substring_char(start, i);
                proof {
                    let rest = line@.skip(start as int);
                    let k = (i - start) as nat;
                    assert forall|j: int| 0 <= j < k implies !is_space(#[trigger] rest[j]) by {
                        assert(rest[j] == line@[start + j]);
                    }
                    assert(rest[k as int] == line@[i as int]);
                    lemma_tokens_word(rest, k);
                    assert(rest.take(k as int) =~= line@.subrange(start as int, i as int));
                    assert(rest.skip(k as int) =~= line@.skip(i as int));
                    assert(views(toks@.push(word)) =~= views(toks@) + seq![word@]);
                }
                toks.push(word);
                inside = false;
            }
            proof {
                let here = line@.skip(i as int);
                lemma_tokens_skip_space(here);
                assert(here.skip(1) =~= line@.skip(i + 1));
            }
        } else if !inside {
            start = i;
            inside = true;
        }
        i = i + 1;
    }
    if inside {
        let word = line.substring_char(start, len);
        proof {
            let rest = line@.skip(start as int);
            let k = (len - start) as nat;
            assert forall|j: int| 0 <= j < k implies !is_space(#[trigger] rest[j]) by {
                assert(rest[j] == line@[start + j]);
            }
            lemma_tokens_word(rest, k);
            assert(rest.take(k as int) =~= line@.subrange(start as int, len as int));
            assert(rest.skip(k as int) =~= Seq::<char>::empty());
            assert(views(toks@.push(word)) =~= views(toks@) + seq![word@]);
        }
        toks.push(word);
    } else {
        proof {
            assert(line@.skip(i as int) =~= Seq::<char>::empty());
        }
    }
    toks
}

/// Joins `names` with `sep` between each two neighbours.
pub fn join(names: &Vec<String>, sep: &str) -> (text: String)
    ensures
        text@ == joined(string_views(names@), sep@),
{
    let mut text = String::new();
    let mut i: usize = 0;
    while i < names.len()
        invariant
            i <= names.len(),
            text@ == joined(string_views(names@).take(i as int), sep@),
        decreases names.len() - i,
    {
        proof {
            let all = string_views(names@);
            let next = all.take(i + 1);
            assert(next.drop_last() =~= all.take(i as int));
            assert(next.last() == names@[i as int]@);
            if i > 0 {
                assert(all.take(i as int).len() > 0);
            }
        }
        if i > 0 {
            text.append(sep);
        }
        text.append(names[i].as_str());
        i = i + 1;
    }
    proof {
        assert(string_views(names@).take(i as int) =~= string_views(names@));
    }
    text
}

} // verus!
