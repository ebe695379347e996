use vstd::prelude::*;

verus! {

/// The characters with the Unicode `White_Space` property.
pub open spec fn is_white_space(c: char) -> bool {
    let u = c as u32;
    ||| (0x09 <= u && u <= 0x0d)
    ||| u == 0x20
    ||| u == 0x85
    ||| u == 0xa0
    ||| u == 0x1680
    ||| (0x2000 <= u && u <= 0x200a)
    ||| u == 0x2028
    ||| u == 0x2029
    ||| u == 0x202f
    ||| u == 0x205f
    ||| u == 0x3000
}

/// Position `i` of `s` opens a word: a non-whitespace character that is
/// either the first one or follows whitespace.
pub open spec fn starts_word(s: Seq<char>, i: int) -> bool {
    &&& !is_white_space(s[i])
    &&& (i == 0 || is_white_space(s[i - 1]))
}

/// The number of maximal runs of non-whitespace characters in `s`, counted
/// by the positions at which such a run begins.
pub open spec fn word_runs(s: Seq<char>) -> nat
    decreases s.len(),
{
    if s.len() == 0 {
        0
    } else {
        word_runs(s.drop_last()) + if starts_word(s, s.len() - 1) {
            1nat
        } else {
            0nat
        }
    }
}

/// Whether `c` is a Unicode whitespace character.
pub fn is_whitespace_char(c: char) -> (r: bool)
    ensures
        r == is_white_space(c),
{
    let u = c as u32;
    (0x09 <= u && u <= 0x0d) || u == 0x20 || u == 0x85 || u == 0xa0 || u == 0x1680 || (0x2000
        <= u && u <= 0x200a) || u == 0x2028 || u == 0x2029 || u == 0x202f || u == 0x205f || u
        == 0x3000
}

proof fn lemma_word_runs_bound(s: Seq<char>)
    ensures
        word_runs(s) <= s.len(),
    decreases s.len(),
{
    if s.len() > 0 {
        lemma_word_runs_bound(s.drop_last());
    }
}

/// The number of whitespace-delimited words in `text`.
pub fn word_count(text: &str) -> (r: usize)
    ensures
        r == word_runs(text@),
{
    broadcast use vstd::string::axiom_spec_iter;

    let len = text.unicode_len();
    let mut n: usize = 0;
    let mut prev_space: bool = true;
    for c in it: text.chars()
        invariant
            it.seq() == text@,
            n == word_runs(text@.take(it.index() as int)),
            it.index() > 0 ==> prev_space == is_white_space(text@[it.index() - 1]),
            it.index() == 0 ==> prev_space,
            it.index() <= text@.len(),
            len == text@.len(),
            n <= it.index(),
    {
        let ghost i = it.index() as int;
        let ghost s = text@.take(i + 1);
        assert(s.drop_last() == text@.take(i));
        proof {
            lemma_word_runs_bound(s.drop_last());
            lemma_word_runs_bound(s);
        }
        let space = is_whitespace_char(c);
        if !space && prev_space {
            n = n + 1;
        }
        prev_space = space;
    }
    assert(text@.take(text@.len() as int) == text@);
    n
}

/// The number of Unicode scalar values in `text`.
pub fn char_count(text: &str) -> (r: usize)
    ensures
        r == text@.len(),
{
    text.unicode_len()
}

/// Word and character counts of the live editor text.
#[derive(Clone, Copy, Debug, PartialEq, Eq)]
pub struct Metrics {
    pub words: usize,
    pub chars: usize,
}

impl Metrics {
    /// The metrics of `text`.
    pub fn of(text: &str) -> (r: Metrics)
        ensures
            r.words == word_runs(text@),
            r.chars == text@.len(),
    {
        Metrics { words: word_count(text), chars: char_count(text) }
    }
}

} // verus!
