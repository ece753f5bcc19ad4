//! Approximate usage accounting: whitespace-delimited token counts.
//!
//! A token is a maximal run of characters none of which is white space. The
//! counts are an approximation of what a model's own tokenizer would report.

use vstd::prelude::*;
use vstd::utf8::encode_utf8;
use vstd::string::StringSliceAdditionalSpecFns;

verus! {

/// The characters with the Unicode property `White_Space`.
pub open spec fn is_whitespace(c: char) -> bool {
    let n = c as u32;
    ||| 0x0009 <= n <= 0x000D
    ||| n == 0x0020
    ||| n == 0x0085
    ||| n == 0x00A0
    ||| n == 0x1680
    ||| 0x2000 <= n <= 0x200A
    ||| n == 0x2028
    ||| n == 0x2029
    ||| n == 0x202F
    ||| n == 0x205F
    ||| n == 0x3000
}

/// Whether a token begins at position `i` of `s`: the character there is not
/// white space, and it is the first one or follows white space.
pub open spec fn starts_token(s: Seq<char>, i: int) -> bool {
    &&& 0 <= i < s.len()
    &&& !is_whitespace(s[i])
    &&& (i == 0 || is_whitespace(s[i - 1]))
}

/// The number of tokens in `s`: the number of positions at which one begins.
pub open spec fn token_count(s: Seq<char>) -> nat
    decreases s.len(),
{
    if s.len() == 0 {
        0
    } else {
        token_count(s.drop_last()) + if starts_token(s, s.len() - 1) {
            1nat
        } else {
            0nat
        }
    }
}

/// The tokens of a whole batch: the sum of the counts of its texts.
pub open spec fn total_tokens(texts: Seq<Seq<char>>) -> nat
    decreases texts.len(),
{
    if texts.len() == 0 {
        0
    } else {
        total_tokens(texts.drop_last()) + token_count(texts.last())
    }
}

/// A text has no more tokens than characters.
pub proof fn lemma_token_count_bounded(s: Seq<char>)
    ensures
        token_count(s) <= s.len(),
    decreases s.len(),
{
    if s.len() > 0 {
        lemma_token_count_bounded(s.drop_last());
    }
}

/// An encoded text has at least one byte for each character.
pub proof fn lemma_chars_within_bytes(s: Seq<char>)
    ensures
        s.len() <= encode_utf8(s).len(),
    decreases s.len(),
{
    if s.len() > 0 {
        lemma_chars_within_bytes(s.drop_first());
    }
}

/// Whether `c` is white space.
pub fn is_whitespace_char(c: char) -> (b: bool)
    ensures
        b == is_whitespace(c),
{
    let n: u32 = c as u32;
    (0x0009 <= n && n <= 0x000D) || n == 0x0020 || n == 0x0085 || n == 0x00A0 || n == 0x1680 || (
    0x2000 <= n && n <= 0x200A) || n == 0x2028 || n == 0x2029 || n == 0x202F || n == 0x205F || n
        == 0x3000
}

/// Counts the whitespace-delimited tokens of one text.
pub fn count_tokens(text: &str) -> (n: usize)
    ensures
        n == token_count(text@),
{
    let byte_len: usize = text.as_bytes().len();
    proof {
        lemma_chars_within_bytes(text@);
    }
    let mut count: usize = 0;
    let mut in_token: bool = false;
    for c in it: text.chars()
        invariant
            it.seq() == text@,
            text@.len() <= usize::MAX,
            count == token_count(text@.take(it.index())),
            in_token == (it.index() > 0 && !is_whitespace(text@[it.index() - 1])),
    {
        let ghost k = it.index();
        proof {
            lemma_token_count_bounded(text@.take(k));
            assert(text@.take(k + 1).drop_last() =~= text@.take(k));
        }
        let white = is_whitespace_char(c);
        if !white && !in_token {
            count = count + 1;
        }
        in_token = !white;
    }
    proof {
        assert(text@.take(text@.len() as int) =~= text@);
    }
    count
}

/// Counts the tokens of a whole batch.
///
/// The total is held in 128 bits: as many texts as a vector can hold, each as
/// long as a string can be, cannot exceed them.
pub fn count_batch_tokens(texts: &Vec<String>) -> (total: u128)
    ensures
        total == total_tokens(texts.deep_view()),
{
    let ghost all = texts.deep_view();
    let mut total: u128 = 0;
    let mut i: usize = 0;
    while i < texts.len()
        invariant
            i <= texts.len(),
            all == texts.deep_view(),
            total == total_tokens(all.take(i as int)),
            total <= i * usize::MAX,
        decreases texts.len() - i,
    {
        let n: usize = count_tokens(texts[i].as_str());
        proof {
            assert(all.take(i + 1).drop_last() =~= all.take(i as int));
            assert(all.take(i + 1).last() == texts[i as int]@);
            assert(i * usize::MAX + usize::MAX == (i + 1) * usize::MAX) by (nonlinear_arith);
            assert((i + 1) * usize::MAX <= usize::MAX * usize::MAX) by (nonlinear_arith)
                requires
                    i + 1 <= usize::MAX,
            ;
            assert(usize::MAX * usize::MAX <= u128::MAX) by (nonlinear_arith)
                requires
                    usize::MAX <= 0xFFFF_FFFF_FFFF_FFFF,
            ;
        }
        total = total + n as u128;
        i = i + 1;
    }
    proof {
        assert(all.take(texts.len() as int) =~= all);
    }
    total
}

} // verus!
