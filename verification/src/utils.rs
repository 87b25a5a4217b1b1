//! Text helpers: string equality, whitespace and the tokenizer that command
//! parsing rests on.

use vstd::prelude::*;
use vstd::std_specs::iter::IteratorSpec;
use vstd::string::StringSliceAdditionalSpecFns;
use vstd::utf8::encode_utf8_decode_utf8;

verus! {

/// The characters that separate tokens: the Unicode `White_Space` code points.
pub open spec fn is_whitespace(c: char) -> bool {
    let n = c as u32;
    ||| 0x09 <= n <= 0x0D
    ||| n == 0x20
    ||| n == 0x85
    ||| n == 0xA0
    ||| n == 0x1680
    ||| 0x2000 <= n <= 0x200A
    ||| n == 0x2028
    ||| n == 0x2029
    ||| n == 0x202F
    ||| n == 0x205F
    ||| n == 0x3000
}

/// The views of a sequence of strings, in order.
pub open spec fn strings_view(v: Seq<String>) -> Seq<Seq<char>> {
    Seq::new(v.len(), |i: int| v[i]@)
}

/// The views of a sequence of name/value pairs, in order.
pub open spec fn pairs_view(v: Seq<(String, String)>) -> Seq<(Seq<char>, Seq<char>)> {
    Seq::new(v.len(), |i: int| (v[i].0@, v[i].1@))
}

/// The first position at or after `from` that does not hold whitespace
/// (the length of `s` if there is none).
pub open spec fn skip_blank(s: Seq<char>, from: int) -> int
    decreases s.len() - from,
{
    if 0 <= from < s.len() && is_whitespace(s[from]) {
        skip_blank(s, from + 1)
    } else {
        from
    }
}

/// The first position at or after `from` that holds whitespace
/// (the length of `s` if there is none).
pub open spec fn token_end(s: Seq<char>, from: int) -> int
    decreases s.len() - from,
{
    if 0 <= from < s.len() && !is_whitespace(s[from]) {
        token_end(s, from + 1)
    } else {
        from
    }
}

/// The tokens of `s` that start at or after `from`: the maximal runs of
/// characters other than whitespace, from left to right.
pub open spec fn tokens_from(s: Seq<char>, from: int) -> Seq<Seq<char>>
    decreases s.len() - from,
    via tokens_from_decreases
{
    let start = skip_blank(s, from);
    if 0 <= from <= start < s.len() {
        let end = token_end(s, start);
        seq![s.subrange(start, end)] + tokens_from(s, end)
    } else {
        Seq::empty()
    }
}

#[via_fn]
proof fn tokens_from_decreases(s: Seq<char>, from: int) {
    let start = skip_blank(s, from);
    if 0 <= from <= start < s.len() {
        lemma_skip_blank(s, from);
        lemma_token_end(s, start);
    }
}

/// The tokens of `s`: its maximal runs of characters other than whitespace.
pub open spec fn tokens(s: Seq<char>) -> Seq<Seq<char>> {
    tokens_from(s, 0)
}

/// `skip_blank` stays inside the text, passes only whitespace and stops at a
/// character that is none.
pub proof fn lemma_skip_blank(s: Seq<char>, from: int)
    requires
        0 <= from <= s.len(),
    ensures
        from <= skip_blank(s, from) <= s.len(),
        forall|k: int| from <= k < skip_blank(s, from) ==> is_whitespace(#[trigger] s[k]),
        skip_blank(s, from) < s.len() ==> !is_whitespace(s[skip_blank(s, from)]),
    decreases s.len() - from,
{
    if from < s.len() && is_whitespace(s[from]) {
        lemma_skip_blank(s, from + 1);
    }
}

/// `token_end` stays inside the text, passes no whitespace and stops at
/// whitespace; from a character that is no whitespace it moves forward.
pub proof fn lemma_token_end(s: Seq<char>, from: int)
    requires
        0 <= from <= s.len(),
    ensures
        from <= token_end(s, from) <= s.len(),
        forall|k: int| from <= k < token_end(s, from) ==> !is_whitespace(#[trigger] s[k]),
        token_end(s, from) < s.len() ==> is_whitespace(s[token_end(s, from)]),
        from < s.len() && !is_whitespace(s[from]) ==> from < token_end(s, from),
    decreases s.len() - from,
{
    if from < s.len() && !is_whitespace(s[from]) {
        lemma_token_end(s, from + 1);
    }
}

/// Every token holds at least one character and no whitespace.
pub proof fn lemma_tokens_are_words(s: Seq<char>, from: int)
    requires
        0 <= from <= s.len(),
    ensures
        forall|i: int|
            0 <= i < tokens_from(s, from).len() ==> (#[trigger] tokens_from(s, from)[i]).len() > 0,
        forall|i: int, j: int|
            0 <= i < tokens_from(s, from).len() && 0 <= j < tokens_from(s, from)[i].len()
                ==> !is_whitespace(#[trigger] tokens_from(s, from)[i][j]),
    decreases s.len() - from,
{
    lemma_skip_blank(s, from);
    let start = skip_blank(s, from);
    if start < s.len() {
        lemma_token_end(s, start);
        let end = token_end(s, start);
        lemma_tokens_are_words(s, end);
        let head = s.subrange(start, end);
        let rest = tokens_from(s, end);
        assert(tokens_from(s, from) == seq![head] + rest);
        assert forall|i: int| 0 <= i < tokens_from(s, from).len() implies (#[trigger] tokens_from(
            s,
            from,
        )[i]).len() > 0 by {
            if i > 0 {
                assert(tokens_from(s, from)[i] == rest[i - 1]);
            }
        }
        assert forall|i: int, j: int|
            0 <= i < tokens_from(s, from).len() && 0 <= j < tokens_from(s, from)[i].len()
            implies !is_whitespace(#[trigger] tokens_from(s, from)[i][j]) by {
            if i > 0 {
                assert(tokens_from(s, from)[i] == rest[i - 1]);
            } else {
                assert(head[j] == s[start + j]);
            }
        }
    }
}

/// Whether `c` separates tokens.
pub fn char_is_whitespace(c: char) -> (b: bool)
    ensures
        b == is_whitespace(c),
{
    let n: u32 = c as u32;
    (0x09 <= n && n <= 0x0D) || n == 0x20 || n == 0x85 || n == 0xA0 || n == 0x1680 || (0x2000 <= n
        && n <= 0x200A) || n == 0x2028 || n == 0x2029 || n == 0x202F || n == 0x205F || n == 0x3000
}

/// Whether two strings hold the same characters.
pub fn str_eq(a: &str, b: &str) -> (r: bool)
    ensures
        r == (a@ == b@),
{
    let x = a.as_bytes();
    let y = b.as_bytes();
    proof {
        encode_utf8_decode_utf8(a@);
        encode_utf8_decode_utf8(b@);
    }
    if x.len() != y.len() {
        return false;
    }
    let n = x.len();
    let mut i: usize = 0;
    while i < n
        invariant
            n == x@.len(),
            n == y@.len(),
            x@ == a.spec_bytes(),
            y@ == b.spec_bytes(),
            i <= n,
            x@.subrange(0, i as int) == y@.subrange(0, i as int),
        decreases n - i,
    {
        if x[i] != y[i] {
            return false;
        }
        assert(x@.subrange(0, i + 1) == x@.subrange(0, i as int).push(x@[i as int]));
        assert(y@.subrange(0, i + 1) == y@.subrange(0, i as int).push(y@[i as int]));
        i = i + 1;
    }
    assert(x@ == x@.subrange(0, n as int));
    assert(y@ == y@.subrange(0, n as int));
    true
}

/// The characters of `s`, in order.
pub fn chars_of(s: &str) -> (v: Vec<char>)
    ensures
        v@ == s@,
{
    let mut v: Vec<char> = Vec::new();
    for c in it: s.chars()
        invariant
            v@ == it.seq().take(it.index()),
            it.seq() == s@,
    {
        v.push(c);
    }
    v
}

fn skip_blank_in(chars: &Vec<char>, from: usize) -> (r: usize)
    requires
        from <= chars.len(),
    ensures
        r == skip_blank(chars@, from as int),
        from <= r <= chars.len(),
{
    let mut i: usize = from;
    while i < chars.len() && char_is_whitespace(chars[i])
        invariant
            from <= i <= chars.len(),
            skip_blank(chars@, i as int) == skip_blank(chars@, from as int),
        decreases chars.len() - i,
    {
        i = i + 1;
    }
    i
}

fn token_end_in(chars: &Vec<char>, from: usize) -> (r: usize)
    requires
        from <= chars.len(),
    ensures
        r == token_end(chars@, from as int),
        from <= r <= chars.len(),
{
    let mut i: usize = from;
    while i < chars.len() && !char_is_whitespace(chars[i])
        invariant
            from <= i <= chars.len(),
            token_end(chars@, i as int) == token_end(chars@, from as int),
        decreases chars.len() - i,
    {
        i = i + 1;
    }
    i
}

/// Splits `text` on whitespace. The result holds the maximal runs of
/// characters other than whitespace, from left to right; a text that is empty
/// or blank gives no token.
pub fn tokenize(text: &str) -> (out: Vec<String>)
    ensures
        strings_view(out@) == tokens(text@),
        forall|i: int| 0 <= i < out@.len() ==> (#[trigger] out@[i])@.len() > 0,
        forall|i: int, j: int|
            0 <= i < out@.len() && 0 <= j < out@[i]@.len() ==> !is_whitespace(
                #[trigger] out@[i]@[j],
            ),
{
    proof {
        lemma_tokens_are_words(text@, 0);
    }
    let chars = chars_of(text);
    let n = chars.len();
    let mut out: Vec<String> = Vec::new();
    let mut i: usize = 0;
    assert(strings_view(out@) + tokens_from(text@, 0) == tokens(text@));
    while i < n
        invariant
            chars@ == text@,
            n == chars.len(),
            i <= n,
            strings_view(out@) + tokens_from(text@, i as int) == tokens(text@),
        decreases n - i,
    {
        let start = skip_blank_in(&chars, i);
        if start < n {
            let end = token_end_in(&chars, start);
            proof {
                lemma_skip_blank(text@, i as int);
                lemma_token_end(text@, start as int);
            }
            let token = text.substring_char(start, end).to_owned();
            let ghost before = out@;
            out.push(token);
            assert(strings_view(out@) == strings_view(before) + seq![
                text@.subrange(start as int, end as int),
            ]);
            i = end;
        } else {
            i = n;
            assert(tokens_from(text@, n as int) == Seq::<Seq<char>>::empty());
        }
    }
    assert(tokens_from(text@, n as int) == Seq::<Seq<char>>::empty());
    assert forall|i: int| 0 <= i < out@.len() implies (#[trigger] out@[i])@.len() > 0 by {
        assert(strings_view(out@)[i] == out@[i]@);
    }
    assert forall|i: int, j: int|
        0 <= i < out@.len() && 0 <= j < out@[i]@.len() implies !is_whitespace(
        #[trigger] out@[i]@[j],
    ) by {
        assert(strings_view(out@)[i] == out@[i]@);
    }
    out
}

} // verus!
