//! Text as characters: the helpers the codec and the command parser share.

use vstd::prelude::*;
use vstd::string::StringExecFns;

verus! {

/// `String::push` puts the character at the end of the text, as std
/// documents it.
pub assume_specification[ String::push ](text: &mut String, c: char)
    ensures
        final(text)@ == old(text)@.push(c),
;

/// `String::pop` takes the last character off the text and returns it, and
/// returns nothing where the text is empty, as std documents it.
pub assume_specification[ String::pop ](text: &mut String) -> (c: Option<char>)
    ensures
        match c {
            Some(last) => old(text)@.len() > 0 && last == old(text)@.last() && final(text)@ == old(
                text,
            )@.drop_last(),
            None => old(text)@.len() == 0 && final(text)@ == old(text)@,
        },
;

/// Whether `text` reads exactly as `literal`.
pub fn is_text(text: &String, literal: &str) -> (same: bool)
    ensures
        same == (text@ == literal@),
{
    let other = String::from_str(literal);
    *text == other
}

/// Whether two optional texts read the same: both absent, or both there
/// with the same characters.
pub fn same_text(a: &Option<String>, b: &Option<String>) -> (same: bool)
    ensures
        same == (a.deep_view() == b.deep_view()),
{
    match (a, b) {
        (None, None) => true,
        (Some(x), Some(y)) => *x == *y,
        _ => false,
    }
}

/// A copy of an optional text.
pub fn clone_text(text: &Option<String>) -> (copy: Option<String>)
    ensures
        copy.deep_view() == text.deep_view(),
{
    match text {
        None => None,
        Some(t) => Some(t.clone()),
    }
}

/// The characters of `text`, in order.
pub fn chars_of(text: &str) -> (chars: Vec<char>)
    ensures
        chars@ == text@,
{
    let mut chars: Vec<char> = Vec::new();
    for c in it: text.chars()
        invariant
            it.seq() == text@,
            chars@ == text@.take(it.index() as int),
    {
        chars.push(c);
    }
    chars
}

/// Whether the text `text` reads exactly as `literal`.
pub fn str_is(text: &str, literal: &str) -> (same: bool)
    ensures
        same == (text@ == literal@),
{
    let a = String::from_str(text);
    let b = String::from_str(literal);
    a == b
}

/// Where `c` first stands in `text` at or after `from`; the length of
/// `text` where it does not.
pub open spec fn char_at_or_end(text: Seq<char>, c: char, from: int) -> int
    decreases text.len() - from,
{
    if from < 0 || from >= text.len() {
        text.len() as int
    } else if text[from] == c {
        from
    } else {
        char_at_or_end(text, c, from + 1)
    }
}

/// `char_at_or_end` finds the first `c` at or after `from`, and none stands
/// between the two.
pub proof fn lemma_char_at_or_end(text: Seq<char>, c: char, from: int)
    requires
        0 <= from <= text.len(),
    ensures
        from <= char_at_or_end(text, c, from) <= text.len(),
        char_at_or_end(text, c, from) < text.len() ==> text[char_at_or_end(text, c, from)] == c,
        forall|at: int| from <= at < char_at_or_end(text, c, from) ==> text[at] != c,
    decreases text.len() - from,
{
    if from < text.len() && text[from] != c {
        lemma_char_at_or_end(text, c, from + 1);
    }
}

/// Finds the first `c` at or after `from`.
pub fn find_char(chars: &Vec<char>, c: char, from: usize) -> (at: usize)
    requires
        from <= chars.len(),
    ensures
        at == char_at_or_end(chars@, c, from as int),
        from <= at <= chars.len(),
{
    let n = chars.len();
    let mut at = from;
    while at < n && chars[at] != c
        invariant
            n == chars.len(),
            from <= at <= n,
            char_at_or_end(chars@, c, from as int) == char_at_or_end(chars@, c, at as int),
        decreases n - at,
    {
        at += 1;
    }
    proof {
        lemma_char_at_or_end(chars@, c, at as int);
    }
    at
}

} // verus!
