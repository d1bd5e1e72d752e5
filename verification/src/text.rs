//! Text helpers shared by the rest of the library: comparing and copying
//! strings, trimming white space and splitting a text into its tokens, each
//! stated over the sequence of characters a string holds.

use vstd::prelude::*;
use vstd::string::*;

verus! {

/// The character sequences held by a sequence of strings.
pub open spec fn texts(strings: Seq<String>) -> Seq<Seq<char>> {
    strings.map_values(|s: String| s@)
}

/// What an optional string holds, as an optional character sequence.
pub open spec fn optional_text(value: Option<String>) -> Option<Seq<char>> {
    match value {
        Some(s) => Some(s@),
        None => None,
    }
}

/// Whether two string slices hold the same characters.
pub fn same_text(a: &str, b: &str) -> (same: bool)
    ensures
        same == (a@ == b@),
{
    let left = String::from_str(a);
    let right = String::from_str(b);
    left == right
}

/// A copy of each string of `strings`, in the same order.
pub fn copy_strings(strings: &Vec<String>) -> (copy: Vec<String>)
    ensures
        texts(copy@) == texts(strings@),
{
    let mut copy: Vec<String> = Vec::new();
    for i in 0..strings.len()
        invariant
            copy@.len() == i,
            forall|j: int| 0 <= j < i ==> copy@[j]@ == strings@[j]@,
    {
        copy.push(strings[i].clone());
    }
    assert(texts(copy@) =~= texts(strings@));
    copy
}

/// A copy of an optional string.
pub fn copy_optional(value: &Option<String>) -> (copy: Option<String>)
    ensures
        optional_text(copy) == optional_text(*value),
{
    match value {
        Some(s) => Some(s.clone()),
        None => None,
    }
}

/// `first` followed by `second`.
pub fn concatenate(first: &str, second: &str) -> (joined: String)
    ensures
        joined@ == first@ + second@,
{
    let mut joined = String::from_str(first);
    joined.append(second);
    joined
}

/// Whether a character is white space: one of the code points that Unicode
/// gives the property `White_Space`.
pub open spec fn spec_is_white_space(c: char) -> bool {
    let code = c as u32;
    ||| 0x09 <= code <= 0x0d
    ||| code == 0x20
    ||| code == 0x85
    ||| code == 0xa0
    ||| code == 0x1680
    ||| 0x2000 <= code <= 0x200a
    ||| code == 0x2028
    ||| code == 0x2029
    ||| code == 0x202f
    ||| code == 0x205f
    ||| code == 0x3000
}

/// Whether a character is white space.
pub fn is_white_space(c: char) -> (white: bool)
    ensures
        white == spec_is_white_space(c),
{
    let code = c as u32;
    (0x09 <= code && code <= 0x0d) || code == 0x20 || code == 0x85 || code == 0xa0 || code
        == 0x1680 || (0x2000 <= code && code <= 0x200a) || code == 0x2028 || code == 0x2029
        || code == 0x202f || code == 0x205f || code == 0x3000
}

/// Whether `trimmed` is `text` without the white space at its two ends: the
/// stretch of `text` from `start` to `end`, with nothing but white space
/// before and behind it, and no white space at either end of its own.
pub open spec fn is_trim_of(text: Seq<char>, trimmed: Seq<char>, start: int, end: int) -> bool {
    &&& 0 <= start <= end <= text.len()
    &&& trimmed == text.subrange(start, end)
    &&& forall|k: int| 0 <= k < start ==> spec_is_white_space(#[trigger] text[k])
    &&& forall|k: int| end <= k < text.len() ==> spec_is_white_space(#[trigger] text[k])
    &&& start < end ==> !spec_is_white_space(text[start]) && !spec_is_white_space(text[end - 1])
}

/// `text` without the white space at its two ends.
pub fn trim(text: &str) -> (trimmed: String)
    ensures
        exists|start: int, end: int| is_trim_of(text@, trimmed@, start, end),
{
    let length = text.unicode_len();
    let mut start: usize = 0;
    while start < length && is_white_space(text.get_char(start))
        invariant
            start <= length,
            length == text@.len(),
            forall|k: int| 0 <= k < start ==> spec_is_white_space(#[trigger] text@[k]),
        decreases length - start,
    {
        start += 1;
    }
    let mut end: usize = length;
    while end > start && is_white_space(text.get_char(end - 1))
        invariant
            start <= end <= length,
            length == text@.len(),
            forall|k: int| end <= k < length ==> spec_is_white_space(#[trigger] text@[k]),
        decreases end,
    {
        end -= 1;
    }
    let trimmed = String::from_str(text.substring_char(start, end));
    assert(is_trim_of(text@, trimmed@, start as int, end as int));
    trimmed
}

/// The tokens of `text`: its maximal runs of characters that are no white
/// space, in their order.
///
/// Reading the text from its start, a character that is no white space
/// lengthens the last token where the character before it belongs to that
/// token, and starts a new token where the text begins with it or white space
/// stands before it. White space belongs to no token: any run of it, of
/// whatever length and of whatever white-space characters, separates two
/// tokens, and white space at either end of the text separates nothing.
pub open spec fn spec_tokens(text: Seq<char>) -> Seq<Seq<char>>
    decreases text.len(),
{
    if text.len() == 0 {
        Seq::<Seq<char>>::empty()
    } else {
        let before = spec_tokens(text.drop_last());
        if spec_is_white_space(text.last()) {
            before
        } else if text.len() >= 2 && !spec_is_white_space(text[text.len() - 2]) {
            before.update(before.len() - 1, before.last().push(text.last()))
        } else {
            before.push(seq![text.last()])
        }
    }
}

/// Every token has at least one character and holds no white space, and a
/// text that ends in a character that is no white space ends in its last
/// token.
pub proof fn lemma_tokens_hold_no_white_space(text: Seq<char>)
    ensures
        forall|i: int|
            0 <= i < spec_tokens(text).len() ==> (#[trigger] spec_tokens(text)[i]).len() > 0,
        forall|i: int, k: int|
            0 <= i < spec_tokens(text).len() && 0 <= k < spec_tokens(text)[i].len()
                ==> !spec_is_white_space(#[trigger] spec_tokens(text)[i][k]),
        text.len() > 0 && !spec_is_white_space(text.last()) ==> spec_tokens(text).len() > 0
            && spec_tokens(text).last().last() == text.last(),
    decreases text.len(),
{
    if text.len() > 0 {
        let shorter = text.drop_last();
        let before = spec_tokens(shorter);
        let tokens = spec_tokens(text);
        lemma_tokens_hold_no_white_space(shorter);
        if spec_is_white_space(text.last()) {
        } else if text.len() >= 2 && !spec_is_white_space(text[text.len() - 2]) {
            assert(shorter.last() == text[text.len() - 2]);
            assert forall|i: int| 0 <= i < tokens.len() implies (#[trigger] tokens[i]).len()
                > 0 by {
                if i < before.len() - 1 {
                    assert(tokens[i] == before[i]);
                }
            }
            assert forall|i: int, k: int|
                0 <= i < tokens.len() && 0 <= k < tokens[i].len() implies !spec_is_white_space(
                #[trigger] tokens[i][k],
            ) by {
                if i < before.len() - 1 {
                    assert(tokens[i] == before[i]);
                } else if k < before[i].len() {
                    assert(tokens[i][k] == before[i][k]);
                }
            }
        } else {
            assert forall|i: int| 0 <= i < tokens.len() implies (#[trigger] tokens[i]).len()
                > 0 by {
                if i < before.len() {
                    assert(tokens[i] == before[i]);
                }
            }
            assert forall|i: int, k: int|
                0 <= i < tokens.len() && 0 <= k < tokens[i].len() implies !spec_is_white_space(
                #[trigger] tokens[i][k],
            ) by {
                if i < before.len() {
                    assert(tokens[i] == before[i]);
                }
            }
        }
    }
}

/// Whether every character of `text` is white space.
pub open spec fn is_white_space_run(text: Seq<char>) -> bool {
    forall|k: int| 0 <= k < text.len() ==> spec_is_white_space(#[trigger] text[k])
}

/// Whether `text` can stand as one token: it has a character, and none of its
/// characters is white space.
pub open spec fn is_token(text: Seq<char>) -> bool {
    &&& text.len() > 0
    &&& forall|k: int| 0 <= k < text.len() ==> !spec_is_white_space(#[trigger] text[k])
}

/// White space behind a text adds no token, however much of it there is.
pub proof fn lemma_tokens_skip_white_space(text: Seq<char>, gap: Seq<char>)
    requires
        is_white_space_run(gap),
    ensures
        spec_tokens(text + gap) == spec_tokens(text),
    decreases gap.len(),
{
    if gap.len() == 0 {
        assert(text + gap =~= text);
    } else {
        let shorter = gap.drop_last();
        assert forall|k: int| 0 <= k < shorter.len() implies spec_is_white_space(
            #[trigger] shorter[k],
        ) by {
            assert(shorter[k] == gap[k]);
        }
        lemma_tokens_skip_white_space(text, shorter);
        assert((text + gap).drop_last() =~= text + shorter);
        assert((text + gap).last() == gap.last());
    }
}

/// A run of characters that are no white space, behind a text that is empty
/// or ends in white space, is the next token, whole.
pub proof fn lemma_tokens_take_token(text: Seq<char>, token: Seq<char>)
    requires
        text.len() == 0 || spec_is_white_space(text.last()),
        is_token(token),
    ensures
        spec_tokens(text + token) == spec_tokens(text).push(token),
    decreases token.len(),
{
    let whole = text + token;
    assert(whole.last() == token.last());
    if token.len() == 1 {
        assert(whole.drop_last() =~= text);
        assert(token =~= seq![token.last()]);
        if text.len() > 0 {
            assert(whole[whole.len() - 2] == text.last());
        }
    } else {
        let shorter = token.drop_last();
        assert forall|k: int| 0 <= k < shorter.len() implies !spec_is_white_space(
            #[trigger] shorter[k],
        ) by {
            assert(shorter[k] == token[k]);
        }
        lemma_tokens_take_token(text, shorter);
        assert(whole.drop_last() =~= text + shorter);
        assert(whole[whole.len() - 2] == token[token.len() - 2]);
        let before = spec_tokens(text).push(shorter);
        assert(before.update(before.len() - 1, before.last().push(token.last())) =~= spec_tokens(
            text,
        ).push(token)) by {
            assert(shorter.push(token.last()) =~= token);
        }
    }
}

/// The tokens of `text`: its maximal runs of characters that are no white
/// space.
pub fn tokens(text: &str) -> (pieces: Vec<String>)
    ensures
        texts(pieces@) == spec_tokens(text@),
{
    let length = text.unicode_len();
    let mut pieces: Vec<String> = Vec::new();
    let mut start: usize = 0;
    let mut inside = false;
    let mut i: usize = 0;
    assert(text@.subrange(0, 0) =~= Seq::<char>::empty());
    assert(texts(pieces@) =~= Seq::<Seq<char>>::empty());
    while i < length
        invariant
            start <= i <= length,
            length == text@.len(),
            inside == (i > 0 && !spec_is_white_space(text@[i - 1])),
            inside ==> start < i && spec_tokens(text@.subrange(0, i as int)) == texts(
                pieces@,
            ).push(text@.subrange(start as int, i as int)),
            !inside ==> spec_tokens(text@.subrange(0, i as int)) == texts(pieces@),
        decreases length - i,
    {
        let c = text.get_char(i);
        proof {
            let grown = text@.subrange(0, i + 1);
            assert(grown.drop_last() =~= text@.subrange(0, i as int));
            assert(grown.last() == c);
            if i > 0 {
                assert(grown[grown.len() - 2] == text@[i - 1]);
            }
        }
        if is_white_space(c) {
            if inside {
                let ghost before = texts(pieces@);
                let piece = String::from_str(text.substring_char(start, i));
                pieces.push(piece);
                assert(texts(pieces@) =~= before.push(text@.subrange(start as int, i as int)));
                inside = false;
            }
        } else {
            if inside {
                proof {
                    let before = texts(pieces@).push(text@.subrange(start as int, i as int));
                    assert(text@.subrange(start as int, i as int).push(c) =~= text@.subrange(
                        start as int,
                        i + 1,
                    ));
                    assert(before.update(before.len() - 1, before.last().push(c)) =~= texts(
                        pieces@,
                    ).push(text@.subrange(start as int, i + 1)));
                }
            } else {
                assert(seq![c] =~= text@.subrange(i as int, i + 1));
                start = i;
                inside = true;
            }
        }
        i += 1;
    }
    assert(text@.subrange(0, length as int) =~= text@);
    if inside {
        let ghost before = texts(pieces@);
        let piece = String::from_str(text.substring_char(start, length));
        pieces.push(piece);
        assert(texts(pieces@) =~= before.push(text@.subrange(start as int, length as int)));
    }
    pieces
}

} // verus!
