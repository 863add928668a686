//! Escaping of the three characters that the service's markup reserves.

use vstd::prelude::*;

verus! {

/// One of `&`, `<` and `>`.
pub open spec fn is_reserved(c: char) -> bool {
    c == '&' || c == '<' || c == '>'
}

/// The entity that stands for a reserved character, and any other character
/// as it is.
pub open spec fn escape_char(c: char) -> Seq<char> {
    if c == '&' {
        seq!['&', 'a', 'm', 'p', ';']
    } else if c == '<' {
        seq!['&', 'l', 't', ';']
    } else if c == '>' {
        seq!['&', 'g', 't', ';']
    } else {
        seq![c]
    }
}

/// The text with each character escaped, in order.
pub open spec fn escape(text: Seq<char>) -> Seq<char>
    decreases text.len(),
{
    if text.len() == 0 {
        Seq::empty()
    } else {
        escape(text.drop_last()) + escape_char(text.last())
    }
}

/// One of the three entities begins at position `i`.
pub open spec fn entity_at(text: Seq<char>, i: int) -> bool {
    ||| i + 5 <= text.len() && text.subrange(i, i + 5) == seq!['&', 'a', 'm', 'p', ';']
    ||| i + 4 <= text.len() && text.subrange(i, i + 4) == seq!['&', 'l', 't', ';']
    ||| i + 4 <= text.len() && text.subrange(i, i + 4) == seq!['&', 'g', 't', ';']
}

/// A text without `&`, `<` and `>` is its own escaped form.
pub proof fn lemma_escape_identity(text: Seq<char>)
    requires
        forall|i: int| 0 <= i < text.len() ==> !is_reserved(#[trigger] text[i]),
    ensures
        escape(text) == text,
    decreases text.len(),
{
    if text.len() > 0 {
        lemma_escape_identity(text.drop_last());
        assert(text.drop_last().push(text.last()) == text);
    }
}

/// An escaped text holds no `<` and no `>`, and each `&` in it begins one of
/// the three entities.
pub proof fn lemma_escape_safe(text: Seq<char>)
    ensures
        forall|i: int|
            0 <= i < escape(text).len() ==> {
                &&& #[trigger] escape(text)[i] != '<'
                &&& escape(text)[i] != '>'
                &&& escape(text)[i] == '&' ==> entity_at(escape(text), i)
            },
    decreases text.len(),
{
    if text.len() > 0 {
        let head = escape(text.drop_last());
        let tail = escape_char(text.last());
        let whole = escape(text);
        lemma_escape_safe(text.drop_last());
        assert(whole == head + tail);
        assert forall|i: int| 0 <= i < whole.len() implies {
            &&& #[trigger] whole[i] != '<'
            &&& whole[i] != '>'
            &&& whole[i] == '&' ==> entity_at(whole, i)
        } by {
            if i < head.len() {
                assert(whole[i] == head[i]);
                if head[i] == '&' {
                    assert(entity_at(head, i));
                    if i + 5 <= head.len() {
                        assert(whole.subrange(i, i + 5) == head.subrange(i, i + 5));
                    }
                    if i + 4 <= head.len() {
                        assert(whole.subrange(i, i + 4) == head.subrange(i, i + 4));
                    }
                }
            } else {
                assert(whole[i] == tail[i - head.len()]);
                if whole[i] == '&' {
                    assert(i == head.len());
                    assert(whole.subrange(i, i + tail.len()) == tail);
                }
            }
        }
    }
}

/// Escapes `&`, `<` and `>` in one pass from left to right.
pub fn escape_text(text: &str) -> (escaped: String)
    ensures
        escaped@ == escape(text@),
{
    let mut escaped = String::new();
    for c in it: text.chars()
        invariant
            it.seq() == text@,
            escaped@ == escape(text@.take(it.index() as int)),
    {
        proof {
            let i = it.index() as int;
            assert(text@.take(i + 1).drop_last() == text@.take(i));
            assert(text@.take(i + 1).last() == c);
        }
        if c == '&' {
            escaped.push('&');
            escaped.push('a');
            escaped.push('m');
            escaped.push('p');
            escaped.push(';');
        } else if c == '<' {
            escaped.push('&');
            escaped.push('l');
            escaped.push('t');
            escaped.push(';');
        } else if c == '>' {
            escaped.push('&');
            escaped.push('g');
            escaped.push('t');
            escaped.push(';');
        } else {
            escaped.push(c);
        }
    }
    proof {
        assert(text@.take(text@.len() as int) == text@);
    }
    escaped
}

} // verus!
