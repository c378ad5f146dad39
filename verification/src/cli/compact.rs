//! Texts that fit on a line.
use crate::text::{chars_of, is_white_space, joined, text_of_range};
use vstd::prelude::*;

verus! {

broadcast use crate::model::group_views;

/// The words of a text: what stands between white space.
pub open spec fn words(text: Seq<char>) -> Seq<Seq<char>>
    decreases text.len(),
{
    if text.len() == 0 {
        Seq::empty()
    } else {
        let head = words(text.drop_last());
        let last = text.last();
        if crate::text::white_space(last) {
            head
        } else if text.len() == 1 || crate::text::white_space(text[text.len() - 2]) {
            head.push(seq![last])
        } else {
            head.drop_last().push(head.last().push(last))
        }
    }
}

/// The words of a text with one space between them.
pub open spec fn spaced_once(text: Seq<char>) -> Seq<char> {
    crate::text::join(words(text), " "@)
}

/// A text on one line and of a bounded length; what is cut off leaves three dots.
pub open spec fn compact(text: Seq<char>, max_chars: nat) -> Seq<char> {
    let line = spaced_once(text);
    if line.len() <= max_chars {
        line
    } else if max_chars < 3 {
        "..."@
    } else {
        line.take(max_chars - 3) + "..."@
    }
}

/// The words of a text.
fn words_of(text: &str) -> (list: Vec<String>)
    ensures
        crate::model::views(list@) == words(text@),
{
    let chars = chars_of(text);
    let mut list: Vec<String> = Vec::new();
    let mut word = String::new();
    let mut inside = false;
    assert(chars@.take(0) =~= Seq::empty());
    for i in 0..chars.len()
        invariant
            chars@ == text@,
            inside == (i > 0 && !crate::text::white_space(chars@[i - 1])),
            inside ==> words(chars@.take(i as int)) == crate::model::views(list@).push(word@),
            !inside ==> words(chars@.take(i as int)) == crate::model::views(list@),
            !inside ==> word@ == Seq::<char>::empty(),
    {
        let c = chars[i];
        let ghost head = chars@.take(i as int);
        let ghost here = chars@.take(i + 1);
        proof {
            assert(here.drop_last() =~= head);
            assert(here.last() == c);
        }
        if is_white_space(c) {
            if inside {
                let ghost before = crate::model::views(list@);
                list.push(word);
                assert(crate::model::views(list@) =~= before.push(word@));
                word = String::new();
                inside = false;
            }
        } else {
            let ghost before = word@;
            word.push(c);
            proof {
                if inside {
                    let known = words(head);
                    assert(here[here.len() - 2] == chars@[i - 1]);
                    assert(known.drop_last() =~= crate::model::views(list@));
                } else {
                    if i > 0 {
                        assert(here[here.len() - 2] == chars@[i - 1]);
                    }
                    assert(word@ =~= seq![c]);
                }
            }
            inside = true;
        }
    }
    assert(chars@.take(chars@.len() as int) =~= chars@);
    if inside {
        let ghost before = crate::model::views(list@);
        list.push(word);
        assert(crate::model::views(list@) =~= before.push(word@));
    }
    list
}

/// A text on one line and of a bounded length; what is cut off leaves three dots.
pub fn compact_cell(value: &str, max_chars: usize) -> (cell: String)
    ensures
        cell@ == compact(value@, max_chars as nat),
{
    let list = words_of(value);
    let line = joined(&list, " ");
    let chars = chars_of(line.as_str());
    if chars.len() <= max_chars {
        return line;
    }
    let keep: usize = if max_chars < 3 {
        0
    } else {
        max_chars - 3
    };
    let mut cell = text_of_range(&chars, 0, keep);
    cell.append("...");
    assert(cell@ =~= compact(value@, max_chars as nat));
    cell
}

/// Whether a text is a word: not empty, and without white space.
pub open spec fn is_word(text: Seq<char>) -> bool {
    &&& text.len() > 0
    &&& forall|i: int| 0 <= i < text.len() ==> !crate::text::white_space(#[trigger] text[i])
}

/// The words of a text are not empty and hold no white space.
pub proof fn words_are_words(text: Seq<char>)
    ensures
        forall|i: int| 0 <= i < words(text).len() ==> is_word(#[trigger] words(text)[i]),
        text.len() > 0 && !crate::text::white_space(text.last()) ==> words(text).len() > 0,
    decreases text.len(),
{
    if text.len() > 0 {
        let head = text.drop_last();
        words_are_words(head);
        assert forall|i: int| 0 <= i < words(text).len() implies is_word(
            #[trigger] words(text)[i],
        ) by {
            if !crate::text::white_space(text.last()) {
                if text.len() > 1 && !crate::text::white_space(text[text.len() - 2]) {
                    assert(head.last() == text[text.len() - 2]);
                    let before = words(head).last();
                    assert(is_word(words(head)[words(head).len() - 1]));
                    assert(is_word(before.push(text.last())));
                    if i < words(head).len() - 1 {
                        assert(is_word(words(head)[i]));
                    }
                } else if i < words(head).len() {
                    assert(is_word(words(head)[i]));
                } else {
                    assert(is_word(seq![text.last()]));
                }
            } else {
                assert(is_word(words(head)[i]));
            }
        }
    }
}

/// A compact text is no longer than it may be, where there is room for three dots.
pub proof fn compact_cells_are_short(text: Seq<char>, max_chars: nat)
    requires
        max_chars >= 3,
    ensures
        compact(text, max_chars).len() <= max_chars,
{
    reveal_strlit("...");
}

} // verus!
