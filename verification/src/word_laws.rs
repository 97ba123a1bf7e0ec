//! What holds of every clean text.

use crate::words::{ascii, cleaned, joined, letter, lower, replaced, words};
use vstd::prelude::*;

verus! {

/// Whether `c` is one of the small letters `a` to `z`.
pub open spec fn small(c: char) -> bool {
    'a' <= c <= 'z'
}

/// Whether every character of every word of `ws` is a small letter.
pub open spec fn small_words(ws: Seq<Seq<char>>) -> bool {
    forall|k: int, j: int|
        0 <= k < ws.len() && 0 <= j < ws[k].len() ==> small(#[trigger] ws[k][j])
}

/// Whether `w` is one of the words that the clean text never holds: the mark
/// of corruption, and the words that another word stands for.
pub open spec fn banned(w: Seq<char>) -> bool {
    w == "corruption"@ || w == "barry"@ || w == "stairs"@ || w == "yellow"@ || w == "breakfast"@
}

/// The words of a text whose letters are all small hold small letters only.
pub proof fn lemma_words_of_small_letters(s: Seq<char>)
    requires
        forall|i: int| 0 <= i < s.len() && letter(s[i]) ==> small(#[trigger] s[i]),
    ensures
        small_words(words(s)),
        s.len() > 0 && letter(s.last()) ==> words(s).len() > 0,
    decreases s.len(),
{
    if s.len() > 0 {
        let t = s.drop_last();
        assert forall|i: int| 0 <= i < t.len() && letter(t[i]) implies small(#[trigger] t[i]) by {
            assert(t[i] == s[i]);
        }
        lemma_words_of_small_letters(t);
        if letter(s.last()) {
            assert(small(s[s.len() - 1]));
            if s.len() >= 2 && letter(s[s.len() - 2]) {
                assert(t.last() == s[s.len() - 2]);
                let before = words(t);
                let grown = before.last().push(s.last());
                let after = before.drop_last().push(grown);
                assert forall|k: int, j: int|
                    0 <= k < after.len() && 0 <= j < after[k].len() implies small(
                    #[trigger] after[k][j],
                ) by {
                    if k < after.len() - 1 {
                        assert(after[k] == before[k]);
                    } else if j < before.last().len() {
                        assert(after[k][j] == before[before.len() - 1][j]);
                    }
                }
            } else {
                let after = words(t).push(seq![s.last()]);
                assert forall|k: int, j: int|
                    0 <= k < after.len() && 0 <= j < after[k].len() implies small(
                    #[trigger] after[k][j],
                ) by {
                    if k < after.len() - 1 {
                        assert(after[k] == words(t)[k]);
                    }
                }
            }
        }
    }
}

/// A word of small letters is replaced by a word of small letters, and no
/// word is replaced by one that another word stands for.
pub proof fn lemma_replaced(w: Seq<char>)
    ensures
        (forall|j: int| 0 <= j < w.len() ==> small(#[trigger] w[j])) ==> (forall|j: int|
            0 <= j < replaced(w).len() ==> small(#[trigger] replaced(w)[j])),
        w != "corruption"@ ==> !banned(replaced(w)),
{
    reveal_strlit("corruption");
    reveal_strlit("barry");
    reveal_strlit("stairs");
    reveal_strlit("yellow");
    reveal_strlit("breakfast");
    reveal_strlit("larry");
    reveal_strlit("ramp");
    reveal_strlit("purple");
    reveal_strlit("elevenses");
    let first = |t: Seq<char>| t[0];
    assert(first("corruption"@) == 'c' && first("barry"@) == 'b' && first("stairs"@) == 's'
        && first("yellow"@) == 'y' && first("breakfast"@) == 'b');
    assert(first("larry"@) == 'l' && first("ramp"@) == 'r' && first("purple"@) == 'p' && first(
        "elevenses"@,
    ) == 'e');
    if w != "corruption"@ {
        let r = replaced(w);
        assert(banned(r) ==> first(r) == 'c' || first(r) == 'b' || first(r) == 's' || first(r)
            == 'y');
        if w == "barry"@ || w == "stairs"@ || w == "yellow"@ || w == "breakfast"@ {
            assert(first(r) == 'l' || first(r) == 'r' || first(r) == 'p' || first(r) == 'e');
        }
    }
}

/// The clean words hold neither a mark of corruption nor a word that another
/// word stands for, and small letters only where the words they come from do.
pub proof fn lemma_cleaned(ws: Seq<Seq<char>>)
    ensures
        forall|k: int| 0 <= k < cleaned(ws).len() ==> !banned(#[trigger] cleaned(ws)[k]),
        small_words(ws) ==> small_words(cleaned(ws)),
    decreases ws.len(),
{
    if ws.len() > 0 {
        let rest = ws.drop_last();
        lemma_cleaned(rest);
        lemma_replaced(ws.last());
        if small_words(ws) {
            assert forall|k: int, j: int|
                0 <= k < rest.len() && 0 <= j < rest[k].len() implies small(
                #[trigger] rest[k][j],
            ) by {
                assert(rest[k] == ws[k]);
            }
            assert forall|j: int| 0 <= j < ws.last().len() implies small(
                #[trigger] ws.last()[j],
            ) by {
                assert(ws.last()[j] == ws[ws.len() - 1][j]);
            }
            if ws.last() != "corruption"@ {
                let after = cleaned(rest).push(replaced(ws.last()));
                assert forall|k: int, j: int|
                    0 <= k < after.len() && 0 <= j < after[k].len() implies small(
                    #[trigger] after[k][j],
                ) by {
                    if k < after.len() - 1 {
                        assert(after[k] == cleaned(rest)[k]);
                    } else {
                        assert(after[k][j] == replaced(ws.last())[j]);
                    }
                }
            }
        }
    }
}

/// Words of small letters join into a text of small letters and spaces.
pub proof fn lemma_joined(ws: Seq<Seq<char>>)
    requires
        small_words(ws),
    ensures
        forall|i: int|
            0 <= i < joined(ws).len() ==> small(#[trigger] joined(ws)[i]) || joined(ws)[i] == ' ',
    decreases ws.len(),
{
    reveal_strlit(" ");
    if ws.len() > 0 {
        let rest = ws.drop_last();
        assert forall|k: int, j: int| 0 <= k < rest.len() && 0 <= j < rest[k].len() implies small(
            #[trigger] rest[k][j],
        ) by {
            assert(rest[k] == ws[k]);
        }
        lemma_joined(rest);
        let head = joined(rest);
        let w = ws.last();
        assert forall|i: int| 0 <= i < joined(ws).len() implies small(#[trigger] joined(ws)[i])
            || joined(ws)[i] == ' ' by {
            if i < head.len() {
                assert(joined(ws)[i] == head[i]);
            } else if i < head.len() + w.len() {
                assert(joined(ws)[i] == ws[ws.len() - 1][i - head.len()]);
            } else {
                assert(joined(ws)[i] == " "@[i - head.len() - w.len()]);
            }
        }
    }
}

/// The clean text of an ASCII text holds small letters and spaces only, and
/// none of its words is a mark of corruption or a word that another word
/// stands for.
pub proof fn lemma_clean_text(contents: Seq<u8>)
    requires
        ascii(contents),
    ensures
        ({
            let ws = cleaned(words(contents.map_values(|b: u8| lower(b))));
            &&& forall|i: int|
                0 <= i < joined(ws).len() ==> small(#[trigger] joined(ws)[i]) || joined(ws)[i]
                    == ' '
            &&& forall|k: int| 0 <= k < ws.len() ==> !banned(#[trigger] ws[k])
        }),
{
    let s = contents.map_values(|b: u8| lower(b));
    assert forall|i: int| 0 <= i < s.len() && letter(s[i]) implies small(#[trigger] s[i]) by {
        assert(contents[i] < 128);
        assert(s[i] == lower(contents[i]));
    }
    lemma_words_of_small_letters(s);
    lemma_cleaned(words(s));
    lemma_joined(cleaned(words(s)));
}

} // verus!
