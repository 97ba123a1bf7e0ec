//! Cleaning a text of ASCII bytes into its words: lower case, letters only,
//! without the marks of corruption, some words replaced and some counted.

use itertools::Itertools;
use vstd::prelude::*;

verus! {

/// Whether `c` is one of the letters `a` to `z` or `A` to `Z`.
pub open spec fn letter(c: char) -> bool {
    'a' <= c <= 'z' || 'A' <= c <= 'Z'
}

/// Whether `c` is one of the letters `a` to `z` or `A` to `Z`.
pub fn is_letter(c: char) -> (r: bool)
    ensures
        r == letter(c),
{
    ('a' <= c && c <= 'z') || ('A' <= c && c <= 'Z')
}

/// The character that the ASCII byte `b` stands for, in lower case: the
/// bytes 65 to 90 are the letters `A` to `Z`, and 32 above each is its small
/// letter.
pub open spec fn lower(b: u8) -> char {
    if 65 <= b <= 90 {
        (b + 32) as char
    } else {
        b as char
    }
}

/// Whether every byte of `s` is an ASCII character.
pub open spec fn ascii(s: Seq<u8>) -> bool {
    forall|i: int| 0 <= i < s.len() ==> #[trigger] s[i] < 128
}

/// The characters of the ASCII text `contents`, in lower case.
pub fn lowered(contents: &[u8]) -> (r: Vec<char>)
    requires
        ascii(contents@),
    ensures
        r@ == contents@.map_values(|b: u8| lower(b)),
{
    let mut r: Vec<char> = Vec::new();
    let mut i: usize = 0;
    while i < contents.len()
        invariant
            i <= contents@.len(),
            ascii(contents@),
            r@ == contents@.take(i as int).map_values(|b: u8| lower(b)),
        decreases contents@.len() - i,
    {
        let b = contents[i];
        let c = if 65 <= b && b <= 90 {
            (b + 32) as char
        } else {
            b as char
        };
        r.push(c);
        assert(contents@.take(i + 1) =~= contents@.take(i as int).push(b));
        assert(r@ =~= contents@.take(i + 1).map_values(|b: u8| lower(b)));
        i += 1;
    }
    assert(contents@.take(i as int) =~= contents@);
    r
}

/// The runs `groups` as mathematical values: the key of each run, and its
/// characters.
pub open spec fn runs_view(groups: Seq<(bool, String)>) -> Seq<(bool, Seq<char>)> {
    groups.map_values(|g: (bool, String)| (g.0, g.1@))
}

/// The characters of the runs `runs`, one run after the other.
pub open spec fn concat(runs: Seq<(bool, Seq<char>)>) -> Seq<char>
    decreases runs.len(),
{
    if runs.len() == 0 {
        Seq::empty()
    } else {
        concat(runs.drop_last()) + runs.last().1
    }
}

/// Whether `runs` cuts a text into its runs of letters and of other
/// characters: no run is empty, the key of a run tells of each of its
/// characters whether it is a letter, and no two neighbours have the same key.
pub open spec fn is_grouping(runs: Seq<(bool, Seq<char>)>) -> bool {
    &&& forall|i: int| 0 <= i < runs.len() ==> (#[trigger] runs[i]).1.len() > 0
    &&& forall|i: int, j: int|
        0 <= i < runs.len() && 0 <= j < runs[i].1.len() ==> letter(#[trigger] runs[i].1[j])
            == runs[i].0
    &&& forall|i: int| 0 < i < runs.len() ==> (#[trigger] runs[i]).0 != runs[i - 1].0
}

/// `Itertools::group_by` of the crate `itertools`, keyed by `is_letter`, each
/// group collected into a `String`. The groups are the runs of consecutive
/// characters with the same key, in their order: together they are `chars`,
/// none is empty, each carries the key of its characters, and neighbours
/// differ in their key.
#[verifier::external_body]
fn group_by_letter(chars: Vec<char>) -> (groups: Vec<(bool, String)>)
    ensures
        concat(runs_view(groups@)) == chars@,
        is_grouping(runs_view(groups@)),
{
    chars.into_iter().group_by(|c| is_letter(*c)).into_iter().map(
        |(key, group)| (key, group.collect::<String>()),
    ).collect()
}

/// The words of `s`: its runs of letters that no letter stands next to, in
/// their order. A letter behind a letter lengthens the last word, a letter
/// anywhere else begins a word, and no other character belongs to one.
pub open spec fn words(s: Seq<char>) -> Seq<Seq<char>>
    decreases s.len(),
{
    if s.len() == 0 {
        Seq::empty()
    } else if !letter(s.last()) {
        words(s.drop_last())
    } else if s.len() >= 2 && letter(s[s.len() - 2]) {
        let before = words(s.drop_last());
        before.drop_last().push(before.last().push(s.last()))
    } else {
        words(s.drop_last()).push(seq![s.last()])
    }
}

/// The word that stands for `w` in the clean text.
pub open spec fn replaced(w: Seq<char>) -> Seq<char> {
    if w == "barry"@ {
        "larry"@
    } else if w == "stairs"@ {
        "ramp"@
    } else if w == "yellow"@ {
        "purple"@
    } else if w == "breakfast"@ {
        "elevenses"@
    } else {
        w
    }
}

/// The words of the clean text: those of `ws` but the marks of corruption,
/// each replaced by the word that stands for it.
pub open spec fn cleaned(ws: Seq<Seq<char>>) -> Seq<Seq<char>>
    decreases ws.len(),
{
    if ws.len() == 0 {
        Seq::empty()
    } else if ws.last() == "corruption"@ {
        cleaned(ws.drop_last())
    } else {
        cleaned(ws.drop_last()).push(replaced(ws.last()))
    }
}

/// The words `ws` as one text, a space behind each.
pub open spec fn joined(ws: Seq<Seq<char>>) -> Seq<char>
    decreases ws.len(),
{
    if ws.len() == 0 {
        Seq::empty()
    } else {
        joined(ws.drop_last()) + ws.last() + " "@
    }
}

/// How often the word `w` occurs among `ws`.
pub open spec fn occurrences(ws: Seq<Seq<char>>, w: Seq<char>) -> nat
    decreases ws.len(),
{
    if ws.len() == 0 {
        0
    } else if ws.last() == w {
        occurrences(ws.drop_last(), w) + 1
    } else {
        occurrences(ws.drop_last(), w)
    }
}

/// How often each of the counted words occurs.
#[derive(Debug, PartialEq, Eq, Structural, Clone, Copy)]
pub struct WordCounts {
    pub bee: usize,
    pub honey: usize,
    pub adam: usize,
    pub defenestration: usize,
}

impl WordCounts {
    /// Whether the counts are those of the words `ws`.
    pub open spec fn counts(&self, ws: Seq<Seq<char>>) -> bool {
        &&& self.bee == occurrences(ws, "bee"@)
        &&& self.honey == occurrences(ws, "honey"@)
        &&& self.adam == occurrences(ws, "adam"@)
        &&& self.defenestration == occurrences(ws, "defenestration"@)
    }
}

/// Whether the word `w` is the word `text`.
pub fn is_word(w: &String, text: &str) -> (r: bool)
    ensures
        r == (w@ == text@),
{
    let other = text.to_owned();
    *w == other
}

/// The word that stands for `w` in the clean text.
pub fn replacement(w: &String) -> (r: String)
    ensures
        r@ == replaced(w@),
{
    if is_word(w, "barry") {
        "larry".to_owned()
    } else if is_word(w, "stairs") {
        "ramp".to_owned()
    } else if is_word(w, "yellow") {
        "purple".to_owned()
    } else if is_word(w, "breakfast") {
        "elevenses".to_owned()
    } else {
        w.clone()
    }
}

/// Characters that are no letters add nothing to the words in front of them.
pub proof fn lemma_words_behind_others(p: Seq<char>, g: Seq<char>)
    requires
        forall|j: int| 0 <= j < g.len() ==> !letter(#[trigger] g[j]),
    ensures
        words(p + g) == words(p),
    decreases g.len(),
{
    if g.len() == 0 {
        assert(p + g =~= p);
    } else {
        lemma_words_behind_others(p, g.drop_last());
        assert((p + g).drop_last() =~= p + g.drop_last());
    }
}

/// Letters behind a character that is none, or at the start, are one more
/// word.
pub proof fn lemma_words_behind_word(p: Seq<char>, g: Seq<char>)
    requires
        g.len() > 0,
        forall|j: int| 0 <= j < g.len() ==> letter(#[trigger] g[j]),
        p.len() == 0 || !letter(p.last()),
    ensures
        words(p + g) == words(p).push(g),
    decreases g.len(),
{
    let s = p + g;
    assert(s.drop_last() =~= p + g.drop_last());
    assert(letter(g[g.len() - 1]));
    if g.len() == 1 {
        assert(p + g.drop_last() =~= p);
        assert(seq![s.last()] =~= g);
    } else {
        let h = g.drop_last();
        assert(forall|j: int| 0 <= j < h.len() ==> letter(#[trigger] h[j])) by {
            assert forall|j: int| 0 <= j < h.len() implies letter(#[trigger] h[j]) by {
                assert(h[j] == g[j]);
            }
        }
        lemma_words_behind_word(p, h);
        assert(s[s.len() - 2] == h.last());
        let before = words(p).push(h);
        assert(before.drop_last() =~= words(p));
        assert(h.push(s.last()) =~= g);
    }
}

/// The clean text of the runs `groups` and the counts of its counted words:
/// the words are the runs of letters, without the marks of corruption and
/// each replaced by the word that stands for it.
pub fn assemble(groups: &Vec<(bool, String)>) -> (r: (String, WordCounts))
    requires
        is_grouping(runs_view(groups@)),
    ensures
        r.0@ == joined(cleaned(words(concat(runs_view(groups@))))),
        r.1.counts(cleaned(words(concat(runs_view(groups@))))),
{
    let mut out = String::new();
    let mut counts = WordCounts { bee: 0, honey: 0, adam: 0, defenestration: 0 };
    let ghost runs = runs_view(groups@);
    let mut i: usize = 0;
    while i < groups.len()
        invariant
            i <= groups@.len(),
            runs == runs_view(groups@),
            is_grouping(runs),
            i > 0 ==> concat(runs.take(i as int)).len() > 0 && letter(
                concat(runs.take(i as int)).last(),
            ) == runs[i - 1].0,
            out@ == joined(cleaned(words(concat(runs.take(i as int))))),
            counts.counts(cleaned(words(concat(runs.take(i as int))))),
            counts.bee <= i,
            counts.honey <= i,
            counts.adam <= i,
            counts.defenestration <= i,
        decreases groups@.len() - i,
    {
        let ghost pre = concat(runs.take(i as int));
        let ghost run = runs[i as int];
        proof {
            assert(runs.take(i + 1).drop_last() =~= runs.take(i as int));
            assert(concat(runs.take(i + 1)) == pre + run.1);
            assert(run.1.len() > 0);
            assert(letter(run.1[run.1.len() - 1]) == run.0);
            assert(forall|j: int| 0 <= j < run.1.len() ==> letter(#[trigger] run.1[j]) == run.0);
            assert(run.1 == groups@[i as int].1@);
            if run.0 {
                if i > 0 {
                    assert(runs[i as int].0 != runs[i - 1].0);
                } else {
                    assert(pre =~= Seq::<char>::empty());
                }
                lemma_words_behind_word(pre, run.1);
                assert(words(pre).push(run.1).drop_last() =~= words(pre));
            } else {
                lemma_words_behind_others(pre, run.1);
            }
        }
        if groups[i].0 {
            let w = &groups[i].1;
            if !is_word(w, "corruption") {
                let ghost kept = cleaned(words(pre));
                let word = replacement(w);
                out.push_str(word.as_str());
                out.push_str(" ");
                proof {
                    assert(kept.push(word@).drop_last() =~= kept);
                }
                if is_word(&word, "bee") {
                    counts.bee += 1;
                }
                if is_word(&word, "honey") {
                    counts.honey += 1;
                }
                if is_word(&word, "adam") {
                    counts.adam += 1;
                }
                if is_word(&word, "defenestration") {
                    counts.defenestration += 1;
                }
            }
        }
        i += 1;
    }
    proof {
        assert(runs.take(i as int) =~= runs);
    }
    (out, counts)
}

/// The clean text of the ASCII text `contents` and the counts of its counted
/// words. The words of the text are its runs of letters, in lower case; the
/// clean text holds them without the marks of corruption, each replaced by
/// the word that stands for it and followed by a space.
pub fn clean(contents: &[u8]) -> (r: (String, WordCounts))
    requires
        ascii(contents@),
    ensures
        r.0@ == joined(cleaned(words(contents@.map_values(|b: u8| lower(b))))),
        r.1.counts(cleaned(words(contents@.map_values(|b: u8| lower(b))))),
{
    let groups = group_by_letter(lowered(contents));
    assemble(&groups)
}

} // verus!
