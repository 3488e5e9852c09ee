use vstd::prelude::*;

verus! {

/// Whether `c` is whitespace, as `char::is_whitespace` decides.
pub uninterp spec fn is_white(c: char) -> bool;

/// Relies on `char::is_whitespace`: the result depends on the character alone.
#[verifier::external_body]
fn char_is_whitespace(c: char) -> (r: bool)
    ensures
        r == is_white(c),
{
    c.is_whitespace()
}

/// The whitespace-delimited words of `s`, left to right: the maximal runs of
/// characters that are not whitespace. Defined by adding one character at a
/// time: whitespace ends a word, any other character extends the word that
/// the previous character belongs to, or starts a new one.
pub open spec fn words_of(s: Seq<char>) -> Seq<Seq<char>>
    decreases s.len(),
{
    if s.len() == 0 {
        seq![]
    } else {
        let p = s.drop_last();
        let c = s.last();
        let w = words_of(p);
        if is_white(c) {
            w
        } else if p.len() > 0 && !is_white(p.last()) && w.len() > 0 {
            w.update(w.len() - 1, w.last().push(c))
        } else {
            w.push(seq![c])
        }
    }
}

/// The views of a list of strings.
pub open spec fn views(v: Seq<String>) -> Seq<Seq<char>> {
    v.map_values(|w: String| w@)
}

/// Splits a line into its whitespace-delimited words, in order, with no
/// whitespace kept. Characters are whole characters, not bytes.
pub fn split_words(line: &str) -> (r: Vec<String>)
    ensures
        views(r@) == words_of(line@),
{
    let n = line.unicode_len();
    let ghost s = line@;
    let mut words: Vec<String> = Vec::new();
    let mut start: usize = 0;
    let mut in_word = false;
    let mut i: usize = 0;
    assert(s.take(0) =~= Seq::<char>::empty());
    while i < n
        invariant
            n == s.len(),
            s == line@,
            i <= n,
            in_word ==> start < i,
            in_word ==> !is_white(s[i - 1]),
            !in_word ==> (i == 0 || is_white(s[i - 1])),
            views(words@) + (if in_word {
                seq![s.subrange(start as int, i as int)]
            } else {
                Seq::<Seq<char>>::empty()
            }) == words_of(s.take(i as int)),
        decreases n - i,
    {
        let c = line.get_char(i);
        let ghost before = views(words@);
        let ghost p = s.take(i as int);
        let ghost t = s.take(i + 1);
        assert(t.drop_last() =~= p);
        assert(t.last() == c);
        if char_is_whitespace(c) {
            if in_word {
                let w = String::from_str(line.substring_char(start, i));
                words.push(w);
                assert(views(words@) =~= before.push(s.subrange(start as int, i as int)));
                assert(before + seq![s.subrange(start as int, i as int)] =~= before.push(
                    s.subrange(start as int, i as int),
                ));
            } else {
                assert(views(words@) + Seq::<Seq<char>>::empty() =~= views(words@));
            }
            in_word = false;
        } else {
            if in_word {
                let ghost w = words_of(p);
                assert(w =~= before.push(s.subrange(start as int, i as int)));
                assert(p.last() == s[i - 1]);
                assert(s.subrange(start as int, i + 1) =~= s.subrange(start as int, i as int).push(c));
                assert(before + seq![s.subrange(start as int, i + 1)] =~= w.update(
                    w.len() - 1,
                    w.last().push(c),
                ));
            } else {
                start = i;
                assert(before + Seq::<Seq<char>>::empty() =~= before);
                assert(s.subrange(i as int, i + 1) =~= seq![c]);
                assert(before + seq![s.subrange(i as int, i + 1)] =~= before.push(seq![c]));
                if i > 0 {
                    assert(p.last() == s[i - 1]);
                }
            }
            in_word = true;
        }
        i = i + 1;
    }
    assert(s.take(n as int) =~= s);
    if in_word {
        let ghost before = views(words@);
        let w = String::from_str(line.substring_char(start, n));
        words.push(w);
        assert(views(words@) =~= before.push(s.subrange(start as int, n as int)));
        assert(before + seq![s.subrange(start as int, n as int)] =~= before.push(
            s.subrange(start as int, n as int),
        ));
    } else {
        assert(views(words@) + Seq::<Seq<char>>::empty() =~= views(words@));
    }
    words
}

} // verus!
