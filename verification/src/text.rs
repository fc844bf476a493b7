//! Strings as sequences of characters.

use vstd::prelude::*;
use vstd::string::StringExecFns;

verus! {

/// The characters of each string in a run of strings.
pub open spec fn string_views(strings: Seq<String>) -> Seq<Seq<char>> {
    strings.map_values(|s: String| s@)
}

/// The characters of a string slice, in order.
pub fn chars_of(text: &str) -> (chars: Vec<char>)
    ensures
        chars@ == text@,
{
    let mut chars: Vec<char> = Vec::new();
    for c in it: text.chars()
        invariant
            it.seq() == text@,
            chars@ == text@.take(it.index() as int),
    {
        chars.push(c);
        assert(chars@ =~= text@.take(it.index() + 1));
    }
    assert(chars@ =~= text@);
    chars
}

/// Words joined into one line, with a single space between neighbours.
pub open spec fn joined(words: Seq<Seq<char>>) -> Seq<char>
    decreases words.len(),
{
    if words.len() == 0 {
        Seq::empty()
    } else if words.len() == 1 {
        words[0]
    } else {
        joined(words.drop_last()) + " "@ + words.last()
    }
}

/// Joins words into one line, with a single space between neighbours.
pub fn join_words(words: &[String]) -> (line: String)
    ensures
        line@ == joined(string_views(words@)),
{
    let ghost views = string_views(words@);
    let mut line = String::new();
    let mut i: usize = 0;
    assert(views.take(0) =~= Seq::<Seq<char>>::empty());
    while i < words.len()
        invariant
            views == string_views(words@),
            i <= words.len(),
            line@ == joined(views.take(i as int)),
        decreases words.len() - i,
    {
        if i > 0 {
            line.append(" ");
        }
        line.append(words[i].as_str());
        proof {
            let done = views.take(i + 1);
            assert(done.drop_last() =~= views.take(i as int));
            assert(done.last() == words@[i as int]@);
            if i == 0 {
                assert(line@ =~= done[0]);
            }
        }
        i = i + 1;
    }
    assert(views.take(i as int) =~= views);
    line
}

} // verus!
