//! The textual form of a list: its items between square brackets, each item
//! preceded by one space, and one more space before the closing bracket
//! unless the list is empty.
use vstd::prelude::*;
use vstd::string::StringExecFns;

verus! {

/// The characters of each string of `parts`, in the same order.
pub open spec fn chars_of(parts: Seq<String>) -> Seq<Seq<char>> {
    parts.map_values(|part: String| part@)
}

/// Every part with one space in front of it, all of them joined.
pub open spec fn spaced(parts: Seq<Seq<char>>) -> Seq<char> {
    parts.map_values(|part: Seq<char>| seq![' '] + part).flatten()
}

/// What a list reads as when its items read as `parts`: `[]` when there are
/// none, else `[ p0 p1 ... pn ]`.
pub open spec fn bracketed(parts: Seq<Seq<char>>) -> Seq<char> {
    if parts.len() == 0 {
        seq!['[', ']']
    } else {
        seq!['['] + spaced(parts) + seq![' ', ']']
    }
}

/// `spaced` of a sequence with one more part at its end.
pub proof fn lemma_spaced_push(parts: Seq<Seq<char>>, part: Seq<char>)
    ensures
        spaced(parts.push(part)) == spaced(parts) + seq![' '] + part,
{
    let lead = |p: Seq<char>| seq![' '] + p;
    assert(parts.push(part).map_values(lead) =~= parts.map_values(lead).push(lead(part)));
    parts.map_values(lead).lemma_flatten_push(lead(part));
}

/// Joins the texts of a list's items into the text of the list.
pub fn render(parts: &Vec<String>) -> (text: String)
    ensures
        text@ == bracketed(chars_of(parts@)),
{
    let ghost all = chars_of(parts@);
    let mut text = String::from_str("[");
    proof {
        reveal_strlit("[");
    }
    let mut i: usize = 0;
    while i < parts.len()
        invariant
            i <= parts.len(),
            all == chars_of(parts@),
            text@ == seq!['['] + spaced(all.take(i as int)),
        decreases parts.len() - i,
    {
        text.append(" ");
        text.append(parts[i].as_str());
        proof {
            reveal_strlit(" ");
            assert(all.take(i + 1) =~= all.take(i as int).push(parts@[i as int]@));
            lemma_spaced_push(all.take(i as int), parts@[i as int]@);
        }
        i += 1;
    }
    assert(all.take(i as int) =~= all);
    if parts.len() == 0 {
        text.append("]");
        proof {
            reveal_strlit("]");
        }
    } else {
        text.append(" ]");
        proof {
            reveal_strlit(" ]");
        }
    }
    text
}

} // verus!
