//! Joining lines of text.

use vstd::prelude::*;
use vstd::string::*;

verus! {

/// The texts of a list of strings.
pub open spec fn texts(list: Seq<String>) -> Seq<Seq<char>> {
    list.map_values(|s: String| s@)
}

/// The parts in order, with the separator between each two neighbours.
pub open spec fn joined(parts: Seq<Seq<char>>, separator: Seq<char>) -> Seq<char>
    decreases parts.len(),
{
    if parts.len() == 0 {
        Seq::empty()
    } else if parts.len() == 1 {
        parts[0]
    } else {
        joined(parts.drop_last(), separator) + separator + parts.last()
    }
}

/// Joins the parts with the separator between each two neighbours.
pub fn join(parts: &Vec<String>, separator: &str) -> (whole: String)
    ensures
        whole@ == joined(texts(parts@), separator@),
{
    let mut whole = String::new();
    let mut i: usize = 0;
    while i < parts.len()
        invariant
            i <= parts.len(),
            whole@ == joined(texts(parts@.take(i as int)), separator@),
        decreases parts.len() - i,
    {
        proof {
            let before = texts(parts@.take(i as int));
            let after = texts(parts@.take(i + 1));
            assert(after.drop_last() =~= before);
            assert(after.last() == parts@[i as int]@);
        }
        if i > 0 {
            whole.append(separator);
        }
        whole.append(parts[i].as_str());
        i += 1;
    }
    assert(parts@.take(i as int) =~= parts@);
    whole
}

} // verus!
