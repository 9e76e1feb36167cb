//! Joining rendered values into one line of text.

use vstd::prelude::*;

verus! {

/// The texts that `parts` hold, in order.
pub open spec fn texts(parts: Seq<String>) -> Seq<Seq<char>> {
    parts.map_values(|part: String| part@)
}

/// `parts` in order, with one space between each two neighbours.
pub open spec fn joined(parts: Seq<Seq<char>>) -> Seq<char>
    decreases parts.len(),
{
    if parts.len() == 0 {
        Seq::empty()
    } else if parts.len() == 1 {
        parts[0]
    } else {
        joined(parts.drop_last()) + seq![' '] + parts.last()
    }
}

/// Joining one more part puts a space before it, unless it is the first.
pub proof fn lemma_joined_push(parts: Seq<Seq<char>>, part: Seq<char>)
    ensures
        joined(parts.push(part)) == if parts.len() == 0 {
            part
        } else {
            joined(parts) + seq![' '] + part
        },
{
    let longer = parts.push(part);
    assert(longer.drop_last() == parts);
}

/// Joins `parts` with single spaces, keeping their order.
pub fn join_spaced(parts: &Vec<String>) -> (line: String)
    ensures
        line@ == joined(texts(parts@)),
{
    let mut line = String::new();
    let mut i: usize = 0;
    while i < parts.len()
        invariant
            i <= parts.len(),
            line@ == joined(texts(parts@).take(i as int)),
        decreases parts.len() - i,
    {
        proof {
            let all = texts(parts@);
            lemma_joined_push(all.take(i as int), all[i as int]);
            assert(all.take(i as int).push(all[i as int]) == all.take(i + 1));
            reveal_strlit(" ");
        }
        if i > 0 {
            line.append(" ");
        }
        line.append(parts[i].as_str());
        i += 1;
    }
    proof {
        assert(texts(parts@).take(parts.len() as int) == texts(parts@));
    }
    line
}

} // verus!
