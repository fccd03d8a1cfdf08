//! Joining pieces of text with a separator, as the search query and the
//! track-line formats need it.

use vstd::prelude::*;

verus! {

/// The parts laid end to end with `sep` between each neighbouring pair.
pub open spec fn join_with(parts: Seq<Seq<char>>, sep: Seq<char>) -> Seq<char>
    decreases parts.len(),
{
    if parts.len() == 0 {
        Seq::empty()
    } else if parts.len() == 1 {
        parts[0]
    } else {
        parts[0] + sep + join_with(parts.drop_first(), sep)
    }
}

/// Peeling the last part off a join of two or more parts.
proof fn lemma_join_with_snoc(parts: Seq<Seq<char>>, sep: Seq<char>)
    requires
        parts.len() >= 2,
    ensures
        join_with(parts, sep) =~= join_with(parts.drop_last(), sep) + sep + parts.last(),
    decreases parts.len(),
{
    if parts.len() == 2 {
        assert(parts.drop_first().len() == 1);
        assert(parts.drop_last().len() == 1);
        assert(join_with(parts.drop_first(), sep) == parts.drop_first()[0]);
        assert(join_with(parts.drop_last(), sep) == parts.drop_last()[0]);
        assert(parts.drop_first()[0] == parts.last());
        assert(parts.drop_last()[0] == parts[0]);
    } else {
        let pf = parts.drop_first();
        let pl = parts.drop_last();
        lemma_join_with_snoc(pf, sep);
        assert(pf.drop_last() =~= pl.drop_first());
        assert(pf.last() == parts.last());
        assert(join_with(pf, sep) == join_with(pl.drop_first(), sep) + sep + parts.last());
        assert(join_with(parts, sep) == parts[0] + sep + join_with(pf, sep));
        assert(pl.len() >= 2);
        assert(pl[0] == parts[0]);
        assert(join_with(pl, sep) == pl[0] + sep + join_with(pl.drop_first(), sep));
    }
}

/// Joins the parts with `sep`, exactly as `join_with` states.
pub fn join_strings(parts: &Vec<String>, sep: &str) -> (r: String)
    ensures
        r@ == join_with(parts.deep_view(), sep@),
{
    if parts.len() == 0 {
        return String::new();
    }
    let mut acc: String = parts[0].clone();
    let mut i: usize = 1;
    while i < parts.len()
        invariant
            1 <= i <= parts@.len(),
            acc@ == join_with(parts.deep_view().take(i as int), sep@),
            parts.deep_view().len() == parts@.len(),
        decreases parts@.len() - i,
    {
        acc.append(sep);
        acc.append(parts[i].as_str());
        proof {
            let dv = parts.deep_view();
            lemma_join_with_snoc(dv.take(i as int + 1), sep@);
            assert(dv.take(i as int + 1).drop_last() =~= dv.take(i as int));
            assert(dv.take(i as int + 1).last() =~= dv[i as int]);
        }
        i = i + 1;
    }
    proof {
        assert(parts.deep_view().take(parts@.len() as int) =~= parts.deep_view());
    }
    acc
}

} // verus!
