//! Text form of array-valued signal values: `[a, b, c]`.
use vstd::prelude::*;

verus! {

/// The texts joined with `sep` between neighbours.
pub open spec fn joined(items: Seq<Seq<char>>, sep: Seq<char>) -> Seq<char>
    decreases items.len(),
{
    if items.len() == 0 {
        Seq::empty()
    } else if items.len() == 1 {
        items[0]
    } else {
        joined(items.drop_last(), sep) + sep + items.last()
    }
}

/// The texts separated by a comma and a space, in square brackets.
pub open spec fn bracketed_list(items: Seq<Seq<char>>) -> Seq<char> {
    seq!['['] + joined(items, seq![',', ' ']) + seq![']']
}

/// Renders already formatted elements as a bracketed, comma-separated list.
pub fn display_array(items: &[String]) -> (r: String)
    ensures
        r@ == bracketed_list(items@.map_values(|s: String| s@)),
{
    let ghost views = items@.map_values(|s: String| s@);
    proof {
        reveal_strlit("[");
        reveal_strlit("]");
    }
    let mut out = String::from_str("[");
    let mut i: usize = 0;
    while i < items.len()
        invariant
            i <= items@.len(),
            views == items@.map_values(|s: String| s@),
            out@ == seq!['['] + joined(views.take(i as int), seq![',', ' ']),
        decreases items@.len() - i,
    {
        let ghost before = out@;
        if i > 0 {
            proof {
                reveal_strlit(", ");
            }
            out.append(", ");
        }
        out.append(items[i].as_str());
        proof {
            let t = views.take(i as int + 1);
            assert(t.drop_last() =~= views.take(i as int));
            assert(t.last() == items@[i as int]@);
            if i == 0 {
                assert(t.len() == 1);
                assert(joined(views.take(0), seq![',', ' ']) =~= Seq::<char>::empty());
                assert(out@ =~= seq!['['] + joined(t, seq![',', ' ']));
            } else {
                assert(out@ =~= before + seq![',', ' '] + items@[i as int]@);
                assert(out@ =~= seq!['['] + joined(t, seq![',', ' ']));
            }
        }
        i = i + 1;
    }
    out.append("]");
    proof {
        assert(views.take(items@.len() as int) =~= views);
    }
    out
}

} // verus!
