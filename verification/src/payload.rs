use vstd::prelude::*;
use vstd::string::*;

verus! {

/// The comma-separated concatenation of the rendered samples.
pub open spec fn joined(parts: Seq<Seq<char>>) -> Seq<char>
    decreases parts.len(),
{
    if parts.len() == 0 {
        Seq::empty()
    } else if parts.len() == 1 {
        parts[0]
    } else {
        joined(parts.drop_last()) + ","@ + parts.last()
    }
}

/// The webhook payload for the given rendered samples: the JSON object
/// `{"peaks": [..]}` whose array lists the samples in order.
pub open spec fn payload_of(parts: Seq<Seq<char>>) -> Seq<char> {
    "{\"peaks\":["@ + joined(parts) + "]}"@
}

/// Serialize the peak sequence for delivery. Each entry of `parts` is one
/// sample already rendered in decimal; the result is exactly
/// `payload_of` of their views.
pub fn peaks_payload(parts: &Vec<String>) -> (r: String)
    ensures
        r@ == payload_of(parts@.map(|i: int, s: String| s@)),
{
    let ghost views = parts@.map(|i: int, s: String| s@);
    let mut acc = String::from_str("{\"peaks\":[");
    let mut i: usize = 0;
    while i < parts.len()
        invariant
            i <= parts@.len(),
            views == parts@.map(|i: int, s: String| s@),
            views.len() == parts@.len(),
            acc@ == "{\"peaks\":["@ + joined(views.take(i as int)),
        decreases parts@.len() - i,
    {
        if i > 0 {
            acc.append(",");
        }
        acc.append(parts[i].as_str());
        proof {
            let t1 = views.take(i as int + 1);
            assert(t1.drop_last() =~= views.take(i as int));
            assert(t1.last() == views[i as int]);
            assert(acc@ =~= "{\"peaks\":["@ + joined(t1));
        }
        i = i + 1;
    }
    let r = acc.concat("]}");
    proof {
        assert(views.take(views.len() as int) =~= views);
        assert(r@ =~= payload_of(views));
    }
    r
}

} // verus!
