use vstd::prelude::*;
use vstd::string::StringExecFns;

verus! {

/// The separator placed between contributor names.
pub open spec fn name_sep() -> Seq<char> {
    ", "@
}

/// Contributor names joined with the separator, in their given order.
pub open spec fn joined_names(names: Seq<Seq<char>>) -> Seq<char>
    decreases names.len(),
{
    if names.len() == 0 {
        Seq::empty()
    } else if names.len() == 1 {
        names.last()
    } else {
        joined_names(names.drop_last()) + name_sep() + names.last()
    }
}

/// The attribution text of an item: its contributor names joined, or a
/// placeholder when it carries none.
pub open spec fn attribution(artists: Option<Seq<Seq<char>>>) -> Seq<char> {
    match artists {
        Some(names) => joined_names(names),
        None => "Unknown"@,
    }
}

/// The caption sent along with an item: a fixed heading followed by the
/// attribution.
pub open spec fn caption_spec(artists: Option<Seq<Seq<char>>>) -> Seq<char> {
    "Nuevo arte de: "@ + attribution(artists)
}

/// Joins contributor names with the separator.
pub fn join_names(names: &Vec<String>) -> (r: String)
    ensures
        r@ == joined_names(names.deep_view()),
{
    let ghost dv: Seq<Seq<char>> = names.deep_view();
    let mut r = String::new();
    let n = names.len();
    proof {
        assert(dv.len() == names@.len());
        assert(dv.take(0) =~= Seq::<Seq<char>>::empty());
    }
    let mut i: usize = 0;
    while i < n
        invariant
            dv == names.deep_view(),
            n == names@.len(),
            n == dv.len(),
            i <= n,
            r@ == joined_names(dv.take(i as int)),
        decreases n - i,
    {
        proof {
            assert(dv[i as int] == names@[i as int]@);
            assert(dv.take(i as int + 1).drop_last() =~= dv.take(i as int));
            assert(dv.take(i as int + 1).last() == dv[i as int]);
        }
        if i > 0 {
            r.append(", ");
            proof {
                assert(", "@ == name_sep());
            }
        }
        r.append(names[i].as_str());
        proof {
            if i == 0 {
                assert(Seq::<char>::empty() + dv[0] =~= dv[0]);
                assert(r@ =~= joined_names(dv.take(1)));
            } else {
                assert(r@ =~= joined_names(dv.take(i as int)) + name_sep() + dv[i as int]);
            }
        }
        i = i + 1;
    }
    proof {
        assert(dv.take(n as int) =~= dv);
    }
    r
}

/// Builds the caption for an item's contributor names.
pub fn caption_for(artists: &Option<Vec<String>>) -> (r: String)
    ensures
        r@ == caption_spec(artists.deep_view()),
{
    let mut r = "Nuevo arte de: ".to_owned();
    match artists {
        Some(names) => {
            let joined = join_names(names);
            r.append(joined.as_str());
        },
        None => {
            r.append("Unknown");
        },
    }
    r
}

} // verus!
