use vstd::prelude::*;

use crate::text::str_eq;

verus! {

/// `s` wrapped in single quotes, as SQL quotes a literal.
pub open spec fn quoted(s: Seq<char>) -> Seq<char> {
    "'"@ + s + "'"@
}

/// The items joined with a comma between neighbours and nothing around.
pub open spec fn comma_joined(items: Seq<Seq<char>>) -> Seq<char>
    decreases items.len(),
{
    if items.len() == 0 {
        Seq::empty()
    } else if items.len() == 1 {
        items[0]
    } else {
        comma_joined(items.drop_last()) + ","@ + items.last()
    }
}

/// The items quoted one by one, then joined with commas: the body of a
/// SQL `IN (...)` list.
pub open spec fn quoted_list(items: Seq<Seq<char>>) -> Seq<char> {
    comma_joined(items.map_values(|t: Seq<char>| quoted(t)))
}

/// The views of a sequence of string slices.
pub open spec fn views_of_strs(xs: Seq<&str>) -> Seq<Seq<char>> {
    xs.map_values(|x: &str| x@)
}

/// The types that survive the exclusion list, in order.
pub open spec fn kept_types(types: Seq<Seq<char>>, exclusions: Seq<Seq<char>>) -> Seq<Seq<char>>
    decreases types.len(),
{
    if types.len() == 0 {
        Seq::empty()
    } else {
        let rest = kept_types(types.drop_last(), exclusions);
        if exclusions.contains(types.last()) {
            rest
        } else {
            rest.push(types.last())
        }
    }
}

/// Whether `needle` occurs in `hay`, compared by content.
fn contains_str(hay: &[&str], needle: &str) -> (r: bool)
    ensures
        r == views_of_strs(hay@).contains(needle@),
{
    let mut i: usize = 0;
    while i < hay.len()
        invariant
            i <= hay@.len(),
            forall|j: int| 0 <= j < i ==> views_of_strs(hay@)[j] != needle@,
        decreases hay@.len() - i,
    {
        if str_eq(hay[i], needle) {
            proof {
                assert(views_of_strs(hay@)[i as int] == needle@);
            }
            return true;
        }
        i += 1;
    }
    false
}

/// The SQL condition selecting the given event types, leaving out the
/// excluded ones: `event_type IN ('a','b')`.
pub fn event_types_in(types: &[&str], exclusions: &[&str]) -> (r: String)
    ensures
        r@ == "event_type IN ("@ + quoted_list(
            kept_types(views_of_strs(types@), views_of_strs(exclusions@)),
        ) + ")"@,
{
    let ghost all_kept = kept_types(views_of_strs(types@), views_of_strs(exclusions@));
    let mut body = String::new();
    let mut count: usize = 0;
    let mut i: usize = 0;
    proof {
        assert(views_of_strs(types@.subrange(0, 0)) =~= Seq::<Seq<char>>::empty());
        assert(kept_types(views_of_strs(types@.subrange(0, 0)), views_of_strs(exclusions@)) =~= Seq::<
            Seq<char>,
        >::empty());
    }
    while i < types.len()
        invariant
            i <= types@.len(),
            count <= i,
            count as nat == kept_types(
                views_of_strs(types@.subrange(0, i as int)),
                views_of_strs(exclusions@),
            ).len(),
            body@ == quoted_list(
                kept_types(views_of_strs(types@.subrange(0, i as int)), views_of_strs(exclusions@)),
            ),
        decreases types@.len() - i,
    {
        let ghost prefix = views_of_strs(types@.subrange(0, i as int));
        let ghost excl = views_of_strs(exclusions@);
        let ghost kept = kept_types(prefix, excl);
        let t = types[i];
        let keep = !contains_str(exclusions, t);
        proof {
            assert(views_of_strs(types@.subrange(0, i as int + 1)) =~= prefix.push(t@));
            assert(prefix.push(t@).drop_last() =~= prefix);
            assert(kept_types(prefix.push(t@), excl) == if !excl.contains(t@) {
                kept.push(t@)
            } else {
                kept
            });
        }
        if keep {
            proof {
                assert(kept.push(t@).map_values(|s: Seq<char>| quoted(s)) =~= kept.map_values(
                    |s: Seq<char>| quoted(s),
                ).push(quoted(t@)));
                assert(kept.map_values(|s: Seq<char>| quoted(s)).push(quoted(t@)).drop_last()
                    =~= kept.map_values(|s: Seq<char>| quoted(s)));
            }
            if count > 0 {
                body.append(",");
            } else {
                proof {
                    assert(kept.map_values(|s: Seq<char>| quoted(s)).len() == 0);
                }
            }
            body.append("'");
            body.append(t);
            body.append("'");
            count += 1;
            proof {
                assert(body@ =~= quoted_list(kept.push(t@)));
            }
        }
        i += 1;
    }
    proof {
        assert(types@.subrange(0, types@.len() as int) =~= types@);
    }
    let mut r = String::new();
    r.append("event_type IN (");
    r.append(body.as_str());
    r.append(")");
    proof {
        assert(r@ =~= "event_type IN ("@ + quoted_list(all_kept) + ")"@);
    }
    r
}

/// The SQL condition selecting the given tags: `tags IN ('a','b')`.
pub fn event_tags_in(tags: Vec<String>) -> (r: String)
    ensures
        r@ == "tags IN ("@ + quoted_list(tags@.map_values(|t: String| t@)) + ")"@,
{
    let ghost all_views = tags@.map_values(|t: String| t@);
    let mut body = String::new();
    let mut i: usize = 0;
    proof {
        assert(tags@.subrange(0, 0).map_values(|t: String| t@) =~= Seq::<Seq<char>>::empty());
    }
    while i < tags.len()
        invariant
            i <= tags@.len(),
            body@ == quoted_list(tags@.subrange(0, i as int).map_values(|t: String| t@)),
        decreases tags@.len() - i,
    {
        let ghost prefix = tags@.subrange(0, i as int).map_values(|t: String| t@);
        proof {
            assert(tags@.subrange(0, i as int + 1).map_values(|t: String| t@) =~= prefix.push(
                tags@[i as int]@,
            ));
            assert(prefix.push(tags@[i as int]@).map_values(|s: Seq<char>| quoted(s))
                =~= prefix.map_values(|s: Seq<char>| quoted(s)).push(quoted(tags@[i as int]@)));
            assert(prefix.map_values(|s: Seq<char>| quoted(s)).push(
                quoted(tags@[i as int]@),
            ).drop_last() =~= prefix.map_values(|s: Seq<char>| quoted(s)));
        }
        if i > 0 {
            proof {
                assert(prefix.len() == i as nat);
            }
            body.append(",");
        } else {
            proof {
                assert(prefix.map_values(|s: Seq<char>| quoted(s)).len() == 0);
            }
        }
        body.append("'");
        body.append(tags[i].as_str());
        body.append("'");
        proof {
            assert(body@ =~= quoted_list(prefix.push(tags@[i as int]@)));
        }
        i += 1;
    }
    proof {
        assert(tags@.subrange(0, tags@.len() as int) =~= tags@);
    }
    let mut r = String::new();
    r.append("tags IN (");
    r.append(body.as_str());
    r.append(")");
    proof {
        assert(r@ =~= "tags IN ("@ + quoted_list(all_views) + ")"@);
    }
    r
}

} // verus!
