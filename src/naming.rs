//! The display name of the group object.
use vstd::prelude::*;
use crate::model::Object;

verus! {

/// The names that the objects carry, in order, skipping objects without one.
pub open spec fn present_names<V>(objects: Seq<Object<V>>) -> Seq<Seq<char>>
    decreases objects.len(),
{
    if objects.len() == 0 {
        Seq::empty()
    } else {
        let rest = present_names(objects.drop_last());
        match objects.last().name {
            Some(n) => rest.push(n@),
            None => rest,
        }
    }
}

/// The names joined with a `+` between each two neighbours.
pub open spec fn join_plus(names: Seq<Seq<char>>) -> Seq<char>
    decreases names.len(),
{
    if names.len() == 0 {
        Seq::empty()
    } else if names.len() == 1 {
        names[0]
    } else {
        join_plus(names.drop_last()) + seq!['+'] + names.last()
    }
}

/// The group name: the explicit one when given, else the objects' names joined
/// with `+`.
pub open spec fn group_label<V>(explicit: Option<Seq<char>>, objects: Seq<Object<V>>) -> Seq<char> {
    match explicit {
        Some(n) => n,
        None => join_plus(present_names(objects)),
    }
}

/// The view of an optional string.
pub open spec fn opt_view(s: Option<String>) -> Option<Seq<char>> {
    match s {
        Some(n) => Some(n@),
        None => None,
    }
}

/// Concatenates the names of the objects in order, `+` between each two,
/// skipping objects that carry no name.
pub fn joined_names<V>(objects: &Vec<Object<V>>) -> (r: String)
    ensures
        r@ == join_plus(present_names(objects@)),
{
    let mut r = String::new();
    let mut first = true;
    let n = objects.len();
    let mut i: usize = 0;
    while i < n
        invariant
            n == objects.len(),
            i <= n,
            r@ == join_plus(present_names(objects@.subrange(0, i as int))),
            first == (present_names(objects@.subrange(0, i as int)).len() == 0),
        decreases n - i,
    {
        let ghost before = objects@.subrange(0, i as int);
        let ghost after = objects@.subrange(0, i + 1);
        assert(after.drop_last() =~= before);
        match &objects[i].name {
            Some(name) => {
                if !first {
                    proof {
                        reveal_strlit("+");
                    }
                    r.append("+");
                    assert("+"@ =~= seq!['+']);
                }
                r.append(name.as_str());
                first = false;
            },
            None => {},
        }
        i = i + 1;
        proof {
            let names = present_names(after);
            if objects@[i - 1].name is Some && names.len() > 1 {
                assert(names.drop_last() =~= present_names(before));
            }
            assert(r@ =~= join_plus(names));
        }
    }
    assert(objects@.subrange(0, n as int) =~= objects@);
    r
}

/// The display name of the group: `explicit` verbatim when given, else the
/// objects' names joined with `+`.
pub fn group_name<V>(explicit: Option<String>, objects: &Vec<Object<V>>) -> (r: String)
    ensures
        r@ == group_label(opt_view(explicit), objects@),
{
    match explicit {
        Some(name) => name,
        None => joined_names(objects),
    }
}

} // verus!
