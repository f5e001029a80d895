//! An object's fields can always be listed by ascending name.

use crate::json::{
    ascending, lemma_precedes_transitive, lists, listing, precedes, JsonView,
};
use vstd::prelude::*;

verus! {

/// Of two different strings one comes before the other.
pub proof fn law_strings_are_ordered(a: Seq<char>, b: Seq<char>)
    ensures
        a == b || precedes(a, b) || precedes(b, a),
    decreases a.len(),
{
    if a.len() == 0 || b.len() == 0 {
        assert(a.len() == 0 && b.len() == 0 ==> a =~= b);
    } else if a[0] == b[0] {
        law_strings_are_ordered(a.drop_first(), b.drop_first());
        assert(a =~= seq![a[0]] + a.drop_first());
        assert(b =~= seq![b[0]] + b.drop_first());
    } else {
        vstd::utf8::char_u32_cast(a[0], a[0] as u32);
        vstd::utf8::char_u32_cast(b[0], b[0] as u32);
    }
}

/// A list stays one with an entry put before all others.
proof fn lemma_put_first(
    entries: Seq<(Seq<char>, JsonView)>,
    fields: Map<Seq<char>, JsonView>,
    name: Seq<char>,
    value: JsonView,
)
    requires
        lists(entries, fields),
        !fields.contains_key(name),
        forall|i: int| 0 <= i < entries.len() ==> precedes(name, (#[trigger] entries[i]).0),
    ensures
        lists(seq![(name, value)] + entries, fields.insert(name, value)),
{
    let all = seq![(name, value)] + entries;
    let more = fields.insert(name, value);
    let names = Seq::new(entries.len(), |i: int| entries[i].0);
    let all_names = Seq::new(all.len(), |i: int| all[i].0);
    assert forall|i: int, j: int| 0 <= i < j < all_names.len() implies precedes(
        #[trigger] all_names[i],
        #[trigger] all_names[j],
    ) by {
        assert(all[j] == entries[j - 1]);
        if i > 0 {
            assert(all[i] == entries[i - 1]);
            assert(precedes(names[i - 1], names[j - 1]));
        }
    }
    assert forall|i: int| 0 <= i < all.len() implies more.contains_key((#[trigger] all[i]).0)
        && more[all[i].0] == all[i].1 by {
        if i > 0 {
            assert(all[i] == entries[i - 1]);
            assert(fields.contains_key(entries[i - 1].0));
        }
    }
    assert forall|k: Seq<char>| #[trigger] more.contains_key(k) implies exists|i: int|
        0 <= i < all.len() && (#[trigger] all[i]).0 == k by {
        if k == name {
            assert(all[0].0 == name);
        } else {
            assert(fields.contains_key(k));
            let i = choose|i: int| 0 <= i < entries.len() && (#[trigger] entries[i]).0 == k;
            assert(all[i + 1] == entries[i]);
        }
    }
}

/// A list of fields can take one more.
proof fn lemma_put_in(
    entries: Seq<(Seq<char>, JsonView)>,
    fields: Map<Seq<char>, JsonView>,
    name: Seq<char>,
    value: JsonView,
) -> (r: Seq<(Seq<char>, JsonView)>)
    requires
        lists(entries, fields),
        !fields.contains_key(name),
    ensures
        lists(r, fields.insert(name, value)),
    decreases entries.len(),
{
    if entries.len() == 0 || precedes(name, entries[0].0) {
        let names = Seq::new(entries.len(), |i: int| entries[i].0);
        assert forall|i: int| 0 <= i < entries.len() implies precedes(
            name,
            (#[trigger] entries[i]).0,
        ) by {
            if i > 0 {
                assert(precedes(names[0], names[i]));
                lemma_precedes_transitive(name, entries[0].0, entries[i].0);
            }
        }
        lemma_put_first(entries, fields, name, value);
        seq![(name, value)] + entries
    } else {
        let first = entries[0];
        let names = Seq::new(entries.len(), |i: int| entries[i].0);
        assert(fields.contains_key(first.0));
        law_strings_are_ordered(name, first.0);
        let left = fields.remove(first.0);
        crate::json::lemma_listing_of_rest(entries, fields);
        let rest = lemma_put_in(entries.drop_first(), left, name, value);
        let more = left.insert(name, value);
        assert(!more.contains_key(first.0));
        assert forall|i: int| 0 <= i < rest.len() implies precedes(
            first.0,
            (#[trigger] rest[i]).0,
        ) by {
            assert(more.contains_key(rest[i].0));
            if rest[i].0 != name {
                assert(fields.contains_key(rest[i].0));
                let k = choose|k: int|
                    0 <= k < entries.len() && (#[trigger] entries[k]).0 == rest[i].0;
                assert(k > 0);
                assert(precedes(names[0], names[k]));
            }
        }
        lemma_put_first(rest, more, first.0, first.1);
        assert(more.insert(first.0, first.1) =~= fields.insert(name, value));
        seq![first] + rest
    }
}

/// An object's fields can be listed by ascending name.
pub proof fn law_fields_can_be_listed(fields: Map<Seq<char>, JsonView>)
    requires
        fields.dom().finite(),
    ensures
        lists(listing(fields), fields),
    decreases fields.dom().len(),
{
    if fields.dom().len() == 0 {
        assert(fields.dom() =~= Set::empty());
        assert(lists(Seq::<(Seq<char>, JsonView)>::empty(), fields)) by {
            assert forall|name: Seq<char>| #[trigger] fields.contains_key(name) implies false by {
                assert(fields.dom().contains(name));
            }
        }
    } else {
        let name = fields.dom().choose();
        assert(fields.dom().contains(name)) by {
            broadcast use vstd::set::group_set_axioms;
            if forall|k: Seq<char>| !fields.dom().contains(k) {
                assert(fields.dom() =~= Set::empty());
            }
        }
        let rest = fields.remove(name);
        law_fields_can_be_listed(rest);
        let entries = lemma_put_in(listing(rest), rest, name, fields[name]);
        assert(rest.insert(name, fields[name]) =~= fields);
        assert(lists(entries, fields));
    }
}

} // verus!
