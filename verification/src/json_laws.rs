//! How values that differ in fractional numbers at most behave alike.

use vstd::prelude::*;

use crate::json::{alike, field_or_null, nests, same_but_fractions, Json};

verus! {

/// Likeness is transitive, down to every depth.
proof fn alike_is_transitive(a: Json, b: Json, c: Json, depth: nat)
    requires
        alike(a, b, depth),
        alike(b, c, depth),
    ensures
        alike(a, c, depth),
    decreases depth,
{
    if depth > 0 {
        let less = (depth - 1) as nat;
        match (a, b, c) {
            (Json::Array(x), Json::Array(y), Json::Array(z)) => {
                assert forall|i: int| 0 <= i < x.len() implies alike(#[trigger] x[i], z[i], less) by {
                    assert(alike(y[i], z[i], less));
                    alike_is_transitive(x[i], y[i], z[i], less);
                }
            },
            (Json::Object(x), Json::Object(y), Json::Object(z)) => {
                assert forall|key: Seq<char>| #[trigger] x.dom().contains(key) implies alike(
                    x[key],
                    z[key],
                    less,
                ) by {
                    assert(y.dom().contains(key));
                    alike_is_transitive(x[key], y[key], z[key], less);
                }
            },
            _ => {},
        }
    }
}

/// Likeness is transitive.
pub proof fn likeness_is_transitive(a: Json, b: Json, c: Json)
    requires
        same_but_fractions(a, b),
        same_but_fractions(b, c),
    ensures
        same_but_fractions(a, c),
{
    assert forall|depth: nat| #[trigger] alike(a, c, depth) by {
        assert(alike(a, b, depth) && alike(b, c, depth));
        alike_is_transitive(a, b, c, depth);
    }
}

/// Values that are alike are both objects or both not, and have the same text or none, and the same
/// integer or none.
pub proof fn likeness_keeps_simple_values(a: Json, b: Json)
    requires
        same_but_fractions(a, b),
    ensures
        a is Object <==> b is Object,
        a is Array <==> b is Array,
        a.as_text() == b.as_text(),
        a.as_unsigned() == b.as_unsigned(),
{
    assert(alike(a, b, 1));
}

/// Values that are alike have the same keys, and like values under them.
pub proof fn likeness_keeps_fields(a: Json, b: Json, key: Seq<char>)
    requires
        same_but_fractions(a, b),
    ensures
        a.field(key) is Some <==> b.field(key) is Some,
        a.field(key) is Some ==> same_but_fractions(a.field(key)->Some_0, b.field(key)->Some_0),
        same_but_fractions(field_or_null(a, key), field_or_null(b, key)),
{
    assert(alike(a, b, 1));
    let x = field_or_null(a, key);
    let y = field_or_null(b, key);
    assert forall|depth: nat| #[trigger] alike(x, y, depth) by {
        assert(alike(a, b, depth + 1));
    }
}

/// Arrays that are alike have like items.
pub proof fn likeness_keeps_items(x: Seq<Json>, y: Seq<Json>)
    requires
        same_but_fractions(Json::Array(x), Json::Array(y)),
    ensures
        x.len() == y.len(),
        forall|i: int| 0 <= i < x.len() ==> same_but_fractions(#[trigger] x[i], y[i]),
{
    assert(alike(Json::Array(x), Json::Array(y), 1));
    assert forall|i: int| 0 <= i < x.len() implies same_but_fractions(#[trigger] x[i], y[i]) by {
        assert forall|depth: nat| #[trigger] alike(x[i], y[i], depth) by {
            assert(alike(Json::Array(x), Json::Array(y), depth + 1));
        }
    }
}

/// Arrays with like items are alike.
pub proof fn like_items_make_like_arrays(x: Seq<Json>, y: Seq<Json>)
    requires
        x.len() == y.len(),
        forall|i: int| 0 <= i < x.len() ==> same_but_fractions(#[trigger] x[i], y[i]),
    ensures
        same_but_fractions(Json::Array(x), Json::Array(y)),
{
    assert forall|depth: nat| #[trigger] alike(Json::Array(x), Json::Array(y), depth) by {
        if depth > 0 {
            assert forall|i: int| 0 <= i < x.len() implies alike(
                #[trigger] x[i],
                y[i],
                (depth - 1) as nat,
            ) by {
                assert(same_but_fractions(x[i], y[i]));
            }
        }
    }
}

/// Objects that are alike stay so when each gets a like field.
pub proof fn likeness_takes_fields(a: Json, b: Json, key: Seq<char>, x: Json, y: Json)
    requires
        a is Object,
        same_but_fractions(a, b),
        same_but_fractions(x, y),
    ensures
        same_but_fractions(a.with_field(key, x), b.with_field(key, y)),
{
    likeness_keeps_simple_values(a, b);
    let left = a.with_field(key, x);
    let right = b.with_field(key, y);
    assert(alike(a, b, 1));
    assert(left->Object_0.dom() =~= right->Object_0.dom());
    assert forall|depth: nat| #[trigger] alike(left, right, depth) by {
        if depth > 0 {
            let less = (depth - 1) as nat;
            assert(alike(a, b, depth) && alike(x, y, less));
            assert forall|k: Seq<char>| #[trigger] left->Object_0.dom().contains(k) implies alike(
                left->Object_0[k],
                right->Object_0[k],
                less,
            ) by {
                if k != key {
                    assert(a->Object_0.dom().contains(k));
                }
            }
        }
    }
}

/// A value stays within the limits when it gets a field that is.
pub proof fn field_keeps_limits(value: Json, key: Seq<char>, field: Json, depth: nat, whole: bool)
    requires
        depth > 1,
        value.takes_fields(),
        nests(value, depth, whole),
        nests(field, (depth - 1) as nat, whole),
    ensures
        nests(value.with_field(key, field), depth, whole),
{
    let fields = value.open_fields().insert(key, field);
    assert forall|k: Seq<char>| #[trigger] fields.dom().contains(k) implies nests(
        fields[k],
        (depth - 1) as nat,
        whole,
    ) by {
        if k != key {
            assert(value.open_fields().dom().contains(k));
        }
    }
}

/// What stands under a key of a value is within the limits of the value.
pub proof fn field_is_within_limits(value: Json, key: Seq<char>, depth: nat, whole: bool)
    requires
        depth > 0,
        nests(value, depth, whole),
    ensures
        nests(field_or_null(value, key), (depth - 1) as nat, whole),
{
    match value {
        Json::Object(fields) => {
            assert(fields.dom().contains(key) ==> nests(fields[key], (depth - 1) as nat, whole));
        },
        _ => {},
    }
}

/// An item of an array is within the limits of the array.
pub proof fn item_is_within_limits(items: Seq<Json>, i: int, depth: nat, whole: bool)
    requires
        0 <= i < items.len(),
        nests(Json::Array(items), depth, whole),
    ensures
        depth > 1,
        nests(items[i], (depth - 1) as nat, whole),
{
    match Json::Array(items) {
        Json::Array(found) => {
            assert(nests(found[i], (depth - 1) as nat, whole));
        },
        _ => {},
    }
}

/// An array stays within the limits when an item is replaced by one that is.
pub proof fn item_keeps_limits(items: Seq<Json>, i: int, item: Json, depth: nat, whole: bool)
    requires
        depth > 1,
        0 <= i < items.len(),
        nests(Json::Array(items), depth, whole),
        nests(item, (depth - 1) as nat, whole),
    ensures
        nests(Json::Array(items.update(i, item)), depth, whole),
{
    let updated = items.update(i, item);
    assert forall|k: int| 0 <= k < updated.len() implies nests(
        #[trigger] updated[k],
        (depth - 1) as nat,
        whole,
    ) by {
        if k != i {
            item_is_within_limits(items, k, depth, whole);
        }
    }
}

} // verus!
