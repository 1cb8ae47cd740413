//! What holds of normalization and serialization for every input.

use crate::decimal::{decimal_text, digits, digits_value, is_digit, lemma_digits};
use crate::error::Failure;
use crate::host::{HostModel, KeyModel};
use crate::json::Json;
use crate::normalize::{
    coerced_key, lemma_entries_failure, lemma_items_failure, normalized, normalized_entries,
    normalized_items,
};
use crate::serialize::serialized;
use vstd::prelude::*;

verus! {

/// The entry can be normalized: its key can be coerced and its value has a
/// normal form.
pub open spec fn entry_succeeds(entry: (KeyModel, HostModel)) -> bool {
    coerced_key(entry.0) is Ok && normalized(entry.1) is Ok
}

/// No two entries have keys that are coerced to the same text.
pub open spec fn keys_stay_distinct(entries: Seq<(KeyModel, HostModel)>) -> bool {
    forall|i: int, j: int|
        0 <= i < j < entries.len() && coerced_key(#[trigger] entries[i].0) is Ok ==> coerced_key(
            entries[i].0,
        ) != coerced_key(#[trigger] entries[j].0)
}

/// Every entry of `a` occurs in `b`.
pub open spec fn entries_within(
    a: Seq<(KeyModel, HostModel)>,
    b: Seq<(KeyModel, HostModel)>,
) -> bool {
    forall|i: int| 0 <= i < a.len() ==> b.contains(#[trigger] a[i])
}

/// The failure of an entry that cannot be normalized: that of its key, or
/// else that of its value.
pub open spec fn entry_failure(entry: (KeyModel, HostModel)) -> Failure
    recommends
        !entry_succeeds(entry),
{
    if coerced_key(entry.0) is Err {
        coerced_key(entry.0)->Err_0
    } else {
        normalized(entry.1)->Err_0
    }
}

/// The value is not the none sentinel and answers none of the probes that
/// are consulted before the floating-point probe.
pub open spec fn reaches_float_probe(h: HostModel) -> bool {
    &&& h.none_test == Ok::<bool, Seq<char>>(false)
    &&& h.text is None
    &&& h.boolean is None
    &&& h.unsigned is None
    &&& h.signed is None
    &&& h.mapping is None
    &&& h.list is None
    &&& h.tuple is None
}

/// A floating-point scalar that is NaN or infinite is refused as
/// `InvalidFloat`, with the host's rendering of it, and has no canonical
/// text.
pub proof fn non_finite_float_is_refused(h: HostModel)
    requires
        reaches_float_probe(h),
        h.float is NonFinite,
    ensures
        normalized(h) == Err::<Json, Failure>(
            Failure::InvalidFloat { value: h.float->NonFinite_0 },
        ),
        serialized(h) is None,
{
}

/// A value that answers no probe at all is refused as `InvalidCast`, by the
/// name of its type, and has no canonical text.
pub proof fn unsupported_type_is_refused(h: HostModel)
    requires
        reaches_float_probe(h),
        h.float is Absent,
        h.typename is Ok,
    ensures
        normalized(h) == Err::<Json, Failure>(Failure::InvalidCast { typename: h.typename->Ok_0 }),
        serialized(h) is None,
{
}

/// The first `n` items make an array exactly when each of them has a normal
/// form. The array then holds these normal forms, in the order of the items.
pub proof fn lemma_items_array(items: Seq<HostModel>, n: nat)
    requires
        n <= items.len(),
    ensures
        normalized_items(items, n) is Ok <==> forall|i: int|
            0 <= i < n ==> normalized(#[trigger] items[i]) is Ok,
        normalized_items(items, n) matches Ok(s) ==> s.len() == n && forall|i: int|
            0 <= i < n ==> #[trigger] s[i] == normalized(items[i])->Ok_0,
    decreases n,
{
    if n > 0 {
        lemma_items_array(items, (n - 1) as nat);
    }
}

/// A failure stops the normalization of a sequence at once: the sequence is
/// refused with the failure of its first item that has one.
pub proof fn first_failing_item_decides(items: Seq<HostModel>, i: int)
    requires
        0 <= i < items.len(),
        normalized(items[i]) is Err,
        forall|k: int| 0 <= k < i ==> normalized(#[trigger] items[k]) is Ok,
    ensures
        normalized_items(items, items.len()) == Err::<Seq<Json>, Failure>(
            normalized(items[i])->Err_0,
        ),
{
    lemma_items_array(items, i as nat);
    assert(normalized_items(items, (i + 1) as nat) == Err::<Seq<Json>, Failure>(
        normalized(items[i])->Err_0,
    ));
    lemma_items_failure(items, (i + 1) as nat, items.len());
}

/// A failure stops the normalization of a mapping at once: the mapping is
/// refused with the failure of its first entry that has one.
pub proof fn first_failing_entry_decides(entries: Seq<(KeyModel, HostModel)>, i: int)
    requires
        0 <= i < entries.len(),
        !entry_succeeds(entries[i]),
        forall|k: int| 0 <= k < i ==> entry_succeeds(#[trigger] entries[k]),
    ensures
        normalized_entries(entries, entries.len()) == Err::<Map<Seq<char>, Json>, Failure>(
            entry_failure(entries[i]),
        ),
{
    lemma_entries_object(entries, i as nat);
    assert(normalized_entries(entries, (i + 1) as nat) == Err::<Map<Seq<char>, Json>, Failure>(
        entry_failure(entries[i]),
    ));
    lemma_entries_failure(entries, (i + 1) as nat, entries.len());
}

/// Where the digits of an integer begin in its decimal notation: behind the
/// minus sign of a negative one, and else at the front.
pub open spec fn first_digit_at(n: int) -> int {
    if n < 0 {
        1
    } else {
        0
    }
}

/// An integer is written minimally. A host value that is normalized to an
/// integer has that integer's decimal notation as its canonical text: a
/// minus sign exactly where the integer is negative, then digits and nothing
/// else, so neither a plus sign nor a fractional point. The digits denote the
/// integer's magnitude, and none of them is a leading zero but for zero
/// itself, which is written `0`.
pub proof fn integer_is_written_minimally(h: HostModel, n: int)
    requires
        normalized(h) == Ok::<Json, Failure>(Json::Integer(n)),
    ensures
        serialized(h) == Some(decimal_text(n)),
        decimal_text(n).len() > first_digit_at(n),
        decimal_text(n)[0] == '-' <==> n < 0,
        forall|i: int|
            first_digit_at(n) <= i < decimal_text(n).len() ==> is_digit(
                #[trigger] decimal_text(n)[i],
            ),
        decimal_text(n)[first_digit_at(n)] == '0' <==> n == 0,
        n == 0 ==> decimal_text(n) == seq!['0'],
        digits_value(decimal_text(n).skip(first_digit_at(n))) == if n < 0 {
            -n
        } else {
            n
        },
{
    if n < 0 {
        let tail = digits((-n) as nat);
        lemma_digits((-n) as nat);
        assert forall|i: int| 1 <= i < decimal_text(n).len() implies is_digit(
            #[trigger] decimal_text(n)[i],
        ) by {
            assert(decimal_text(n)[i] == tail[i - 1]);
        }
        assert(decimal_text(n).skip(1) =~= tail);
    } else {
        lemma_digits(n as nat);
        assert(decimal_text(n).skip(0) =~= decimal_text(n));
    }
}

/// Serialization depends on the normal form alone: two host values that are
/// normalized to the same JSON content, or refused with the same failure,
/// have the same canonical text, or both have none.
pub proof fn serialization_follows_normal_form(a: HostModel, b: HostModel)
    requires
        normalized(a) == normalized(b),
    ensures
        serialized(a) == serialized(b),
{
}

/// The normal form of a sequence depends on the normal forms of its items
/// alone: two sequences that agree in them, position by position, over their
/// first `n` items have the same normal form there.
pub proof fn items_of_equal_normal_form(a: Seq<HostModel>, b: Seq<HostModel>, n: nat)
    requires
        n <= a.len(),
        n <= b.len(),
        forall|i: int| 0 <= i < n ==> normalized(#[trigger] a[i]) == normalized(b[i]),
    ensures
        normalized_items(a, n) == normalized_items(b, n),
    decreases n,
{
    if n > 0 {
        items_of_equal_normal_form(a, b, (n - 1) as nat);
    }
}

/// The normal form of a mapping depends on the coerced keys and on the normal
/// forms of the values alone: two sequences of entries that agree in them,
/// position by position, over their first `n` entries make the same object
/// there.
pub proof fn entries_of_equal_normal_form(
    a: Seq<(KeyModel, HostModel)>,
    b: Seq<(KeyModel, HostModel)>,
    n: nat,
)
    requires
        n <= a.len(),
        n <= b.len(),
        forall|i: int|
            0 <= i < n ==> coerced_key(#[trigger] a[i].0) == coerced_key(b[i].0) && normalized(
                a[i].1,
            ) == normalized(b[i].1),
    ensures
        normalized_entries(a, n) == normalized_entries(b, n),
    decreases n,
{
    if n > 0 {
        entries_of_equal_normal_form(a, b, (n - 1) as nat);
    }
}

/// No entry after the `i`-th, among the first `n`, has a key that is coerced
/// to the same text as the key of the `i`-th.
pub open spec fn key_is_not_replaced(entries: Seq<(KeyModel, HostModel)>, i: int, n: nat) -> bool {
    forall|j: int| i < j < n ==> coerced_key(#[trigger] entries[j].0) != coerced_key(entries[i].0)
}

/// The first `n` entries make an object exactly when each of them can be
/// normalized. The object then holds the coerced keys of these entries and no
/// others, and each key maps to the normal form of the value of the last
/// entry that has this key.
pub proof fn lemma_entries_object(entries: Seq<(KeyModel, HostModel)>, n: nat)
    requires
        n <= entries.len(),
    ensures
        normalized_entries(entries, n) is Ok <==> forall|i: int|
            0 <= i < n ==> entry_succeeds(#[trigger] entries[i]),
        normalized_entries(entries, n) matches Ok(m) ==> forall|k: Seq<char>| #[trigger]
            m.dom().contains(k) <==> exists|i: int|
                0 <= i < n && coerced_key(#[trigger] entries[i].0) == Ok::<Seq<char>, Failure>(k),
        normalized_entries(entries, n) matches Ok(m) ==> forall|i: int|
            0 <= i < n && key_is_not_replaced(entries, i, n) ==> m[coerced_key(
                #[trigger] entries[i].0,
            )->Ok_0] == normalized(entries[i].1)->Ok_0,
    decreases n,
{
    if n > 0 {
        let before = (n - 1) as nat;
        lemma_entries_object(entries, before);
        if normalized_entries(entries, before) is Ok && entry_succeeds(entries[n - 1]) {
            let earlier = normalized_entries(entries, before)->Ok_0;
            let key = coerced_key(entries[n - 1].0)->Ok_0;
            let m = normalized_entries(entries, n)->Ok_0;
            assert(m == earlier.insert(key, normalized(entries[n - 1].1)->Ok_0));
            assert forall|k: Seq<char>| #[trigger] m.dom().contains(k) implies exists|i: int|
                0 <= i < n && coerced_key(#[trigger] entries[i].0) == Ok::<Seq<char>, Failure>(
                    k,
                ) by {
                if k != key {
                    assert(earlier.dom().contains(k));
                }
            }
            assert forall|i: int|
                0 <= i < n && key_is_not_replaced(entries, i, n) implies m[coerced_key(
                    #[trigger] entries[i].0,
                )->Ok_0] == normalized(entries[i].1)->Ok_0 by {
                if i < n - 1 {
                    assert(coerced_key(entries[n - 1].0) != coerced_key(entries[i].0));
                    assert(key_is_not_replaced(entries, i, before));
                }
            }
        }
    }
}

/// The order of a mapping's entries does not matter: two sequences that hold
/// the same entries, in each of which no two keys are coerced to the same
/// text, make the same object, or neither makes one.
pub proof fn entry_order_is_irrelevant(
    a: Seq<(KeyModel, HostModel)>,
    b: Seq<(KeyModel, HostModel)>,
)
    requires
        entries_within(a, b),
        entries_within(b, a),
        keys_stay_distinct(a),
        keys_stay_distinct(b),
    ensures
        normalized_entries(a, a.len()) is Ok <==> normalized_entries(b, b.len()) is Ok,
        normalized_entries(a, a.len()) is Ok ==> normalized_entries(a, a.len())
            == normalized_entries(b, b.len()),
{
    lemma_entries_object(a, a.len());
    lemma_entries_object(b, b.len());
    if normalized_entries(a, a.len()) is Ok {
        assert forall|j: int| 0 <= j < b.len() implies entry_succeeds(#[trigger] b[j]) by {
            assert(a.contains(b[j]));
        }
    }
    if normalized_entries(b, b.len()) is Ok {
        assert forall|i: int| 0 <= i < a.len() implies entry_succeeds(#[trigger] a[i]) by {
            assert(b.contains(a[i]));
        }
    }
    if normalized_entries(a, a.len()) is Ok {
        let ma = normalized_entries(a, a.len())->Ok_0;
        let mb = normalized_entries(b, b.len())->Ok_0;
        assert forall|k: Seq<char>| ma.dom().contains(k) implies mb.dom().contains(k) && ma[k]
            == mb[k] by {
            let i = choose|i: int|
                0 <= i < a.len() && coerced_key(#[trigger] a[i].0) == Ok::<Seq<char>, Failure>(k);
            assert(b.contains(a[i]));
            let j = choose|j: int| 0 <= j < b.len() && b[j] == a[i];
            assert(key_is_not_replaced(a, i, a.len()));
            assert(key_is_not_replaced(b, j, b.len()));
        }
        assert forall|k: Seq<char>| mb.dom().contains(k) implies ma.dom().contains(k) by {
            let j = choose|j: int|
                0 <= j < b.len() && coerced_key(#[trigger] b[j].0) == Ok::<Seq<char>, Failure>(k);
            assert(a.contains(b[j]));
        }
        assert(ma =~= mb);
    }
}

/// Two mappings that differ only in the order of their entries have the same
/// canonical text, or both have none, provided that in neither of them two
/// keys are coerced to the same text.
pub proof fn mapping_order_is_irrelevant(a: HostModel, b: HostModel)
    requires
        a.mapping is Some,
        b.mapping is Some,
        b == (HostModel { mapping: b.mapping, ..a }),
        entries_within(a.mapping->0, b.mapping->0),
        entries_within(b.mapping->0, a.mapping->0),
        keys_stay_distinct(a.mapping->0),
        keys_stay_distinct(b.mapping->0),
    ensures
        serialized(a) == serialized(b),
{
    entry_order_is_irrelevant(a.mapping->0, b.mapping->0);
}

} // verus!
