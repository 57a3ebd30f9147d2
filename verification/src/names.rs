//! Records that are found by their name, kept in the order they were added.

use crate::text::same_text;
use vstd::prelude::*;

verus! {

/// A record with a name.
pub trait Named: DeepView + Sized {
    /// The name of the record with view `v`.
    spec fn name_of(v: Self::V) -> Seq<char>;

    /// The name of this record.
    fn name(&self) -> (n: &str)
        ensures
            n@ == Self::name_of(self.deep_view()),
    ;
}

/// The index of the first record of `items` named `name`.
pub open spec fn position<T: Named>(items: Seq<T::V>, name: Seq<char>) -> Option<int>
    decreases items.len(),
{
    if items.len() == 0 {
        None
    } else {
        match position::<T>(items.drop_last(), name) {
            Some(i) => Some(i),
            None => if T::name_of(items.last()) == name {
                Some(items.len() - 1)
            } else {
                None
            },
        }
    }
}

/// The first record of `items` named `name`.
pub open spec fn lookup<T: Named>(items: Seq<T::V>, name: Seq<char>) -> Option<T::V> {
    match position::<T>(items, name) {
        Some(i) => Some(items[i]),
        None => None,
    }
}

/// `items` with `record` in the place of the first record of its name, or
/// at the end where there is none.
pub open spec fn upsert<T: Named>(items: Seq<T::V>, record: T::V) -> Seq<T::V> {
    match position::<T>(items, T::name_of(record)) {
        Some(i) => items.update(i, record),
        None => items.push(record),
    }
}

/// A position is the index of a record of that name before which no record
/// has the name; no position means that no record has it.
pub proof fn lemma_position<T: Named>(items: Seq<T::V>, name: Seq<char>)
    ensures
        match position::<T>(items, name) {
            Some(i) => 0 <= i < items.len() && T::name_of(items[i]) == name && forall|k: int|
                0 <= k < i ==> T::name_of(#[trigger] items[k]) != name,
            None => forall|k: int| 0 <= k < items.len() ==> T::name_of(#[trigger] items[k]) != name,
        },
    decreases items.len(),
{
    if items.len() > 0 {
        let head = items.drop_last();
        lemma_position::<T>(head, name);
        assert(forall|k: int| 0 <= k < head.len() ==> head[k] == items[k]);
    }
}

/// The first record of a name is found from its index.
pub proof fn lemma_position_at<T: Named>(items: Seq<T::V>, name: Seq<char>, i: int)
    requires
        0 <= i < items.len(),
        T::name_of(items[i]) == name,
        forall|k: int| 0 <= k < i ==> T::name_of(#[trigger] items[k]) != name,
    ensures
        position::<T>(items, name) == Some(i),
{
    lemma_position::<T>(items, name);
}

/// A record that was put in is found under its name.
pub proof fn lemma_lookup_upsert_same<T: Named>(items: Seq<T::V>, record: T::V)
    ensures
        lookup::<T>(upsert::<T>(items, record), T::name_of(record)) == Some(record),
{
    let name = T::name_of(record);
    let after = upsert::<T>(items, record);
    lemma_position::<T>(items, name);
    match position::<T>(items, name) {
        Some(i) => {
            assert(forall|k: int| 0 <= k < i ==> after[k] == items[k]);
            lemma_position_at::<T>(after, name, i);
        },
        None => {
            assert(forall|k: int| 0 <= k < items.len() ==> after[k] == items[k]);
            lemma_position_at::<T>(after, name, items.len() as int);
        },
    }
}

/// Putting a record in changes nothing under any other name.
pub proof fn lemma_lookup_upsert_other<T: Named>(items: Seq<T::V>, record: T::V, name: Seq<char>)
    requires
        name != T::name_of(record),
    ensures
        lookup::<T>(upsert::<T>(items, record), name) == lookup::<T>(items, name),
{
    let after = upsert::<T>(items, record);
    lemma_position::<T>(items, T::name_of(record));
    lemma_position::<T>(items, name);
    match position::<T>(items, name) {
        Some(i) => {
            assert(after[i] == items[i]);
            assert forall|k: int| 0 <= k < i implies T::name_of(#[trigger] after[k]) != name by {
                if after[k] != items[k] {
                    assert(after[k] == record);
                }
            }
            lemma_position_at::<T>(after, name, i);
        },
        None => {
            lemma_position::<T>(after, name);
            if position::<T>(after, name) is Some {
                let j = position::<T>(after, name)->0;
                if j < items.len() && after[j] == items[j] {
                    assert(T::name_of(items[j]) != name);
                }
            }
        },
    }
}

/// Whether no two records of `items` have the same name.
pub open spec fn distinct<T: Named>(items: Seq<T::V>) -> bool {
    forall|i: int, j: int|
        0 <= i < j < items.len() ==> T::name_of(#[trigger] items[i]) != T::name_of(
            #[trigger] items[j],
        )
}

/// Putting a record in leaves the names distinct.
pub proof fn lemma_upsert_distinct<T: Named>(items: Seq<T::V>, record: T::V)
    requires
        distinct::<T>(items),
    ensures
        distinct::<T>(upsert::<T>(items, record)),
{
    let after = upsert::<T>(items, record);
    lemma_position::<T>(items, T::name_of(record));
    assert forall|i: int, j: int| 0 <= i < j < after.len() implies T::name_of(
        #[trigger] after[i],
    ) != T::name_of(#[trigger] after[j]) by {
        if j < items.len() {
            assert(T::name_of(after[i]) == T::name_of(items[i]));
            assert(T::name_of(after[j]) == T::name_of(items[j]));
        } else {
            assert(after[i] == items[i]);
        }
    }
}

/// Finds the first record named `name`.
pub fn find_named<T: Named>(items: &Vec<T>, name: &str) -> (r: Option<usize>)
    ensures
        match r {
            Some(i) => position::<T>(items.deep_view(), name@) == Some(i as int) && i
                < items.len(),
            None => position::<T>(items.deep_view(), name@) is None,
        },
{
    let ghost all = items.deep_view();
    let mut i: usize = 0;
    while i < items.len()
        invariant
            i <= items.len(),
            all == items.deep_view(),
            forall|k: int| 0 <= k < i ==> T::name_of(#[trigger] all[k]) != name@,
        decreases items.len() - i,
    {
        assert(all[i as int] == items@[i as int].deep_view());
        if same_text(items[i].name(), name) {
            proof {
                lemma_position_at::<T>(all, name@, i as int);
            }
            return Some(i);
        }
        i = i + 1;
    }
    proof {
        lemma_position::<T>(all, name@);
    }
    None
}

} // verus!
