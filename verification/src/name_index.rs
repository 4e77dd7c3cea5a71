//! An index from names to positions, kept in an `IndexMap`.

use vstd::prelude::*;
use indexmap::IndexMap;

verus! {

/// `indexmap::IndexMap`: a hash map that keeps its entries in insertion
/// order.
#[verifier::external_type_specification]
#[verifier::external_body]
#[verifier::reject_recursive_types(K)]
#[verifier::reject_recursive_types(V)]
#[verifier::reject_recursive_types(S)]
pub struct ExIndexMap<K, V, S>(IndexMap<K, V, S>);

/// An index from names to positions.
pub type NameIndex = IndexMap<String, usize>;

/// What an index holds: the position stored under each name.
pub uninterp spec fn index_entries(index: IndexMap<String, usize>) -> Map<Seq<char>, usize>;

/// Trusted: `IndexMap::new` makes a map without entries.
#[verifier::external_body]
pub(crate) fn index_new() -> (made: NameIndex)
    ensures
        forall|name: Seq<char>| !(#[trigger] index_entries(made).contains_key(name)),
{
    IndexMap::new()
}

/// Trusted: `IndexMap::insert` stores `position` under `name`, in place of
/// what was stored under an equal name if anything was, and touches no other
/// entry. It returns what was stored there before.
#[verifier::external_body]
pub(crate) fn index_insert(index: &mut NameIndex, name: String, position: usize) -> (previous: Option<
    usize,
>)
    ensures
        index_entries(*final(index)) == index_entries(*old(index)).insert(name@, position),
        previous == if index_entries(*old(index)).contains_key(name@) {
            Some(index_entries(*old(index))[name@])
        } else {
            None
        },
{
    index.insert(name, position)
}

/// Trusted: `IndexMap::get` returns what is stored under `name`, if anything
/// is.
#[verifier::external_body]
pub(crate) fn index_get(index: &NameIndex, name: &str) -> (position: Option<usize>)
    ensures
        position == if index_entries(*index).contains_key(name@) {
            Some(index_entries(*index)[name@])
        } else {
            None
        },
{
    index.get(name).copied()
}

} // verus!
