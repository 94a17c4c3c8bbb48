//! Component-wide laws, stated and proved over the spec-level model that
//! the entry points' contracts are written against.

use vstd::prelude::*;

use crate::state::spec_get_count;
use crate::state::spec_increment;
use crate::state::spec_init;
use crate::state::StateModel;

verus! {

/// For every seed value `count` and every owner, initialization followed
/// by the counter query returns `count`.
pub proof fn lemma_init_then_get(count: i32, owner: Seq<char>)
    ensures
        spec_get_count(spec_init(count as int, owner)) == Some(count as int),
{
}

/// For every state holding a record, one increment followed by the counter
/// query returns the previous value plus one; increments accumulate, so a
/// second increment returns the previous value plus two.
pub proof fn lemma_increment_then_get(m: StateModel)
    ensures
        spec_get_count(spec_increment(Some(m))) == Some(m.count + 1),
        spec_get_count(spec_increment(spec_increment(Some(m)))) == Some(m.count + 2),
{
}

} // verus!
