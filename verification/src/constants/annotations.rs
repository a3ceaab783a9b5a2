//! The annotation keys that the operator owns.

use vstd::prelude::*;
use vstd::string::*;

verus! {

/// The prefix that every annotation key of the operator begins with.
pub const PREFIX: &'static str = "outrider.geeko.me/";

/// Set to `"true"`, it makes a secret eligible for distribution.
pub const ENABLED: &'static str = "outrider.geeko.me/enabled";

/// Names the namespace that the secret is copied into in every downstream cluster.
pub const NAMESPACE: &'static str = "outrider.geeko.me/namespace";

/// A key belongs to the operator when it begins with the operator's prefix.
pub open spec fn is_operator_owned(key: Seq<char>) -> bool {
    PREFIX@.is_prefix_of(key)
}

/// The keys that belong to the operator.
pub open spec fn operator_owned() -> Set<Seq<char>> {
    Set::new(|key: Seq<char>| is_operator_owned(key))
}

/// Both keys that the operator reads are its own.
pub proof fn lemma_recognized_keys_are_owned()
    ensures
        is_operator_owned(ENABLED@),
        is_operator_owned(NAMESPACE@),
        ENABLED@ != NAMESPACE@,
{
    reveal_strlit("outrider.geeko.me/");
    reveal_strlit("outrider.geeko.me/enabled");
    reveal_strlit("outrider.geeko.me/namespace");
    assert(PREFIX@ =~= ENABLED@.subrange(0, PREFIX@.len() as int));
    assert(PREFIX@ =~= NAMESPACE@.subrange(0, PREFIX@.len() as int));
    assert(ENABLED@.len() != NAMESPACE@.len());
}

} // verus!
