//! Resolution of a source-control username to a chat mention.

use vstd::prelude::*;

verus! {

/// What a username resolves to, given the outcome of the directory lookup:
/// the platform identifier when the lookup produced a well-formed one, the
/// raw username otherwise.
pub open spec fn resolved_mention(username: Seq<char>, lookup: Option<Seq<char>>) -> Seq<char> {
    match lookup {
        Some(id) => id,
        None => username,
    }
}

/// Turns the outcome of a directory lookup into the mention the notification
/// will carry. `lookup` is `Some(id)` only when the directory returned a
/// user with an identifier; every failure mode (transport error, no such
/// user, malformed reply) arrives here as `None` and degrades to the raw
/// username instead of failing the request.
pub fn resolve_mention(username: &String, lookup: Option<String>) -> (mention: String)
    ensures
        mention@ == resolved_mention(username@, lookup.deep_view()),
{
    match lookup {
        Some(id) => id,
        None => username.clone(),
    }
}

/// Identity resolution is total: whatever the directory lookup yielded, the
/// mention is the looked-up identifier when one came back and the original
/// username otherwise -- never anything else, and never a failure.
pub proof fn lemma_resolution_total(username: Seq<char>, lookup: Option<Seq<char>>)
    ensures
        lookup is Some ==> resolved_mention(username, lookup) == lookup->0,
        lookup is None ==> resolved_mention(username, lookup) == username,
{
}

} // verus!
