use vstd::prelude::*;

use crate::outcomes::{RegisterOutcome, ResolveOutcome};
use crate::service::{register_store_post, resolve_post};

verus! {

/// Uniqueness: once a registration for a slug has succeeded, no later
/// registration of that slug succeeds again. The later attempt observes a
/// conflict naming the slug — or a storage failure — and either way the
/// relation is left exactly as it was.
pub proof fn lemma_uniqueness(
    rel: Map<Seq<char>, Seq<char>>,
    slug: Seq<char>,
    url1: Seq<char>,
    r1: RegisterOutcome,
    rel1: Map<Seq<char>, Seq<char>>,
    url2: Seq<char>,
    r2: RegisterOutcome,
    rel2: Map<Seq<char>, Seq<char>>,
)
    requires
        register_store_post(rel, slug, url1, r1, rel1),
        r1 is Created,
        register_store_post(rel1, slug, url2, r2, rel2),
    ensures
        !(r2 is Created),
        r2 is Conflict || r2 is InternalError,
        r2 matches RegisterOutcome::Conflict(s) ==> s@ == slug,
        rel2 == rel1,
{
}

/// A stored slug stays stored: registering any slug, with any outcome, never
/// removes an entry from the relation. With resolution read-only, a slug once
/// created remains present ever after.
pub proof fn lemma_presence_stable(
    rel: Map<Seq<char>, Seq<char>>,
    stored: Seq<char>,
    slug: Seq<char>,
    url: Seq<char>,
    r: RegisterOutcome,
    new_rel: Map<Seq<char>, Seq<char>>,
)
    requires
        rel.contains_key(stored),
        register_store_post(rel, slug, url, r, new_rel),
    ensures
        new_rel.contains_key(stored),
        slug != stored ==> new_rel[stored] == rel[stored],
{
}

/// Round-trip: a registration that reports `Created` stores the URL with its
/// exact character content, so resolving the same slug — unless storage fails
/// on the read — redirects to that URL, verbatim.
pub proof fn lemma_round_trip(
    rel: Map<Seq<char>, Seq<char>>,
    slug: Seq<char>,
    url: Seq<char>,
    r_reg: RegisterOutcome,
    new_rel: Map<Seq<char>, Seq<char>>,
    r_res: ResolveOutcome,
)
    requires
        register_store_post(rel, slug, url, r_reg, new_rel),
        r_reg is Created,
        resolve_post(new_rel, slug, r_res),
        !(r_res is InternalError),
    ensures
        r_res matches ResolveOutcome::Redirect(u) && u@ == url,
{
}

/// Absence: resolving a slug that the relation does not hold — unless storage
/// fails on the read — reports `NotFound`, never a redirect.
pub proof fn lemma_absence(
    rel: Map<Seq<char>, Seq<char>>,
    slug: Seq<char>,
    r: ResolveOutcome,
)
    requires
        !rel.contains_key(slug),
        resolve_post(rel, slug, r),
        !(r is InternalError),
    ensures
        r is NotFound,
{
}

} // verus!
