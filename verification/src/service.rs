use vstd::prelude::*;

use crate::outcomes::{LookupOutcome, RegisterOutcome, ResolveOutcome, StoreError};
use crate::store::LinkStore;

verus! {

/// What `str::trim` returns: the string's characters with leading and
/// trailing whitespace removed.
pub uninterp spec fn trim_of(s: Seq<char>) -> Seq<char>;

/// Relies on `str::trim`: the result depends on the characters alone.
#[verifier::external_body]
fn trimmed(s: &str) -> (r: String)
    ensures
        r@ == trim_of(s@),
{
    s.trim().to_owned()
}

/// What `str::from_utf8` yields on the bytes: the decoded characters for
/// valid UTF-8, `None` otherwise.
pub uninterp spec fn utf8_view(bytes: Seq<u8>) -> Option<Seq<char>>;

/// Relies on `std::str::from_utf8`: whether the bytes decode as text, and to
/// which characters, depends on the bytes alone.
#[verifier::external_body]
fn decode_utf8(bytes: &[u8]) -> (r: Option<String>)
    ensures
        match r {
            Some(s) => utf8_view(bytes@) == Some(s@),
            None => utf8_view(bytes@) is None,
        },
{
    match std::str::from_utf8(bytes) {
        Ok(s) => Some(s.to_owned()),
        Err(_) => None,
    }
}

/// What resolving a slug yields on a given relation. Storage failure aside
/// (`InternalError`), the outcome is pinned: a stored slug redirects to its
/// stored URL, verbatim; an absent slug is `NotFound`.
pub open spec fn resolve_post(
    rel: Map<Seq<char>, Seq<char>>,
    slug: Seq<char>,
    r: ResolveOutcome,
) -> bool {
    match r {
        ResolveOutcome::Redirect(url) => rel.contains_key(slug) && url@ == rel[slug],
        ResolveOutcome::NotFound => !rel.contains_key(slug),
        ResolveOutcome::InternalError => true,
    }
}

/// What registering does to the relation once the caller is authorized and
/// the URL valid: created exactly when the slug was absent, conflict exactly
/// when it was present, and only a storage failure leaves a third outcome —
/// which, like a conflict, changes nothing.
pub open spec fn register_store_post(
    rel: Map<Seq<char>, Seq<char>>,
    slug: Seq<char>,
    url: Seq<char>,
    r: RegisterOutcome,
    new_rel: Map<Seq<char>, Seq<char>>,
) -> bool {
    match r {
        RegisterOutcome::Created(s, u) => s@ == slug && u@ == url
            && !rel.contains_key(slug)
            && new_rel == rel.insert(slug, url),
        RegisterOutcome::Conflict(s) => s@ == slug
            && rel.contains_key(slug)
            && new_rel == rel,
        RegisterOutcome::InternalError => new_rel == rel,
        _ => false,
    }
}

/// The credential as the specification sees it.
pub open spec fn credential_view(credential: Option<&str>) -> Option<Seq<char>> {
    match credential {
        Some(c) => Some(c@),
        None => None,
    }
}

/// The whole registration gate: a missing credential is `Forbidden`, one that
/// does not match the secret after trimming is `Unauthorized` — both before
/// the store is touched — and an authorized caller reaches the store.
pub open spec fn register_post(
    secret: Seq<char>,
    rel: Map<Seq<char>, Seq<char>>,
    slug: Seq<char>,
    url: Seq<char>,
    credential: Option<Seq<char>>,
    r: RegisterOutcome,
    new_rel: Map<Seq<char>, Seq<char>>,
) -> bool {
    match credential {
        None => r is Forbidden && new_rel == rel,
        Some(c) => if trim_of(c) != secret {
            r is Unauthorized && new_rel == rel
        } else {
            register_store_post(rel, slug, url, r, new_rel)
        },
    }
}

/// As `register_post`, for a raw request body: an authorized caller's body
/// must decode as non-empty text, else the registration is `BadRequest` and
/// the store is untouched.
pub open spec fn register_bytes_post(
    secret: Seq<char>,
    rel: Map<Seq<char>, Seq<char>>,
    slug: Seq<char>,
    body: Seq<u8>,
    credential: Option<Seq<char>>,
    r: RegisterOutcome,
    new_rel: Map<Seq<char>, Seq<char>>,
) -> bool {
    match credential {
        None => r is Forbidden && new_rel == rel,
        Some(c) => if trim_of(c) != secret {
            r is Unauthorized && new_rel == rel
        } else {
            match utf8_view(body) {
                Some(url) => if url.len() == 0 {
                    r is BadRequest && new_rel == rel
                } else {
                    register_store_post(rel, slug, url, r, new_rel)
                },
                None => r is BadRequest && new_rel == rel,
            }
        },
    }
}

/// Translates a store lookup outcome into the resolve outcome the transport
/// layer renders; exact for every value of the outcome.
pub fn resolve_outcome_of(outcome: LookupOutcome) -> (r: ResolveOutcome)
    ensures
        match outcome {
            LookupOutcome::Found(link) => (r matches ResolveOutcome::Redirect(url)
                && url == link.url),
            LookupOutcome::NotFound => r is NotFound,
            LookupOutcome::Error(_) => r is InternalError,
        },
{
    match outcome {
        LookupOutcome::Found(link) => ResolveOutcome::Redirect(link.url),
        LookupOutcome::NotFound => ResolveOutcome::NotFound,
        LookupOutcome::Error(_) => ResolveOutcome::InternalError,
    }
}

/// Translates a store insert result into the register outcome the transport
/// layer renders; exact for every value of the result.
pub fn register_outcome_of(result: Result<(), StoreError>, slug: &str, url: &str) -> (r:
    RegisterOutcome)
    ensures
        match result {
            Ok(_) => (r matches RegisterOutcome::Created(s, u) && s@ == slug@ && u@ == url@),
            Err(StoreError::DuplicateSlug) => (r matches RegisterOutcome::Conflict(s)
                && s@ == slug@),
            Err(StoreError::StorageUnavailable) => r is InternalError,
        },
{
    match result {
        Ok(_) => RegisterOutcome::Created(slug.to_owned(), url.to_owned()),
        Err(StoreError::DuplicateSlug) => RegisterOutcome::Conflict(slug.to_owned()),
        Err(StoreError::StorageUnavailable) => RegisterOutcome::InternalError,
    }
}

/// Mediates between the transport boundary and the link store: it gates
/// writes behind the process-wide secret configured at startup and translates
/// store outcomes into the fixed set of response categories.
pub struct RedirectService {
    store: LinkStore,
    secret: String,
}

impl RedirectService {
    /// The slug -> URL relation currently held by the underlying store.
    pub closed spec fn relation(&self) -> Map<Seq<char>, Seq<char>> {
        self.store@
    }

    /// The process-wide secret that gates registrations.
    pub closed spec fn secret(&self) -> Seq<char> {
        self.secret@
    }

    /// Builds the service around a store and the secret configured at
    /// startup; both are immutable for the service's lifetime.
    pub fn new(store: LinkStore, secret: String) -> (s: RedirectService)
        ensures
            s.relation() == store@,
            s.secret() == secret@,
    {
        RedirectService { store, secret }
    }

    /// Looks the slug up and reports where to redirect: `Redirect` with the
    /// stored URL, verbatim, when the slug is stored; `NotFound` when it is
    /// not; `InternalError` only when storage fails. Read-only.
    pub fn resolve(&self, slug: &str) -> (r: ResolveOutcome)
        requires
            slug@.len() > 0,
        ensures
            resolve_post(self.relation(), slug@, r),
    {
        resolve_outcome_of(self.store.lookup(slug))
    }

    /// Registers `slug -> url` for an authorized caller: the credential must
    /// match the configured secret after trimming surrounding whitespace.
    /// The slug is created exactly once; a second registration conflicts.
    pub fn register(&mut self, slug: &str, url: &str, credential: Option<&str>) -> (r:
        RegisterOutcome)
        requires
            slug@.len() > 0,
            url@.len() > 0,
        ensures
            final(self).secret() == old(self).secret(),
            register_post(
                old(self).secret(),
                old(self).relation(),
                slug@,
                url@,
                credential_view(credential),
                r,
                final(self).relation(),
            ),
    {
        let c = match credential {
            Some(c) => c,
            None => return RegisterOutcome::Forbidden,
        };
        let t = trimmed(c);
        if !(t == self.secret) {
            return RegisterOutcome::Unauthorized;
        }
        let result = self.store.insert(slug, url);
        register_outcome_of(result, slug, url)
    }

    /// Registers from the raw request body, as the transport hands it over:
    /// an authorized caller's body must decode as non-empty text to become
    /// the stored URL, else the registration is `BadRequest`.
    pub fn register_bytes(&mut self, slug: &str, body: &[u8], credential: Option<&str>) -> (r:
        RegisterOutcome)
        requires
            slug@.len() > 0,
        ensures
            final(self).secret() == old(self).secret(),
            register_bytes_post(
                old(self).secret(),
                old(self).relation(),
                slug@,
                body@,
                credential_view(credential),
                r,
                final(self).relation(),
            ),
    {
        let c = match credential {
            Some(c) => c,
            None => return RegisterOutcome::Forbidden,
        };
        let t = trimmed(c);
        if !(t == self.secret) {
            return RegisterOutcome::Unauthorized;
        }
        let url = match decode_utf8(body) {
            Some(u) => u,
            None => return RegisterOutcome::BadRequest,
        };
        if url.as_str().is_empty() {
            return RegisterOutcome::BadRequest;
        }
        let result = self.store.insert(slug, url.as_str());
        register_outcome_of(result, slug, url.as_str())
    }
}

} // verus!
