use linking::outcomes::{RegisterOutcome, ResolveOutcome};
use linking::service::RedirectService;
use linking::store::{scaffold_database, LinkStore};

fn fresh_service(secret: &str) -> RedirectService {
    let mut store = LinkStore::open_in_memory().expect("Couldn't open up a sqlite db in memory");
    scaffold_database(&mut store);
    RedirectService::new(store, secret.to_owned())
}

#[test]
fn test_show_slug_not_found_plaintext() {
    let service = fresh_service("secret");
    let outcome = service.resolve("foo");
    assert!(
        outcome == ResolveOutcome::NotFound,
        "Expected {:?} to be a 404 status",
        outcome
    );
}

#[test]
fn test_show_success_plaintext() {
    let mut service = fresh_service("secret");
    let created = service.register_bytes("foo", "http://koddsson.com".as_bytes(), Some("secret"));
    assert!(
        matches!(created, RegisterOutcome::Created(_, _)),
        "Expected {:?} to be a successful response code",
        created
    );
    let resolved = service.resolve("foo");
    assert!(
        matches!(resolved, ResolveOutcome::Redirect(_)),
        "Expected {:?} to be a successful response code",
        resolved
    );
}

#[test]
fn resolve_on_empty_store_is_not_found() {
    let service = fresh_service("secret");
    assert_eq!(service.resolve("foo"), ResolveOutcome::NotFound);
}

#[test]
fn register_then_resolve_round_trips_exact_url() {
    let mut service = fresh_service("secret");
    assert_eq!(
        service.register("foo", "http://example.com", Some("secret")),
        RegisterOutcome::Created("foo".to_owned(), "http://example.com".to_owned())
    );
    assert_eq!(
        service.resolve("foo"),
        ResolveOutcome::Redirect("http://example.com".to_owned())
    );
}

#[test]
fn second_register_of_same_slug_conflicts() {
    let mut service = fresh_service("secret");
    assert_eq!(
        service.register("foo", "http://example.com", Some("secret")),
        RegisterOutcome::Created("foo".to_owned(), "http://example.com".to_owned())
    );
    assert_eq!(
        service.register("foo", "http://elsewhere.example", Some("secret")),
        RegisterOutcome::Conflict("foo".to_owned())
    );
    assert_eq!(
        service.resolve("foo"),
        ResolveOutcome::Redirect("http://example.com".to_owned())
    );
}

#[test]
fn register_with_empty_credential_is_unauthorized() {
    let mut service = fresh_service("secret");
    assert_eq!(
        service.register("foo", "http://example.com", Some("")),
        RegisterOutcome::Unauthorized
    );
    assert_eq!(service.resolve("foo"), ResolveOutcome::NotFound);
}

#[test]
fn register_with_no_credential_is_forbidden() {
    let mut service = fresh_service("secret");
    assert_eq!(
        service.register("foo", "http://example.com", None),
        RegisterOutcome::Forbidden
    );
    assert_eq!(service.resolve("foo"), ResolveOutcome::NotFound);
}

#[test]
fn register_with_wrong_credential_is_unauthorized() {
    let mut service = fresh_service("secret");
    assert_eq!(
        service.register("foo", "http://example.com", Some("not-the-secret")),
        RegisterOutcome::Unauthorized
    );
}

#[test]
fn credential_matches_after_trimming_whitespace() {
    let mut service = fresh_service("secret");
    assert_eq!(
        service.register("foo", "http://example.com", Some("  secret\t\n")),
        RegisterOutcome::Created("foo".to_owned(), "http://example.com".to_owned())
    );
}

#[test]
fn secret_itself_is_not_trimmed_before_comparison() {
    let mut service = fresh_service(" secret ");
    assert_eq!(
        service.register("foo", "http://example.com", Some("secret")),
        RegisterOutcome::Unauthorized
    );
}

#[test]
fn register_bytes_rejects_malformed_utf8_as_bad_request() {
    let mut service = fresh_service("secret");
    let body: Vec<u8> = vec![0xff, 0xfe, 0x80];
    assert_eq!(
        service.register_bytes("foo", &body, Some("secret")),
        RegisterOutcome::BadRequest
    );
    assert_eq!(service.resolve("foo"), ResolveOutcome::NotFound);
}

#[test]
fn register_bytes_rejects_empty_body_as_bad_request() {
    let mut service = fresh_service("secret");
    let body: Vec<u8> = vec![];
    assert_eq!(
        service.register_bytes("foo", &body, Some("secret")),
        RegisterOutcome::BadRequest
    );
}

#[test]
fn register_bytes_checks_credential_before_body() {
    let mut service = fresh_service("secret");
    let body: Vec<u8> = vec![0xff];
    assert_eq!(service.register_bytes("foo", &body, None), RegisterOutcome::Forbidden);
    assert_eq!(
        service.register_bytes("foo", &body, Some("wrong")),
        RegisterOutcome::Unauthorized
    );
}

#[test]
fn register_bytes_stores_decoded_body_verbatim() {
    let mut service = fresh_service("secret");
    assert_eq!(
        service.register_bytes("foo", "http://\u{00e9}xample.com".as_bytes(), Some("secret")),
        RegisterOutcome::Created("foo".to_owned(), "http://\u{00e9}xample.com".to_owned())
    );
    assert_eq!(
        service.resolve("foo"),
        ResolveOutcome::Redirect("http://\u{00e9}xample.com".to_owned())
    );
}

#[test]
fn resolve_without_scaffolding_is_internal_error() {
    let store = LinkStore::open_in_memory().expect("Couldn't open up a sqlite db in memory");
    let service = RedirectService::new(store, "secret".to_owned());
    assert_eq!(service.resolve("foo"), ResolveOutcome::InternalError);
}
