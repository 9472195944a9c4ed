use authz_core::notify::ClientToken;
use authz_core::notify::Credential;
use authz_core::notify::TokenState;
use authz_core::types::CoreError;

fn credential(bearer: &str) -> Credential {
    Credential {
        access_token: bearer.to_owned(),
        token_type: "bearer".to_owned(),
        expires_at: 1_700_000_000,
        refresh_token: format!("refresh-{bearer}"),
    }
}

#[test]
fn try_get_on_empty_hub_is_no_credential() {
    let hub = ClientToken::new();
    assert!(hub.is_empty());
    assert!(matches!(hub.try_get(), Err(CoreError::NoCredential)));
}

#[test]
fn try_get_returns_the_held_credential() {
    let mut hub = ClientToken::new();
    hub.set(credential("tok-a"));
    assert!(!hub.is_empty());
    let got = hub.try_get().expect("credential is held");
    assert_eq!(got.access_token, "tok-a");
    assert_eq!(got.token_type, "bearer");
}

#[test]
fn unset_on_empty_hub_publishes_nothing() {
    let mut hub = ClientToken::new();
    let mut rx = hub.subscribe();
    assert!(!hub.unset());
    assert_eq!(rx.try_recv(&hub), None);
    assert!(hub.is_empty());
}

#[test]
fn identical_bearer_publishes_once_and_late_subscriber_sees_later_only() {
    // set(tokenA) then set(tokenA) again publishes exactly one Refresh;
    // set(tokenB) publishes a second; unset publishes Invalid; a subscriber
    // created after the first set sees only [Refresh, Invalid].
    let mut hub = ClientToken::new();
    let mut early = hub.subscribe();

    assert!(hub.set(credential("tok-a")));
    let mut a_claims_differ = credential("tok-a");
    a_claims_differ.expires_at = 1_800_000_000;
    assert!(!hub.set(a_claims_differ));
    // The newer claims are stored even though nothing was published.
    assert_eq!(hub.try_get().unwrap().expires_at, 1_800_000_000);

    let mut late = hub.subscribe();

    hub.set(credential("tok-b"));
    hub.unset();

    assert_eq!(early.try_recv(&hub), Some(Ok(TokenState::Refresh)));
    assert_eq!(early.try_recv(&hub), Some(Ok(TokenState::Refresh)));
    assert_eq!(early.try_recv(&hub), Some(Ok(TokenState::Invalid)));
    assert_eq!(early.try_recv(&hub), None);

    assert_eq!(late.try_recv(&hub), Some(Ok(TokenState::Refresh)));
    assert_eq!(late.try_recv(&hub), Some(Ok(TokenState::Invalid)));
    assert_eq!(late.try_recv(&hub), None);
}

#[test]
fn subscriber_within_capacity_sees_every_transition_in_order() {
    let mut hub = ClientToken::with_capacity(8);
    let mut rx = hub.subscribe();
    hub.set(credential("t1"));
    hub.set(credential("t2"));
    hub.unset();
    hub.set(credential("t3"));
    let seen: Vec<TokenState> = std::iter::from_fn(|| match rx.try_recv(&hub) {
        Some(Ok(t)) => Some(t),
        _ => None,
    })
    .collect();
    assert_eq!(
        seen,
        vec![
            TokenState::Refresh,
            TokenState::Refresh,
            TokenState::Invalid,
            TokenState::Refresh,
        ]
    );
}

#[test]
fn overflowing_subscriber_observes_missed_transitions_and_refetches() {
    // A subscriber that never polls until the buffer overflows observes
    // MissedTransitions, resumes at the oldest retained transition, and must
    // re-read the hub before trusting any local credential copy.
    let mut hub = ClientToken::with_capacity(2);
    let mut rx = hub.subscribe();

    hub.set(credential("t1")); // Refresh
    hub.unset(); // Invalid
    hub.set(credential("t2")); // Refresh
    hub.unset(); // Invalid

    assert_eq!(
        rx.try_recv(&hub),
        Some(Err(CoreError::MissedTransitions(2)))
    );
    // Recovery resumes at the oldest retained transition, in order.
    assert_eq!(rx.try_recv(&hub), Some(Ok(TokenState::Refresh)));
    assert_eq!(rx.try_recv(&hub), Some(Ok(TokenState::Invalid)));
    assert_eq!(rx.try_recv(&hub), None);
    // The re-read of current state reports no credential.
    assert!(matches!(hub.try_get(), Err(CoreError::NoCredential)));
}
