use authz_core::cache::CacheOutcome;
use authz_core::cache::PermissionCache;
use authz_core::gate::AccessControlGate;
use authz_core::gate::AccessControlStrategy;
use authz_core::gate::AuthorizeOutcome;
use authz_core::gate::Decision;
use authz_core::gate::RequestClass;
use authz_core::gate::RequestContext;
use authz_core::types::ChangeAction;
use authz_core::types::ChangeEvent;
use authz_core::types::CoreError;
use authz_core::types::PermissionLevel;
use authz_core::types::ResourceKind;
use authz_core::types::ResourceRef;

fn workspace(id: u64) -> ResourceRef {
    ResourceRef { kind: ResourceKind::Workspace, id }
}

fn collab(id: u64) -> ResourceRef {
    ResourceRef { kind: ResourceKind::Collab, id }
}

fn event(
    identity: u64,
    resource: ResourceRef,
    action: ChangeAction,
    version: u64,
) -> ChangeEvent {
    ChangeEvent { identity, resource, action, version }
}

fn http() -> RequestContext {
    RequestContext { class: RequestClass::Http }
}

fn default_gate() -> AccessControlGate {
    AccessControlGate::new()
        .with_strategy(AccessControlStrategy { kind: ResourceKind::Workspace, scope: None })
        .with_strategy(AccessControlStrategy { kind: ResourceKind::Collab, scope: None })
}

#[test]
fn concurrent_lookups_coalesce_into_one_fetch() {
    // Of any number of lookups for one key before the fetch completes,
    // exactly the first is told to query the store.
    let mut cache = PermissionCache::new();
    let w = workspace(7);
    assert_eq!(cache.get_permission(1, w), CacheOutcome::MustFetch);
    assert_eq!(cache.get_permission(1, w), CacheOutcome::AwaitFetch);
    assert_eq!(cache.get_permission(1, w), CacheOutcome::AwaitFetch);
    // A different key coalesces independently.
    assert_eq!(cache.get_permission(2, w), CacheOutcome::MustFetch);

    cache.complete_fetch(1, w, PermissionLevel::Read, 1);
    assert_eq!(cache.get_permission(1, w), CacheOutcome::Hit(PermissionLevel::Read));
}

#[test]
fn negative_result_is_cached_too() {
    let mut cache = PermissionCache::new();
    let c = collab(3);
    assert_eq!(cache.get_permission(9, c), CacheOutcome::MustFetch);
    cache.complete_fetch(9, c, PermissionLevel::NoAccess, 1);
    // The "no access" answer is served from the cache, not refetched.
    assert_eq!(cache.get_permission(9, c), CacheOutcome::Hit(PermissionLevel::NoAccess));
}

#[test]
fn failed_fetch_allows_retry_and_keeps_last_known_value() {
    let mut cache = PermissionCache::new();
    let w = workspace(4);
    assert_eq!(cache.get_permission(1, w), CacheOutcome::MustFetch);
    cache.fetch_failed(1, w);
    // The pending marker is gone: the next lookup retries the store.
    assert_eq!(cache.get_permission(1, w), CacheOutcome::MustFetch);
    cache.complete_fetch(1, w, PermissionLevel::Read, 1);
    // A later failure against a cached key leaves the last-known value.
    cache.fetch_failed(1, w);
    assert_eq!(cache.lookup(1, w), Some(PermissionLevel::Read));
}

#[test]
fn out_of_order_events_converge_to_highest_version() {
    // Events applied out of order by version: the cache converges to the
    // state of the highest-version event; lower versions are no-ops.
    let mut forward = PermissionCache::new();
    let mut backward = PermissionCache::new();
    let w = workspace(11);
    let e1 = event(5, w, ChangeAction::Added(PermissionLevel::Read), 1);
    let e2 = event(5, w, ChangeAction::Updated(PermissionLevel::ReadWrite), 2);

    forward.apply_event(e1);
    forward.apply_event(e2);
    backward.apply_event(e2);
    backward.apply_event(e1);

    assert_eq!(forward.lookup(5, w), Some(PermissionLevel::ReadWrite));
    assert_eq!(backward.lookup(5, w), Some(PermissionLevel::ReadWrite));
}

#[test]
fn removal_wins_over_stale_read_through() {
    // Identity 5 has ReadWrite on resource R; a Removed event arrives while
    // a read-through started earlier is still in flight; the stale result
    // must not resurrect the pre-removal level.
    let mut cache = PermissionCache::new();
    let r = collab(2);
    assert_eq!(cache.get_permission(5, r), CacheOutcome::MustFetch);
    cache.apply_event(event(5, r, ChangeAction::Removed, 6));
    // The read-through completes afterwards with the pre-removal level.
    cache.complete_fetch(5, r, PermissionLevel::ReadWrite, 4);
    assert_eq!(cache.lookup(5, r), Some(PermissionLevel::NoAccess));
}

#[test]
fn deny_overrides_any_other_answer() {
    // The workspace strategy denies (held Read < required Owner) while the
    // collab strategy has no opinion on a workspace resource: denied.
    let mut gate = default_gate();
    let w = workspace(1);
    gate.apply_event(event(8, w, ChangeAction::Added(PermissionLevel::Read), 1));
    assert_eq!(
        gate.authorize(8, w, PermissionLevel::Owner, &http()),
        AuthorizeOutcome::Decided(Decision::Deny)
    );
    // The same cache grants a requirement the held level satisfies.
    assert_eq!(
        gate.authorize(8, w, PermissionLevel::Read, &http()),
        AuthorizeOutcome::Decided(Decision::Allow)
    );
}

#[test]
fn zero_applicable_strategies_fail_closed() {
    // No strategies at all: every request is denied.
    let gate = AccessControlGate::new();
    assert_eq!(
        gate.authorize(1, workspace(1), PermissionLevel::Read, &http()),
        AuthorizeOutcome::Decided(Decision::Deny)
    );

    // A collab-only gate is asked about a workspace resource: denied, and
    // reported as an unknown resource kind.
    let mut collab_only = AccessControlGate::new()
        .with_strategy(AccessControlStrategy { kind: ResourceKind::Collab, scope: None });
    collab_only.apply_event(event(1, workspace(1), ChangeAction::Added(PermissionLevel::Owner), 1));
    assert_eq!(
        collab_only.authorize(1, workspace(1), PermissionLevel::Read, &http()),
        AuthorizeOutcome::Decided(Decision::Deny)
    );
    assert!(!collab_only.has_applicable_strategy(workspace(1), &http()));
    assert_eq!(
        collab_only.authorize_checked(1, workspace(1), PermissionLevel::Read, &http()),
        Err(CoreError::UnknownResourceKind)
    );
}

#[test]
fn strategy_scope_limits_the_request_class() {
    // A strategy scoped to realtime requests has no opinion on HTTP ones.
    let gate = AccessControlGate::new().with_strategy(AccessControlStrategy {
        kind: ResourceKind::Collab,
        scope: Some(RequestClass::Realtime),
    });
    assert_eq!(
        gate.authorize(1, collab(1), PermissionLevel::Read, &http()),
        AuthorizeOutcome::Decided(Decision::Deny)
    );
}

#[test]
fn missing_entry_defers_to_read_through_and_degraded_mode_denies() {
    let gate = default_gate();
    let w = workspace(9);
    // Nothing cached: the access gate turns to the single read-through.
    assert_eq!(
        gate.authorize(3, w, PermissionLevel::Read, &http()),
        AuthorizeOutcome::NeedsFetch
    );
    // With the store unavailable, uncertainty never grants access.
    assert_eq!(gate.authorize_degraded(3, w, PermissionLevel::Read, &http()), Decision::Deny);
}

#[test]
fn granted_owner_event_allows_without_new_store_query() {
    // Identity 8 has Read on workspace 1; a change event grants Owner; a
    // subsequent Owner-level check allows from the cache alone.
    let mut gate = default_gate();
    let w = workspace(1);
    assert_eq!(gate.get_permission(8, w), CacheOutcome::MustFetch);
    gate.complete_fetch(8, w, PermissionLevel::Read, 1);
    assert_eq!(
        gate.authorize(8, w, PermissionLevel::Owner, &http()),
        AuthorizeOutcome::Decided(Decision::Deny)
    );

    gate.apply_event(event(8, w, ChangeAction::Updated(PermissionLevel::Owner), 2));
    assert_eq!(
        gate.authorize(8, w, PermissionLevel::Owner, &http()),
        AuthorizeOutcome::Decided(Decision::Allow)
    );
    // No fetch was pending: the decision came from the applied event.
    assert_eq!(gate.get_permission(8, w), CacheOutcome::Hit(PermissionLevel::Owner));
}

#[test]
fn owner_granted_via_read_through_when_event_has_not_landed() {
    // The same check before the event lands: the access gate requires the single
    // read-through, and the store's answer (already Owner) allows.
    let mut gate = default_gate();
    let w = workspace(2);
    assert_eq!(
        gate.authorize(8, w, PermissionLevel::Owner, &http()),
        AuthorizeOutcome::NeedsFetch
    );
    assert_eq!(gate.get_permission(8, w), CacheOutcome::MustFetch);
    gate.complete_fetch(8, w, PermissionLevel::Owner, 3);
    assert_eq!(
        gate.authorize(8, w, PermissionLevel::Owner, &http()),
        AuthorizeOutcome::Decided(Decision::Allow)
    );
}

#[test]
fn permission_levels_are_ordered() {
    assert!(PermissionLevel::Owner.satisfies(PermissionLevel::ReadWrite));
    assert!(PermissionLevel::ReadWrite.satisfies(PermissionLevel::Read));
    assert!(PermissionLevel::Read.satisfies(PermissionLevel::NoAccess));
    assert!(!PermissionLevel::Read.satisfies(PermissionLevel::ReadWrite));
    assert!(!PermissionLevel::NoAccess.satisfies(PermissionLevel::Read));
    assert!(PermissionLevel::Read.satisfies(PermissionLevel::Read));
}
