use authz_core::idp::classify_status;
use authz_core::idp::oauth_url;
use authz_core::idp::plan_admin_setup;
use authz_core::idp::response_directive;
use authz_core::idp::token_response_directive;
use authz_core::idp::AdminSetupAction;
use authz_core::idp::ResponseDirective;
use authz_core::idp::SignUpOutcome;
use authz_core::idp::StatusClass;
use authz_core::request_id::RequestIdMiddleware;

#[test]
fn status_classes_follow_http_ranges() {
    assert_eq!(classify_status(200), StatusClass::Success);
    assert_eq!(classify_status(204), StatusClass::Success);
    assert_eq!(classify_status(299), StatusClass::Success);
    assert_eq!(classify_status(400), StatusClass::ClientError);
    assert_eq!(classify_status(404), StatusClass::ClientError);
    assert_eq!(classify_status(499), StatusClass::ClientError);
    assert_eq!(classify_status(301), StatusClass::Other);
    assert_eq!(classify_status(500), StatusClass::Other);
    assert_eq!(classify_status(100), StatusClass::Other);
}

#[test]
fn response_directives_split_on_success() {
    assert_eq!(response_directive(200), ResponseDirective::ParsePayload);
    assert_eq!(response_directive(404), ResponseDirective::ParseErrorBody);
    assert_eq!(response_directive(500), ResponseDirective::ParseErrorBody);

    assert_eq!(token_response_directive(201), ResponseDirective::ParsePayload);
    assert_eq!(token_response_directive(401), ResponseDirective::ParseErrorBody);
    assert_eq!(token_response_directive(502), ResponseDirective::FailUnexpected);
}

#[test]
fn oauth_url_appends_provider_query() {
    let url = oauth_url(&"https://idp.example".to_owned(), &"google".to_owned());
    assert_eq!(url, "https://idp.example/authorize?provider=google");
}

#[test]
fn already_registered_failure_is_success() {
    let action = plan_admin_setup(SignUpOutcome::Failed {
        code: 400,
        msg: "User already registered".to_owned(),
    });
    assert!(matches!(action, AdminSetupAction::AlreadyRegistered));
}

#[test]
fn other_failures_are_propagated() {
    let action = plan_admin_setup(SignUpOutcome::Failed {
        code: 400,
        msg: "invalid email".to_owned(),
    });
    match action {
        AdminSetupAction::Fail { code, msg } => {
            assert_eq!(code, 400);
            assert_eq!(msg, "invalid email");
        },
        other => panic!("expected Fail, got {other:?}"),
    }
    let server_side = plan_admin_setup(SignUpOutcome::Failed {
        code: 500,
        msg: "User already registered".to_owned(),
    });
    assert!(matches!(server_side, AdminSetupAction::Fail { code: 500, .. }));
}

#[test]
fn existing_admin_role_needs_nothing() {
    let action = plan_admin_setup(SignUpOutcome::Authenticated {
        user_id: "5f2b0c9e-63a6-4d25-9b9a-2f6a2cafc111".to_owned(),
        role: "supabase_admin".to_owned(),
    });
    assert!(matches!(action, AdminSetupAction::AlreadyAdmin));
}

#[test]
fn fresh_user_with_uuid_is_promoted() {
    let action = plan_admin_setup(SignUpOutcome::NotAuthenticated {
        user_id: "5f2b0c9e-63a6-4d25-9b9a-2f6a2cafc111".to_owned(),
        role: "authenticated".to_owned(),
    });
    match action {
        AdminSetupAction::PromoteToAdmin { user_id } => {
            assert_eq!(user_id, "5f2b0c9e-63a6-4d25-9b9a-2f6a2cafc111");
        },
        other => panic!("expected PromoteToAdmin, got {other:?}"),
    }
}

#[test]
fn malformed_user_id_is_rejected() {
    let action = plan_admin_setup(SignUpOutcome::Authenticated {
        user_id: "not-a-uuid".to_owned(),
        role: "authenticated".to_owned(),
    });
    assert!(matches!(action, AdminSetupAction::MalformedUserId));
}

#[test]
fn metrics_path_is_passed_through_untagged() {
    let service = RequestIdMiddleware::route(&"/metrics".to_owned(), None);
    assert!(!service.tags_request());
    assert_eq!(service.request_id(), None);
}

#[test]
fn carried_request_id_is_kept() {
    let service = RequestIdMiddleware::route(
        &"/api/workspace".to_owned(),
        Some("req-123".to_owned()),
    );
    assert!(service.tags_request());
    assert_eq!(service.request_id().map(String::as_str), Some("req-123"));
}

#[test]
fn missing_request_id_gets_a_fresh_uuid() {
    let service = RequestIdMiddleware::route(&"/api/workspace".to_owned(), None);
    let id = service.request_id().expect("a fresh identifier is assigned");
    assert_eq!(id.len(), 36);
    assert!(id.parse::<uuid::Uuid>().is_ok());
    // Two requests get independent identifiers.
    let second = RequestIdMiddleware::route(&"/api/workspace".to_owned(), None);
    assert_ne!(service.request_id(), second.request_id());
}
