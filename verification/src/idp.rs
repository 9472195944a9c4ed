//! Identity-provider client core: the decisions the outbound client makes
//! on plain values — classifying response statuses, building the OAuth
//! authorization URL, and planning the one-time admin account setup — kept
//! apart from the HTTP transport that surrounds them.

use vstd::prelude::*;
use vstd::string::StringExecFns;

verus! {

/// The class of an identity-provider HTTP response status.
#[derive(Clone, Copy, Debug, PartialEq, Eq, Structural)]
pub enum StatusClass {
    /// A success status (200–299).
    Success,
    /// A client error status (400–499).
    ClientError,
    /// Anything else: informational, redirect, or server error.
    Other,
}

/// Classifies a response status the way the client branches on it.
pub fn classify_status(status: u16) -> (r: StatusClass)
    ensures
        200 <= status < 300 ==> r == StatusClass::Success,
        400 <= status < 500 ==> r == StatusClass::ClientError,
        !(200 <= status < 300) && !(400 <= status < 500) ==> r == StatusClass::Other,
{
    if 200 <= status && status < 300 {
        StatusClass::Success
    } else if 400 <= status && status < 500 {
        StatusClass::ClientError
    } else {
        StatusClass::Other
    }
}

/// How the body of an identity-provider response is to be read, given its
/// status.
#[derive(Clone, Copy, Debug, PartialEq, Eq, Structural)]
pub enum ResponseDirective {
    /// Parse the body as the expected payload.
    ParsePayload,
    /// Parse the body as the provider's error description.
    ParseErrorBody,
    /// Fail outright with the unexpected status.
    FailUnexpected,
}

/// The general directive for a provider response: a success status carries
/// the payload, every other status carries the provider's error body.
pub fn response_directive(status: u16) -> (r: ResponseDirective)
    ensures
        200 <= status < 300 ==> r == ResponseDirective::ParsePayload,
        !(200 <= status < 300) ==> r == ResponseDirective::ParseErrorBody,
{
    if 200 <= status && status < 300 {
        ResponseDirective::ParsePayload
    } else {
        ResponseDirective::ParseErrorBody
    }
}

/// The directive for a token-grant response, which distinguishes client
/// errors (a parseable error body) from other failures (an unexpected
/// status that is reported as such).
pub fn token_response_directive(status: u16) -> (r: ResponseDirective)
    ensures
        200 <= status < 300 ==> r == ResponseDirective::ParsePayload,
        400 <= status < 500 ==> r == ResponseDirective::ParseErrorBody,
        !(200 <= status < 300) && !(400 <= status < 500) ==> r
            == ResponseDirective::FailUnexpected,
{
    match classify_status(status) {
        StatusClass::Success => ResponseDirective::ParsePayload,
        StatusClass::ClientError => ResponseDirective::ParseErrorBody,
        StatusClass::Other => ResponseDirective::FailUnexpected,
    }
}

/// The provider's OAuth authorization URL for a provider name.
pub fn oauth_url(base_url: &String, provider: &String) -> (r: String)
    ensures
        r@ == base_url@ + "/authorize?provider="@ + provider@,
{
    let mut r = base_url.clone();
    r.append("/authorize?provider=");
    r.append(provider.as_str());
    r
}

/// Relies on `str::parse::<uuid::Uuid>` (`uuid::Uuid::from_str`): whether a
/// string parses as a UUID depends on its characters alone.
pub uninterp spec fn uuid_wellformed(s: Seq<char>) -> bool;

/// Relies on `str::parse::<uuid::Uuid>`: decides whether the string is a
/// well-formed UUID.
#[verifier::external_body]
fn parses_as_uuid(s: &String) -> (r: bool)
    ensures
        r == uuid_wellformed(s@),
{
    s.parse::<uuid::Uuid>().is_ok()
}

/// What the identity provider answered to the one-time admin sign-up, on
/// plain values: a user (authenticated or not) with its identifier and
/// role, or an error code with its message.
#[derive(Debug)]
pub enum SignUpOutcome {
    Authenticated { user_id: String, role: String },
    NotAuthenticated { user_id: String, role: String },
    Failed { code: u64, msg: String },
}

/// The follow-up action the admin account setup takes.
#[derive(Debug)]
pub enum AdminSetupAction {
    /// The provider said the user exists already; nothing to do.
    AlreadyRegistered,
    /// The account exists with the admin role already; nothing to do.
    AlreadyAdmin,
    /// Promote this user to the admin role in the authoritative store.
    PromoteToAdmin { user_id: String },
    /// The provider returned a user whose identifier is not a UUID.
    MalformedUserId,
    /// Any other provider error is propagated.
    Fail { code: u64, msg: String },
}

/// Whether a sign-up failure means the account already exists.
pub open spec fn spec_already_registered(code: u64, msg: Seq<char>) -> bool {
    code == 400 && msg == "User already registered"@
}

/// Plans the one-time admin account setup from the provider's sign-up
/// answer: an already-registered failure is success, a user that already
/// carries the admin role needs nothing, any other user with a well-formed
/// identifier is promoted, and every other failure is propagated.
pub fn plan_admin_setup(outcome: SignUpOutcome) -> (r: AdminSetupAction)
    ensures
        match outcome {
            SignUpOutcome::Failed { code, msg } => if spec_already_registered(code, msg@) {
                r is AlreadyRegistered
            } else {
                r == (AdminSetupAction::Fail { code, msg })
            },
            SignUpOutcome::Authenticated { user_id, role } => if role@ == "supabase_admin"@ {
                r is AlreadyAdmin
            } else if uuid_wellformed(user_id@) {
                r == (AdminSetupAction::PromoteToAdmin { user_id })
            } else {
                r is MalformedUserId
            },
            SignUpOutcome::NotAuthenticated { user_id, role } => if role@ == "supabase_admin"@ {
                r is AlreadyAdmin
            } else if uuid_wellformed(user_id@) {
                r == (AdminSetupAction::PromoteToAdmin { user_id })
            } else {
                r is MalformedUserId
            },
        },
{
    match outcome {
        SignUpOutcome::Failed { code, msg } => {
            let registered_msg: String = "User already registered".to_owned();
            if code == 400 && msg == registered_msg {
                AdminSetupAction::AlreadyRegistered
            } else {
                AdminSetupAction::Fail { code, msg }
            }
        },
        SignUpOutcome::Authenticated { user_id, role } => plan_admin_promotion(user_id, role),
        SignUpOutcome::NotAuthenticated { user_id, role } => plan_admin_promotion(user_id, role),
    }
}

/// Plans the promotion step for a user the provider returned.
fn plan_admin_promotion(user_id: String, role: String) -> (r: AdminSetupAction)
    ensures
        role@ == "supabase_admin"@ ==> r is AlreadyAdmin,
        role@ != "supabase_admin"@ && uuid_wellformed(user_id@) ==> r
            == (AdminSetupAction::PromoteToAdmin { user_id }),
        role@ != "supabase_admin"@ && !uuid_wellformed(user_id@) ==> r is MalformedUserId,
{
    let admin_role: String = "supabase_admin".to_owned();
    if role == admin_role {
        AdminSetupAction::AlreadyAdmin
    } else if parses_as_uuid(&user_id) {
        AdminSetupAction::PromoteToAdmin { user_id }
    } else {
        AdminSetupAction::MalformedUserId
    }
}

} // verus!
