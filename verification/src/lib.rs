//! Authorization and credential-consistency core for a collaborative-document
//! backend: an access-control gate with deny-overrides / fail-closed
//! semantics, a change-event-driven permission cache with versioned entries
//! and single-flight read-through, and a credential state hub that broadcasts
//! token transitions to every subscriber.

pub mod cache;
pub mod gate;
pub mod idp;
pub mod notify;
pub mod request_id;
pub mod types;
