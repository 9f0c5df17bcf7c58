//! Producers, the businesses whose products the platform traces.

use vstd::prelude::*;
use crate::records::{not_found_error, not_found_reply, RecordRequest};
use crate::responses::{forbidden, plain_error, ApiError, ApiErrorView};
use crate::roles::{is_allowed, permits, Action, UserRole};

verus! {

/// A change to a producer's record: each field given replaces the stored one, each field
/// left out keeps it.
#[derive(Debug, Clone)]
pub struct UpdateProducerRequest {
    pub raison_sociale: Option<String>,
    pub agrement_sanitaire: Option<String>,
    pub siret: Option<String>,
    pub adresse: Option<String>,
    pub code_postal: Option<String>,
    pub ville: Option<String>,
    pub pays: Option<String>,
    pub email: Option<String>,
    pub telephone: Option<String>,
    pub site_web: Option<String>,
    pub logo_url: Option<String>,
    pub photo_url: Option<String>,
    pub categorie_principale: Option<String>,
}

/// Why an update of the producer `target` (written `id`) is refused, if it is: a role that
/// may not manage the producer (403), or a producer other than the caller's own, answered
/// as a missing one (404) so that other producers stay hidden.
pub open spec fn producer_update_refusal(role: UserRole, own_producer: u128, target: u128, id: Seq<char>) -> Option<ApiErrorView> {
    if !permits(role, Action::ManageProducer) {
        Some(plain_error(403, "Action non autorisée"@))
    } else if target != own_producer {
        Some(not_found_error(RecordRequest::UpdateProducer, id))
    } else {
        None
    }
}

/// Decides whether the caller may update the producer `target`, written `id`.
pub fn authorize_producer_update(role: &UserRole, own_producer: u128, target: u128, id: &str) -> (r: Result<(), ApiError>)
    ensures
        match producer_update_refusal(*role, own_producer, target, id@) {
            None => r is Ok,
            Some(e) => r matches Err(x) && x@ == e,
        },
{
    if !is_allowed(role, Action::ManageProducer) {
        Err(forbidden())
    } else if target != own_producer {
        Err(not_found_reply(RecordRequest::UpdateProducer, id))
    } else {
        Ok(())
    }
}

} // verus!
