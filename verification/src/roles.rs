//! Account roles and the write-permission matrix.

use vstd::prelude::*;
use crate::responses::{forbidden, plain_error, ApiError};
use crate::text::{ascii_lower, trim_end, trim_start, chars_eq, chars_of, string_of, trim, trim_lower_ascii};

verus! {

/// The role of an account.
#[derive(Debug, Clone, Copy, PartialEq, Eq, Structural)]
pub enum UserRole {
    Admin,
    Quality,
    Atelier,
    Logistics,
    ReadOnly,
}

/// A write operation that the permission matrix governs.
#[derive(Debug, Clone, Copy, PartialEq, Eq, Structural)]
pub enum Action {
    ManageCatalog,
    ManageBatches,
    RecallBatches,
    CreateQualityCheck,
    UpdateQualityCheck,
    ManageQrTags,
    ManageProducer,
}

/// The stored name of each role.
pub open spec fn role_name(role: UserRole) -> Seq<char> {
    match role {
        UserRole::Admin => "admin"@,
        UserRole::Quality => "quality"@,
        UserRole::Atelier => "atelier"@,
        UserRole::Logistics => "logistics"@,
        UserRole::ReadOnly => "readonly"@,
    }
}

/// Whether `name` is the stored name of some role.
pub open spec fn is_role_name(name: Seq<char>) -> bool {
    ||| name == "admin"@
    ||| name == "quality"@
    ||| name == "atelier"@
    ||| name == "logistics"@
    ||| name == "readonly"@
}

/// The role whose stored name is `name`, if any.
pub open spec fn role_of_name(name: Seq<char>) -> Option<UserRole> {
    if name == "admin"@ {
        Some(UserRole::Admin)
    } else if name == "quality"@ {
        Some(UserRole::Quality)
    } else if name == "atelier"@ {
        Some(UserRole::Atelier)
    } else if name == "logistics"@ {
        Some(UserRole::Logistics)
    } else if name == "readonly"@ {
        Some(UserRole::ReadOnly)
    } else {
        None
    }
}

/// The permission matrix: which role may perform which write action.
pub open spec fn permits(role: UserRole, action: Action) -> bool {
    match action {
        Action::ManageCatalog | Action::ManageBatches | Action::ManageQrTags => role
            == UserRole::Admin || role == UserRole::Atelier,
        Action::RecallBatches | Action::UpdateQualityCheck => role == UserRole::Admin || role
            == UserRole::Quality,
        Action::CreateQualityCheck => role == UserRole::Admin || role == UserRole::Quality
            || role == UserRole::Atelier,
        Action::ManageProducer => role == UserRole::Admin,
    }
}

/// Roles that may record a quality check.
pub open spec fn may_create_check(role: UserRole) -> bool {
    role == UserRole::Admin || role == UserRole::Quality || role == UserRole::Atelier
}

/// Roles that may amend a recorded quality check.
pub open spec fn may_update_check(role: UserRole) -> bool {
    role == UserRole::Admin || role == UserRole::Quality
}

/// Roles that may write recipes and suppliers.
pub open spec fn may_write_records(role: UserRole) -> bool {
    role == UserRole::Admin || role == UserRole::Atelier
}

/// The role name that registration stores for a requested `role`: the trimmed,
/// ASCII-lowercased request when it names a role, `atelier` otherwise.
pub open spec fn normalized_role(role: Seq<char>) -> Seq<char> {
    let candidate = ascii_lower(trim(role));
    if is_role_name(candidate) {
        candidate
    } else {
        "atelier"@
    }
}

impl UserRole {
    /// The stored name of the role.
    pub fn as_str(&self) -> (r: &'static str)
        ensures
            r@ == role_name(*self),
    {
        match self {
            UserRole::Admin => "admin",
            UserRole::Quality => "quality",
            UserRole::Atelier => "atelier",
            UserRole::Logistics => "logistics",
            UserRole::ReadOnly => "readonly",
        }
    }

    /// The role whose stored name is exactly `name`.
    pub fn from_name(name: &str) -> (r: Option<UserRole>)
        ensures
            r == role_of_name(name@),
    {
        let v = chars_of(name);
        if chars_eq(&v, &chars_of("admin")) {
            Some(UserRole::Admin)
        } else if chars_eq(&v, &chars_of("quality")) {
            Some(UserRole::Quality)
        } else if chars_eq(&v, &chars_of("atelier")) {
            Some(UserRole::Atelier)
        } else if chars_eq(&v, &chars_of("logistics")) {
            Some(UserRole::Logistics)
        } else if chars_eq(&v, &chars_of("readonly")) {
            Some(UserRole::ReadOnly)
        } else {
            None
        }
    }
}

/// Whether `role` may perform `action`.
pub fn is_allowed(role: &UserRole, action: Action) -> (r: bool)
    ensures
        r == permits(*role, action),
{
    match action {
        Action::ManageCatalog | Action::ManageBatches | Action::ManageQrTags => {
            matches!(role, UserRole::Admin | UserRole::Atelier)
        },
        Action::RecallBatches | Action::UpdateQualityCheck => {
            matches!(role, UserRole::Admin | UserRole::Quality)
        },
        Action::CreateQualityCheck => matches!(
            role,
            UserRole::Admin | UserRole::Quality | UserRole::Atelier
        ),
        Action::ManageProducer => matches!(role, UserRole::Admin),
    }
}

/// Lets a request through when `role` may perform `action`, else refuses it with 403.
pub fn authorize(role: &UserRole, action: Action) -> (r: Result<(), ApiError>)
    ensures
        r is Ok <==> permits(*role, action),
        r matches Err(e) ==> e@ == plain_error(403, "Action non autorisée"@),
{
    if is_allowed(role, action) {
        Ok(())
    } else {
        Err(forbidden())
    }
}

/// Lets the creation of a recipe or a supplier through when `role` may write them and the
/// record is for the caller's own producer, else refuses it with 403.
pub fn authorize_producer_write(role: &UserRole, record_producer: u128, own_producer: u128) -> (r: Result<(), ApiError>)
    ensures
        r is Ok <==> may_write_records(*role) && record_producer == own_producer,
        r matches Err(e) ==> e@ == plain_error(403, "Action non autorisée"@),
{
    if can_write(role) && record_producer == own_producer {
        Ok(())
    } else {
        Err(forbidden())
    }
}

/// Whether `role` may record a quality check.
pub fn can_create_check(role: &UserRole) -> (r: bool)
    ensures
        r == may_create_check(*role),
{
    matches!(role, UserRole::Admin | UserRole::Quality | UserRole::Atelier)
}

/// Whether `role` may amend a recorded quality check.
pub fn can_update_check(role: &UserRole) -> (r: bool)
    ensures
        r == may_update_check(*role),
{
    matches!(role, UserRole::Admin | UserRole::Quality)
}

/// Whether `role` may write recipes and suppliers.
pub fn can_write(role: &UserRole) -> (r: bool)
    ensures
        r == may_write_records(*role),
{
    matches!(role, UserRole::Admin | UserRole::Atelier)
}

/// The role name stored for a registration that asked for `role`.
pub fn normalize_role(role: &str) -> (r: String)
    ensures
        r@ == normalized_role(role@),
{
    let candidate = trim_lower_ascii(role);
    let known = chars_eq(&candidate, &chars_of("admin")) || chars_eq(
        &candidate,
        &chars_of("quality"),
    ) || chars_eq(&candidate, &chars_of("atelier")) || chars_eq(
        &candidate,
        &chars_of("logistics"),
    ) || chars_eq(&candidate, &chars_of("readonly"));
    if known {
        string_of(&candidate)
    } else {
        string_of(&chars_of("atelier"))
    }
}


/// The administrator may perform every action.
pub proof fn law_admin_may_do_everything(action: Action)
    ensures
        permits(UserRole::Admin, action),
{
}

/// Logistics and read-only accounts may perform no write action.
pub proof fn law_logistics_and_read_only_may_not_write(action: Action)
    ensures
        !permits(UserRole::Logistics, action),
        !permits(UserRole::ReadOnly, action),
{
}

/// Only the administrator may manage the producer.
pub proof fn law_only_admin_manages_producer(role: UserRole)
    ensures
        permits(role, Action::ManageProducer) <==> role == UserRole::Admin,
{
}

/// Whoever may manage the catalog, the batches or the QR tags may also record a quality
/// check, and so may whoever may recall a batch.
pub proof fn law_check_creation_covers_writers(role: UserRole)
    ensures
        permits(role, Action::CreateQualityCheck) <==> (permits(role, Action::ManageCatalog)
            || permits(role, Action::RecallBatches)),
        permits(role, Action::ManageCatalog) == permits(role, Action::ManageBatches),
        permits(role, Action::ManageCatalog) == permits(role, Action::ManageQrTags),
        permits(role, Action::RecallBatches) == permits(role, Action::UpdateQualityCheck),
{
}

/// The quality-check, recipe and supplier permission helpers agree with the matrix.
pub proof fn law_helpers_follow_matrix(role: UserRole)
    ensures
        may_create_check(role) == permits(role, Action::CreateQualityCheck),
        may_update_check(role) == permits(role, Action::UpdateQualityCheck),
        may_write_records(role) == permits(role, Action::ManageCatalog),
{
}

/// A role's stored name reads back as that role.
pub proof fn law_role_name_roundtrip(role: UserRole)
    ensures
        role_of_name(role_name(role)) == Some(role),
        is_role_name(role_name(role)),
{
    reveal_strlit("admin");
    reveal_strlit("quality");
    reveal_strlit("atelier");
    reveal_strlit("logistics");
    reveal_strlit("readonly");
    assert("admin"@.len() == 5);
    assert("quality"@.len() == 7 && "atelier"@.len() == 7);
    assert("logistics"@.len() == 9 && "readonly"@.len() == 8);
    assert("quality"@[0] != "atelier"@[0]);
    assert("quality"@ != "atelier"@);
}

proof fn lemma_name_is_normal(name: Seq<char>)
    requires
        is_role_name(name),
    ensures
        trim(name) == name,
        ascii_lower(name) == name,
{
    reveal_strlit("admin");
    reveal_strlit("quality");
    reveal_strlit("atelier");
    reveal_strlit("logistics");
    reveal_strlit("readonly");
    assert(trim_start(name) == name);
    assert(trim_end(name) == name);
    assert(ascii_lower(name) =~= name);
}

/// Registration always stores the name of some role, and normalizing a stored name again
/// leaves it unchanged.
pub proof fn law_normalized_role_is_stable(role: Seq<char>)
    ensures
        is_role_name(normalized_role(role)),
        normalized_role(normalized_role(role)) == normalized_role(role),
{
    let n = normalized_role(role);
    assert(is_role_name("atelier"@));
    assert(is_role_name(n));
    lemma_name_is_normal(n);
}

} // verus!
