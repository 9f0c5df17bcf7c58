//! Recipes: their versions, and how an update merges into the stored recipe.

use vstd::prelude::*;
use crate::responses::{forbidden, plain_error, ApiError};
use crate::roles::{can_write, may_write_records, UserRole};

verus! {

/// A step of a recipe.
#[derive(Debug, Clone)]
pub struct RecipeStep {
    pub etape: i32,
    pub nom: String,
    pub description: String,
    pub duree_min: Option<i32>,
    pub temperature_c: Option<i32>,
    pub equipement: Option<String>,
    pub controles: Option<Vec<String>>,
}

/// The version number after the highest stored one (`None` when the name has none yet).
pub open spec fn next_version(max_version: Option<i32>) -> int {
    match max_version {
        Some(m) => m + 1,
        None => 1,
    }
}

/// The version number a recipe saved under a name takes: one past the highest stored for
/// that name, 1 for a new name.
pub fn next_recipe_version(max_version: Option<i32>) -> (r: i32)
    requires
        max_version matches Some(m) ==> m < i32::MAX,
    ensures
        r == next_version(max_version),
{
    match max_version {
        Some(m) => m + 1,
        None => 1,
    }
}

/// The version a new recipe takes, given the highest stored version of its name (`None`
/// when the database could not tell, which starts the name at 1).
pub fn creation_version(max_lookup: Option<Option<i32>>) -> (r: i32)
    requires
        max_lookup matches Some(Some(m)) ==> m < i32::MAX,
    ensures
        r == match max_lookup {
            Some(max_version) => next_version(max_version),
            None => 1,
        },
{
    match max_lookup {
        Some(max_version) => next_recipe_version(max_version),
        None => 1,
    }
}

/// The stored fields of a recipe that an update can keep or replace.
#[derive(Debug, Clone)]
pub struct RecipeHeader {
    pub producer_id: u128,
    pub name: String,
    pub version: i32,
    pub notes: Option<String>,
}

/// The fields an update sends; absent ones keep the stored value.
#[derive(Debug, Clone)]
pub struct RecipeChanges {
    pub name: Option<String>,
    pub notes: Option<String>,
    /// Whether the update is saved as a new version, the older ones being retired.
    pub create_new_version: bool,
}

/// What an update writes.
#[derive(Debug, Clone)]
pub struct RecipeRevision {
    pub name: String,
    pub notes: Option<String>,
    /// The number of the new version, when the update creates one; `None` when the stored
    /// recipe is changed in place.
    pub new_version: Option<i32>,
    /// The message of the answer when the write succeeds.
    pub message: &'static str,
}

/// The fields an update writes, given the stored recipe and the changes sent.
pub open spec fn revised_name(existing: RecipeHeader, changes: RecipeChanges) -> Seq<char> {
    match changes.name {
        Some(n) => n@,
        None => existing.name@,
    }
}

/// The notes an update writes: the ones sent, else the stored ones.
pub open spec fn revised_notes(existing: RecipeHeader, changes: RecipeChanges) -> Option<Seq<char>> {
    match changes.notes {
        Some(n) => Some(n@),
        None => match existing.notes {
            Some(n) => Some(n@),
            None => None,
        },
    }
}

/// Plans an update of a recipe: the merged name and notes, and, for a new version, its
/// number (one past the highest stored for the merged name, or one past the stored
/// recipe's when the database could not tell).
pub fn plan_recipe_update(
    existing: RecipeHeader,
    changes: RecipeChanges,
    max_lookup: Option<Option<i32>>,
) -> (r: RecipeRevision)
    requires
        changes.create_new_version ==> match max_lookup {
            Some(Some(m)) => m < i32::MAX,
            Some(None) => true,
            None => existing.version < i32::MAX,
        },
    ensures
        r.name@ == revised_name(existing, changes),
        match r.notes {
            Some(n) => revised_notes(existing, changes) == Some(n@),
            None => revised_notes(existing, changes) is None,
        },
        changes.create_new_version ==> r.new_version == Some(
            match max_lookup {
                Some(max_version) => next_version(max_version),
                None => existing.version + 1,
            } as i32,
        ) && r.message@ == "Nouvelle version de recette créée"@,
        !changes.create_new_version ==> r.new_version is None && r.message@
            == "Recette mise à jour avec succès"@,
{
    let name = match changes.name {
        Some(n) => n,
        None => existing.name,
    };
    let notes = match changes.notes {
        Some(n) => Some(n),
        None => existing.notes,
    };
    if changes.create_new_version {
        let version = match max_lookup {
            Some(max_version) => next_recipe_version(max_version),
            None => existing.version + 1,
        };
        RecipeRevision {
            name,
            notes,
            new_version: Some(version),
            message: "Nouvelle version de recette créée",
        }
    } else {
        RecipeRevision { name, notes, new_version: None, message: "Recette mise à jour avec succès" }
    }
}

/// Lets an update of a recipe or a supplier through when `role` may write them, else
/// refuses it with 403.
pub fn authorize_record_update(role: &UserRole) -> (r: Result<(), ApiError>)
    ensures
        r is Ok <==> may_write_records(*role),
        r matches Err(e) ==> e@ == plain_error(403, "Action non autorisée"@),
{
    if can_write(role) {
        Ok(())
    } else {
        Err(forbidden())
    }
}

/// A new version is numbered past every stored version of its name, and past the version
/// it revises; the first version of a name is 1.
pub proof fn law_new_versions_come_last(max_version: Option<i32>, stored: i32)
    ensures
        max_version matches Some(m) ==> next_version(max_version) > m,
        max_version matches Some(m) && stored <= m ==> next_version(max_version) > stored,
        max_version is None ==> next_version(max_version) == 1,
{
}

/// An update writes what it sends and keeps only what it leaves out: sent notes replace the
/// stored ones whatever they were, and a sent name replaces the stored name.
pub proof fn law_updates_write_what_they_send(existing: RecipeHeader, changes: RecipeChanges)
    ensures
        changes.notes matches Some(n) ==> revised_notes(existing, changes) == Some(n@),
        changes.notes is None ==> revised_notes(existing, changes) == match existing.notes {
            Some(n) => Some(n@),
            None => None::<Seq<char>>,
        },
        changes.name matches Some(n) ==> revised_name(existing, changes) == n@,
        changes.name is None ==> revised_name(existing, changes) == existing.name@,
{
}

} // verus!
