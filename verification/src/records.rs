//! The answers of the record endpoints: how each one refuses an identifier that is not a
//! UUID, a record that does not exist, and a failing database.

use vstd::prelude::*;
use crate::lookup::Lookup;
use crate::responses::{detailed_error, detailed_reply, internal_error, internal_error_view, invalid_id_error, parse_uuid, plain_error, error_reply, ApiError, ApiErrorView};
use crate::ids::{uuid_hyphenated, uuid_parse, uuid_to_text};

verus! {

/// A kind of record that the API serves.
#[derive(Debug, Clone, Copy, PartialEq, Eq, Structural)]
pub enum Entity {
    Batch,
    Producer,
    Supplier,
    Ingredient,
    Recipe,
    QrTag,
    Product,
    QaCheck,
}

/// A database step of a record endpoint.
#[derive(Debug, Clone, Copy, PartialEq, Eq, Structural)]
pub enum RecordRequest {
    ListBatches,
    ReadBatch,
    CreateBatch,
    UpdateBatch,
    RecallBatch,
    ListProducers,
    ReadProducer,
    CreateProducer,
    UpdateProducer,
    ListSuppliers,
    ReadSupplier,
    CreateSupplier,
    UpdateSupplier,
    ListIngredients,
    ReadIngredient,
    CreateIngredient,
    UpdateIngredient,
    ListRecipes,
    ReadRecipe,
    CreateRecipe,
    UpdateRecipe,
    CreateRecipeVersion,
    ListQrTags,
    ReadQrTag,
    CreateQrTag,
    QrTagStatistics,
    ListProducts,
    ReadProduct,
    CreateProduct,
    UpdateProduct,
    ListQaChecks,
    ListBatchChecks,
    ReadQaCheck,
    CreateQaCheck,
    UpdateQaCheck,
    BatchQualitySummary,
}

/// The message refusing an identifier of `entity` that is not a UUID.
pub open spec fn invalid_id_message(entity: Entity) -> Seq<char> {
    match entity {
        Entity::Batch => "ID lot invalide"@,
        Entity::Producer => "ID producteur invalide"@,
        Entity::Supplier => "ID supplier invalide"@,
        Entity::Ingredient => "ID ingrédient invalide"@,
        Entity::Recipe => "ID recette invalide"@,
        Entity::QrTag => "ID QR tag invalide"@,
        Entity::Product => "ID produit invalide"@,
        Entity::QaCheck => "ID contrôle qualité invalide"@,
    }
}

/// The message answering a record of `entity` that does not exist.
pub open spec fn not_found_message(entity: Entity) -> Seq<char> {
    match entity {
        Entity::Batch => "Lot non trouvé"@,
        Entity::Producer => "Producteur non trouvé"@,
        Entity::Supplier => "Fournisseur non trouvé"@,
        Entity::Ingredient => "Ingrédient non trouvé"@,
        Entity::Recipe => "Recette non trouvée"@,
        Entity::QrTag => "QR tag non trouvé"@,
        Entity::Product => "Produit non trouvé"@,
        Entity::QaCheck => "Contrôle qualité non trouvé"@,
    }
}

/// The name under which an answer gives back the identifier of a record of `entity`.
pub open spec fn id_key(entity: Entity) -> Seq<char> {
    match entity {
        Entity::Batch => "batch_id"@,
        Entity::Producer => "producer_id"@,
        Entity::Supplier => "supplier_id"@,
        Entity::Ingredient => "ingredient_id"@,
        Entity::Recipe => "recipe_id"@,
        Entity::QrTag => "qr_tag_id"@,
        Entity::Product => "product_id"@,
        Entity::QaCheck => "qa_check_id"@,
    }
}

/// The kind of record a step reads or writes.
pub open spec fn entity_of(request: RecordRequest) -> Entity {
    match request {
        RecordRequest::ListBatches => Entity::Batch,
        RecordRequest::ReadBatch => Entity::Batch,
        RecordRequest::CreateBatch => Entity::Batch,
        RecordRequest::UpdateBatch => Entity::Batch,
        RecordRequest::RecallBatch => Entity::Batch,
        RecordRequest::ListProducers => Entity::Producer,
        RecordRequest::ReadProducer => Entity::Producer,
        RecordRequest::CreateProducer => Entity::Producer,
        RecordRequest::UpdateProducer => Entity::Producer,
        RecordRequest::ListSuppliers => Entity::Supplier,
        RecordRequest::ReadSupplier => Entity::Supplier,
        RecordRequest::CreateSupplier => Entity::Supplier,
        RecordRequest::UpdateSupplier => Entity::Supplier,
        RecordRequest::ListIngredients => Entity::Ingredient,
        RecordRequest::ReadIngredient => Entity::Ingredient,
        RecordRequest::CreateIngredient => Entity::Ingredient,
        RecordRequest::UpdateIngredient => Entity::Ingredient,
        RecordRequest::ListRecipes => Entity::Recipe,
        RecordRequest::ReadRecipe => Entity::Recipe,
        RecordRequest::CreateRecipe => Entity::Recipe,
        RecordRequest::UpdateRecipe => Entity::Recipe,
        RecordRequest::CreateRecipeVersion => Entity::Recipe,
        RecordRequest::ListQrTags => Entity::QrTag,
        RecordRequest::ReadQrTag => Entity::QrTag,
        RecordRequest::CreateQrTag => Entity::QrTag,
        RecordRequest::QrTagStatistics => Entity::QrTag,
        RecordRequest::ListProducts => Entity::Product,
        RecordRequest::ReadProduct => Entity::Product,
        RecordRequest::CreateProduct => Entity::Product,
        RecordRequest::UpdateProduct => Entity::Product,
        RecordRequest::ListQaChecks => Entity::QaCheck,
        RecordRequest::ListBatchChecks => Entity::Batch,
        RecordRequest::ReadQaCheck => Entity::QaCheck,
        RecordRequest::CreateQaCheck => Entity::QaCheck,
        RecordRequest::UpdateQaCheck => Entity::QaCheck,
        RecordRequest::BatchQualitySummary => Entity::Batch,
    }
}

/// The message answering a failing database at a step.
pub open spec fn failure_message(request: RecordRequest) -> Seq<char> {
    match request {
        RecordRequest::ListBatches => "Erreur lors de la récupération des lots"@,
        RecordRequest::ReadBatch => "Erreur lors de la récupération du lot"@,
        RecordRequest::CreateBatch => "Erreur lors de la création du lot"@,
        RecordRequest::UpdateBatch => "Erreur lors de la mise à jour du lot"@,
        RecordRequest::RecallBatch => "Erreur lors du rappel du lot"@,
        RecordRequest::ListProducers => "Erreur lors de la récupération des producteurs"@,
        RecordRequest::ReadProducer => "Erreur lors de la récupération du producteur"@,
        RecordRequest::CreateProducer => "Erreur lors de la création du producteur"@,
        RecordRequest::UpdateProducer => "Erreur lors de la mise à jour du producteur"@,
        RecordRequest::ListSuppliers => "Erreur lors de la récupération des fournisseurs"@,
        RecordRequest::ReadSupplier => "Erreur lors de la récupération du fournisseur"@,
        RecordRequest::CreateSupplier => "Erreur lors de la création du fournisseur"@,
        RecordRequest::UpdateSupplier => "Erreur lors de la mise à jour du fournisseur"@,
        RecordRequest::ListIngredients => "Erreur lors de la récupération des ingrédients"@,
        RecordRequest::ReadIngredient => "Erreur lors de la récupération de l'ingrédient"@,
        RecordRequest::CreateIngredient => "Erreur lors de la création de l'ingrédient"@,
        RecordRequest::UpdateIngredient => "Erreur lors de la mise à jour de l'ingrédient"@,
        RecordRequest::ListRecipes => "Erreur lors de la récupération des recettes"@,
        RecordRequest::ReadRecipe => "Erreur lors de la récupération de la recette"@,
        RecordRequest::CreateRecipe => "Erreur lors de la création de la recette"@,
        RecordRequest::UpdateRecipe => "Erreur lors de la mise à jour de la recette"@,
        RecordRequest::CreateRecipeVersion => "Erreur lors de la création de la nouvelle version"@,
        RecordRequest::ListQrTags => "Erreur lors de la récupération des QR tags"@,
        RecordRequest::ReadQrTag => "Erreur lors de la récupération du QR tag"@,
        RecordRequest::CreateQrTag => "Erreur lors de la création du QR tag"@,
        RecordRequest::QrTagStatistics => "Erreur lors de la récupération des statistiques"@,
        RecordRequest::ListProducts => "Erreur lors de la récupération des produits"@,
        RecordRequest::ReadProduct => "Erreur lors de la récupération du produit"@,
        RecordRequest::CreateProduct => "Erreur lors de la création du produit"@,
        RecordRequest::UpdateProduct => "Erreur lors de la mise à jour du produit"@,
        RecordRequest::ListQaChecks => "Erreur lors de la récupération des contrôles qualité"@,
        RecordRequest::ListBatchChecks => "Erreur lors de la récupération des contrôles du lot"@,
        RecordRequest::ReadQaCheck => "Erreur lors de la récupération du contrôle qualité"@,
        RecordRequest::CreateQaCheck => "Erreur lors de la création du contrôle qualité"@,
        RecordRequest::UpdateQaCheck => "Erreur lors de la mise à jour du contrôle qualité"@,
        RecordRequest::BatchQualitySummary => "Erreur lors du calcul du résumé qualité"@,
    }
}

/// Whether the answer to a missing record gives back the identifier that was asked for.
pub open spec fn not_found_names_id(request: RecordRequest) -> bool {
    !(request == RecordRequest::UpdateBatch
        || request == RecordRequest::RecallBatch
        || request == RecordRequest::QrTagStatistics)
}

/// The answer to a failing database at a step: its message, with the neutral detail.
pub open spec fn failure_error(request: RecordRequest) -> ApiErrorView {
    internal_error_view(failure_message(request))
}

/// The answer to a step that finds no record for the identifier written `id`.
pub open spec fn not_found_error(request: RecordRequest, id: Seq<char>) -> ApiErrorView {
    if not_found_names_id(request) {
        detailed_error(404, not_found_message(entity_of(request)), id_key(entity_of(request)), id)
    } else {
        plain_error(404, not_found_message(entity_of(request)))
    }
}

/// What a step answers, given the outcome of its database work.
pub open spec fn record_result<T>(request: RecordRequest, id: Seq<char>, outcome: Lookup<T>) -> Result<T, ApiErrorView> {
    match outcome {
        Lookup::Found(v) => Ok(v),
        Lookup::Missing => Err(not_found_error(request, id)),
        Lookup::Failed(_) => Err(failure_error(request)),
    }
}

fn invalid_id_text(entity: Entity) -> (r: &'static str)
    ensures
        r@ == invalid_id_message(entity),
{
    match entity {
        Entity::Batch => "ID lot invalide",
        Entity::Producer => "ID producteur invalide",
        Entity::Supplier => "ID supplier invalide",
        Entity::Ingredient => "ID ingrédient invalide",
        Entity::Recipe => "ID recette invalide",
        Entity::QrTag => "ID QR tag invalide",
        Entity::Product => "ID produit invalide",
        Entity::QaCheck => "ID contrôle qualité invalide",
    }
}

fn not_found_text(entity: Entity) -> (r: &'static str)
    ensures
        r@ == not_found_message(entity),
{
    match entity {
        Entity::Batch => "Lot non trouvé",
        Entity::Producer => "Producteur non trouvé",
        Entity::Supplier => "Fournisseur non trouvé",
        Entity::Ingredient => "Ingrédient non trouvé",
        Entity::Recipe => "Recette non trouvée",
        Entity::QrTag => "QR tag non trouvé",
        Entity::Product => "Produit non trouvé",
        Entity::QaCheck => "Contrôle qualité non trouvé",
    }
}

fn id_key_text(entity: Entity) -> (r: &'static str)
    ensures
        r@ == id_key(entity),
{
    match entity {
        Entity::Batch => "batch_id",
        Entity::Producer => "producer_id",
        Entity::Supplier => "supplier_id",
        Entity::Ingredient => "ingredient_id",
        Entity::Recipe => "recipe_id",
        Entity::QrTag => "qr_tag_id",
        Entity::Product => "product_id",
        Entity::QaCheck => "qa_check_id",
    }
}

fn entity_of_request(request: RecordRequest) -> (r: Entity)
    ensures
        r == entity_of(request),
{
    match request {
        RecordRequest::ListBatches => Entity::Batch,
        RecordRequest::ReadBatch => Entity::Batch,
        RecordRequest::CreateBatch => Entity::Batch,
        RecordRequest::UpdateBatch => Entity::Batch,
        RecordRequest::RecallBatch => Entity::Batch,
        RecordRequest::ListProducers => Entity::Producer,
        RecordRequest::ReadProducer => Entity::Producer,
        RecordRequest::CreateProducer => Entity::Producer,
        RecordRequest::UpdateProducer => Entity::Producer,
        RecordRequest::ListSuppliers => Entity::Supplier,
        RecordRequest::ReadSupplier => Entity::Supplier,
        RecordRequest::CreateSupplier => Entity::Supplier,
        RecordRequest::UpdateSupplier => Entity::Supplier,
        RecordRequest::ListIngredients => Entity::Ingredient,
        RecordRequest::ReadIngredient => Entity::Ingredient,
        RecordRequest::CreateIngredient => Entity::Ingredient,
        RecordRequest::UpdateIngredient => Entity::Ingredient,
        RecordRequest::ListRecipes => Entity::Recipe,
        RecordRequest::ReadRecipe => Entity::Recipe,
        RecordRequest::CreateRecipe => Entity::Recipe,
        RecordRequest::UpdateRecipe => Entity::Recipe,
        RecordRequest::CreateRecipeVersion => Entity::Recipe,
        RecordRequest::ListQrTags => Entity::QrTag,
        RecordRequest::ReadQrTag => Entity::QrTag,
        RecordRequest::CreateQrTag => Entity::QrTag,
        RecordRequest::QrTagStatistics => Entity::QrTag,
        RecordRequest::ListProducts => Entity::Product,
        RecordRequest::ReadProduct => Entity::Product,
        RecordRequest::CreateProduct => Entity::Product,
        RecordRequest::UpdateProduct => Entity::Product,
        RecordRequest::ListQaChecks => Entity::QaCheck,
        RecordRequest::ListBatchChecks => Entity::Batch,
        RecordRequest::ReadQaCheck => Entity::QaCheck,
        RecordRequest::CreateQaCheck => Entity::QaCheck,
        RecordRequest::UpdateQaCheck => Entity::QaCheck,
        RecordRequest::BatchQualitySummary => Entity::Batch,
    }
}

fn failure_text(request: RecordRequest) -> (r: (&'static str, bool))
    ensures
        r.0@ == failure_message(request),
        r.1 == not_found_names_id(request),
{
    match request {
        RecordRequest::ListBatches => ("Erreur lors de la récupération des lots", true),
        RecordRequest::ReadBatch => ("Erreur lors de la récupération du lot", true),
        RecordRequest::CreateBatch => ("Erreur lors de la création du lot", true),
        RecordRequest::UpdateBatch => ("Erreur lors de la mise à jour du lot", false),
        RecordRequest::RecallBatch => ("Erreur lors du rappel du lot", false),
        RecordRequest::ListProducers => ("Erreur lors de la récupération des producteurs", true),
        RecordRequest::ReadProducer => ("Erreur lors de la récupération du producteur", true),
        RecordRequest::CreateProducer => ("Erreur lors de la création du producteur", true),
        RecordRequest::UpdateProducer => ("Erreur lors de la mise à jour du producteur", true),
        RecordRequest::ListSuppliers => ("Erreur lors de la récupération des fournisseurs", true),
        RecordRequest::ReadSupplier => ("Erreur lors de la récupération du fournisseur", true),
        RecordRequest::CreateSupplier => ("Erreur lors de la création du fournisseur", true),
        RecordRequest::UpdateSupplier => ("Erreur lors de la mise à jour du fournisseur", true),
        RecordRequest::ListIngredients => ("Erreur lors de la récupération des ingrédients", true),
        RecordRequest::ReadIngredient => ("Erreur lors de la récupération de l'ingrédient", true),
        RecordRequest::CreateIngredient => ("Erreur lors de la création de l'ingrédient", true),
        RecordRequest::UpdateIngredient => ("Erreur lors de la mise à jour de l'ingrédient", true),
        RecordRequest::ListRecipes => ("Erreur lors de la récupération des recettes", true),
        RecordRequest::ReadRecipe => ("Erreur lors de la récupération de la recette", true),
        RecordRequest::CreateRecipe => ("Erreur lors de la création de la recette", true),
        RecordRequest::UpdateRecipe => ("Erreur lors de la mise à jour de la recette", true),
        RecordRequest::CreateRecipeVersion => ("Erreur lors de la création de la nouvelle version", true),
        RecordRequest::ListQrTags => ("Erreur lors de la récupération des QR tags", true),
        RecordRequest::ReadQrTag => ("Erreur lors de la récupération du QR tag", true),
        RecordRequest::CreateQrTag => ("Erreur lors de la création du QR tag", true),
        RecordRequest::QrTagStatistics => ("Erreur lors de la récupération des statistiques", false),
        RecordRequest::ListProducts => ("Erreur lors de la récupération des produits", true),
        RecordRequest::ReadProduct => ("Erreur lors de la récupération du produit", true),
        RecordRequest::CreateProduct => ("Erreur lors de la création du produit", true),
        RecordRequest::UpdateProduct => ("Erreur lors de la mise à jour du produit", true),
        RecordRequest::ListQaChecks => ("Erreur lors de la récupération des contrôles qualité", true),
        RecordRequest::ListBatchChecks => ("Erreur lors de la récupération des contrôles du lot", true),
        RecordRequest::ReadQaCheck => ("Erreur lors de la récupération du contrôle qualité", true),
        RecordRequest::CreateQaCheck => ("Erreur lors de la création du contrôle qualité", true),
        RecordRequest::UpdateQaCheck => ("Erreur lors de la mise à jour du contrôle qualité", true),
        RecordRequest::BatchQualitySummary => ("Erreur lors du calcul du résumé qualité", true),
    }
}

/// The identifier of a record of `entity` written `id`, or the answer refusing it.
pub fn parse_record_id(entity: Entity, id: &str) -> (r: Result<u128, ApiError>)
    ensures
        match uuid_parse(id@) {
            Some(v) => r matches Ok(w) && w == v,
            None => r matches Err(e) && e@ == invalid_id_error(invalid_id_message(entity)),
        },
{
    parse_uuid(id, invalid_id_text(entity))
}

/// The answer to a failing database at a step.
pub fn failure_reply(request: RecordRequest) -> (r: ApiError)
    ensures
        r@ == failure_error(request),
{
    let (message, _) = failure_text(request);
    internal_error(message)
}

/// The answer to a step that finds no record for the identifier written `id`.
pub fn not_found_reply(request: RecordRequest, id: &str) -> (r: ApiError)
    ensures
        r@ == not_found_error(request, id@),
{
    let entity = entity_of_request(request);
    let (_, names_id) = failure_text(request);
    if names_id {
        detailed_reply(404, not_found_text(entity), id_key_text(entity), id)
    } else {
        error_reply(404, not_found_text(entity))
    }
}

/// What a step answers, given the outcome of its database work: the record, or the answer
/// for a missing record or a failing database.
pub fn record_answer<T>(request: RecordRequest, id: &str, outcome: Lookup<T>) -> (r: Result<T, ApiError>)
    ensures
        match (r, record_result(request, id@, outcome)) {
            (Ok(a), Ok(b)) => a == b,
            (Err(e), Err(v)) => e@ == v,
            _ => false,
        },
{
    match outcome {
        Lookup::Found(v) => Ok(v),
        Lookup::Missing => Err(not_found_reply(request, id)),
        Lookup::Failed(_) => Err(failure_reply(request)),
    }
}

/// A step answers with its record exactly when the database found one; otherwise it
/// answers 404 for a missing record and 500 for a failing database. Two failures answer
/// alike whatever their causes, with the neutral detail: no cause reaches the client.
pub proof fn law_record_answers<T>(request: RecordRequest, id: Seq<char>, outcome: Lookup<T>, a: String, b: String)
    ensures
        record_result(request, id, outcome) is Ok <==> outcome is Found,
        outcome is Missing ==> record_result(request, id, outcome)->Err_0.status == 404,
        outcome is Failed ==> record_result(request, id, outcome)->Err_0.status == 500,
        record_result(request, id, Lookup::<T>::Failed(a)) == record_result(request, id, Lookup::<T>::Failed(b)),
        record_result(request, id, Lookup::<T>::Failed(a))->Err_0.detail == Some(("details"@, "Erreur interne"@)),
{
}

/// A check that a record named by a request exists before the request goes on.
#[derive(Debug, Clone, Copy, PartialEq, Eq, Structural)]
pub enum ReferenceCheck {
    /// The product of a new batch.
    BatchProduct,
    /// The batch of a new QR tag.
    TagBatch,
    /// The batch that a quality check is recorded for.
    CheckedBatch,
    /// The operator of a new quality check.
    CheckOperator,
    /// The producer of an ingredient.
    IngredientProducer,
    /// The supplier of an ingredient.
    IngredientSupplier,
}

/// The answer refusing a request whose referenced record `id` does not exist.
pub open spec fn missing_reference_error(check: ReferenceCheck, id: u128) -> ApiErrorView {
    match check {
        ReferenceCheck::BatchProduct => detailed_error(
            400,
            "Produit non trouvé"@,
            "details"@,
            "Aucun produit trouvé avec l'ID: "@ + uuid_hyphenated(id),
        ),
        ReferenceCheck::TagBatch => detailed_error(
            400,
            "Lot de production non trouvé"@,
            "details"@,
            "Aucun lot trouvé avec l'ID: "@ + uuid_hyphenated(id),
        ),
        ReferenceCheck::CheckedBatch => detailed_error(
            400,
            "Lot non trouvé"@,
            "batch_id"@,
            uuid_hyphenated(id),
        ),
        ReferenceCheck::CheckOperator => detailed_error(
            400,
            "Opérateur introuvable"@,
            "operator_id"@,
            uuid_hyphenated(id),
        ),
        ReferenceCheck::IngredientProducer => detailed_error(
            400,
            "Producteur introuvable"@,
            "details"@,
            "Le producer_id fourni n'existe pas"@,
        ),
        ReferenceCheck::IngredientSupplier => detailed_error(
            400,
            "Fournisseur introuvable"@,
            "details"@,
            "Le supplier_id fourni n'existe pas"@,
        ),
    }
}

/// The answer when the database fails while checking a referenced record.
pub open spec fn reference_failure_error(check: ReferenceCheck) -> ApiErrorView {
    match check {
        ReferenceCheck::BatchProduct => detailed_error(
            500,
            "Erreur lors de la vérification du produit"@,
            "details"@,
            "Erreur interne"@,
        ),
        ReferenceCheck::TagBatch | ReferenceCheck::CheckedBatch => detailed_error(
            500,
            "Erreur lors de la vérification du lot"@,
            "details"@,
            "Erreur interne"@,
        ),
        ReferenceCheck::CheckOperator => detailed_error(
            500,
            "Erreur lors de la vérification de l'opérateur"@,
            "details"@,
            "Erreur interne"@,
        ),
        ReferenceCheck::IngredientProducer | ReferenceCheck::IngredientSupplier => internal_error_view(
            "Erreur interne"@,
        ),
    }
}

/// What a reference check answers: the value read from the referenced record, or the
/// answer refusing the request.
pub open spec fn reference_result<T>(check: ReferenceCheck, id: u128, outcome: Lookup<T>) -> Result<T, ApiErrorView> {
    match outcome {
        Lookup::Found(v) => Ok(v),
        Lookup::Missing => Err(missing_reference_error(check, id)),
        Lookup::Failed(_) => Err(reference_failure_error(check)),
    }
}

/// Checks that the record `id` that a request names exists, given what looking it up gave.
pub fn check_reference<T>(check: ReferenceCheck, id: u128, outcome: Lookup<T>) -> (r: Result<T, ApiError>)
    ensures
        match (r, reference_result(check, id, outcome)) {
            (Ok(a), Ok(b)) => a == b,
            (Err(e), Err(v)) => e@ == v,
            _ => false,
        },
{
    match outcome {
        Lookup::Found(v) => Ok(v),
        Lookup::Missing => {
            let text = uuid_to_text(id);
            let e = match check {
                ReferenceCheck::BatchProduct => {
                    let mut details = String::from_str("Aucun produit trouvé avec l'ID: ");
                    details.append(text.as_str());
                    detailed_reply(400, "Produit non trouvé", "details", details.as_str())
                },
                ReferenceCheck::TagBatch => {
                    let mut details = String::from_str("Aucun lot trouvé avec l'ID: ");
                    details.append(text.as_str());
                    detailed_reply(400, "Lot de production non trouvé", "details", details.as_str())
                },
                ReferenceCheck::CheckedBatch => detailed_reply(
                    400,
                    "Lot non trouvé",
                    "batch_id",
                    text.as_str(),
                ),
                ReferenceCheck::CheckOperator => detailed_reply(
                    400,
                    "Opérateur introuvable",
                    "operator_id",
                    text.as_str(),
                ),
                ReferenceCheck::IngredientProducer => detailed_reply(
                    400,
                    "Producteur introuvable",
                    "details",
                    "Le producer_id fourni n'existe pas",
                ),
                ReferenceCheck::IngredientSupplier => detailed_reply(
                    400,
                    "Fournisseur introuvable",
                    "details",
                    "Le supplier_id fourni n'existe pas",
                ),
            };
            Err(e)
        },
        Lookup::Failed(_) => {
            let e = match check {
                ReferenceCheck::BatchProduct => detailed_reply(
                    500,
                    "Erreur lors de la vérification du produit",
                    "details",
                    "Erreur interne",
                ),
                ReferenceCheck::TagBatch | ReferenceCheck::CheckedBatch => detailed_reply(
                    500,
                    "Erreur lors de la vérification du lot",
                    "details",
                    "Erreur interne",
                ),
                ReferenceCheck::CheckOperator => detailed_reply(
                    500,
                    "Erreur lors de la vérification de l'opérateur",
                    "details",
                    "Erreur interne",
                ),
                ReferenceCheck::IngredientProducer | ReferenceCheck::IngredientSupplier => {
                    internal_error("Erreur interne")
                },
            };
            Err(e)
        },
    }
}

} // verus!
