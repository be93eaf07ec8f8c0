//! The add, edit and delete dialogs of the configuration registry.

use vstd::prelude::*;
use vstd::string::StringExecFns;
use crate::registry::{
    AiProviderDto, EmbeddingModelDto, GenerationModelDto, VectorIndexDto, VectorStoreProviderDto,
};

verus! {

/// Which add dialog is open.
#[derive(Debug, Clone, Copy, PartialEq, Eq, Structural)]
pub enum AddDialog {
    Provider,
    EmbeddingModel,
    GenerationModel,
    VectorIndex,
}

/// Which edit dialog is open, with the entry being edited.
#[derive(Debug, Clone)]
pub enum EditDialog {
    AiProvider(AiProviderDto),
    VectorStoreProvider(VectorStoreProviderDto),
    EmbeddingModel(EmbeddingModelDto),
    GenerationModel(GenerationModelDto),
    VectorIndex(VectorIndexDto),
}

/// Which delete confirmation is open, with the entry to delete.
#[derive(Debug, Clone)]
pub enum DeleteDialog {
    AiProvider(AiProviderDto),
    VectorStoreProvider(VectorStoreProviderDto),
    EmbeddingModel(EmbeddingModelDto),
    GenerationModel(GenerationModelDto),
    VectorIndex(VectorIndexDto),
}

/// The confirmation sentence of a delete dialog.
pub open spec fn delete_label_spec(dialog: Option<DeleteDialog>) -> Seq<char> {
    match dialog {
        Some(DeleteDialog::AiProvider(p)) => "Delete AI provider '"@ + p.name@
            + "' and clear it from the registry."@,
        Some(DeleteDialog::VectorStoreProvider(p)) => "Delete vector store provider '"@ + p.name@
            + "'. All indexes referencing it must be removed first."@,
        Some(DeleteDialog::EmbeddingModel(m)) => "Delete embedding model '"@ + m.model@ + "'."@,
        Some(DeleteDialog::GenerationModel(m)) => "Delete generation model '"@ + m.model@ + "'."@,
        Some(DeleteDialog::VectorIndex(i)) => "Delete vector index '"@ + i.name@ + "'."@,
        None => Seq::<char>::empty(),
    }
}

fn framed(head: &str, middle: &String, tail: &str) -> (r: String)
    ensures
        r@ == head@ + middle@ + tail@,
{
    let mut r = String::from_str(head);
    r.append(middle.as_str());
    r.append(tail);
    r
}

/// The confirmation sentence that a delete dialog asks the operator to
/// accept; empty when no dialog is open.
pub fn delete_dialog_label(dialog: Option<DeleteDialog>) -> (r: String)
    ensures
        r@ == delete_label_spec(dialog),
{
    match dialog {
        Some(DeleteDialog::AiProvider(p)) => framed(
            "Delete AI provider '",
            &p.name,
            "' and clear it from the registry.",
        ),
        Some(DeleteDialog::VectorStoreProvider(p)) => framed(
            "Delete vector store provider '",
            &p.name,
            "'. All indexes referencing it must be removed first.",
        ),
        Some(DeleteDialog::EmbeddingModel(m)) => framed("Delete embedding model '", &m.model, "'."),
        Some(DeleteDialog::GenerationModel(m)) => framed(
            "Delete generation model '",
            &m.model,
            "'.",
        ),
        Some(DeleteDialog::VectorIndex(i)) => framed("Delete vector index '", &i.name, "'."),
        None => String::new(),
    }
}

/// The heading of an add dialog; empty when none is open.
pub fn add_dialog_title(dialog: Option<AddDialog>) -> (r: &'static str)
    ensures
        r@ == (match dialog {
            Some(AddDialog::Provider) => "ADD_PROVIDER"@,
            Some(AddDialog::EmbeddingModel) => "ADD_EMBEDDING_MODEL"@,
            Some(AddDialog::GenerationModel) => "ADD_GENERATION_MODEL"@,
            Some(AddDialog::VectorIndex) => "ADD_VECTOR_INDEX"@,
            None => ""@,
        }),
{
    match dialog {
        Some(AddDialog::Provider) => "ADD_PROVIDER",
        Some(AddDialog::EmbeddingModel) => "ADD_EMBEDDING_MODEL",
        Some(AddDialog::GenerationModel) => "ADD_GENERATION_MODEL",
        Some(AddDialog::VectorIndex) => "ADD_VECTOR_INDEX",
        None => "",
    }
}

/// The guidance line of an add dialog; empty when none is open.
pub fn add_dialog_description(dialog: Option<AddDialog>) -> (r: &'static str)
    ensures
        r@ == (match dialog {
            Some(AddDialog::Provider) => "Select the type then give the provider a short, stable name."@,
            Some(AddDialog::EmbeddingModel) => "Attach the embedding model to a provider and keep dimensions aligned with the index."@,
            Some(AddDialog::GenerationModel) => "Generation models stay lean: provider plus model id."@,
            Some(AddDialog::VectorIndex) => "Index dimensions should match the embedding model that writes into it."@,
            None => ""@,
        }),
{
    match dialog {
        Some(AddDialog::Provider) => "Select the type then give the provider a short, stable name.",
        Some(
            AddDialog::EmbeddingModel,
        ) => "Attach the embedding model to a provider and keep dimensions aligned with the index.",
        Some(AddDialog::GenerationModel) => "Generation models stay lean: provider plus model id.",
        Some(
            AddDialog::VectorIndex,
        ) => "Index dimensions should match the embedding model that writes into it.",
        None => "",
    }
}

/// The heading of an edit dialog; empty when none is open.
pub fn edit_dialog_title(dialog: &Option<EditDialog>) -> (r: &'static str)
    ensures
        r@ == (match *dialog {
            Some(EditDialog::AiProvider(_)) => "EDIT_AI_PROVIDER"@,
            Some(EditDialog::VectorStoreProvider(_)) => "EDIT_VECTOR_STORE_PROVIDER"@,
            Some(EditDialog::EmbeddingModel(_)) => "EDIT_EMBEDDING_MODEL"@,
            Some(EditDialog::GenerationModel(_)) => "EDIT_GENERATION_MODEL"@,
            Some(EditDialog::VectorIndex(_)) => "EDIT_VECTOR_INDEX"@,
            None => ""@,
        }),
{
    match dialog {
        Some(EditDialog::AiProvider(_)) => "EDIT_AI_PROVIDER",
        Some(EditDialog::VectorStoreProvider(_)) => "EDIT_VECTOR_STORE_PROVIDER",
        Some(EditDialog::EmbeddingModel(_)) => "EDIT_EMBEDDING_MODEL",
        Some(EditDialog::GenerationModel(_)) => "EDIT_GENERATION_MODEL",
        Some(EditDialog::VectorIndex(_)) => "EDIT_VECTOR_INDEX",
        None => "",
    }
}

/// The guidance line of an edit dialog; empty when none is open.
pub fn edit_dialog_description(dialog: &Option<EditDialog>) -> (r: &'static str)
    ensures
        r@ == (match *dialog {
            Some(EditDialog::AiProvider(_)) => "Provider names should stay short, stable, and recognizable."@,
            Some(EditDialog::VectorStoreProvider(_)) => "Rename the backend system. The name is a label only."@,
            Some(EditDialog::EmbeddingModel(_)) => "You can move the model to another provider here if ownership has changed."@,
            Some(EditDialog::GenerationModel(_)) => "Generation models can be reassigned to a different provider."@,
            Some(EditDialog::VectorIndex(_)) => "Use edits for renames, corrected dimensions, or moving to a different backend."@,
            None => ""@,
        }),
{
    match dialog {
        Some(
            EditDialog::AiProvider(_),
        ) => "Provider names should stay short, stable, and recognizable.",
        Some(
            EditDialog::VectorStoreProvider(_),
        ) => "Rename the backend system. The name is a label only.",
        Some(
            EditDialog::EmbeddingModel(_),
        ) => "You can move the model to another provider here if ownership has changed.",
        Some(
            EditDialog::GenerationModel(_),
        ) => "Generation models can be reassigned to a different provider.",
        Some(
            EditDialog::VectorIndex(_),
        ) => "Use edits for renames, corrected dimensions, or moving to a different backend.",
        None => "",
    }
}

/// The label of the delete confirmation button.
pub fn confirm_delete_label(busy: bool) -> (r: &'static str)
    ensures
        r@ == (if busy {
            "DELETING..."@
        } else {
            "CONFIRM_DELETE"@
        }),
{
    if busy {
        "DELETING..."
    } else {
        "CONFIRM_DELETE"
    }
}

} // verus!
