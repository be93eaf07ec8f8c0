use rag_admin::commands::{
    begin_command, default_provider_id, default_vector_store_provider_id, finish_command,
    optional_name, parse_uuid_or_none, provider_name_for, short_uuid,
    vector_store_provider_name_for, CommandUi,
};
use rag_admin::dialogs::{
    add_dialog_description, add_dialog_title, confirm_delete_label, delete_dialog_label,
    edit_dialog_description, edit_dialog_title, AddDialog, DeleteDialog, EditDialog,
};
use rag_admin::registry::{
    embedding_model_count, generation_model_count, vector_index_count, AiProviderDto,
    EmbeddingModelDto, GenerationModelDto, VectorIndexDto, VectorStoreProviderDto,
};

const SAMPLE_ID: u128 = 0x67e5504410b1426f9247bb680e5fe0c8;

fn ai(id: u128, name: &str) -> AiProviderDto {
    AiProviderDto { provider_id: id, name: name.to_string() }
}

fn vs(id: u128, name: &str) -> VectorStoreProviderDto {
    VectorStoreProviderDto { provider_id: id, name: name.to_string() }
}

fn embedding(id: u128, provider: u128, model: &str, dims: u32) -> EmbeddingModelDto {
    EmbeddingModelDto { embedding_model_id: id, provider_id: provider, model: model.to_string(), dimensions: dims }
}

fn generation(id: u128, provider: u128, model: &str) -> GenerationModelDto {
    GenerationModelDto { generation_model_id: id, provider_id: provider, model: model.to_string() }
}

fn index(id: u128, provider: u128, name: &str, dims: u32) -> VectorIndexDto {
    VectorIndexDto { index_id: id, vector_store_provider_id: provider, name: name.to_string(), dimensions: dims }
}

#[test]
fn delete_label_for_each_entry() {
    assert_eq!(delete_dialog_label(None), "");
    assert_eq!(
        delete_dialog_label(Some(DeleteDialog::AiProvider(ai(1, "OpenAI")))),
        "Delete AI provider 'OpenAI' and clear it from the registry."
    );
    assert_eq!(
        delete_dialog_label(Some(DeleteDialog::VectorStoreProvider(vs(2, "Qdrant")))),
        "Delete vector store provider 'Qdrant'. All indexes referencing it must be removed first."
    );
    assert_eq!(
        delete_dialog_label(Some(DeleteDialog::EmbeddingModel(embedding(3, 1, "bge-m3", 1024)))),
        "Delete embedding model 'bge-m3'."
    );
    assert_eq!(
        delete_dialog_label(Some(DeleteDialog::GenerationModel(generation(4, 1, "llama3")))),
        "Delete generation model 'llama3'."
    );
    assert_eq!(
        delete_dialog_label(Some(DeleteDialog::VectorIndex(index(5, 2, "docs", 1024)))),
        "Delete vector index 'docs'."
    );
}

#[test]
fn dialog_titles_and_descriptions() {
    assert_eq!(add_dialog_title(Some(AddDialog::VectorIndex)), "ADD_VECTOR_INDEX");
    assert_eq!(add_dialog_title(None), "");
    assert_eq!(
        add_dialog_description(Some(AddDialog::GenerationModel)),
        "Generation models stay lean: provider plus model id."
    );
    let edit = Some(EditDialog::VectorStoreProvider(vs(2, "Qdrant")));
    assert_eq!(edit_dialog_title(&edit), "EDIT_VECTOR_STORE_PROVIDER");
    assert_eq!(
        edit_dialog_description(&edit),
        "Rename the backend system. The name is a label only."
    );
    assert_eq!(edit_dialog_title(&None), "");
    assert_eq!(confirm_delete_label(true), "DELETING...");
    assert_eq!(confirm_delete_label(false), "CONFIRM_DELETE");
}

#[test]
fn default_provider_is_the_first() {
    assert_eq!(default_provider_id(&[]), None);
    assert_eq!(default_provider_id(&[ai(7, "a"), ai(8, "b")]), Some(7));
    assert_eq!(default_vector_store_provider_id(&[vs(9, "q")]), Some(9));
    assert_eq!(default_vector_store_provider_id(&[]), None);
}

#[test]
fn uuid_select_values_parse() {
    assert_eq!(parse_uuid_or_none("67e55044-10b1-426f-9247-bb680e5fe0c8"), Some(SAMPLE_ID));
    assert_eq!(parse_uuid_or_none("67E55044-10B1-426F-9247-BB680E5FE0C8"), Some(SAMPLE_ID));
    assert_eq!(parse_uuid_or_none(""), None);
    assert_eq!(parse_uuid_or_none("not-a-uuid"), None);
}

#[test]
fn short_uuid_is_the_first_eight_characters() {
    assert_eq!(short_uuid(SAMPLE_ID), "67e55044");
    assert_eq!(short_uuid(1), "00000000");
}

#[test]
fn provider_names_are_looked_up() {
    let providers = [ai(1, "OpenAI"), ai(2, "Voyage"), ai(2, "Shadow")];
    assert_eq!(provider_name_for(&providers, 2), "Voyage");
    assert_eq!(provider_name_for(&providers, 3), "unknown:00000000-0000-0000-0000-000000000003");
    assert_eq!(
        vector_store_provider_name_for(&[vs(SAMPLE_ID, "Qdrant")], SAMPLE_ID),
        "Qdrant"
    );
    assert_eq!(
        vector_store_provider_name_for(&[], SAMPLE_ID),
        "unknown:67e55044-10b1-426f-9247-bb680e5fe0c8"
    );
}

#[test]
fn optional_name_falls_back_to_unset() {
    assert_eq!(optional_name(None), "UNSET");
    assert_eq!(optional_name(Some("prod")), "prod");
}

#[test]
fn command_success_from_a_dialog() {
    let mut ui = CommandUi {
        busy: false,
        status: Some((false, "old".to_string())),
        dialog_status: Some("earlier fault".to_string()),
        refresh: 4,
    };
    begin_command(&mut ui, true);
    assert!(ui.busy);
    assert_eq!(ui.status, None);
    assert_eq!(ui.dialog_status, None);
    let hook = finish_command(&mut ui, true, "PROVIDER_ADDED", Ok(()));
    assert!(hook);
    assert!(!ui.busy);
    assert_eq!(ui.status, Some((true, "PROVIDER_ADDED".to_string())));
    assert_eq!(ui.refresh, 5);
}

#[test]
fn command_failure_goes_to_the_dialog() {
    let mut ui = CommandUi { busy: false, status: None, dialog_status: None, refresh: 0 };
    begin_command(&mut ui, true);
    let hook = finish_command(&mut ui, true, "PROVIDER_ADDED", Err("name taken".to_string()));
    assert!(!hook);
    assert!(!ui.busy);
    assert_eq!(ui.dialog_status, Some("COMMAND_FAULT: name taken".to_string()));
    assert_eq!(ui.status, None);
    assert_eq!(ui.refresh, 0);
}

#[test]
fn command_failure_without_dialog_goes_to_the_page() {
    let mut ui = CommandUi { busy: false, status: None, dialog_status: Some("kept".to_string()), refresh: 2 };
    begin_command(&mut ui, false);
    assert_eq!(ui.dialog_status, Some("kept".to_string()));
    let hook = finish_command(&mut ui, false, "PIPELINE_CONFIGURATION_DELETED", Err("in use".to_string()));
    assert!(!hook);
    assert_eq!(ui.status, Some((false, "COMMAND_FAULT: in use".to_string())));
    assert_eq!(ui.dialog_status, Some("kept".to_string()));
    assert_eq!(ui.refresh, 2);
}

#[test]
fn registry_counts_per_provider() {
    let models = [embedding(1, 10, "a", 8), embedding(2, 11, "b", 8), embedding(3, 10, "c", 8)];
    assert_eq!(embedding_model_count(&models, 10), 2);
    assert_eq!(embedding_model_count(&models, 12), 0);
    let gens = [generation(1, 10, "a"), generation(2, 10, "b")];
    assert_eq!(generation_model_count(&gens, 10), 2);
    let idx = [index(1, 20, "x", 8), index(2, 21, "y", 8)];
    assert_eq!(vector_index_count(&idx, 21), 1);
}
