use rag_admin::dialogs::{AddDialog, DeleteDialog, EditDialog};
use rag_admin::registry::{
    AiProviderDto, EmbeddingModelDto, GenerationModelDto, PipelineConfigurationDto, VectorIndexDto,
    VectorStoreProviderDto,
};
use rag_admin::registry_forms::{
    confirm_delete, confirm_delete_pipeline, embedding_option_label, fault_message,
    generation_option_label, index_option_label, select_value, submit_add, submit_edit,
    submit_pipeline, success_message, ConfigurationCommand, ConfigurationDto, FormFault,
    ProviderType, RegistryForm, SubmitDecision,
};
use rag_admin::registry_forms::{add_action_disabled, part_label, RegistryPanel};

fn config() -> ConfigurationDto {
    ConfigurationDto {
        ai_providers: vec![
            AiProviderDto { provider_id: 1, name: "OpenAI".to_string() },
            AiProviderDto { provider_id: 2, name: "Voyage".to_string() },
        ],
        vector_store_providers: vec![VectorStoreProviderDto { provider_id: 3, name: "Qdrant".to_string() }],
        embedding_models: vec![EmbeddingModelDto {
            embedding_model_id: 10,
            provider_id: 2,
            model: "voyage-3".to_string(),
            dimensions: 1024,
        }],
        generation_models: vec![GenerationModelDto {
            generation_model_id: 20,
            provider_id: 9,
            model: "gpt".to_string(),
        }],
        vector_indexes: vec![VectorIndexDto {
            index_id: 30,
            vector_store_provider_id: 3,
            name: "docs".to_string(),
            dimensions: 1024,
        }],
    }
}

fn empty_config() -> ConfigurationDto {
    ConfigurationDto {
        ai_providers: Vec::new(),
        vector_store_providers: Vec::new(),
        embedding_models: Vec::new(),
        generation_models: Vec::new(),
        vector_indexes: Vec::new(),
    }
}

#[test]
fn new_form_preselects_first_entries() {
    let f = RegistryForm::new(&config());
    assert_eq!(f.provider_name, "");
    assert_eq!(f.provider_type, ProviderType::Ai);
    assert_eq!(f.embedding_provider_id, Some(1));
    assert_eq!(f.generation_provider_id, Some(1));
    assert_eq!(f.vector_store_provider_id, Some(3));
    assert_eq!(f.embedding_dimensions, 1024);
    assert_eq!(f.vector_index_dimensions, 1024);
    assert_eq!(f.pc_embedding_model_id, Some(10));
    assert_eq!(f.pc_generation_model_id, Some(20));
    assert_eq!(f.pc_vector_index_id, Some(30));
}

#[test]
fn model_without_provider_is_refused_even_when_busy() {
    let f = RegistryForm::new(&empty_config());
    let r = submit_add(&f, AddDialog::EmbeddingModel, true);
    assert!(matches!(r, SubmitDecision::Refuse(FormFault::AddProviderFirst)));
    assert_eq!(fault_message(FormFault::AddProviderFirst), "ADD_PROVIDER_BEFORE_CREATING_MODELS");
    let r = submit_add(&f, AddDialog::VectorIndex, false);
    assert!(matches!(r, SubmitDecision::Refuse(FormFault::AddVectorStoreProviderFirst)));
}

#[test]
fn busy_page_ignores_submissions() {
    let f = RegistryForm::new(&config());
    assert!(matches!(submit_add(&f, AddDialog::Provider, true), SubmitDecision::Ignore));
    assert!(matches!(submit_add(&f, AddDialog::GenerationModel, true), SubmitDecision::Ignore));
}

#[test]
fn add_embedding_model_sends_the_form_values() {
    let mut f = RegistryForm::new(&config());
    f.open_add(AddDialog::EmbeddingModel, &config());
    f.embedding_model = "bge-m3".to_string();
    f.embedding_dimensions = 768;
    match submit_add(&f, AddDialog::EmbeddingModel, false) {
        SubmitDecision::Send(command) => {
            assert_eq!(success_message(&command), "EMBEDDING_MODEL_ADDED");
            match command {
                ConfigurationCommand::AddEmbeddingModel { provider_id, model, dimensions } => {
                    assert_eq!(provider_id, 1);
                    assert_eq!(model, "bge-m3");
                    assert_eq!(dimensions, 768);
                },
                _ => panic!("wrong command"),
            }
        },
        _ => panic!("not sent"),
    }
}

#[test]
fn open_add_resets_only_its_fields() {
    let mut f = RegistryForm::new(&config());
    f.provider_name = "typed".to_string();
    f.embedding_model = "kept".to_string();
    f.provider_type = ProviderType::VectorStore;
    f.open_add(AddDialog::Provider, &config());
    assert_eq!(f.provider_name, "");
    assert_eq!(f.provider_type, ProviderType::Ai);
    assert_eq!(f.embedding_model, "kept");
}

#[test]
fn edit_dialog_fills_and_updates() {
    let mut f = RegistryForm::new(&config());
    let dialog = EditDialog::VectorIndex(VectorIndexDto {
        index_id: 30,
        vector_store_provider_id: 3,
        name: "docs".to_string(),
        dimensions: 512,
    });
    f.open_edit(&dialog);
    assert_eq!(f.vector_index_name, "docs");
    assert_eq!(f.vector_index_dimensions, 512);
    f.vector_index_name = "docs-v2".to_string();
    match submit_edit(&f, &dialog, false) {
        SubmitDecision::Send(ConfigurationCommand::UpdateVectorIndex {
            index_id,
            vector_store_provider_id,
            name,
            dimensions,
        }) => {
            assert_eq!((index_id, vector_store_provider_id, dimensions), (30, 3, 512));
            assert_eq!(name, "docs-v2");
        },
        _ => panic!("not an index update"),
    }
}

#[test]
fn edit_without_provider_names_the_model_kind() {
    let mut f = RegistryForm::new(&config());
    f.generation_provider_id = None;
    let dialog = EditDialog::GenerationModel(GenerationModelDto {
        generation_model_id: 20,
        provider_id: 9,
        model: "gpt".to_string(),
    });
    let r = submit_edit(&f, &dialog, true);
    assert!(matches!(r, SubmitDecision::Refuse(FormFault::SelectGenerationProvider)));
    assert_eq!(fault_message(FormFault::SelectGenerationProvider), "SELECT_PROVIDER_FOR_GENERATION_MODEL");
}

#[test]
fn pipeline_needs_all_three_selections() {
    let f = RegistryForm::new(&empty_config());
    let r = submit_pipeline(&f, &None, false);
    assert!(matches!(r, SubmitDecision::Refuse(FormFault::SelectAllPipelineFields)));
    assert_eq!(
        fault_message(FormFault::SelectAllPipelineFields),
        "SELECT_ALL_PIPELINE_CONFIGURATION_FIELDS"
    );
}

#[test]
fn pipeline_create_and_update() {
    let mut f = RegistryForm::new(&config());
    f.open_add_pipeline(&config());
    f.pc_name = "production".to_string();
    match submit_pipeline(&f, &None, false) {
        SubmitDecision::Send(c) => {
            assert_eq!(success_message(&c), "PIPELINE_CONFIGURATION_CREATED");
            assert!(matches!(
                c,
                ConfigurationCommand::CreatePipelineConfiguration {
                    embedding_model_id: 10,
                    generation_model_id: 20,
                    vector_index_id: 30,
                    ..
                }
            ));
        },
        _ => panic!("not sent"),
    }
    let pc = PipelineConfigurationDto {
        pipeline_configuration_id: 99,
        name: "staging".to_string(),
        embedding_model_id: 11,
        generation_model_id: 21,
        vector_index_id: 31,
    };
    f.open_edit_pipeline(&pc);
    assert_eq!(f.pc_name, "staging");
    match submit_pipeline(&f, &Some(pc), false) {
        SubmitDecision::Send(c) => {
            assert_eq!(success_message(&c), "PIPELINE_CONFIGURATION_UPDATED");
            assert!(matches!(
                c,
                ConfigurationCommand::UpdatePipelineConfiguration { pipeline_configuration_id: 99, .. }
            ));
        },
        _ => panic!("not sent"),
    }
}

#[test]
fn delete_confirmations() {
    let dialog = Some(DeleteDialog::AiProvider(AiProviderDto { provider_id: 5, name: "x".to_string() }));
    assert!(confirm_delete(&dialog, true).is_none());
    assert!(confirm_delete(&None, false).is_none());
    let c = confirm_delete(&dialog, false).unwrap();
    assert_eq!(success_message(&c), "AI_PROVIDER_REMOVED");
    assert!(matches!(c, ConfigurationCommand::RemoveAiProvider { provider_id: 5 }));
    let pc = Some(PipelineConfigurationDto {
        pipeline_configuration_id: 7,
        name: "p".to_string(),
        embedding_model_id: 1,
        generation_model_id: 2,
        vector_index_id: 3,
    });
    let c = confirm_delete_pipeline(&pc, false).unwrap();
    assert_eq!(success_message(&c), "PIPELINE_CONFIGURATION_DELETED");
    assert!(confirm_delete_pipeline(&pc, true).is_none());
}

#[test]
fn select_values_and_option_labels() {
    assert_eq!(select_value(None), "");
    assert_eq!(select_value(Some(1)), "00000000-0000-0000-0000-000000000001");
    let cfg = config();
    assert_eq!(embedding_option_label(&cfg, &cfg.embedding_models[0]), "voyage-3 (1024d, Voyage)");
    assert_eq!(
        generation_option_label(&cfg, &cfg.generation_models[0]),
        "gpt (unknown:00000000-0000-0000-0000-000000000009)"
    );
    assert_eq!(index_option_label(&cfg, &cfg.vector_indexes[0]), "docs (1024d, Qdrant)");
}

#[test]
fn add_buttons_need_their_prerequisites() {
    let empty = empty_config();
    assert!(!add_action_disabled(RegistryPanel::Providers, false, &empty));
    assert!(add_action_disabled(RegistryPanel::Providers, true, &empty));
    assert!(add_action_disabled(RegistryPanel::EmbeddingModels, false, &empty));
    assert!(add_action_disabled(RegistryPanel::VectorIndexes, false, &empty));
    assert!(add_action_disabled(RegistryPanel::PipelineConfigurations, false, &empty));
    let full = config();
    assert!(!add_action_disabled(RegistryPanel::GenerationModels, false, &full));
    assert!(!add_action_disabled(RegistryPanel::PipelineConfigurations, false, &full));
}

#[test]
fn pipeline_parts_are_named_or_shortened() {
    assert_eq!(part_label(Some("voyage-3"), 1), "voyage-3");
    assert_eq!(part_label(None, 0x67e5504410b1426f9247bb680e5fe0c8), "67e55044");
}
