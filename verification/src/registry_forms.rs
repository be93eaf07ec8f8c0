//! The forms of the configuration registry page: what each dialog's fields
//! start from, and which command a submission sends, if any.

use vstd::prelude::*;
use vstd::string::StringExecFns;
use crate::commands::{
    short_uuid, default_provider_id, default_vector_store_provider_id, first_ai_provider, first_vs_provider,
    provider_name_for, unknown_name, vector_store_provider_name_for,
};
use crate::dialogs::{AddDialog, DeleteDialog, EditDialog};
use crate::ids::{uuid_text, uuid_to_string};
use crate::registry::{
    AiProviderDto, EmbeddingModelDto, GenerationModelDto, PipelineConfigurationDto, VectorIndexDto,
    VectorStoreProviderDto,
};
use crate::text::{decimal, push_decimal};

verus! {

/// The registry as the page loaded it.
pub struct ConfigurationDto {
    pub ai_providers: Vec<AiProviderDto>,
    pub vector_store_providers: Vec<VectorStoreProviderDto>,
    pub embedding_models: Vec<EmbeddingModelDto>,
    pub generation_models: Vec<GenerationModelDto>,
    pub vector_indexes: Vec<VectorIndexDto>,
}

/// The kind of provider being added.
#[derive(Debug, Clone, Copy, PartialEq, Eq, Structural)]
pub enum ProviderType {
    Ai,
    VectorStore,
}

/// A change to the registry, as sent to the server.
pub enum ConfigurationCommand {
    AddProvider { name: String, provider_type: ProviderType },
    AddEmbeddingModel { provider_id: u128, model: String, dimensions: u32 },
    AddGenerationModel { provider_id: u128, model: String },
    AddVectorIndex { vector_store_provider_id: u128, name: String, dimensions: u32 },
    CreatePipelineConfiguration {
        name: String,
        embedding_model_id: u128,
        generation_model_id: u128,
        vector_index_id: u128,
    },
    UpdateAiProvider { provider_id: u128, name: String },
    UpdateVectorStoreProvider { provider_id: u128, name: String },
    UpdateEmbeddingModel { model_id: u128, provider_id: u128, model: String, dimensions: u32 },
    UpdateGenerationModel { model_id: u128, provider_id: u128, model: String },
    UpdateVectorIndex {
        index_id: u128,
        vector_store_provider_id: u128,
        name: String,
        dimensions: u32,
    },
    UpdatePipelineConfiguration {
        pipeline_configuration_id: u128,
        name: String,
        embedding_model_id: u128,
        generation_model_id: u128,
        vector_index_id: u128,
    },
    RemoveAiProvider { provider_id: u128 },
    RemoveVectorStoreProvider { provider_id: u128 },
    RemoveEmbeddingModel { model_id: u128 },
    RemoveGenerationModel { model_id: u128 },
    RemoveVectorIndex { index_id: u128 },
    DeletePipelineConfiguration { pipeline_configuration_id: u128 },
}

/// The banner shown once a command went through.
pub open spec fn success_message_spec(c: ConfigurationCommand) -> Seq<char> {
    match c {
        ConfigurationCommand::AddProvider { .. } => "PROVIDER_ADDED"@,
        ConfigurationCommand::AddEmbeddingModel { .. } => "EMBEDDING_MODEL_ADDED"@,
        ConfigurationCommand::AddGenerationModel { .. } => "GENERATION_MODEL_ADDED"@,
        ConfigurationCommand::AddVectorIndex { .. } => "VECTOR_INDEX_ADDED"@,
        ConfigurationCommand::CreatePipelineConfiguration { .. } => "PIPELINE_CONFIGURATION_CREATED"@,
        ConfigurationCommand::UpdateAiProvider { .. } => "AI_PROVIDER_UPDATED"@,
        ConfigurationCommand::UpdateVectorStoreProvider { .. } => "VECTOR_STORE_PROVIDER_UPDATED"@,
        ConfigurationCommand::UpdateEmbeddingModel { .. } => "EMBEDDING_MODEL_UPDATED"@,
        ConfigurationCommand::UpdateGenerationModel { .. } => "GENERATION_MODEL_UPDATED"@,
        ConfigurationCommand::UpdateVectorIndex { .. } => "VECTOR_INDEX_UPDATED"@,
        ConfigurationCommand::UpdatePipelineConfiguration { .. } => "PIPELINE_CONFIGURATION_UPDATED"@,
        ConfigurationCommand::RemoveAiProvider { .. } => "AI_PROVIDER_REMOVED"@,
        ConfigurationCommand::RemoveVectorStoreProvider { .. } => "VECTOR_STORE_PROVIDER_REMOVED"@,
        ConfigurationCommand::RemoveEmbeddingModel { .. } => "EMBEDDING_MODEL_REMOVED"@,
        ConfigurationCommand::RemoveGenerationModel { .. } => "GENERATION_MODEL_REMOVED"@,
        ConfigurationCommand::RemoveVectorIndex { .. } => "VECTOR_INDEX_REMOVED"@,
        ConfigurationCommand::DeletePipelineConfiguration { .. } => "PIPELINE_CONFIGURATION_DELETED"@,
    }
}

/// The banner shown once `command` went through.
pub fn success_message(command: &ConfigurationCommand) -> (r: &'static str)
    ensures
        r@ == success_message_spec(*command),
{
    match command {
        ConfigurationCommand::AddProvider { .. } => "PROVIDER_ADDED",
        ConfigurationCommand::AddEmbeddingModel { .. } => "EMBEDDING_MODEL_ADDED",
        ConfigurationCommand::AddGenerationModel { .. } => "GENERATION_MODEL_ADDED",
        ConfigurationCommand::AddVectorIndex { .. } => "VECTOR_INDEX_ADDED",
        ConfigurationCommand::CreatePipelineConfiguration { .. } => "PIPELINE_CONFIGURATION_CREATED",
        ConfigurationCommand::UpdateAiProvider { .. } => "AI_PROVIDER_UPDATED",
        ConfigurationCommand::UpdateVectorStoreProvider { .. } => "VECTOR_STORE_PROVIDER_UPDATED",
        ConfigurationCommand::UpdateEmbeddingModel { .. } => "EMBEDDING_MODEL_UPDATED",
        ConfigurationCommand::UpdateGenerationModel { .. } => "GENERATION_MODEL_UPDATED",
        ConfigurationCommand::UpdateVectorIndex { .. } => "VECTOR_INDEX_UPDATED",
        ConfigurationCommand::UpdatePipelineConfiguration { .. } => "PIPELINE_CONFIGURATION_UPDATED",
        ConfigurationCommand::RemoveAiProvider { .. } => "AI_PROVIDER_REMOVED",
        ConfigurationCommand::RemoveVectorStoreProvider { .. } => "VECTOR_STORE_PROVIDER_REMOVED",
        ConfigurationCommand::RemoveEmbeddingModel { .. } => "EMBEDDING_MODEL_REMOVED",
        ConfigurationCommand::RemoveGenerationModel { .. } => "GENERATION_MODEL_REMOVED",
        ConfigurationCommand::RemoveVectorIndex { .. } => "VECTOR_INDEX_REMOVED",
        ConfigurationCommand::DeletePipelineConfiguration { .. } => "PIPELINE_CONFIGURATION_DELETED",
    }
}

/// Why a form was not sent.
#[derive(Debug, Clone, Copy, PartialEq, Eq, Structural)]
pub enum FormFault {
    /// A model needs an AI provider and none is selected.
    AddProviderFirst,
    /// An index needs a vector-store provider and none is selected.
    AddVectorStoreProviderFirst,
    /// A pipeline configuration needs a model of each kind and an index.
    SelectAllPipelineFields,
    /// An edited embedding model has no provider selected.
    SelectEmbeddingProvider,
    /// An edited generation model has no provider selected.
    SelectGenerationProvider,
}

/// The message a fault shows in the dialog.
pub fn fault_message(fault: FormFault) -> (r: &'static str)
    ensures
        r@ == (match fault {
            FormFault::AddProviderFirst => "ADD_PROVIDER_BEFORE_CREATING_MODELS"@,
            FormFault::AddVectorStoreProviderFirst => "ADD_VECTOR_STORE_PROVIDER_BEFORE_CREATING_INDEX"@,
            FormFault::SelectAllPipelineFields => "SELECT_ALL_PIPELINE_CONFIGURATION_FIELDS"@,
            FormFault::SelectEmbeddingProvider => "SELECT_PROVIDER_FOR_EMBEDDING_MODEL"@,
            FormFault::SelectGenerationProvider => "SELECT_PROVIDER_FOR_GENERATION_MODEL"@,
        }),
{
    match fault {
        FormFault::AddProviderFirst => "ADD_PROVIDER_BEFORE_CREATING_MODELS",
        FormFault::AddVectorStoreProviderFirst => "ADD_VECTOR_STORE_PROVIDER_BEFORE_CREATING_INDEX",
        FormFault::SelectAllPipelineFields => "SELECT_ALL_PIPELINE_CONFIGURATION_FIELDS",
        FormFault::SelectEmbeddingProvider => "SELECT_PROVIDER_FOR_EMBEDDING_MODEL",
        FormFault::SelectGenerationProvider => "SELECT_PROVIDER_FOR_GENERATION_MODEL",
    }
}

/// What a submission leads to.
pub enum SubmitDecision {
    /// Nothing: a command is already in flight.
    Ignore,
    /// The dialog shows the fault and nothing is sent.
    Refuse(FormFault),
    /// The command is sent.
    Send(ConfigurationCommand),
}

/// The fields of the registry dialogs.
pub struct RegistryForm {
    pub provider_name: String,
    pub provider_type: ProviderType,
    pub embedding_provider_id: Option<u128>,
    pub embedding_model: String,
    pub embedding_dimensions: u32,
    pub generation_provider_id: Option<u128>,
    pub generation_model: String,
    pub vector_store_provider_id: Option<u128>,
    pub vector_index_name: String,
    pub vector_index_dimensions: u32,
    pub pc_name: String,
    pub pc_embedding_model_id: Option<u128>,
    pub pc_generation_model_id: Option<u128>,
    pub pc_vector_index_id: Option<u128>,
}

/// The first AI provider's identifier, if any.
pub open spec fn first_ai_id(c: ConfigurationDto) -> Option<u128> {
    if c.ai_providers@.len() > 0 {
        Some(c.ai_providers@[0].provider_id)
    } else {
        None
    }
}

/// The first vector-store provider's identifier, if any.
pub open spec fn first_vs_id(c: ConfigurationDto) -> Option<u128> {
    if c.vector_store_providers@.len() > 0 {
        Some(c.vector_store_providers@[0].provider_id)
    } else {
        None
    }
}

/// The first embedding model's identifier, if any.
pub open spec fn first_embedding_id(c: ConfigurationDto) -> Option<u128> {
    if c.embedding_models@.len() > 0 {
        Some(c.embedding_models@[0].embedding_model_id)
    } else {
        None
    }
}

/// The first generation model's identifier, if any.
pub open spec fn first_generation_id(c: ConfigurationDto) -> Option<u128> {
    if c.generation_models@.len() > 0 {
        Some(c.generation_models@[0].generation_model_id)
    } else {
        None
    }
}

/// The first vector index's identifier, if any.
pub open spec fn first_index_id(c: ConfigurationDto) -> Option<u128> {
    if c.vector_indexes@.len() > 0 {
        Some(c.vector_indexes@[0].index_id)
    } else {
        None
    }
}

/// The size proposed for a new embedding model or index.
pub const DEFAULT_DIMENSIONS: u32 = 1024u32;

fn first_embedding_model_id(models: &[EmbeddingModelDto]) -> (r: Option<u128>)
    ensures
        r == (if models@.len() > 0 {
            Some(models@[0].embedding_model_id)
        } else {
            None::<u128>
        }),
{
    if models.len() > 0 {
        Some(models[0].embedding_model_id)
    } else {
        None
    }
}

fn first_generation_model_id(models: &[GenerationModelDto]) -> (r: Option<u128>)
    ensures
        r == (if models@.len() > 0 {
            Some(models@[0].generation_model_id)
        } else {
            None::<u128>
        }),
{
    if models.len() > 0 {
        Some(models[0].generation_model_id)
    } else {
        None
    }
}

fn first_vector_index_id(indexes: &[VectorIndexDto]) -> (r: Option<u128>)
    ensures
        r == (if indexes@.len() > 0 {
            Some(indexes@[0].index_id)
        } else {
            None::<u128>
        }),
{
    if indexes.len() > 0 {
        Some(indexes[0].index_id)
    } else {
        None
    }
}

impl RegistryForm {
    /// The fields when the page opens: names empty, an AI provider, the
    /// first provider of each kind and the first model of each kind and index
    /// preselected, sizes at the default.
    pub fn new(config: &ConfigurationDto) -> (f: Self)
        ensures
            f.provider_name@.len() == 0,
            f.provider_type == ProviderType::Ai,
            f.embedding_provider_id == first_ai_id(*config),
            f.embedding_model@.len() == 0,
            f.embedding_dimensions == DEFAULT_DIMENSIONS,
            f.generation_provider_id == first_ai_id(*config),
            f.generation_model@.len() == 0,
            f.vector_store_provider_id == first_vs_id(*config),
            f.vector_index_name@.len() == 0,
            f.vector_index_dimensions == DEFAULT_DIMENSIONS,
            f.pc_name@.len() == 0,
            f.pc_embedding_model_id == first_embedding_id(*config),
            f.pc_generation_model_id == first_generation_id(*config),
            f.pc_vector_index_id == first_index_id(*config),
    {
        RegistryForm {
            provider_name: String::new(),
            provider_type: ProviderType::Ai,
            embedding_provider_id: default_provider_id(config.ai_providers.as_slice()),
            embedding_model: String::new(),
            embedding_dimensions: DEFAULT_DIMENSIONS,
            generation_provider_id: default_provider_id(config.ai_providers.as_slice()),
            generation_model: String::new(),
            vector_store_provider_id: default_vector_store_provider_id(
                config.vector_store_providers.as_slice(),
            ),
            vector_index_name: String::new(),
            vector_index_dimensions: DEFAULT_DIMENSIONS,
            pc_name: String::new(),
            pc_embedding_model_id: first_embedding_model_id(config.embedding_models.as_slice()),
            pc_generation_model_id: first_generation_model_id(config.generation_models.as_slice()),
            pc_vector_index_id: first_vector_index_id(config.vector_indexes.as_slice()),
        }
    }

    /// Resets the fields of an add dialog as it opens; the other fields keep
    /// their values.
    pub fn open_add(&mut self, dialog: AddDialog, config: &ConfigurationDto)
        ensures
            match dialog {
                AddDialog::Provider => {
                    &&& final(self).provider_name@.len() == 0
                    &&& final(self).provider_type == ProviderType::Ai
                    &&& final(self).embedding_provider_id == old(self).embedding_provider_id
                    &&& final(self).embedding_model == old(self).embedding_model
                    &&& final(self).embedding_dimensions == old(self).embedding_dimensions
                    &&& final(self).generation_provider_id == old(self).generation_provider_id
                    &&& final(self).generation_model == old(self).generation_model
                    &&& final(self).vector_store_provider_id == old(self).vector_store_provider_id
                    &&& final(self).vector_index_name == old(self).vector_index_name
                    &&& final(self).vector_index_dimensions == old(self).vector_index_dimensions
                },
                AddDialog::EmbeddingModel => {
                    &&& final(self).provider_name == old(self).provider_name
                    &&& final(self).provider_type == old(self).provider_type
                    &&& final(self).embedding_provider_id == first_ai_id(*config)
                    &&& final(self).embedding_model@.len() == 0
                    &&& final(self).embedding_dimensions == DEFAULT_DIMENSIONS
                    &&& final(self).generation_provider_id == old(self).generation_provider_id
                    &&& final(self).generation_model == old(self).generation_model
                    &&& final(self).vector_store_provider_id == old(self).vector_store_provider_id
                    &&& final(self).vector_index_name == old(self).vector_index_name
                    &&& final(self).vector_index_dimensions == old(self).vector_index_dimensions
                },
                AddDialog::GenerationModel => {
                    &&& final(self).provider_name == old(self).provider_name
                    &&& final(self).provider_type == old(self).provider_type
                    &&& final(self).embedding_provider_id == old(self).embedding_provider_id
                    &&& final(self).embedding_model == old(self).embedding_model
                    &&& final(self).embedding_dimensions == old(self).embedding_dimensions
                    &&& final(self).generation_provider_id == first_ai_id(*config)
                    &&& final(self).generation_model@.len() == 0
                    &&& final(self).vector_store_provider_id == old(self).vector_store_provider_id
                    &&& final(self).vector_index_name == old(self).vector_index_name
                    &&& final(self).vector_index_dimensions == old(self).vector_index_dimensions
                },
                AddDialog::VectorIndex => {
                    &&& final(self).provider_name == old(self).provider_name
                    &&& final(self).provider_type == old(self).provider_type
                    &&& final(self).embedding_provider_id == old(self).embedding_provider_id
                    &&& final(self).embedding_model == old(self).embedding_model
                    &&& final(self).embedding_dimensions == old(self).embedding_dimensions
                    &&& final(self).generation_provider_id == old(self).generation_provider_id
                    &&& final(self).generation_model == old(self).generation_model
                    &&& final(self).vector_store_provider_id == first_vs_id(*config)
                    &&& final(self).vector_index_name@.len() == 0
                    &&& final(self).vector_index_dimensions == DEFAULT_DIMENSIONS
                },
            },
            final(self).pc_name == old(self).pc_name,
            final(self).pc_embedding_model_id == old(self).pc_embedding_model_id,
            final(self).pc_generation_model_id == old(self).pc_generation_model_id,
            final(self).pc_vector_index_id == old(self).pc_vector_index_id,
    {
        match dialog {
            AddDialog::Provider => {
                self.provider_name = String::new();
                self.provider_type = ProviderType::Ai;
            },
            AddDialog::EmbeddingModel => {
                self.embedding_provider_id = default_provider_id(config.ai_providers.as_slice());
                self.embedding_model = String::new();
                self.embedding_dimensions = DEFAULT_DIMENSIONS;
            },
            AddDialog::GenerationModel => {
                self.generation_provider_id = default_provider_id(config.ai_providers.as_slice());
                self.generation_model = String::new();
            },
            AddDialog::VectorIndex => {
                self.vector_store_provider_id = default_vector_store_provider_id(
                    config.vector_store_providers.as_slice(),
                );
                self.vector_index_name = String::new();
                self.vector_index_dimensions = DEFAULT_DIMENSIONS;
            },
        }
    }

    /// Fills the fields of an edit dialog from the entry being edited; the
    /// other fields keep their values.
    pub fn open_edit(&mut self, dialog: &EditDialog)
        ensures
            holds_entry(*final(self), *dialog),
            match *dialog {
                EditDialog::AiProvider(p) => final(self).provider_name == p.name,
                EditDialog::VectorStoreProvider(p) => final(self).provider_name == p.name,
                _ => final(self).provider_name == old(self).provider_name,
            },
            match *dialog {
                EditDialog::EmbeddingModel(m) => {
                    &&& final(self).embedding_provider_id == Some(m.provider_id)
                    &&& final(self).embedding_model == m.model
                    &&& final(self).embedding_dimensions == m.dimensions
                },
                _ => {
                    &&& final(self).embedding_provider_id == old(self).embedding_provider_id
                    &&& final(self).embedding_model == old(self).embedding_model
                    &&& final(self).embedding_dimensions == old(self).embedding_dimensions
                },
            },
            match *dialog {
                EditDialog::GenerationModel(m) => {
                    &&& final(self).generation_provider_id == Some(m.provider_id)
                    &&& final(self).generation_model == m.model
                },
                _ => {
                    &&& final(self).generation_provider_id == old(self).generation_provider_id
                    &&& final(self).generation_model == old(self).generation_model
                },
            },
            match *dialog {
                EditDialog::VectorIndex(i) => {
                    &&& final(self).vector_store_provider_id == Some(i.vector_store_provider_id)
                    &&& final(self).vector_index_name == i.name
                    &&& final(self).vector_index_dimensions == i.dimensions
                },
                _ => {
                    &&& final(self).vector_store_provider_id == old(self).vector_store_provider_id
                    &&& final(self).vector_index_name == old(self).vector_index_name
                    &&& final(self).vector_index_dimensions == old(self).vector_index_dimensions
                },
            },
            final(self).provider_type == old(self).provider_type,
            final(self).pc_name == old(self).pc_name,
            final(self).pc_embedding_model_id == old(self).pc_embedding_model_id,
            final(self).pc_generation_model_id == old(self).pc_generation_model_id,
            final(self).pc_vector_index_id == old(self).pc_vector_index_id,
    {
        match dialog {
            EditDialog::AiProvider(p) => {
                self.provider_name = p.name.clone();
            },
            EditDialog::VectorStoreProvider(p) => {
                self.provider_name = p.name.clone();
            },
            EditDialog::EmbeddingModel(m) => {
                self.embedding_provider_id = Some(m.provider_id);
                self.embedding_model = m.model.clone();
                self.embedding_dimensions = m.dimensions;
            },
            EditDialog::GenerationModel(m) => {
                self.generation_provider_id = Some(m.provider_id);
                self.generation_model = m.model.clone();
            },
            EditDialog::VectorIndex(i) => {
                self.vector_store_provider_id = Some(i.vector_store_provider_id);
                self.vector_index_name = i.name.clone();
                self.vector_index_dimensions = i.dimensions;
            },
        }
    }

    /// Resets the pipeline-configuration fields as its add dialog opens: no
    /// name, and the first model of each kind and the first index chosen.
    pub fn open_add_pipeline(&mut self, config: &ConfigurationDto)
        ensures
            final(self).pc_name@.len() == 0,
            final(self).pc_embedding_model_id == first_embedding_id(*config),
            final(self).pc_generation_model_id == first_generation_id(*config),
            final(self).pc_vector_index_id == first_index_id(*config),
            final(self).provider_name == old(self).provider_name,
            final(self).provider_type == old(self).provider_type,
            final(self).embedding_provider_id == old(self).embedding_provider_id,
            final(self).embedding_model == old(self).embedding_model,
            final(self).embedding_dimensions == old(self).embedding_dimensions,
            final(self).generation_provider_id == old(self).generation_provider_id,
            final(self).generation_model == old(self).generation_model,
            final(self).vector_store_provider_id == old(self).vector_store_provider_id,
            final(self).vector_index_name == old(self).vector_index_name,
            final(self).vector_index_dimensions == old(self).vector_index_dimensions,
    {
        self.pc_name = String::new();
        self.pc_embedding_model_id = first_embedding_model_id(config.embedding_models.as_slice());
        self.pc_generation_model_id = first_generation_model_id(config.generation_models.as_slice());
        self.pc_vector_index_id = first_vector_index_id(config.vector_indexes.as_slice());
    }

    /// Fills the pipeline-configuration fields from the configuration being
    /// edited.
    pub fn open_edit_pipeline(&mut self, pc: &PipelineConfigurationDto)
        ensures
            final(self).pc_name == pc.name,
            final(self).pc_embedding_model_id == Some(pc.embedding_model_id),
            final(self).pc_generation_model_id == Some(pc.generation_model_id),
            final(self).pc_vector_index_id == Some(pc.vector_index_id),
            final(self).provider_name == old(self).provider_name,
            final(self).provider_type == old(self).provider_type,
            final(self).embedding_provider_id == old(self).embedding_provider_id,
            final(self).embedding_model == old(self).embedding_model,
            final(self).embedding_dimensions == old(self).embedding_dimensions,
            final(self).generation_provider_id == old(self).generation_provider_id,
            final(self).generation_model == old(self).generation_model,
            final(self).vector_store_provider_id == old(self).vector_store_provider_id,
            final(self).vector_index_name == old(self).vector_index_name,
            final(self).vector_index_dimensions == old(self).vector_index_dimensions,
    {
        self.pc_name = pc.name.clone();
        self.pc_embedding_model_id = Some(pc.embedding_model_id);
        self.pc_generation_model_id = Some(pc.generation_model_id);
        self.pc_vector_index_id = Some(pc.vector_index_id);
    }
}

/// What submitting an add dialog leads to. A model or index without a
/// provider is refused before the busy check, as the page does; otherwise
/// nothing happens while a command is in flight.
pub open spec fn add_decision(f: RegistryForm, dialog: AddDialog, busy: bool) -> SubmitDecision {
    match dialog {
        AddDialog::Provider => if busy {
            SubmitDecision::Ignore
        } else {
            SubmitDecision::Send(
                ConfigurationCommand::AddProvider {
                    name: f.provider_name,
                    provider_type: f.provider_type,
                },
            )
        },
        AddDialog::EmbeddingModel => match f.embedding_provider_id {
            None => SubmitDecision::Refuse(FormFault::AddProviderFirst),
            Some(provider_id) => if busy {
                SubmitDecision::Ignore
            } else {
                SubmitDecision::Send(
                    ConfigurationCommand::AddEmbeddingModel {
                        provider_id,
                        model: f.embedding_model,
                        dimensions: f.embedding_dimensions,
                    },
                )
            },
        },
        AddDialog::GenerationModel => match f.generation_provider_id {
            None => SubmitDecision::Refuse(FormFault::AddProviderFirst),
            Some(provider_id) => if busy {
                SubmitDecision::Ignore
            } else {
                SubmitDecision::Send(
                    ConfigurationCommand::AddGenerationModel { provider_id, model: f.generation_model },
                )
            },
        },
        AddDialog::VectorIndex => match f.vector_store_provider_id {
            None => SubmitDecision::Refuse(FormFault::AddVectorStoreProviderFirst),
            Some(provider_id) => if busy {
                SubmitDecision::Ignore
            } else {
                SubmitDecision::Send(
                    ConfigurationCommand::AddVectorIndex {
                        vector_store_provider_id: provider_id,
                        name: f.vector_index_name,
                        dimensions: f.vector_index_dimensions,
                    },
                )
            },
        },
    }
}

/// Submitting an add dialog while no command is in flight sends exactly
/// what the operator filled in: the provider's name and kind, or the model or
/// index with the selected provider and the typed name and size. A missing
/// provider is refused, and a busy page sends nothing.
pub proof fn law_add_sends_the_form(f: RegistryForm, busy: bool)
    ensures
        !busy ==> (add_decision(f, AddDialog::Provider, busy) matches SubmitDecision::Send(
            ConfigurationCommand::AddProvider { name, provider_type },
        ) && name == f.provider_name && provider_type == f.provider_type),
        !busy && f.embedding_provider_id is Some ==> (add_decision(f, AddDialog::EmbeddingModel, busy) matches SubmitDecision::Send(
            ConfigurationCommand::AddEmbeddingModel { provider_id, model, dimensions },
        ) && Some(provider_id) == f.embedding_provider_id && model == f.embedding_model
            && dimensions == f.embedding_dimensions),
        !busy && f.generation_provider_id is Some ==> (add_decision(f, AddDialog::GenerationModel, busy) matches SubmitDecision::Send(
            ConfigurationCommand::AddGenerationModel { provider_id, model },
        ) && Some(provider_id) == f.generation_provider_id && model == f.generation_model),
        !busy && f.vector_store_provider_id is Some ==> (add_decision(f, AddDialog::VectorIndex, busy) matches SubmitDecision::Send(
            ConfigurationCommand::AddVectorIndex { vector_store_provider_id, name, dimensions },
        ) && Some(vector_store_provider_id) == f.vector_store_provider_id && name
            == f.vector_index_name && dimensions == f.vector_index_dimensions),
        f.embedding_provider_id is None ==> add_decision(f, AddDialog::EmbeddingModel, busy) matches SubmitDecision::Refuse(_),
        f.generation_provider_id is None ==> add_decision(f, AddDialog::GenerationModel, busy) matches SubmitDecision::Refuse(_),
        f.vector_store_provider_id is None ==> add_decision(f, AddDialog::VectorIndex, busy) matches SubmitDecision::Refuse(_),
        busy ==> !(add_decision(f, AddDialog::Provider, busy) is Send),
{
}

/// Decides what submitting the open add dialog does.
pub fn submit_add(form: &RegistryForm, dialog: AddDialog, busy: bool) -> (r: SubmitDecision)
    ensures
        r == add_decision(*form, dialog, busy),
        dialog == AddDialog::Provider && !busy ==> (r matches SubmitDecision::Send(
            ConfigurationCommand::AddProvider { name, provider_type },
        ) && name == form.provider_name && provider_type == form.provider_type),
{
    match dialog {
        AddDialog::Provider => {
            if busy {
                return SubmitDecision::Ignore;
            }
            SubmitDecision::Send(
                ConfigurationCommand::AddProvider {
                    name: form.provider_name.clone(),
                    provider_type: form.provider_type,
                },
            )
        },
        AddDialog::EmbeddingModel => {
            let provider_id = match form.embedding_provider_id {
                None => {
                    return SubmitDecision::Refuse(FormFault::AddProviderFirst);
                },
                Some(id) => id,
            };
            if busy {
                return SubmitDecision::Ignore;
            }
            SubmitDecision::Send(
                ConfigurationCommand::AddEmbeddingModel {
                    provider_id,
                    model: form.embedding_model.clone(),
                    dimensions: form.embedding_dimensions,
                },
            )
        },
        AddDialog::GenerationModel => {
            let provider_id = match form.generation_provider_id {
                None => {
                    return SubmitDecision::Refuse(FormFault::AddProviderFirst);
                },
                Some(id) => id,
            };
            if busy {
                return SubmitDecision::Ignore;
            }
            SubmitDecision::Send(
                ConfigurationCommand::AddGenerationModel {
                    provider_id,
                    model: form.generation_model.clone(),
                },
            )
        },
        AddDialog::VectorIndex => {
            let provider_id = match form.vector_store_provider_id {
                None => {
                    return SubmitDecision::Refuse(FormFault::AddVectorStoreProviderFirst);
                },
                Some(id) => id,
            };
            if busy {
                return SubmitDecision::Ignore;
            }
            SubmitDecision::Send(
                ConfigurationCommand::AddVectorIndex {
                    vector_store_provider_id: provider_id,
                    name: form.vector_index_name.clone(),
                    dimensions: form.vector_index_dimensions,
                },
            )
        },
    }
}

/// What submitting an edit dialog leads to: the update of the entry being
/// edited, with the form's values.
pub open spec fn edit_decision(f: RegistryForm, dialog: EditDialog, busy: bool) -> SubmitDecision {
    match dialog {
        EditDialog::AiProvider(p) => if busy {
            SubmitDecision::Ignore
        } else {
            SubmitDecision::Send(
                ConfigurationCommand::UpdateAiProvider {
                    provider_id: p.provider_id,
                    name: f.provider_name,
                },
            )
        },
        EditDialog::VectorStoreProvider(p) => if busy {
            SubmitDecision::Ignore
        } else {
            SubmitDecision::Send(
                ConfigurationCommand::UpdateVectorStoreProvider {
                    provider_id: p.provider_id,
                    name: f.provider_name,
                },
            )
        },
        EditDialog::EmbeddingModel(m) => match f.embedding_provider_id {
            None => SubmitDecision::Refuse(FormFault::SelectEmbeddingProvider),
            Some(provider_id) => if busy {
                SubmitDecision::Ignore
            } else {
                SubmitDecision::Send(
                    ConfigurationCommand::UpdateEmbeddingModel {
                        model_id: m.embedding_model_id,
                        provider_id,
                        model: f.embedding_model,
                        dimensions: f.embedding_dimensions,
                    },
                )
            },
        },
        EditDialog::GenerationModel(m) => match f.generation_provider_id {
            None => SubmitDecision::Refuse(FormFault::SelectGenerationProvider),
            Some(provider_id) => if busy {
                SubmitDecision::Ignore
            } else {
                SubmitDecision::Send(
                    ConfigurationCommand::UpdateGenerationModel {
                        model_id: m.generation_model_id,
                        provider_id,
                        model: f.generation_model,
                    },
                )
            },
        },
        EditDialog::VectorIndex(i) => match f.vector_store_provider_id {
            None => SubmitDecision::Refuse(FormFault::AddVectorStoreProviderFirst),
            Some(provider_id) => if busy {
                SubmitDecision::Ignore
            } else {
                SubmitDecision::Send(
                    ConfigurationCommand::UpdateVectorIndex {
                        index_id: i.index_id,
                        vector_store_provider_id: provider_id,
                        name: f.vector_index_name,
                        dimensions: f.vector_index_dimensions,
                    },
                )
            },
        },
    }
}

/// The fields of form `f` hold the values of the entry that `dialog`
/// edits, as `open_edit` leaves them.
pub open spec fn holds_entry(f: RegistryForm, dialog: EditDialog) -> bool {
    match dialog {
        EditDialog::AiProvider(p) => f.provider_name == p.name,
        EditDialog::VectorStoreProvider(p) => f.provider_name == p.name,
        EditDialog::EmbeddingModel(m) => f.embedding_provider_id == Some(m.provider_id)
            && f.embedding_model == m.model && f.embedding_dimensions == m.dimensions,
        EditDialog::GenerationModel(m) => f.generation_provider_id == Some(m.provider_id)
            && f.generation_model == m.model,
        EditDialog::VectorIndex(i) => f.vector_store_provider_id == Some(i.vector_store_provider_id)
            && f.vector_index_name == i.name && f.vector_index_dimensions == i.dimensions,
    }
}

/// The update that saves an entry exactly as it is.
pub open spec fn unchanged_update(dialog: EditDialog) -> ConfigurationCommand {
    match dialog {
        EditDialog::AiProvider(p) => ConfigurationCommand::UpdateAiProvider {
            provider_id: p.provider_id,
            name: p.name,
        },
        EditDialog::VectorStoreProvider(p) => ConfigurationCommand::UpdateVectorStoreProvider {
            provider_id: p.provider_id,
            name: p.name,
        },
        EditDialog::EmbeddingModel(m) => ConfigurationCommand::UpdateEmbeddingModel {
            model_id: m.embedding_model_id,
            provider_id: m.provider_id,
            model: m.model,
            dimensions: m.dimensions,
        },
        EditDialog::GenerationModel(m) => ConfigurationCommand::UpdateGenerationModel {
            model_id: m.generation_model_id,
            provider_id: m.provider_id,
            model: m.model,
        },
        EditDialog::VectorIndex(i) => ConfigurationCommand::UpdateVectorIndex {
            index_id: i.index_id,
            vector_store_provider_id: i.vector_store_provider_id,
            name: i.name,
            dimensions: i.dimensions,
        },
    }
}

/// Opening an edit dialog and submitting it untouched, while no command is
/// in flight, sends the entry back exactly as it was.
pub proof fn law_untouched_edit_resends_entry(f: RegistryForm, dialog: EditDialog)
    requires
        holds_entry(f, dialog),
    ensures
        edit_decision(f, dialog, false) == SubmitDecision::Send(unchanged_update(dialog)),
{
}

/// Submitting an edit dialog while no command is in flight updates the
/// entry being edited, identified by its own identifier, to the values now
/// in the form (not the values it was opened with); a model or index whose
/// provider selection was cleared is refused.
pub proof fn law_edit_sends_the_form(f: RegistryForm, dialog: EditDialog)
    ensures
        dialog matches EditDialog::AiProvider(p) ==> (edit_decision(f, dialog, false) matches SubmitDecision::Send(
            ConfigurationCommand::UpdateAiProvider { provider_id, name },
        ) && provider_id == p.provider_id && name == f.provider_name),
        dialog matches EditDialog::VectorStoreProvider(p) ==> (edit_decision(f, dialog, false) matches SubmitDecision::Send(
            ConfigurationCommand::UpdateVectorStoreProvider { provider_id, name },
        ) && provider_id == p.provider_id && name == f.provider_name),
        dialog matches EditDialog::EmbeddingModel(m) ==> (match f.embedding_provider_id {
            Some(pid) => edit_decision(f, dialog, false) matches SubmitDecision::Send(
                ConfigurationCommand::UpdateEmbeddingModel { model_id, provider_id, model, dimensions },
            ) && model_id == m.embedding_model_id && provider_id == pid && model == f.embedding_model
                && dimensions == f.embedding_dimensions,
            None => edit_decision(f, dialog, false) is Refuse,
        }),
        dialog matches EditDialog::GenerationModel(m) ==> (match f.generation_provider_id {
            Some(pid) => edit_decision(f, dialog, false) matches SubmitDecision::Send(
                ConfigurationCommand::UpdateGenerationModel { model_id, provider_id, model },
            ) && model_id == m.generation_model_id && provider_id == pid && model == f.generation_model,
            None => edit_decision(f, dialog, false) is Refuse,
        }),
        dialog matches EditDialog::VectorIndex(i) ==> (match f.vector_store_provider_id {
            Some(pid) => edit_decision(f, dialog, false) matches SubmitDecision::Send(
                ConfigurationCommand::UpdateVectorIndex { index_id, vector_store_provider_id, name, dimensions },
            ) && index_id == i.index_id && vector_store_provider_id == pid && name == f.vector_index_name
                && dimensions == f.vector_index_dimensions,
            None => edit_decision(f, dialog, false) is Refuse,
        }),
        !(edit_decision(f, dialog, true) is Send),
{
}

/// Decides what submitting the open edit dialog does.
pub fn submit_edit(form: &RegistryForm, dialog: &EditDialog, busy: bool) -> (r: SubmitDecision)
    ensures
        r == edit_decision(*form, *dialog, busy),
{
    match dialog {
        EditDialog::AiProvider(p) => {
            if busy {
                return SubmitDecision::Ignore;
            }
            SubmitDecision::Send(
                ConfigurationCommand::UpdateAiProvider {
                    provider_id: p.provider_id,
                    name: form.provider_name.clone(),
                },
            )
        },
        EditDialog::VectorStoreProvider(p) => {
            if busy {
                return SubmitDecision::Ignore;
            }
            SubmitDecision::Send(
                ConfigurationCommand::UpdateVectorStoreProvider {
                    provider_id: p.provider_id,
                    name: form.provider_name.clone(),
                },
            )
        },
        EditDialog::EmbeddingModel(m) => {
            let provider_id = match form.embedding_provider_id {
                None => {
                    return SubmitDecision::Refuse(FormFault::SelectEmbeddingProvider);
                },
                Some(id) => id,
            };
            if busy {
                return SubmitDecision::Ignore;
            }
            SubmitDecision::Send(
                ConfigurationCommand::UpdateEmbeddingModel {
                    model_id: m.embedding_model_id,
                    provider_id,
                    model: form.embedding_model.clone(),
                    dimensions: form.embedding_dimensions,
                },
            )
        },
        EditDialog::GenerationModel(m) => {
            let provider_id = match form.generation_provider_id {
                None => {
                    return SubmitDecision::Refuse(FormFault::SelectGenerationProvider);
                },
                Some(id) => id,
            };
            if busy {
                return SubmitDecision::Ignore;
            }
            SubmitDecision::Send(
                ConfigurationCommand::UpdateGenerationModel {
                    model_id: m.generation_model_id,
                    provider_id,
                    model: form.generation_model.clone(),
                },
            )
        },
        EditDialog::VectorIndex(i) => {
            let provider_id = match form.vector_store_provider_id {
                None => {
                    return SubmitDecision::Refuse(FormFault::AddVectorStoreProviderFirst);
                },
                Some(id) => id,
            };
            if busy {
                return SubmitDecision::Ignore;
            }
            SubmitDecision::Send(
                ConfigurationCommand::UpdateVectorIndex {
                    index_id: i.index_id,
                    vector_store_provider_id: provider_id,
                    name: form.vector_index_name.clone(),
                    dimensions: form.vector_index_dimensions,
                },
            )
        },
    }
}

/// What submitting the pipeline-configuration dialog leads to: a create, or
/// an update of the configuration being edited; refused unless a model of
/// each kind and an index are chosen.
pub open spec fn pipeline_decision(
    f: RegistryForm,
    editing: Option<PipelineConfigurationDto>,
    busy: bool,
) -> SubmitDecision {
    match (f.pc_embedding_model_id, f.pc_generation_model_id, f.pc_vector_index_id) {
        (Some(emb), Some(generation), Some(idx)) => if busy {
            SubmitDecision::Ignore
        } else {
            match editing {
                None => SubmitDecision::Send(
                    ConfigurationCommand::CreatePipelineConfiguration {
                        name: f.pc_name,
                        embedding_model_id: emb,
                        generation_model_id: generation,
                        vector_index_id: idx,
                    },
                ),
                Some(pc) => SubmitDecision::Send(
                    ConfigurationCommand::UpdatePipelineConfiguration {
                        pipeline_configuration_id: pc.pipeline_configuration_id,
                        name: f.pc_name,
                        embedding_model_id: emb,
                        generation_model_id: generation,
                        vector_index_id: idx,
                    },
                ),
            }
        },
        _ => SubmitDecision::Refuse(FormFault::SelectAllPipelineFields),
    }
}

/// Submitting the pipeline-configuration dialog while no command is in
/// flight sends the form's name and its three selections, as a create or as
/// an update of the configuration being edited; without all three
/// selections it is refused, busy or not.
pub proof fn law_pipeline_sends_the_form(
    f: RegistryForm,
    editing: Option<PipelineConfigurationDto>,
    busy: bool,
)
    ensures
        f.pc_embedding_model_id is None || f.pc_generation_model_id is None || f.pc_vector_index_id is None
            ==> pipeline_decision(f, editing, busy) is Refuse,
        f.pc_embedding_model_id is Some && f.pc_generation_model_id is Some && f.pc_vector_index_id is Some
            && busy ==> pipeline_decision(f, editing, busy) is Ignore,
        f.pc_embedding_model_id is Some && f.pc_generation_model_id is Some && f.pc_vector_index_id is Some
            && !busy && editing is None ==> pipeline_decision(f, editing, busy) == SubmitDecision::Send(
            ConfigurationCommand::CreatePipelineConfiguration {
                name: f.pc_name,
                embedding_model_id: f.pc_embedding_model_id->0,
                generation_model_id: f.pc_generation_model_id->0,
                vector_index_id: f.pc_vector_index_id->0,
            },
        ),
        f.pc_embedding_model_id is Some && f.pc_generation_model_id is Some && f.pc_vector_index_id is Some
            && !busy && editing is Some ==> pipeline_decision(f, editing, busy) == SubmitDecision::Send(
            ConfigurationCommand::UpdatePipelineConfiguration {
                pipeline_configuration_id: editing->0.pipeline_configuration_id,
                name: f.pc_name,
                embedding_model_id: f.pc_embedding_model_id->0,
                generation_model_id: f.pc_generation_model_id->0,
                vector_index_id: f.pc_vector_index_id->0,
            },
        ),
{
}

/// Decides what submitting the pipeline-configuration dialog does.
pub fn submit_pipeline(form: &RegistryForm, editing: &Option<PipelineConfigurationDto>, busy: bool) -> (r:
    SubmitDecision)
    ensures
        r == pipeline_decision(*form, *editing, busy),
{
    let (emb, generation, idx) = match (
        form.pc_embedding_model_id,
        form.pc_generation_model_id,
        form.pc_vector_index_id,
    ) {
        (Some(a), Some(b), Some(c)) => (a, b, c),
        _ => {
            return SubmitDecision::Refuse(FormFault::SelectAllPipelineFields);
        },
    };
    if busy {
        return SubmitDecision::Ignore;
    }
    match editing {
        None => SubmitDecision::Send(
            ConfigurationCommand::CreatePipelineConfiguration {
                name: form.pc_name.clone(),
                embedding_model_id: emb,
                generation_model_id: generation,
                vector_index_id: idx,
            },
        ),
        Some(pc) => SubmitDecision::Send(
            ConfigurationCommand::UpdatePipelineConfiguration {
                pipeline_configuration_id: pc.pipeline_configuration_id,
                name: form.pc_name.clone(),
                embedding_model_id: emb,
                generation_model_id: generation,
                vector_index_id: idx,
            },
        ),
    }
}

/// The removal a delete confirmation sends.
pub open spec fn removal_of(dialog: DeleteDialog) -> ConfigurationCommand {
    match dialog {
        DeleteDialog::AiProvider(p) => ConfigurationCommand::RemoveAiProvider {
            provider_id: p.provider_id,
        },
        DeleteDialog::VectorStoreProvider(p) => ConfigurationCommand::RemoveVectorStoreProvider {
            provider_id: p.provider_id,
        },
        DeleteDialog::EmbeddingModel(m) => ConfigurationCommand::RemoveEmbeddingModel {
            model_id: m.embedding_model_id,
        },
        DeleteDialog::GenerationModel(m) => ConfigurationCommand::RemoveGenerationModel {
            model_id: m.generation_model_id,
        },
        DeleteDialog::VectorIndex(i) => ConfigurationCommand::RemoveVectorIndex { index_id: i.index_id },
    }
}

/// The command a confirmed delete sends: none while busy or with no dialog
/// open.
pub fn confirm_delete(dialog: &Option<DeleteDialog>, busy: bool) -> (r: Option<ConfigurationCommand>)
    ensures
        r == (match *dialog {
            Some(d) => if busy {
                None
            } else {
                Some(removal_of(d))
            },
            None => None::<ConfigurationCommand>,
        }),
{
    if busy {
        return None;
    }
    match dialog {
        None => None,
        Some(DeleteDialog::AiProvider(p)) => Some(
            ConfigurationCommand::RemoveAiProvider { provider_id: p.provider_id },
        ),
        Some(DeleteDialog::VectorStoreProvider(p)) => Some(
            ConfigurationCommand::RemoveVectorStoreProvider { provider_id: p.provider_id },
        ),
        Some(DeleteDialog::EmbeddingModel(m)) => Some(
            ConfigurationCommand::RemoveEmbeddingModel { model_id: m.embedding_model_id },
        ),
        Some(DeleteDialog::GenerationModel(m)) => Some(
            ConfigurationCommand::RemoveGenerationModel { model_id: m.generation_model_id },
        ),
        Some(DeleteDialog::VectorIndex(i)) => Some(
            ConfigurationCommand::RemoveVectorIndex { index_id: i.index_id },
        ),
    }
}

/// The command a confirmed pipeline-configuration delete sends.
pub fn confirm_delete_pipeline(pc: &Option<PipelineConfigurationDto>, busy: bool) -> (r: Option<
    ConfigurationCommand,
>)
    ensures
        r == (match *pc {
            Some(p) => if busy {
                None
            } else {
                Some(
                    ConfigurationCommand::DeletePipelineConfiguration {
                        pipeline_configuration_id: p.pipeline_configuration_id,
                    },
                )
            },
            None => None::<ConfigurationCommand>,
        }),
{
    if busy {
        return None;
    }
    match pc {
        None => None,
        Some(p) => Some(
            ConfigurationCommand::DeletePipelineConfiguration {
                pipeline_configuration_id: p.pipeline_configuration_id,
            },
        ),
    }
}

/// The value of an identifier select box: the identifier's text, or empty.
pub fn select_value(id: Option<u128>) -> (r: String)
    ensures
        r@ == (match id {
            Some(v) => uuid_text(v),
            None => Seq::<char>::empty(),
        }),
{
    match id {
        Some(v) => uuid_to_string(v),
        None => String::new(),
    }
}

/// The name of an AI provider as the option labels show it.
pub open spec fn ai_name(ps: Seq<AiProviderDto>, id: u128) -> Seq<char> {
    match first_ai_provider(ps, id) {
        Some(i) => ps[i].name@,
        None => unknown_name(id),
    }
}

/// The name of a vector-store provider as the option labels show it.
pub open spec fn vs_name(ps: Seq<VectorStoreProviderDto>, id: u128) -> Seq<char> {
    match first_vs_provider(ps, id) {
        Some(i) => ps[i].name@,
        None => unknown_name(id),
    }
}

/// The option label of an embedding model: `<model> (<dims>d, <provider>)`.
pub fn embedding_option_label(config: &ConfigurationDto, m: &EmbeddingModelDto) -> (r: String)
    ensures
        r@ == m.model@ + " ("@ + decimal(m.dimensions as nat) + "d, "@ + ai_name(
            config.ai_providers@,
            m.provider_id,
        ) + ")"@,
{
    let name = provider_name_for(config.ai_providers.as_slice(), m.provider_id);
    let mut r = m.model.clone();
    r.append(" (");
    push_decimal(&mut r, m.dimensions as u64);
    r.append("d, ");
    r.append(name.as_str());
    r.append(")");
    r
}

/// The option label of a generation model: `<model> (<provider>)`.
pub fn generation_option_label(config: &ConfigurationDto, m: &GenerationModelDto) -> (r: String)
    ensures
        r@ == m.model@ + " ("@ + ai_name(config.ai_providers@, m.provider_id) + ")"@,
{
    let name = provider_name_for(config.ai_providers.as_slice(), m.provider_id);
    let mut r = m.model.clone();
    r.append(" (");
    r.append(name.as_str());
    r.append(")");
    r
}

/// The option label of a vector index: `<name> (<dims>d, <provider>)`.
pub fn index_option_label(config: &ConfigurationDto, i: &VectorIndexDto) -> (r: String)
    ensures
        r@ == i.name@ + " ("@ + decimal(i.dimensions as nat) + "d, "@ + vs_name(
            config.vector_store_providers@,
            i.vector_store_provider_id,
        ) + ")"@,
{
    let name = vector_store_provider_name_for(
        config.vector_store_providers.as_slice(),
        i.vector_store_provider_id,
    );
    let mut r = i.name.clone();
    r.append(" (");
    push_decimal(&mut r, i.dimensions as u64);
    r.append("d, ");
    r.append(name.as_str());
    r.append(")");
    r
}

/// The panels of the registry page.
#[derive(Debug, Clone, Copy, PartialEq, Eq, Structural)]
pub enum RegistryPanel {
    Providers,
    EmbeddingModels,
    GenerationModels,
    VectorIndexes,
    PipelineConfigurations,
}

/// Whether a panel's add button is disabled: always while a command is in
/// flight; models need an AI provider, indexes a vector-store provider, and
/// a pipeline configuration a model of each kind and an index.
pub fn add_action_disabled(panel: RegistryPanel, busy: bool, config: &ConfigurationDto) -> (r: bool)
    ensures
        r == (busy || match panel {
            RegistryPanel::Providers => false,
            RegistryPanel::EmbeddingModels => config.ai_providers@.len() == 0,
            RegistryPanel::GenerationModels => config.ai_providers@.len() == 0,
            RegistryPanel::VectorIndexes => config.vector_store_providers@.len() == 0,
            RegistryPanel::PipelineConfigurations => config.embedding_models@.len() == 0
                || config.generation_models@.len() == 0 || config.vector_indexes@.len() == 0,
        }),
{
    busy || match panel {
        RegistryPanel::Providers => false,
        RegistryPanel::EmbeddingModels => config.ai_providers.len() == 0,
        RegistryPanel::GenerationModels => config.ai_providers.len() == 0,
        RegistryPanel::VectorIndexes => config.vector_store_providers.len() == 0,
        RegistryPanel::PipelineConfigurations => config.embedding_models.len() == 0
            || config.generation_models.len() == 0 || config.vector_indexes.len() == 0,
    }
}

/// How a pipeline configuration's card names a part: by its name when the
/// server sent one, else by the first eight characters of its identifier.
pub fn part_label(name: Option<&str>, id: u128) -> (r: String)
    ensures
        r@ == (match name {
            Some(n) => n@,
            None => uuid_text(id).take(8),
        }),
{
    match name {
        Some(n) => n.to_owned(),
        None => short_uuid(id),
    }
}

} // verus!
