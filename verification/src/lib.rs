//! View-model logic of the RAG administration console: parsing of operator
//! input, status and label derivation, and the small state machines that the
//! pages drive.

pub mod text;
pub mod options;
pub mod ids;
pub mod primitives;
pub mod log;
pub mod nav;
pub mod registry;
pub mod dialogs;
pub mod commands;
pub mod document_detail;
pub mod posts_list;
pub mod tuning;
pub mod post_detail;
pub mod evaluation;
pub mod settings;
pub mod registry_forms;
