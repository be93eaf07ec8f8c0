use rag_admin::evaluation::build_option_grid;
use rag_admin::nav::apply_event_to_counter;
use rag_admin::options::parse_u32_values;
use rag_admin::post_detail::{next_page, previous_page, total_pages};
use rag_admin::settings::{
    model_after_backend_change, suggested_models, CatalogEntry, EmbedderBackend, EmbeddingModel,
    ModelCatalogs,
};
use rag_admin::tuning::{ChunkStrategy, ChunkingConfig, TuningState};
use rag_admin::dialogs::EditDialog;
use rag_admin::registry::EmbeddingModelDto;
use rag_admin::registry_forms::{submit_edit, ConfigurationCommand, ConfigurationDto, RegistryForm, SubmitDecision};

fn config(target: u32) -> ChunkingConfig {
    ChunkingConfig {
        strategy: ChunkStrategy::Section,
        target_chars: target,
        overlap_chars: 0,
        min_chars: 0,
        max_section_chars: 1000,
        llm_micro_chunk_chars: 300,
    }
}

#[test]
fn parsed_lists_are_strictly_increasing_and_keep_every_value() {
    let v = parse_u32_values("9, 1-4, 3, 7-9:2", 1, 100, 1).unwrap();
    assert_eq!(v, vec![1, 2, 3, 4, 7, 9]);
    assert!(v.windows(2).all(|w| w[0] < w[1]));
}

#[test]
fn start_then_end_restores_the_counter() {
    for count in [0u32, 1, 41] {
        let up = apply_event_to_counter(count, "EvaluationDataset", "DatasetRequested");
        assert_eq!(apply_event_to_counter(up, "EvaluationDataset", "Failed"), count);
    }
}

#[test]
fn saving_settles_and_is_idempotent() {
    let mut s = TuningState::new(config(800), Some(config(600)));
    s.update_working(config(900));
    s.save();
    assert!(!s.has_unsaved_changes());
    let once = (s.working, s.committed);
    s.save();
    assert_eq!((s.working, s.committed), once);
}

#[test]
fn saving_the_default_clears_the_override() {
    let mut s = TuningState::new(config(800), Some(config(600)));
    s.update_working(config(800));
    s.save();
    assert_eq!(s.committed, None);
    assert!(!s.is_overridden());
}

#[test]
fn reset_then_save_keeps_the_default() {
    let mut s = TuningState::new(config(800), Some(config(600)));
    s.reset();
    s.save();
    assert_eq!(s.committed, None);
    assert_eq!(s.working, config(800));
}

#[test]
fn paging_stays_in_range() {
    let pages = total_pages(25);
    assert_eq!(pages, 3);
    let mut page = 0;
    for _ in 0..5 {
        page = next_page(page, pages);
        assert!(page < pages);
    }
    assert_eq!(page, 2);
    for _ in 0..5 {
        page = previous_page(page);
    }
    assert_eq!(page, 0);
}

#[test]
fn option_grid_is_top_k_major() {
    let tops = [1, 5, 9];
    let mins = [0, 500];
    let grid = build_option_grid(&tops, &mins, true);
    assert_eq!(grid.len(), tops.len() * mins.len());
    for i in 0..tops.len() {
        for j in 0..mins.len() {
            let o = grid[i * mins.len() + j];
            assert_eq!((o.top_k, o.min_score_milli, o.include_glossary), (tops[i], mins[j], true));
        }
    }
}

#[test]
fn backend_change_keeps_the_index_size() {
    let catalogs = ModelCatalogs {
        cloudflare: vec![CatalogEntry { id: "a".to_string(), dims: 384 }, CatalogEntry { id: "b".to_string(), dims: 768 }],
        ollama: vec![CatalogEntry { id: "c".to_string(), dims: 1024 }],
    };
    let m = EmbeddingModel { backend: EmbedderBackend::Ollama, id: "c".to_string(), dims: 3 };
    for (value, target) in [("cloudflare", 768u32), ("ollama", 768), ("cloudflare", 999)] {
        let r = model_after_backend_change(&m, value, &catalogs, target);
        assert!(r.dims == target || (r.id.is_empty() && r.dims == m.dims));
    }
    assert!(suggested_models(&catalogs, EmbedderBackend::Cloudflare, 384).iter().all(|e| e.dims == 384));
}

#[test]
fn untouched_edit_resends_the_entry() {
    let cfg = ConfigurationDto {
        ai_providers: Vec::new(),
        vector_store_providers: Vec::new(),
        embedding_models: Vec::new(),
        generation_models: Vec::new(),
        vector_indexes: Vec::new(),
    };
    let mut f = RegistryForm::new(&cfg);
    let dialog = EditDialog::EmbeddingModel(EmbeddingModelDto {
        embedding_model_id: 4,
        provider_id: 8,
        model: "bge".to_string(),
        dimensions: 384,
    });
    f.open_edit(&dialog);
    match submit_edit(&f, &dialog, false) {
        SubmitDecision::Send(ConfigurationCommand::UpdateEmbeddingModel { model_id, provider_id, model, dimensions }) => {
            assert_eq!((model_id, provider_id, model.as_str(), dimensions), (4, 8, "bge", 384));
        },
        _ => panic!("not an embedding update"),
    }
}
