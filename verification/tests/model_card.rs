use rag_admin::settings::{
    catalog_option_label, dims_input_class, dims_locked, embedder_backend_value, in_catalog,
    incompatible_models, model_after_backend_change, model_after_dims_input, model_after_select,
    model_select_value, no_compatible_warning, parse_embedder_backend, save_outcome,
    suggested_models, CatalogEntry, EmbedderBackend, EmbeddingModel, ModelCatalogs,
};

fn entry(id: &str, dims: u32) -> CatalogEntry {
    CatalogEntry { id: id.to_string(), dims }
}

fn catalogs() -> ModelCatalogs {
    ModelCatalogs {
        cloudflare: vec![entry("@cf/bge-small", 384), entry("@cf/bge-base", 768), entry("@cf/bge-large", 1024)],
        ollama: vec![entry("nomic-embed-text", 768), entry("mxbai-embed-large", 1024)],
    }
}

fn ids(v: &[CatalogEntry]) -> Vec<String> {
    v.iter().map(|e| e.id.clone()).collect()
}

#[test]
fn backend_values_round_trip() {
    assert_eq!(embedder_backend_value(EmbedderBackend::Ollama), "ollama");
    assert_eq!(parse_embedder_backend("ollama"), EmbedderBackend::Ollama);
    assert_eq!(parse_embedder_backend("cloudflare"), EmbedderBackend::Cloudflare);
    assert_eq!(parse_embedder_backend("anything"), EmbedderBackend::Cloudflare);
}

#[test]
fn cloudflare_offers_only_models_of_the_index_size() {
    let c = catalogs();
    assert_eq!(ids(&suggested_models(&c, EmbedderBackend::Cloudflare, 768)), vec!["@cf/bge-base"]);
    assert_eq!(
        ids(&incompatible_models(&c, EmbedderBackend::Cloudflare, 768)),
        vec!["@cf/bge-small", "@cf/bge-large"]
    );
}

#[test]
fn ollama_offers_its_whole_catalog() {
    let c = catalogs();
    assert_eq!(
        ids(&suggested_models(&c, EmbedderBackend::Ollama, 384)),
        vec!["nomic-embed-text", "mxbai-embed-large"]
    );
    assert!(incompatible_models(&c, EmbedderBackend::Ollama, 384).is_empty());
}

#[test]
fn catalog_membership_and_locking() {
    let c = catalogs();
    assert!(in_catalog(&c, EmbedderBackend::Cloudflare, "@cf/bge-base"));
    assert!(!in_catalog(&c, EmbedderBackend::Ollama, "@cf/bge-base"));
    let cf = EmbeddingModel { backend: EmbedderBackend::Cloudflare, id: "@cf/bge-base".to_string(), dims: 768 };
    assert!(dims_locked(&c, &cf));
    let custom = EmbeddingModel { backend: EmbedderBackend::Cloudflare, id: "mine".to_string(), dims: 768 };
    assert!(!dims_locked(&c, &custom));
    let ol = EmbeddingModel { backend: EmbedderBackend::Ollama, id: "nomic-embed-text".to_string(), dims: 768 };
    assert!(!dims_locked(&c, &ol));
    assert_eq!(dims_input_class(true), "input font-mono text-sm opacity-60");
    assert_eq!(model_select_value(&c, &cf), "@cf/bge-base");
    assert_eq!(model_select_value(&c, &custom), "__custom__");
}

#[test]
fn switching_to_cloudflare_picks_a_model_of_the_index_size() {
    let c = catalogs();
    let m = EmbeddingModel { backend: EmbedderBackend::Ollama, id: "nomic-embed-text".to_string(), dims: 1 };
    let r = model_after_backend_change(&m, "cloudflare", &c, 1024);
    assert_eq!(r.backend, EmbedderBackend::Cloudflare);
    assert_eq!(r.id, "@cf/bge-large");
    assert_eq!(r.dims, 1024);
}

#[test]
fn switching_to_ollama_keeps_the_index_size() {
    let c = catalogs();
    let m = EmbeddingModel { backend: EmbedderBackend::Cloudflare, id: "@cf/bge-small".to_string(), dims: 384 };
    let r = model_after_backend_change(&m, "ollama", &c, 384);
    assert_eq!(r.backend, EmbedderBackend::Ollama);
    assert_eq!(r.id, "nomic-embed-text");
    assert_eq!(r.dims, 384);
}

#[test]
fn switching_with_no_fitting_model_clears_the_id() {
    let c = catalogs();
    let m = EmbeddingModel { backend: EmbedderBackend::Ollama, id: "x".to_string(), dims: 99 };
    let r = model_after_backend_change(&m, "cloudflare", &c, 1536);
    assert_eq!(r.backend, EmbedderBackend::Cloudflare);
    assert_eq!(r.id, "");
    assert_eq!(r.dims, 99);
}

#[test]
fn selecting_models() {
    let c = catalogs();
    let m = EmbeddingModel { backend: EmbedderBackend::Cloudflare, id: "@cf/bge-small".to_string(), dims: 384 };
    let r = model_after_select(&m, "@cf/bge-large", &c);
    assert_eq!((r.id.as_str(), r.dims), ("@cf/bge-large", 1024));
    let r = model_after_select(&m, "__custom__", &c);
    assert_eq!((r.id.as_str(), r.dims), ("", 384));
    let r = model_after_select(&m, "unknown", &c);
    assert_eq!((r.id.as_str(), r.dims), ("@cf/bge-small", 384));
    let o = EmbeddingModel { backend: EmbedderBackend::Ollama, id: "own".to_string(), dims: 5 };
    let r = model_after_select(&o, "mxbai-embed-large", &c);
    assert_eq!((r.id.as_str(), r.dims), ("mxbai-embed-large", 5));
    let r = model_after_select(&o, "__custom__", &c);
    assert_eq!(r.id, "own");
}

#[test]
fn typing_the_size() {
    let m = EmbeddingModel { backend: EmbedderBackend::Ollama, id: "own".to_string(), dims: 5 };
    assert_eq!(model_after_dims_input(&m, "1536").dims, 1536);
    assert_eq!(model_after_dims_input(&m, "12a").dims, 0);
}

#[test]
fn catalog_labels_and_warning() {
    assert_eq!(catalog_option_label(&entry("@cf/bge-base", 768)), "@cf/bge-base (768 dims)");
    let c = catalogs();
    assert_eq!(
        no_compatible_warning(&c, EmbedderBackend::Cloudflare, 1536),
        Some("NO COMPATIBLE CLOUDFLARE MODELS at 1536 dims — adjust index dimensions or switch backend.".to_string())
    );
    assert_eq!(no_compatible_warning(&c, EmbedderBackend::Cloudflare, 768), None);
    assert_eq!(no_compatible_warning(&c, EmbedderBackend::Ollama, 1536), None);
}

#[test]
fn save_outcomes() {
    assert_eq!(save_outcome(Ok(())), (true, "STATE_SYNC_COMPLETE".to_string()));
    assert_eq!(save_outcome(Err("disk full".to_string())), (false, "SYNC_FAULT: disk full".to_string()));
}
