use rag_admin::document_detail::{
    can_run_evaluation, can_start_indexing, date_short, derive_header, derive_status,
    document_type_label, embed_blocked_reason, eval_status_display, index_blocked_reason,
    job_just_finished, new_indexing_button_label, question_count_label, run_button_label,
    run_status_display, section_token_choices, section_variant_label, short_hash, stage_button_class,
    stage_button_disabled, stage_button_label, stage_progress, status_display, version_label,
    IndexingDto, SourceDocumentDto,
};
use rag_admin::ids::embed_probe_href;
use rag_admin::posts_list::{
    document_href, ingest_status, latest_version_label, reference_label, total_records_label,
    DocumentListItemDto,
};
use rag_admin::primitives::{
    kv_content, metric_bar_colour, pill_kind, surface_class, surface_has_header, KvContent,
    MetricKind, Status,
};
use rag_admin::document_detail::{run_subtitle, run_title, variant_card_class, variant_card_stats};
use rag_admin::document_detail::resolve_chunking;

fn indexing(status: &str) -> IndexingDto {
    IndexingDto { indexing_id: 1, pipeline_configuration_id: 2, status: status.to_string(), document_version: 1 }
}

#[test]
fn status_display_reads_the_furthest_stage() {
    assert!(matches!(status_display("Indexed"), (Status::Success, "Indexed")));
    assert!(matches!(status_display("IngestionFailed"), (Status::Fail, "Failed")));
    assert!(matches!(status_display("Embedding"), (Status::Pending, "Embedded")));
    assert!(matches!(status_display("Chunking"), (Status::Pending, "Chunked")));
    assert!(matches!(status_display("Requested"), (Status::Pending, "Pending")));
}

#[test]
fn document_status_over_all_indexings() {
    let (s, l) = derive_status(&[]);
    assert!(matches!(s, Status::Info));
    assert_eq!(l, "Registered");
    let (s, l) = derive_status(&[indexing("Failed"), indexing("Indexed")]);
    assert!(matches!(s, Status::Success));
    assert_eq!(l, "Indexed");
    let (s, l) = derive_status(&[indexing("Chunking"), indexing("Failed")]);
    assert!(matches!(s, Status::Fail));
    assert_eq!(l, "Failed");
    let (s, l) = derive_status(&[indexing("Chunking"), indexing("Embedding")]);
    assert!(matches!(s, Status::Info));
    assert_eq!(l, "Embedded");
}

#[test]
fn header_of_a_blog_post() {
    let doc = SourceDocumentDto {
        document_id: 1,
        document_type: "BlogPost".to_string(),
        source_ref_key: "hello-world".to_string(),
        title: "Hello".to_string(),
        latest_version: 3,
        latest_content_hash: "0123456789abcdef".to_string(),
    };
    let h = derive_header(&doc, &[indexing("Indexed")]);
    assert_eq!(h.eyebrow, "Documents / Blog post / hello-world");
    assert_eq!(h.title, "Hello");
    assert_eq!(h.subtitle, Some("Blog post · v3 · 0123456789ab".to_string()));
    assert_eq!(h.status.1, "Indexed");
    assert_eq!(document_type_label("Note"), "Document");
}

#[test]
fn short_hashes() {
    assert_eq!(short_hash("0123456789abcdef"), "0123456789ab");
    assert_eq!(short_hash("abc"), "abc");
    assert_eq!(rag_admin::post_detail::short_hash("0123456789abcdef"), "0123456789ab...");
    assert_eq!(rag_admin::post_detail::short_hash("0123456789ab"), "0123456789ab");
}

#[test]
fn stage_controls() {
    let p = stage_progress("Embedding");
    assert!(p.chunked && p.embedded && !p.indexed);
    assert_eq!(embed_blocked_reason(p), None);
    assert_eq!(index_blocked_reason(p), None);
    let p = stage_progress("Requested");
    assert_eq!(embed_blocked_reason(p), Some("Chunk first".to_string()));
    assert_eq!(index_blocked_reason(p), Some("Embed first".to_string()));
    assert_eq!(stage_button_class(true, false, false, true), "btn text-xs px-2 py-1 btn-ghost");
    assert_eq!(stage_button_class(false, false, true, false), "btn text-xs px-2 py-1 opacity-50");
    assert!(stage_button_disabled(false, true));
    assert_eq!(stage_button_label("Embed", true, false), "Embed…");
    assert_eq!(stage_button_label("Embed", false, true), "Embed ✓");
}

#[test]
fn new_indexing_controls() {
    assert!(can_start_indexing(true, true, false));
    assert!(!can_start_indexing(true, true, true));
    assert_eq!(new_indexing_button_label(false, false, true), "Select a pipeline");
    assert_eq!(new_indexing_button_label(false, true, false), "Select a chunking config");
    assert_eq!(new_indexing_button_label(false, true, true), "Create — manual stages");
    assert_eq!(version_label(12), "v12");
}

#[test]
fn evaluation_tab_labels() {
    assert_eq!(eval_status_display("completed"), ("text-emerald-500/80", "COMPLETED"));
    assert_eq!(eval_status_display("weird"), ("opacity-50", "UNKNOWN"));
    assert!(matches!(run_status_display("running"), (Status::Pending, "Running")));
    assert!(matches!(run_status_display("other"), (Status::Neutral, "Unknown")));
    assert_eq!(date_short("2024-05-01T10:20:30Z"), "2024-05-01T10:20");
    assert_eq!(date_short("2024-05-01"), "2024-05-01");
    assert_eq!(section_variant_label(512), "section:512");
    assert_eq!(section_token_choices(), vec![256, 384, 512, 768, 1024]);
    assert!(!can_run_evaluation(true, false));
    assert_eq!(run_button_label(false, false), "SELECT_DATASET_AND_PIPELINE");
    assert_eq!(run_button_label(false, true), "START_EVALUATION_RUN");
    assert!(job_just_finished(Some(true), false));
    assert!(!job_just_finished(None, false));
    assert_eq!(question_count_label(40), "40Q");
}

#[test]
fn posts_list_rows() {
    let mut doc = DocumentListItemDto {
        document_id: None,
        source_ref_key: "hello".to_string(),
        title: "Hello".to_string(),
        document_type: "BlogPost".to_string(),
        latest_version: None,
        indexings: Vec::new(),
    };
    assert_eq!(ingest_status(&doc), ("NEVER_INGESTED", "text-amber-500/80"));
    doc.document_id = Some(5);
    assert_eq!(ingest_status(&doc), ("REGISTERED", "text-blue-400/80"));
    doc.indexings = vec![indexing("Chunking")];
    assert_eq!(ingest_status(&doc), ("IN_PROGRESS", "text-amber-500/80"));
    doc.indexings.push(indexing("Failed"));
    assert_eq!(ingest_status(&doc), ("FAILED", "text-red-500/80"));
    assert_eq!(document_href(&doc), "/documents/blogpost/hello");
    assert_eq!(rag_admin::posts_list::document_type_label("BlogPost"), "BLOG_POST");
    assert_eq!(reference_label("hello"), "./hello");
    assert_eq!(latest_version_label(None), "—");
    assert_eq!(latest_version_label(Some(2)), "v2");
    assert_eq!(total_records_label(7), "TOTAL_RECORDS: 007");
    assert_eq!(total_records_label(1234), "TOTAL_RECORDS: 1234");
}

#[test]
fn embed_probe_link_is_percent_encoded() {
    assert_eq!(embed_probe_href("a b&c"), "/embed?a=a%20b%26c");
    assert_eq!(embed_probe_href("safe-._~"), "/embed?a=safe-._~");
    assert_eq!(embed_probe_href("é"), "/embed?a=%C3%A9");
}

#[test]
fn primitives() {
    assert_eq!(Status::Success.class(), "pill pill-ok");
    assert_eq!(Status::Stale.class(), "pill pill-stale");
    assert!(matches!(pill_kind(None), Status::Neutral));
    assert_eq!(metric_bar_colour(Some(MetricKind::Best)), "var(--color-accent)");
    assert_eq!(metric_bar_colour(None), "var(--status-info)");
    assert_eq!(surface_class(true, false, Some("x")), "surface-raised p-4 x");
    assert_eq!(surface_class(false, true, None), "surface  ");
    assert!(surface_has_header(false, true));
    assert!(matches!(kv_content(false, true), KvContent::Children));
    assert!(matches!(kv_content(false, false), KvContent::Placeholder));
}

#[test]
fn run_page_labels() {
    assert_eq!(run_title(0x67e5504410b1426f9247bb680e5fe0c8), "run-67e55044");
    assert_eq!(run_subtitle(3, "2024-05-01"), "3 variants · 2024-05-01");
    assert_eq!(variant_card_stats(12, 240), "12 chunks · avg 240 tokens");
    assert_eq!(variant_card_class(false), "surface-raised rounded p-4 ");
    assert_eq!(variant_card_class(true), "surface-raised rounded p-4 border-l-2 border-l-[var(--color-accent)]");
}

#[test]
fn chunking_selection_is_resolved_by_id() {
    assert_eq!(resolve_chunking(&[4, 7, 7], Some(7)), Some(1));
    assert_eq!(resolve_chunking(&[4, 7], Some(9)), None);
    assert_eq!(resolve_chunking(&[4, 7], None), None);
}
