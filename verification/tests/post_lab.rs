use rag_admin::evaluation::{
    apply_options_to_settings, autotune_priority, build_option_grid, can_close_lab,
    dataset_status_label, display_variant_label, embed_button_label, find_variant, glossary_input,
    is_matrix_run, min_score_input, parse_generation_backend, plan_autotune, plan_parameter_matrix,
    rank_label, ranks_by_priority, row_badges, run_detail_label, saved_result_matches,
    selected_action_variant, selected_params_label, top_k_input, validate_embed_inputs,
    AutotuneCounts, ChunkingVariant, EvaluationResultSplit, EvaluationRunOptions,
    EvaluationSettings, EvaluationVariantResult, GenerationBackend,
};
use rag_admin::post_detail::{
    body_size_label, bracketed_count, chunk_count_label, chunk_prefix, chunk_size_labels,
    count_class, dirty_badge, dirty_badge_label, glossary_definition_preview, history_param_label,
    history_run_label, history_variant_label, ingest_footer, ingest_init_message,
    ingest_operation_label, next_disabled, next_page, page_label, page_start, post_path_label,
    previous_disabled, previous_page, sequence_label, showing_label, tab_class, text_length_label,
    token_limit_label, total_pages, truncate_chars, two_digit_count, value_or, DirtyBadge,
    EvaluationRunSummary, IngestFooter, IngestOptions,
};
use rag_admin::tuning::{ChunkStrategy, ChunkingConfig};
use rag_admin::evaluation::accept_latest_result;
use rag_admin::evaluation::{ best_saved_outcome, preview_status, process_failure_message, result_row_class, row_saved_outcome, toggle_misses, };
use rag_admin::post_detail::{clear_outcome, ingest_to_start};

fn config(strategy: ChunkStrategy, target: u32) -> ChunkingConfig {
    ChunkingConfig {
        strategy,
        target_chars: target,
        overlap_chars: 100,
        min_chars: 50,
        max_section_chars: 2000,
        llm_micro_chunk_chars: 300,
    }
}

fn variant(label: &str) -> ChunkingVariant {
    ChunkingVariant { label: label.to_string(), config: config(ChunkStrategy::Bert, 800) }
}

fn options(top_k: u32, min: u32) -> EvaluationRunOptions {
    EvaluationRunOptions { top_k, min_score_milli: min, include_glossary: false }
}

fn result(label: &str, selected: bool, split: EvaluationResultSplit, opts: EvaluationRunOptions) -> EvaluationVariantResult {
    EvaluationVariantResult {
        variant: variant(label),
        options: opts,
        selected,
        split,
        chunk_count: 10,
        average_retrieved_tokens: 300,
    }
}

#[test]
fn matrix_plan_forms_every_combination() {
    let variants = [variant("a"), variant("b")];
    let (i, grid) = plan_parameter_matrix(&variants, "b", "10,5", "200-300", true).unwrap();
    assert_eq!(i, 1);
    let pairs: Vec<(u32, u32, bool)> = grid.iter().map(|o| (o.top_k, o.min_score_milli, o.include_glossary)).collect();
    assert_eq!(pairs, vec![(5, 200, true), (5, 300, true), (10, 200, true), (10, 300, true)]);
}

#[test]
fn matrix_plan_faults() {
    let variants = [variant("a")];
    assert_eq!(
        plan_parameter_matrix(&variants, "zzz", "5", "0", false).unwrap_err(),
        "PARAM_MATRIX_FAULT: unknown variant zzz"
    );
    assert_eq!(
        plan_parameter_matrix(&variants, "a", "0", "0", false).unwrap_err(),
        "TOP_K_RANGE_FAULT: 0 is outside 1..=100"
    );
    assert_eq!(
        plan_parameter_matrix(&variants, "a", "5", "2000", false).unwrap_err(),
        "MIN_SCORE_RANGE_FAULT: 2000 is outside 0..=1000"
    );
}

#[test]
fn autotune_plan_and_faults() {
    let g = plan_autotune("3,1", "0-200", "true,false").unwrap();
    assert_eq!(g.top_k_values, vec![1, 3]);
    assert_eq!(g.min_score_milli_values, vec![0, 100, 200]);
    assert_eq!(g.include_glossary_values, vec![true, false]);
    assert_eq!(plan_autotune("x", "0", "true").err().unwrap(), "AUTOTUNE_TOP_K_FAULT: invalid number 'x'");
    assert_eq!(plan_autotune("1", "", "true").err().unwrap(), "AUTOTUNE_MIN_SCORE_FAULT: no values supplied");
    assert_eq!(plan_autotune("1", "0", "sure").err().unwrap(), "AUTOTUNE_GLOSSARY_FAULT: invalid boolean 'sure'");
}

#[test]
fn option_grid_of_empty_axis_is_empty() {
    assert!(build_option_grid(&[1, 2], &[], false).is_empty());
    assert_eq!(build_option_grid(&[7], &[100], false).len(), 1);
}

#[test]
fn find_variant_takes_the_first_match() {
    let variants = [variant("x"), variant("y"), variant("y")];
    assert_eq!(find_variant(&variants, "y"), Some(1));
    assert_eq!(find_variant(&variants, "q"), None);
}

#[test]
fn autotune_ranking_and_saved_variant() {
    let best = result("best", true, EvaluationResultSplit::Holdout, options(5, 0));
    let holdout = result("h", false, EvaluationResultSplit::Holdout, options(5, 0));
    let tuning = result("t", false, EvaluationResultSplit::Tuning, options(5, 0));
    assert_eq!(autotune_priority(&best), 2);
    assert_eq!(autotune_priority(&holdout), 1);
    assert_eq!(autotune_priority(&tuning), 0);
    assert_eq!(ranks_by_priority(&tuning, &best, true), Some(false));
    assert_eq!(ranks_by_priority(&best, &holdout, true), Some(true));
    assert_eq!(ranks_by_priority(&best, &holdout, false), None);
    assert_eq!(ranks_by_priority(&tuning, &tuning, true), None);
    assert_eq!(selected_action_variant(&[tuning.clone(), best.clone()]), Some(1));
    assert_eq!(selected_action_variant(&[tuning.clone(), holdout.clone()]), Some(0));
    assert_eq!(selected_action_variant(&[]), None);
}

#[test]
fn matrix_detection_and_labels() {
    let run = options(5, 300);
    let same = [result("a", false, EvaluationResultSplit::Full, run)];
    let mixed = [result("a", false, EvaluationResultSplit::Full, run), result("a", false, EvaluationResultSplit::Full, options(8, 300))];
    assert!(!is_matrix_run(&same, run));
    assert!(is_matrix_run(&mixed, run));
    assert_eq!(run_detail_label(None, false, 3, run), "TOP_K=5 · MIN_SCORE=300 · VARIANTS=3");
    assert_eq!(run_detail_label(None, true, 4, run), "MATRIX_RESULTS=4");
    let counts = AutotuneCounts { candidate_count: 12, tuning_question_count: 30, holdout_question_count: 10 };
    assert_eq!(
        run_detail_label(Some(counts), true, 4, run),
        "AUTOTUNE_CANDIDATES=12 · TUNING_Q=30 · HOLDOUT_Q=10"
    );
    assert_eq!(selected_params_label(run), "k=5 min=300");
    assert_eq!(rank_label(2, "bert"), "#2 bert");
    assert_eq!(row_badges(1, config(ChunkStrategy::Bert, 800), config(ChunkStrategy::Bert, 900)), (true, false));
    assert_eq!(display_variant_label("current", "bert:800"), "bert:800");
    assert_eq!(display_variant_label("llm:96", "bert:800"), "llm:96");
}

#[test]
fn saving_the_best_options() {
    let settings = EvaluationSettings {
        top_k: 5,
        min_score_milli: 0,
        include_glossary: false,
        generation_backend: GenerationBackend::Ollama,
    };
    let saved = apply_options_to_settings(settings, EvaluationRunOptions { top_k: 8, min_score_milli: 400, include_glossary: true });
    assert_eq!(saved.top_k, 8);
    assert_eq!(saved.min_score_milli, 400);
    assert!(saved.include_glossary);
    assert_eq!(saved.generation_backend, GenerationBackend::Ollama);
    assert_eq!(parse_generation_backend("workers_ai"), GenerationBackend::WorkersAi);
    assert_eq!(parse_generation_backend("else"), GenerationBackend::Ollama);
}

#[test]
fn saved_result_is_recognised() {
    let o = options(5, 0);
    assert!(saved_result_matches(o, &[variant("a")], o, &[variant("a")]));
    assert!(!saved_result_matches(o, &[variant("a")], o, &[variant("b")]));
    assert!(!saved_result_matches(o, &[variant("a")], options(6, 0), &[variant("a")]));
}

#[test]
fn lab_inputs() {
    assert_eq!(top_k_input("0"), 1);
    assert_eq!(top_k_input("x"), 1);
    assert_eq!(top_k_input("12"), 12);
    assert_eq!(min_score_input("5000"), 1000);
    assert_eq!(min_score_input("x"), 0);
    assert!(glossary_input("true"));
    assert!(!glossary_input("True"));
    assert_eq!(dataset_status_label(true, 12), "READY · 12 QUESTION(S)");
    assert_eq!(dataset_status_label(false, 12), "NOT_GENERATED");
    assert!(!can_close_lab(true, false));
    assert_eq!(validate_embed_inputs(" ", "b"), Err("Both text fields are required.".to_string()));
    assert_eq!(validate_embed_inputs("a", "b"), Ok(()));
    assert_eq!(embed_button_label(true), "COMPUTING...");
}

#[test]
fn ingest_dialog_labels() {
    let o = IngestOptions { force: true, dry_run: true, chunking_override: None };
    assert_eq!(ingest_operation_label(Some(o)), "FORCE_REBUILD");
    assert_eq!(ingest_operation_label(None), "EXECUTE_INGEST");
    let o = IngestOptions { force: false, dry_run: true, chunking_override: Some(config(ChunkStrategy::Llm, 1)) };
    assert_eq!(ingest_operation_label(Some(o)), "DRY_RUN");
    assert_eq!(ingest_init_message(o), "INIT_PROCESS: force_mode=false, dry_run=true, override=yes...");
    assert_eq!(dirty_badge(false, true), DirtyBadge::UpToDate);
    assert_eq!(dirty_badge_label(dirty_badge(false, false)), "UNINITIALIZED");
    assert_eq!(ingest_footer(false, true), IngestFooter::Close);
    assert_eq!(ingest_footer(false, false), IngestFooter::Confirm);
}

#[test]
fn chunk_card_labels() {
    let l = chunk_size_labels(ChunkStrategy::Section, 2500, 400, 2000);
    assert_eq!(l.length_label, "LENGTH: 2500/2000 CHARS");
    assert_eq!(l.count_label, "TOKENS: 400");
    assert!(l.over_limit);
    let l = chunk_size_labels(ChunkStrategy::Bert, 900, 200, 256);
    assert_eq!(l.length_label, "LENGTH: 900 CHARS");
    assert_eq!(l.count_label, "TOKENS: 200/256");
    assert!(!l.over_limit);
    assert_eq!(count_class(true), "log-line-error font-bold");
    assert_eq!(chunk_prefix(true), "GLOSSARY");
    assert_eq!(sequence_label(7), "SEQ: 007");
    assert_eq!(sequence_label(1234), "SEQ: 1234");
    assert_eq!(text_length_label(42), "TEXT_LENGTH: 42 CHARS");
    assert!(tab_class(false).starts_with("tech-label opacity-50"));
}

#[test]
fn post_detail_labels() {
    assert_eq!(bracketed_count("CHUNKS", 3), "CHUNKS [03]");
    assert_eq!(two_digit_count(123), "123");
    assert_eq!(body_size_label(2048), "2048 B");
    assert_eq!(chunk_count_label(None), "0");
    assert_eq!(chunk_count_label(Some(9)), "9");
    assert_eq!(post_path_label("hello"), "./posts/hello");
    assert_eq!(token_limit_label(512), "512 TOKENS");
    assert_eq!(value_or(None, "—"), "—");
    assert_eq!(truncate_chars("héllo wörld", 5), "héllo...");
    assert_eq!(truncate_chars("short", 5), "short");
    let long = "x".repeat(301);
    assert_eq!(glossary_definition_preview(&long), format!("{}...", "x".repeat(300)));
}

#[test]
fn history_paging() {
    assert_eq!(total_pages(0), 0);
    assert_eq!(total_pages(10), 1);
    assert_eq!(total_pages(11), 2);
    assert!(previous_disabled(0));
    assert!(next_disabled(1, 2));
    assert!(!next_disabled(0, 2));
    assert_eq!(previous_page(0), 0);
    assert_eq!(next_page(0, 2), 1);
    assert_eq!(next_page(1, 2), 1);
    assert_eq!(page_start(2), 20);
    assert_eq!(showing_label(1, 15), "SHOWING 11-15 OF 15");
    assert_eq!(showing_label(0, 15), "SHOWING 1-10 OF 15");
    assert_eq!(page_label(0, 2), "PAGE 1/2");
}

#[test]
fn history_row_labels() {
    let mut run = EvaluationRunSummary {
        run_id: "run-1".to_string(),
        created_at: String::new(),
        variant_count: 1,
        option_count: 1,
        variant_labels: vec!["bert:800".to_string()],
        best_label: "best".to_string(),
        options: options(5, 0),
    };
    assert_eq!(history_variant_label(&run), "bert:800");
    assert_eq!(history_run_label(&run), "run-1");
    run.variant_count = 3;
    assert_eq!(history_variant_label(&run), "3 VARIANTS · BEST best");
    run.option_count = 4;
    assert_eq!(history_variant_label(&run), "4 MATRIX RESULTS · BEST best");
    run.created_at = "2024-01-01".to_string();
    assert_eq!(history_run_label(&run), "2024-01-01");
    assert_eq!(history_param_label(2, 5), "MIXED");
    assert_eq!(history_param_label(1, 5), "5");
}

#[test]
fn latest_result_must_be_the_finished_run() {
    let o = options(5, 0);
    let rows = [result("a", false, EvaluationResultSplit::Full, o)];
    assert_eq!(
        accept_latest_result(None, o, &[variant("a")]),
        Err("evaluation finished without saving a result".to_string())
    );
    assert_eq!(accept_latest_result(Some((o, &rows)), o, &[variant("a")]), Ok(()));
    assert_eq!(
        accept_latest_result(Some((o, &rows)), o, &[variant("b")]),
        Err("latest saved evaluation does not match the completed run".to_string())
    );
    assert_eq!(
        accept_latest_result(Some((options(6, 0), &rows)), o, &[variant("a")]),
        Err("latest saved evaluation does not match the completed run".to_string())
    );
}

#[test]
fn result_table_outcomes() {
    assert_eq!(best_saved_outcome("bert:800", Ok(())), (true, "BEST_SAVED: bert:800".to_string()));
    assert_eq!(best_saved_outcome("x", Err("io".to_string())), (false, "SAVE_FAULT: io".to_string()));
    assert_eq!(row_saved_outcome(Ok(())), (true, "CONFIG_AND_EVAL_DEFAULTS_SAVED".to_string()));
    assert_eq!(preview_status("llm:96"), (true, "PREVIEWING_VARIANT: llm:96".to_string()));
    assert_eq!(process_failure_message("busy"), "PROCESS_FAILURE: busy");
    assert_eq!(result_row_class(true), "bg-emerald-950/30 hover:bg-emerald-950/40 group");
    assert!(toggle_misses(false, 2));
    assert!(!toggle_misses(true, 2));
    assert!(toggle_misses(true, 0));
}

#[test]
fn ingest_confirmation_and_clearing() {
    let o = IngestOptions { force: false, dry_run: false, chunking_override: None };
    assert_eq!(ingest_to_start(Some(o), false), Some(o));
    assert_eq!(ingest_to_start(Some(o), true), None);
    assert_eq!(ingest_to_start(None, false), None);
    assert_eq!(clear_outcome(Ok(())), (true, "POST_CONFIG_CLEARED".to_string()));
    assert_eq!(clear_outcome(Err("gone".to_string())), (false, "CLEAR_FAULT: gone".to_string()));
}
