//! The evaluation laboratory: run options, the parameter grid, and the
//! choice of the variant whose settings get saved.

use vstd::prelude::*;
use vstd::string::StringExecFns;
use crate::options::{
    parse_bool_values, parse_u32_values, sorted_unique, strictly_increasing, u32_list_spec,
    bool_list_spec,
};
use crate::text::{chars_eq, decimal, is_blank, push_decimal, str_eq, trim};
use crate::tuning::{number_input, number_input_spec, ChunkingConfig};

verus! {

/// The retrieval options of an evaluation run.
#[derive(Debug, Clone, Copy, PartialEq, Eq, Structural)]
pub struct EvaluationRunOptions {
    pub top_k: u32,
    pub min_score_milli: u32,
    pub include_glossary: bool,
}

/// A chunking configuration under a name.
#[derive(Debug, Clone)]
pub struct ChunkingVariant {
    pub label: String,
    pub config: ChunkingConfig,
}

/// Which questions a variant's scores were measured on.
#[derive(Debug, Clone, Copy, PartialEq, Eq, Structural)]
pub enum EvaluationResultSplit {
    /// All questions (a plain run).
    Full,
    /// The questions autotuning chose parameters on.
    Tuning,
    /// The questions held back to check the chosen parameters.
    Holdout,
}

/// The part of a variant's result that the ranking and saving logic reads.
#[derive(Debug, Clone)]
pub struct EvaluationVariantResult {
    pub variant: ChunkingVariant,
    pub options: EvaluationRunOptions,
    pub selected: bool,
    pub split: EvaluationResultSplit,
    pub chunk_count: u32,
    pub average_retrieved_tokens: u32,
}

// ---------------------------------------------------------------------------
// The parameter grid
// ---------------------------------------------------------------------------

/// One row of the grid: `top_k` with every minimum score.
pub open spec fn grid_row(top_k: u32, mins: Seq<u32>, include_glossary: bool) -> Seq<EvaluationRunOptions> {
    Seq::new(
        mins.len(),
        |j: int| EvaluationRunOptions { top_k, min_score_milli: mins[j], include_glossary },
    )
}

/// Every combination of a top-k value and a minimum score, top-k major.
pub open spec fn option_grid(tops: Seq<u32>, mins: Seq<u32>, include_glossary: bool) -> Seq<EvaluationRunOptions>
    decreases tops.len(),
{
    if tops.len() == 0 {
        Seq::<EvaluationRunOptions>::empty()
    } else {
        option_grid(tops.drop_last(), mins, include_glossary) + grid_row(
            tops.last(),
            mins,
            include_glossary,
        )
    }
}

/// The grid holds every combination once, in top-k major order.
pub proof fn law_option_grid_layout(tops: Seq<u32>, mins: Seq<u32>, g: bool)
    ensures
        option_grid(tops, mins, g).len() == tops.len() * mins.len(),
        forall|i: int, j: int|
            0 <= i < tops.len() && 0 <= j < mins.len() ==> #[trigger] option_grid(tops, mins, g)[i
                * mins.len() + j] == (EvaluationRunOptions {
                top_k: tops[i],
                min_score_milli: mins[j],
                include_glossary: g,
            }),
    decreases tops.len(),
{
    if tops.len() > 0 {
        let prev = tops.drop_last();
        law_option_grid_layout(prev, mins, g);
        let n = prev.len();
        let m = mins.len();
        assert(option_grid(tops, mins, g).len() == tops.len() * m) by (nonlinear_arith)
            requires
                option_grid(tops, mins, g).len() == n * m + m,
                tops.len() == n + 1,
        ;
        assert forall|i: int, j: int| 0 <= i < tops.len() && 0 <= j < m implies #[trigger] option_grid(
            tops,
            mins,
            g,
        )[i * m + j] == (EvaluationRunOptions {
            top_k: tops[i],
            min_score_milli: mins[j],
            include_glossary: g,
        }) by {
            if i < n {
                assert(i * m + j < n * m) by (nonlinear_arith)
                    requires
                        i < n,
                        j < m,
                        0 <= i,
                        0 <= j,
                ;
                assert(prev[i] == tops[i]);
            } else {
                assert(i * m + j == n * m + j) by (nonlinear_arith)
                    requires
                        i == n,
                ;
                assert(0 <= n * m) by (nonlinear_arith)
                    requires
                        0 <= n,
                        0 <= m,
                ;
            }
        }
    }
}

/// Every option set of the grid carries the chosen glossary switch, a
/// listed top-k value and a listed minimum score.
pub proof fn lemma_option_grid_entries(tops: Seq<u32>, mins: Seq<u32>, g: bool)
    ensures
        forall|k: int|
            0 <= k < option_grid(tops, mins, g).len() ==> (#[trigger] option_grid(tops, mins, g)[k]).include_glossary
                == g && tops.contains(option_grid(tops, mins, g)[k].top_k) && mins.contains(
                option_grid(tops, mins, g)[k].min_score_milli,
            ),
    decreases tops.len(),
{
    if tops.len() > 0 {
        let prev = tops.drop_last();
        lemma_option_grid_entries(prev, mins, g);
        let a = option_grid(prev, mins, g);
        let row = grid_row(tops.last(), mins, g);
        let all = option_grid(tops, mins, g);
        assert forall|k: int| 0 <= k < all.len() implies (#[trigger] all[k]).include_glossary == g
            && tops.contains(all[k].top_k) && mins.contains(all[k].min_score_milli) by {
            if k < a.len() {
                assert(all[k] == a[k]);
                let t = choose|t: int| 0 <= t < prev.len() && prev[t] == a[k].top_k;
                assert(tops[t] == prev[t]);
            } else {
                let j = k - a.len();
                assert(all[k] == row[j]);
                assert(mins[j] == row[j].min_score_milli);
                assert(tops[tops.len() - 1] == tops.last());
            }
        }
    }
}

/// The option sets of a parameter matrix: each top-k value with each
/// minimum score, top-k major, all with the same glossary switch.
pub fn build_option_grid(tops: &[u32], mins: &[u32], include_glossary: bool) -> (r: Vec<
    EvaluationRunOptions,
>)
    ensures
        r@ == option_grid(tops@, mins@, include_glossary),
{
    let mut r: Vec<EvaluationRunOptions> = Vec::new();
    let mut i: usize = 0;
    while i < tops.len()
        invariant
            i <= tops.len(),
            r@ == option_grid(tops@.take(i as int), mins@, include_glossary),
        decreases tops.len() - i,
    {
        let ghost before = r@;
        let mut j: usize = 0;
        while j < mins.len()
            invariant
                i < tops.len(),
                j <= mins.len(),
                r@ == before + grid_row(tops@[i as int], mins@.take(j as int), include_glossary),
            decreases mins.len() - j,
        {
            r.push(
                EvaluationRunOptions {
                    top_k: tops[i],
                    min_score_milli: mins[j],
                    include_glossary,
                },
            );
            assert(r@ =~= before + grid_row(tops@[i as int], mins@.take(j + 1), include_glossary));
            j += 1;
        }
        assert(mins@.take(mins.len() as int) =~= mins@);
        assert(tops@.take(i + 1).drop_last() =~= tops@.take(i as int));
        i += 1;
    }
    assert(tops@.take(tops.len() as int) =~= tops@);
    r
}

/// The position of the first variant with the given label.
pub open spec fn first_variant_with(vs: Seq<ChunkingVariant>, label: Seq<char>) -> Option<int>
    decreases vs.len(),
{
    if vs.len() == 0 {
        None
    } else if vs[0].label@ == label {
        Some(0)
    } else {
        match first_variant_with(vs.drop_first(), label) {
            Some(i) => Some(i + 1),
            None => None,
        }
    }
}

proof fn lemma_first_variant(vs: Seq<ChunkingVariant>, label: Seq<char>, i: int)
    requires
        0 <= i <= vs.len(),
        forall|k: int| 0 <= k < i ==> vs[k].label@ != label,
    ensures
        i < vs.len() && vs[i].label@ == label ==> first_variant_with(vs, label) == Some(i),
        i == vs.len() ==> first_variant_with(vs, label) is None,
    decreases i,
{
    if i > 0 {
        lemma_first_variant(vs.drop_first(), label, i - 1);
    }
}

proof fn lemma_first_variant_found(vs: Seq<ChunkingVariant>, label: Seq<char>)
    ensures
        first_variant_with(vs, label) matches Some(j) ==> 0 <= j < vs.len() && vs[j].label@ == label,
    decreases vs.len(),
{
    if vs.len() > 0 {
        lemma_first_variant_found(vs.drop_first(), label);
    }
}

proof fn lemma_first_variant_in_range(vs: Seq<ChunkingVariant>, label: Seq<char>)
    ensures
        first_variant_with(vs, label) matches Some(j) ==> 0 <= j < vs.len(),
    decreases vs.len(),
{
    if vs.len() > 0 {
        lemma_first_variant_in_range(vs.drop_first(), label);
    }
}

/// The position of the variant labelled `label`, if any.
pub fn find_variant(variants: &[ChunkingVariant], label: &str) -> (r: Option<usize>)
    ensures
        match first_variant_with(variants@, label@) {
            Some(i) => 0 <= i < variants@.len() && (r matches Some(k) && k == i),
            None => r is None,
        },
{
    let mut k: usize = 0;
    while k < variants.len()
        invariant
            k <= variants.len(),
            forall|m: int| 0 <= m < k ==> variants@[m].label@ != label@,
        decreases variants.len() - k,
    {
        if str_eq(variants[k].label.as_str(), label) {
            proof {
                lemma_first_variant_in_range(variants@, label@);
                lemma_first_variant(variants@, label@, k as int);
            }
            return Some(k);
        }
        k += 1;
    }
    proof {
        lemma_first_variant_in_range(variants@, label@);
        lemma_first_variant(variants@, label@, k as int);
    }
    None
}

/// What a parameter-matrix request is answered with: the chosen variant and
/// the option sets to evaluate, or the fault shown in the log.
pub open spec fn matrix_plan_spec(
    variants: Seq<ChunkingVariant>,
    label: Seq<char>,
    top_k_text: Seq<char>,
    min_score_text: Seq<char>,
    include_glossary: bool,
) -> Result<(int, Seq<EvaluationRunOptions>), Seq<char>> {
    match first_variant_with(variants, label) {
        None => Err("PARAM_MATRIX_FAULT: unknown variant "@ + label),
        Some(i) => match u32_list_spec(top_k_text, 1, 100, 1) {
            Err(e) => Err("TOP_K_RANGE_FAULT: "@ + e),
            Ok(tops) => match u32_list_spec(min_score_text, 0, 1000, 100) {
                Err(e) => Err("MIN_SCORE_RANGE_FAULT: "@ + e),
                Ok(mins) => {
                    let grid = option_grid(
                        sorted_unique(tops),
                        sorted_unique(mins),
                        include_glossary,
                    );
                    if grid.len() == 0 {
                        Err("PARAM_MATRIX_FAULT: no option combinations"@)
                    } else {
                        Ok((i, grid))
                    }
                },
            },
        },
    }
}

fn prefixed(prefix: &str, text: &str) -> (r: String)
    ensures
        r@ == prefix@ + text@,
{
    let mut r = String::from_str(prefix);
    r.append(text);
    r
}

/// A successful matrix plan names the variant with the requested label, is
/// never empty, and every option set in it carries the glossary switch the
/// operator chose.
pub proof fn law_matrix_plan_follows_the_request(
    variants: Seq<ChunkingVariant>,
    label: Seq<char>,
    top_k_text: Seq<char>,
    min_score_text: Seq<char>,
    include_glossary: bool,
)
    ensures
        matrix_plan_spec(variants, label, top_k_text, min_score_text, include_glossary) matches Ok(
            (i, grid),
        ) ==> {
            &&& 0 <= i < variants.len()
            &&& variants[i].label@ == label
            &&& grid.len() > 0
            &&& forall|k: int|
                0 <= k < grid.len() ==> (#[trigger] grid[k]).include_glossary == include_glossary
        },
{
    lemma_first_variant_in_range(variants, label);
    lemma_first_variant_found(variants, label);
    if let Ok(tops) = u32_list_spec(top_k_text, 1, 100, 1) {
        if let Ok(mins) = u32_list_spec(min_score_text, 0, 1000, 100) {
            let st = sorted_unique(tops);
            let sm = sorted_unique(mins);
            lemma_option_grid_entries(st, sm, include_glossary);
        }
    }
}

/// Plans a parameter-matrix run: finds the chosen variant, parses the top-k
/// values (1 to 100, step 1) and minimum scores (0 to 1000, step 100), and
/// forms every combination.
pub fn plan_parameter_matrix(
    variants: &[ChunkingVariant],
    label: &str,
    top_k_text: &str,
    min_score_text: &str,
    include_glossary: bool,
) -> (r: Result<(usize, Vec<EvaluationRunOptions>), String>)
    ensures
        match matrix_plan_spec(variants@, label@, top_k_text@, min_score_text@, include_glossary) {
            Ok((i, grid)) => r matches Ok((k, g)) && k == i && g@ == grid,
            Err(e) => r matches Err(m) && m@ == e,
        },
        r matches Ok((k, g)) ==> forall|j: int|
            0 <= j < g@.len() ==> (#[trigger] g@[j]).include_glossary == include_glossary,
        r matches Ok((k, g)) ==> k < variants@.len() && variants@[k as int].label@ == label@,
        r matches Ok((k, g)) ==> (u32_list_spec(top_k_text@, 1, 100, 1) matches Ok(tops) && forall|j: int|
            0 <= j < g@.len() ==> tops.contains(#[trigger] g@[j].top_k)),
        r matches Ok((k, g)) ==> (u32_list_spec(min_score_text@, 0, 1000, 100) matches Ok(mins)
            && forall|j: int| 0 <= j < g@.len() ==> mins.contains(#[trigger] g@[j].min_score_milli)),
{
    proof {
        law_matrix_plan_follows_the_request(
            variants@,
            label@,
            top_k_text@,
            min_score_text@,
            include_glossary,
        );
    }
    let index = match find_variant(variants, label) {
        None => {
            return Err(prefixed("PARAM_MATRIX_FAULT: unknown variant ", label));
        },
        Some(i) => i,
    };
    let tops = match parse_u32_values(top_k_text, 1, 100, 1) {
        Err(e) => {
            return Err(prefixed("TOP_K_RANGE_FAULT: ", e.as_str()));
        },
        Ok(v) => v,
    };
    let mins = match parse_u32_values(min_score_text, 0, 1000, 100) {
        Err(e) => {
            return Err(prefixed("MIN_SCORE_RANGE_FAULT: ", e.as_str()));
        },
        Ok(v) => v,
    };
    let grid = build_option_grid(tops.as_slice(), mins.as_slice(), include_glossary);
    proof {
        lemma_option_grid_entries(tops@, mins@, include_glossary);
    }
    if grid.len() == 0 {
        return Err(String::from_str("PARAM_MATRIX_FAULT: no option combinations"));
    }
    Ok((index, grid))
}

/// The parameter lists of an autotune request.
pub struct AutotuneGrid {
    pub top_k_values: Vec<u32>,
    pub min_score_milli_values: Vec<u32>,
    pub include_glossary_values: Vec<bool>,
}

/// Parses the three lists of an autotune request, reporting the first faulty
/// one with its own prefix.
pub fn plan_autotune(top_k_text: &str, min_score_text: &str, glossary_text: &str) -> (r: Result<
    AutotuneGrid,
    String,
>)
    ensures
        match u32_list_spec(top_k_text@, 1, 100, 1) {
            Err(e) => r matches Err(m) && m@ == "AUTOTUNE_TOP_K_FAULT: "@ + e,
            Ok(tops) => match u32_list_spec(min_score_text@, 0, 1000, 100) {
                Err(e) => r matches Err(m) && m@ == "AUTOTUNE_MIN_SCORE_FAULT: "@ + e,
                Ok(mins) => match bool_list_spec(glossary_text@) {
                    Err(e) => r matches Err(m) && m@ == "AUTOTUNE_GLOSSARY_FAULT: "@ + e,
                    Ok(gs) => r matches Ok(grid) && grid.top_k_values@ == sorted_unique(tops)
                        && grid.min_score_milli_values@ == sorted_unique(mins)
                        && grid.include_glossary_values@ == gs,
                },
            },
        },
{
    let top_k_values = match parse_u32_values(top_k_text, 1, 100, 1) {
        Err(e) => {
            return Err(prefixed("AUTOTUNE_TOP_K_FAULT: ", e.as_str()));
        },
        Ok(v) => v,
    };
    let min_score_milli_values = match parse_u32_values(min_score_text, 0, 1000, 100) {
        Err(e) => {
            return Err(prefixed("AUTOTUNE_MIN_SCORE_FAULT: ", e.as_str()));
        },
        Ok(v) => v,
    };
    let include_glossary_values = match parse_bool_values(glossary_text) {
        Err(e) => {
            return Err(prefixed("AUTOTUNE_GLOSSARY_FAULT: ", e.as_str()));
        },
        Ok(v) => v,
    };
    Ok(AutotuneGrid { top_k_values, min_score_milli_values, include_glossary_values })
}

// ---------------------------------------------------------------------------
// Ranking and the saved variant
// ---------------------------------------------------------------------------

/// How strongly autotuning ranks a variant: the selected holdout variant
/// first, other holdout variants next, tuning variants last.
pub open spec fn autotune_priority_spec(selected: bool, split: EvaluationResultSplit) -> u8 {
    if selected && split == EvaluationResultSplit::Holdout {
        2
    } else if split == EvaluationResultSplit::Holdout {
        1
    } else {
        0
    }
}

pub fn autotune_priority(variant: &EvaluationVariantResult) -> (r: u8)
    ensures
        r == autotune_priority_spec(variant.selected, variant.split),
{
    if variant.selected && variant.split == EvaluationResultSplit::Holdout {
        2
    } else if variant.split == EvaluationResultSplit::Holdout {
        1
    } else {
        0
    }
}

/// Whether the autotune priorities alone order two variants, and if so
/// whether `a` ranks before `b`. When they do not (a plain run, or equal
/// priorities) the evaluation score decides.
pub fn ranks_by_priority(a: &EvaluationVariantResult, b: &EvaluationVariantResult, is_autotune: bool) -> (r:
    Option<bool>)
    ensures
        r == (if is_autotune && autotune_priority_spec(a.selected, a.split) != autotune_priority_spec(
            b.selected,
            b.split,
        ) {
            Some(autotune_priority_spec(a.selected, a.split) > autotune_priority_spec(b.selected, b.split))
        } else {
            None::<bool>
        }),
{
    if !is_autotune {
        return None;
    }
    let pa = autotune_priority(a);
    let pb = autotune_priority(b);
    if pa == pb {
        None
    } else {
        Some(pa > pb)
    }
}

/// The name a variant is shown under: the variant labelled `current` goes
/// by its configuration's own label.
pub fn display_variant_label(label: &str, config_label: &str) -> (r: String)
    ensures
        r@ == (if label@ == "current"@ {
            config_label@
        } else {
            label@
        }),
{
    if str_eq(label, "current") {
        config_label.to_owned()
    } else {
        label.to_owned()
    }
}

/// Whether a variant is the one autotuning selected on the holdout split.
pub open spec fn is_selected_holdout(v: EvaluationVariantResult) -> bool {
    v.selected && v.split == EvaluationResultSplit::Holdout
}

/// The position of the variant whose settings "save best" stores.
pub fn selected_action_variant(variants: &[EvaluationVariantResult]) -> (r: Option<usize>)
    ensures
        match r {
            Some(i) => {
                &&& i < variants@.len()
                &&& (is_selected_holdout(variants@[i as int]) && forall|k: int|
                    0 <= k < i ==> !is_selected_holdout(#[trigger] variants@[k])) || (i == 0
                    && forall|k: int|
                    0 <= k < variants@.len() ==> !is_selected_holdout(#[trigger] variants@[k]))
            },
            None => variants@.len() == 0,
        },
{
    let mut k: usize = 0;
    while k < variants.len()
        invariant
            k <= variants.len(),
            forall|m: int| 0 <= m < k ==> !is_selected_holdout(#[trigger] variants@[m]),
        decreases variants.len() - k,
    {
        if variants[k].selected && variants[k].split == EvaluationResultSplit::Holdout {
            return Some(k);
        }
        k += 1;
    }
    if variants.len() > 0 {
        Some(0)
    } else {
        None
    }
}

/// Whether some variant ran with options other than the run's: then the run
/// was a parameter matrix.
pub open spec fn is_matrix_spec(vs: Seq<EvaluationVariantResult>, run_options: EvaluationRunOptions) -> bool {
    exists|i: int| 0 <= i < vs.len() && (#[trigger] vs[i]).options != run_options
}

pub fn is_matrix_run(variants: &[EvaluationVariantResult], run_options: EvaluationRunOptions) -> (r:
    bool)
    ensures
        r == is_matrix_spec(variants@, run_options),
{
    let mut k: usize = 0;
    while k < variants.len()
        invariant
            k <= variants.len(),
            forall|m: int| 0 <= m < k ==> (#[trigger] variants@[m]).options == run_options,
        decreases variants.len() - k,
    {
        if variants[k].options != run_options {
            return true;
        }
        k += 1;
    }
    false
}

/// The question counts of an autotune run.
#[derive(Debug, Clone, Copy, PartialEq, Eq, Structural)]
pub struct AutotuneCounts {
    pub candidate_count: u32,
    pub tuning_question_count: u32,
    pub holdout_question_count: u32,
}

/// The summary line of a result table.
pub fn run_detail_label(
    autotune: Option<AutotuneCounts>,
    is_matrix: bool,
    variant_count: usize,
    run_options: EvaluationRunOptions,
) -> (r: String)
    ensures
        r@ == (match autotune {
            Some(a) => "AUTOTUNE_CANDIDATES="@ + decimal(a.candidate_count as nat) + " · TUNING_Q="@
                + decimal(a.tuning_question_count as nat) + " · HOLDOUT_Q="@ + decimal(
                a.holdout_question_count as nat,
            ),
            None => if is_matrix {
                "MATRIX_RESULTS="@ + decimal(variant_count as nat)
            } else {
                "TOP_K="@ + decimal(run_options.top_k as nat) + " · MIN_SCORE="@ + decimal(
                    run_options.min_score_milli as nat,
                ) + " · VARIANTS="@ + decimal(variant_count as nat)
            },
        }),
{
    match autotune {
        Some(a) => {
            let mut r = String::from_str("AUTOTUNE_CANDIDATES=");
            push_decimal(&mut r, a.candidate_count as u64);
            r.append(" · TUNING_Q=");
            push_decimal(&mut r, a.tuning_question_count as u64);
            r.append(" · HOLDOUT_Q=");
            push_decimal(&mut r, a.holdout_question_count as u64);
            r
        },
        None => {
            if is_matrix {
                let mut r = String::from_str("MATRIX_RESULTS=");
                push_decimal(&mut r, variant_count as u64);
                r
            } else {
                let mut r = String::from_str("TOP_K=");
                push_decimal(&mut r, run_options.top_k as u64);
                r.append(" · MIN_SCORE=");
                push_decimal(&mut r, run_options.min_score_milli as u64);
                r.append(" · VARIANTS=");
                push_decimal(&mut r, variant_count as u64);
                r
            }
        },
    }
}

/// The parameters of the selected autotune variant, `k=<top_k> min=<score>`.
pub fn selected_params_label(options: EvaluationRunOptions) -> (r: String)
    ensures
        r@ == "k="@ + decimal(options.top_k as nat) + " min="@ + decimal(
            options.min_score_milli as nat,
        ),
{
    let mut r = String::from_str("k=");
    push_decimal(&mut r, options.top_k as u64);
    r.append(" min=");
    push_decimal(&mut r, options.min_score_milli as u64);
    r
}

/// The label of a ranked row, `#<rank> <label>`.
pub fn rank_label(rank: usize, label: &str) -> (r: String)
    ensures
        r@ == "#"@ + decimal(rank as nat) + " "@ + label@,
{
    let mut r = String::from_str("#");
    push_decimal(&mut r, rank as u64);
    r.append(" ");
    r.append(label);
    r
}

/// Badges of a ranked row: the first row is the best; a row whose
/// configuration is the one in use is current.
pub fn row_badges(rank: usize, config: ChunkingConfig, current: ChunkingConfig) -> (r: (bool, bool))
    ensures
        r.0 == (rank == 1),
        r.1 == (config == current),
{
    (rank == 1, config == current)
}

/// The evaluation defaults stored in the settings.
#[derive(Debug, Clone, Copy, PartialEq, Eq, Structural)]
pub struct EvaluationSettings {
    pub top_k: u32,
    pub min_score_milli: u32,
    pub include_glossary: bool,
    pub generation_backend: GenerationBackend,
}

/// Where evaluation questions are generated.
#[derive(Debug, Clone, Copy, PartialEq, Eq, Structural)]
pub enum GenerationBackend {
    Ollama,
    WorkersAi,
}

/// The backend a select-box value names; anything but `workers_ai` means
/// Ollama.
pub fn parse_generation_backend(value: &str) -> (r: GenerationBackend)
    ensures
        r == (if value@ == "workers_ai"@ {
            GenerationBackend::WorkersAi
        } else {
            GenerationBackend::Ollama
        }),
{
    if str_eq(value, "workers_ai") {
        GenerationBackend::WorkersAi
    } else {
        GenerationBackend::Ollama
    }
}

/// Makes a variant's options the evaluation defaults, keeping the backend.
pub fn apply_options_to_settings(settings: EvaluationSettings, options: EvaluationRunOptions) -> (r:
    EvaluationSettings)
    ensures
        r.top_k == options.top_k,
        r.min_score_milli == options.min_score_milli,
        r.include_glossary == options.include_glossary,
        r.generation_backend == settings.generation_backend,
{
    EvaluationSettings {
        top_k: options.top_k,
        min_score_milli: options.min_score_milli,
        include_glossary: options.include_glossary,
        ..settings
    }
}

/// Whether two variant lists name the same variants in the same order.
pub open spec fn same_variants(a: Seq<ChunkingVariant>, b: Seq<ChunkingVariant>) -> bool {
    a.len() == b.len() && forall|i: int|
        0 <= i < a.len() ==> (#[trigger] a[i]).label@ == b[i].label@ && a[i].config == b[i].config
}

/// Whether the latest saved result is the run just completed: same options
/// and the same variants.
pub fn saved_result_matches(
    saved_options: EvaluationRunOptions,
    saved_variants: &[ChunkingVariant],
    options: EvaluationRunOptions,
    variants: &[ChunkingVariant],
) -> (r: bool)
    ensures
        r == (saved_options == options && same_variants(saved_variants@, variants@)),
{
    if saved_options != options || saved_variants.len() != variants.len() {
        return false;
    }
    let mut k: usize = 0;
    while k < variants.len()
        invariant
            k <= variants.len(),
            saved_variants.len() == variants.len(),
            forall|m: int|
                0 <= m < k ==> (#[trigger] saved_variants@[m]).label@ == variants@[m].label@
                    && saved_variants@[m].config == variants@[m].config,
        decreases variants.len() - k,
    {
        if !str_eq(saved_variants[k].label.as_str(), variants[k].label.as_str())
            || saved_variants[k].config != variants[k].config {
            return false;
        }
        k += 1;
    }
    true
}

/// The variants that the rows of a saved result were run with.
pub open spec fn row_variants(rows: Seq<EvaluationVariantResult>) -> Seq<ChunkingVariant> {
    Seq::new(rows.len(), |i: int| rows[i].variant)
}

/// What the laboratory shows once a run has finished and the latest saved
/// result is fetched: the result is accepted only if one was saved and it is
/// the run just completed (same options, same variants in the same order).
pub fn accept_latest_result(
    saved: Option<(EvaluationRunOptions, &[EvaluationVariantResult])>,
    options: EvaluationRunOptions,
    variants: &[ChunkingVariant],
) -> (r: Result<(), String>)
    ensures
        match saved {
            None => r matches Err(m) && m@ == "evaluation finished without saving a result"@,
            Some((o, rows)) => if o == options && same_variants(row_variants(rows@), variants@) {
                r is Ok
            } else {
                r matches Err(m) && m@ == "latest saved evaluation does not match the completed run"@
            },
        },
{
    let (saved_options, rows) = match saved {
        None => {
            return Err(String::from_str("evaluation finished without saving a result"));
        },
        Some(s) => s,
    };
    let mismatch = String::from_str("latest saved evaluation does not match the completed run");
    if saved_options != options || rows.len() != variants.len() {
        return Err(mismatch);
    }
    let mut k: usize = 0;
    while k < variants.len()
        invariant
            k <= variants.len(),
            rows.len() == variants.len(),
            saved == Some((saved_options, rows)),
            saved_options == options,
            mismatch@ == "latest saved evaluation does not match the completed run"@,
            forall|m: int|
                0 <= m < k ==> (#[trigger] row_variants(rows@)[m]).label@ == variants@[m].label@
                    && row_variants(rows@)[m].config == variants@[m].config,
        decreases variants.len() - k,
    {
        if !str_eq(rows[k].variant.label.as_str(), variants[k].label.as_str())
            || rows[k].variant.config != variants[k].config {
            assert(row_variants(rows@)[k as int] == rows@[k as int].variant);
            return Err(mismatch);
        }
        assert(row_variants(rows@)[k as int] == rows@[k as int].variant);
        k += 1;
    }
    assert(row_variants(rows@).len() == variants@.len());
    Ok(())
}

/// What the results table shows after "save best": the saved variant's
/// name, or the fault.
pub fn best_saved_outcome(label: &str, result: Result<(), String>) -> (r: (bool, String))
    ensures
        match result {
            Ok(_) => r.0 && r.1@ == "BEST_SAVED: "@ + label@,
            Err(e) => !r.0 && r.1@ == "SAVE_FAULT: "@ + e@,
        },
{
    match result {
        Ok(_) => (true, prefixed("BEST_SAVED: ", label)),
        Err(e) => (false, prefixed("SAVE_FAULT: ", e.as_str())),
    }
}

/// What a result row shows after its configuration and options were saved
/// as the defaults, or failed to be.
pub fn row_saved_outcome(result: Result<(), String>) -> (r: (bool, String))
    ensures
        match result {
            Ok(_) => r.0 && r.1@ == "CONFIG_AND_EVAL_DEFAULTS_SAVED"@,
            Err(e) => !r.0 && r.1@ == "SAVE_FAULT: "@ + e@,
        },
{
    match result {
        Ok(_) => (true, String::from_str("CONFIG_AND_EVAL_DEFAULTS_SAVED")),
        Err(e) => (false, prefixed("SAVE_FAULT: ", e.as_str())),
    }
}

/// The status shown while a row's configuration is previewed.
pub fn preview_status(label: &str) -> (r: (bool, String))
    ensures
        r.0 && r.1@ == "PREVIEWING_VARIANT: "@ + label@,
{
    (true, prefixed("PREVIEWING_VARIANT: ", label))
}

/// The class of a result row: the best row is highlighted.
pub fn result_row_class(is_best: bool) -> (r: &'static str)
    ensures
        r@ == (if is_best {
            "bg-emerald-950/30 hover:bg-emerald-950/40 group"@
        } else {
            "hover:bg-[var(--color-card-inner)] group"@
        }),
{
    if is_best {
        "bg-emerald-950/30 hover:bg-emerald-950/40 group"
    } else {
        "hover:bg-[var(--color-card-inner)] group"
    }
}

/// Whether the missed questions of a row are shown after a click: the
/// click toggles them only when there are some.
pub fn toggle_misses(open: bool, missed_count: usize) -> (r: bool)
    ensures
        r == (if missed_count > 0 {
            !open
        } else {
            open
        }),
{
    if missed_count > 0 {
        !open
    } else {
        open
    }
}

/// The log line that reports a job the server refused to start.
pub fn process_failure_message(error: &str) -> (r: String)
    ensures
        r@ == "PROCESS_FAILURE: "@ + error@,
{
    prefixed("PROCESS_FAILURE: ", error)
}

/// The top-k field: the number typed, at least 1 (1 for text that is no
/// number).
pub fn top_k_input(text: &str) -> (r: u32)
    ensures
        r == (if number_input_spec(text@, 1) < 1 {
            1
        } else {
            number_input_spec(text@, 1)
        }),
{
    let v = number_input(text, 1);
    if v < 1 {
        1
    } else {
        v
    }
}

/// The minimum-score field: the number typed, at most 1000 (0 for text that
/// is no number).
pub fn min_score_input(text: &str) -> (r: u32)
    ensures
        r == (if number_input_spec(text@, 0) > 1000 {
            1000
        } else {
            number_input_spec(text@, 0)
        }),
{
    let v = number_input(text, 0);
    if v > 1000 {
        1000
    } else {
        v
    }
}

/// The glossary select box: on only for `true`.
pub fn glossary_input(value: &str) -> (r: bool)
    ensures
        r == (value@ == "true"@),
{
    str_eq(value, "true")
}

/// The state line of an evaluation dataset.
pub fn dataset_status_label(exists: bool, question_count: u32) -> (r: String)
    ensures
        r@ == (if exists {
            "READY · "@ + decimal(question_count as nat) + " QUESTION(S)"@
        } else {
            "NOT_GENERATED"@
        }),
{
    if exists {
        let mut r = String::from_str("READY · ");
        push_decimal(&mut r, question_count as u64);
        r.append(" QUESTION(S)");
        r
    } else {
        String::from_str("NOT_GENERATED")
    }
}

/// The laboratory can be closed only while nothing runs.
pub fn can_close_lab(running: bool, eval_running: bool) -> (r: bool)
    ensures
        r == (!running && !eval_running),
{
    !running && !eval_running
}

/// Checks the two texts of the embedding tester: both must hold more than
/// whitespace.
pub fn validate_embed_inputs(a: &str, b: &str) -> (r: Result<(), String>)
    ensures
        match r {
            Ok(()) => trim(a@).len() > 0 && trim(b@).len() > 0,
            Err(m) => (trim(a@).len() == 0 || trim(b@).len() == 0) && m@
                == "Both text fields are required."@,
        },
{
    if is_blank(a) || is_blank(b) {
        Err(String::from_str("Both text fields are required."))
    } else {
        Ok(())
    }
}

/// The caption of the embedding tester's button.
pub fn embed_button_label(loading: bool) -> (r: &'static str)
    ensures
        r@ == (if loading {
            "COMPUTING..."@
        } else {
            "COMPUTE_SIMILARITY"@
        }),
{
    if loading {
        "COMPUTING..."
    } else {
        "COMPUTE_SIMILARITY"
    }
}

} // verus!
