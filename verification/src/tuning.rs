//! Chunking configuration and the per-post tuning panel.
//!
//! The panel edits a working copy of the chunking configuration. Saving
//! commits it as the post's override, or clears the override when the working
//! copy equals the default; resetting returns to the default.

use vstd::prelude::*;
use crate::options::parse_u32_chars;
use crate::options::parse_u32_spec;
use crate::text::{chars_of, str_eq};

verus! {

/// How a document is cut into chunks.
#[derive(Debug, Clone, Copy, PartialEq, Eq, Structural)]
pub enum ChunkStrategy {
    Bert,
    Section,
    Llm,
}

/// The parameters of the chunkers.
#[derive(Debug, Clone, Copy, PartialEq, Eq, Structural)]
pub struct ChunkingConfig {
    pub strategy: ChunkStrategy,
    pub target_chars: u32,
    pub overlap_chars: u32,
    pub min_chars: u32,
    pub max_section_chars: u32,
    pub llm_micro_chunk_chars: u32,
}

/// The value of the strategy select box.
pub fn strategy_value(strategy: ChunkStrategy) -> (r: &'static str)
    ensures
        r@ == (match strategy {
            ChunkStrategy::Bert => "bert"@,
            ChunkStrategy::Section => "section"@,
            ChunkStrategy::Llm => "llm"@,
        }),
{
    match strategy {
        ChunkStrategy::Bert => "bert",
        ChunkStrategy::Section => "section",
        ChunkStrategy::Llm => "llm",
    }
}

/// The strategy a select-box value names; anything unknown means BERT.
pub open spec fn parse_strategy_spec(value: Seq<char>) -> ChunkStrategy {
    if value == "section"@ {
        ChunkStrategy::Section
    } else if value == "llm"@ {
        ChunkStrategy::Llm
    } else {
        ChunkStrategy::Bert
    }
}

pub fn parse_strategy(value: &str) -> (r: ChunkStrategy)
    ensures
        r == parse_strategy_spec(value@),
{
    if str_eq(value, "section") {
        ChunkStrategy::Section
    } else if str_eq(value, "llm") {
        ChunkStrategy::Llm
    } else {
        ChunkStrategy::Bert
    }
}

/// A number field's input: the number typed, or `fallback` when the text is
/// no number.
pub open spec fn number_input_spec(input: Seq<char>, fallback: u32) -> u32 {
    match parse_u32_spec(input) {
        Some(v) => v,
        None => fallback,
    }
}

/// Reads a number field (`parse().unwrap_or(fallback)`).
pub fn number_input(input: &str, fallback: u32) -> (r: u32)
    ensures
        r == number_input_spec(input@, fallback),
{
    let v = chars_of(input);
    match parse_u32_chars(v.as_slice()) {
        Some(n) => n,
        None => fallback,
    }
}

/// The fields of the tuning panel.
#[derive(Debug, Clone, Copy, PartialEq, Eq, Structural)]
pub enum ChunkingField {
    TargetChars,
    OverlapChars,
    MinChars,
    MaxSectionChars,
    LlmMicroChunkChars,
}

/// The configuration after the operator typed `input` into `field`. Plain
/// fields read 0 from text that is no number; the LLM micro-chunk size reads
/// 300 then and never goes below 100.
pub open spec fn edit_field_spec(c: ChunkingConfig, field: ChunkingField, input: Seq<char>) -> ChunkingConfig {
    match field {
        ChunkingField::TargetChars => ChunkingConfig { target_chars: number_input_spec(input, 0), ..c },
        ChunkingField::OverlapChars => ChunkingConfig { overlap_chars: number_input_spec(input, 0), ..c },
        ChunkingField::MinChars => ChunkingConfig { min_chars: number_input_spec(input, 0), ..c },
        ChunkingField::MaxSectionChars => ChunkingConfig {
            max_section_chars: number_input_spec(input, 0),
            ..c
        },
        ChunkingField::LlmMicroChunkChars => {
            let v = number_input_spec(input, 300);
            ChunkingConfig { llm_micro_chunk_chars: if v < 100 { 100 } else { v }, ..c }
        },
    }
}

pub fn edit_field(c: ChunkingConfig, field: ChunkingField, input: &str) -> (r: ChunkingConfig)
    ensures
        r == edit_field_spec(c, field, input@),
        r.strategy == c.strategy,
        forall|other: ChunkingField| other != field ==> #[trigger] field_of(r, other) == field_of(c, other),
        field != ChunkingField::LlmMicroChunkChars ==> field_of(r, field) == number_input_spec(input@, 0),
        field == ChunkingField::LlmMicroChunkChars ==> field_of(r, field) == (if number_input_spec(
            input@,
            300,
        ) < 100 {
            100
        } else {
            number_input_spec(input@, 300)
        }),
{
    match field {
        ChunkingField::TargetChars => ChunkingConfig { target_chars: number_input(input, 0), ..c },
        ChunkingField::OverlapChars => ChunkingConfig { overlap_chars: number_input(input, 0), ..c },
        ChunkingField::MinChars => ChunkingConfig { min_chars: number_input(input, 0), ..c },
        ChunkingField::MaxSectionChars => ChunkingConfig {
            max_section_chars: number_input(input, 0),
            ..c
        },
        ChunkingField::LlmMicroChunkChars => {
            let v = number_input(input, 300);
            ChunkingConfig { llm_micro_chunk_chars: if v < 100 { 100 } else { v }, ..c }
        },
    }
}

/// The state of the tuning panel.
pub struct TuningState {
    /// The configuration that applies when the post has no override.
    pub default_config: ChunkingConfig,
    /// The configuration being edited.
    pub working: ChunkingConfig,
    /// The post's saved override, if any.
    pub committed: Option<ChunkingConfig>,
}

/// The configuration in effect: the override, or else the default.
pub open spec fn effective(s: TuningState) -> ChunkingConfig {
    match s.committed {
        Some(c) => c,
        None => s.default_config,
    }
}

/// Whether the working copy differs from what is in effect.
pub open spec fn unsaved(s: TuningState) -> bool {
    s.working != effective(s)
}

impl TuningState {
    /// Opens the panel on the configuration in effect.
    pub fn new(default_config: ChunkingConfig, committed: Option<ChunkingConfig>) -> (s: Self)
        ensures
            s.default_config == default_config,
            s.committed == committed,
            s.working == effective(s),
            !unsaved(s),
    {
        let working = match committed {
            Some(c) => c,
            None => default_config,
        };
        TuningState { default_config, working, committed }
    }

    /// Whether the post has a saved override.
    pub fn is_overridden(&self) -> (b: bool)
        ensures
            b == self.committed is Some,
    {
        self.committed.is_some()
    }

    /// Whether the working copy has changes that are not saved.
    pub fn has_unsaved_changes(&self) -> (b: bool)
        ensures
            b == unsaved(*self),
    {
        let current = match self.committed {
            Some(c) => c,
            None => self.default_config,
        };
        self.working != current
    }

    /// Follows a change of the saved override made elsewhere: the working
    /// copy becomes the configuration now in effect.
    pub fn sync_committed(&mut self, committed: Option<ChunkingConfig>)
        ensures
            final(self).committed == committed,
            final(self).default_config == old(self).default_config,
            final(self).working == effective(*final(self)),
            !unsaved(*final(self)),
    {
        self.committed = committed;
        let next = match committed {
            Some(c) => c,
            None => self.default_config,
        };
        if self.working != next {
            self.working = next;
        }
    }

    /// Edits the working copy.
    pub fn update_working(&mut self, next: ChunkingConfig)
        ensures
            final(self).working == next,
            final(self).committed == old(self).committed,
            final(self).default_config == old(self).default_config,
    {
        self.working = next;
    }

    /// Saves the working copy as the override; a working copy equal to the
    /// default clears the override instead. Afterwards nothing is unsaved,
    /// and the override is never a copy of the default.
    pub fn save(&mut self)
        ensures
            *final(self) == after_save(*old(self)),
            !unsaved(*final(self)),
            final(self).committed != Some(final(self).default_config),
    {
        if self.working == self.default_config {
            self.committed = None;
        } else {
            self.committed = Some(self.working);
        }
    }

    /// Drops the override and returns to the default.
    pub fn reset(&mut self)
        ensures
            *final(self) == after_reset(*old(self)),
            !unsaved(*final(self)),
    {
        self.working = self.default_config;
        self.committed = None;
    }

    /// The status line of the panel.
    pub fn status_label(&self) -> (r: &'static str)
        ensures
            r@ == (if unsaved(*self) {
                "UNSAVED_CHANGES"@
            } else if self.committed is Some {
                "USING OVERRIDE"@
            } else {
                "USING DEFAULT"@
            }),
    {
        if self.has_unsaved_changes() {
            "UNSAVED_CHANGES"
        } else if self.is_overridden() {
            "USING OVERRIDE"
        } else {
            "USING DEFAULT"
        }
    }

    /// The class of the status line.
    pub fn status_class(&self) -> (r: &'static str)
        ensures
            r@ == (if unsaved(*self) {
                "tech-label !text-amber-400 py-2"@
            } else if self.committed is Some {
                "tech-label !text-emerald-400 py-2"@
            } else {
                "tech-label opacity-40 py-2"@
            }),
    {
        if self.has_unsaved_changes() {
            "tech-label !text-amber-400 py-2"
        } else if self.is_overridden() {
            "tech-label !text-emerald-400 py-2"
        } else {
            "tech-label opacity-40 py-2"
        }
    }
}

/// The value a numeric field of the panel shows.
pub open spec fn field_of(c: ChunkingConfig, field: ChunkingField) -> u32 {
    match field {
        ChunkingField::TargetChars => c.target_chars,
        ChunkingField::OverlapChars => c.overlap_chars,
        ChunkingField::MinChars => c.min_chars,
        ChunkingField::MaxSectionChars => c.max_section_chars,
        ChunkingField::LlmMicroChunkChars => c.llm_micro_chunk_chars,
    }
}

/// Typing into one field of the panel changes that field alone: the
/// strategy and every other field keep their values, and the field takes the
/// number typed (0 for text that is no number; the LLM micro-chunk size takes
/// 300 then, and at least 100).
pub proof fn law_edit_touches_only_its_field(c: ChunkingConfig, field: ChunkingField, input: Seq<char>)
    ensures
        edit_field_spec(c, field, input).strategy == c.strategy,
        forall|other: ChunkingField|
            other != field ==> #[trigger] field_of(edit_field_spec(c, field, input), other) == field_of(
                c,
                other,
            ),
        field != ChunkingField::LlmMicroChunkChars ==> field_of(edit_field_spec(c, field, input), field)
            == number_input_spec(input, 0),
        field == ChunkingField::LlmMicroChunkChars ==> field_of(edit_field_spec(c, field, input), field)
            == (if number_input_spec(input, 300) < 100 {
            100
        } else {
            number_input_spec(input, 300)
        }),
        field == ChunkingField::LlmMicroChunkChars ==> field_of(edit_field_spec(c, field, input), field)
            >= 100,
{
}

/// The panel after saving.
pub open spec fn after_save(s: TuningState) -> TuningState {
    TuningState {
        committed: if s.working == s.default_config {
            None
        } else {
            Some(s.working)
        },
        ..s
    }
}

/// The panel after resetting.
pub open spec fn after_reset(s: TuningState) -> TuningState {
    TuningState { working: s.default_config, committed: None, ..s }
}

/// Saving leaves nothing unsaved and never stores the default as an override.
pub proof fn law_save_settles(s: TuningState)
    ensures
        !unsaved(after_save(s)),
        after_save(s).committed != Some(s.default_config),
        effective(after_save(s)) == s.working,
{
}

/// Saving twice is the same as saving once.
pub proof fn law_save_idempotent(s: TuningState)
    ensures
        after_save(after_save(s)) == after_save(s),
{
}

/// Saving right after a reset keeps the post on its default.
pub proof fn law_reset_then_save_keeps_default(s: TuningState)
    ensures
        after_save(after_reset(s)) == after_reset(s),
        after_reset(s).committed is None,
        !unsaved(after_reset(s)),
{
}

/// Putting the default back into the working copy and saving drops the
/// override.
pub proof fn law_saving_default_clears_override(s: TuningState)
    ensures
        after_save(TuningState { working: s.default_config, ..s }).committed is None,
{
}

} // verus!
