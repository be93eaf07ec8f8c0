//! Shared plumbing of the configuration registry pages: default selections,
//! name lookups, short identifiers and the lifecycle of a registry command.

use vstd::prelude::*;
use vstd::string::StringExecFns;
use crate::ids::{uuid_parse, uuid_parse_str, uuid_text, uuid_to_string, lemma_uuid_text_len};
use crate::registry::{AiProviderDto, VectorStoreProviderDto};
use crate::text::{append_chars, chars_of, slice_chars};

verus! {

/// The tabs of the configuration page.
#[derive(Debug, Clone, Copy, PartialEq, Eq, Structural)]
pub enum ConfigTab {
    Providers,
    EmbeddingModels,
    GenerationModels,
    VectorIndexes,
}

/// The provider preselected in a form: the first one listed.
pub fn default_provider_id(items: &[AiProviderDto]) -> (r: Option<u128>)
    ensures
        r == (if items@.len() > 0 {
            Some(items@[0].provider_id)
        } else {
            None::<u128>
        }),
{
    if items.len() > 0 {
        Some(items[0].provider_id)
    } else {
        None
    }
}

/// The vector-store provider preselected in a form: the first one listed.
pub fn default_vector_store_provider_id(items: &[VectorStoreProviderDto]) -> (r: Option<u128>)
    ensures
        r == (if items@.len() > 0 {
            Some(items@[0].provider_id)
        } else {
            None::<u128>
        }),
{
    if items.len() > 0 {
        Some(items[0].provider_id)
    } else {
        None
    }
}

/// The identifier a select box's value denotes, if it is one.
pub fn parse_uuid_or_none(value: &str) -> (r: Option<u128>)
    ensures
        r == uuid_parse(value@),
        forall|id: u128| value@ == uuid_text(id) ==> r == Some(id),
{
    uuid_parse_str(value)
}

/// The first position at which an AI provider has the given identifier.
pub open spec fn first_ai_provider(ps: Seq<AiProviderDto>, id: u128) -> Option<int>
    decreases ps.len(),
{
    if ps.len() == 0 {
        None
    } else if ps[0].provider_id == id {
        Some(0)
    } else {
        match first_ai_provider(ps.drop_first(), id) {
            Some(i) => Some(i + 1),
            None => None,
        }
    }
}

/// The first position at which a vector-store provider has the given
/// identifier.
pub open spec fn first_vs_provider(ps: Seq<VectorStoreProviderDto>, id: u128) -> Option<int>
    decreases ps.len(),
{
    if ps.len() == 0 {
        None
    } else if ps[0].provider_id == id {
        Some(0)
    } else {
        match first_vs_provider(ps.drop_first(), id) {
            Some(i) => Some(i + 1),
            None => None,
        }
    }
}

/// The name shown for a missing provider.
pub open spec fn unknown_name(id: u128) -> Seq<char> {
    "unknown:"@ + uuid_text(id)
}

proof fn lemma_first_ai(ps: Seq<AiProviderDto>, id: u128, i: int)
    requires
        0 <= i <= ps.len(),
        forall|k: int| 0 <= k < i ==> ps[k].provider_id != id,
    ensures
        i < ps.len() && ps[i].provider_id == id ==> first_ai_provider(ps, id) == Some(i),
        i == ps.len() ==> first_ai_provider(ps, id) is None,
    decreases i,
{
    if i > 0 {
        lemma_first_ai(ps.drop_first(), id, i - 1);
    }
}

proof fn lemma_first_vs(ps: Seq<VectorStoreProviderDto>, id: u128, i: int)
    requires
        0 <= i <= ps.len(),
        forall|k: int| 0 <= k < i ==> ps[k].provider_id != id,
    ensures
        i < ps.len() && ps[i].provider_id == id ==> first_vs_provider(ps, id) == Some(i),
        i == ps.len() ==> first_vs_provider(ps, id) is None,
    decreases i,
{
    if i > 0 {
        lemma_first_vs(ps.drop_first(), id, i - 1);
    }
}

fn unknown_label(id: u128) -> (r: String)
    ensures
        r@ == unknown_name(id),
{
    let mut r = String::from_str("unknown:");
    let text = uuid_to_string(id);
    r.append(text.as_str());
    r
}

/// The name of the AI provider with the given identifier, or
/// `unknown:<id>` when none has it.
pub fn provider_name_for(providers: &[AiProviderDto], provider_id: u128) -> (r: String)
    ensures
        r@ == (match first_ai_provider(providers@, provider_id) {
            Some(i) => providers@[i].name@,
            None => unknown_name(provider_id),
        }),
{
    let mut k: usize = 0;
    while k < providers.len()
        invariant
            k <= providers.len(),
            forall|m: int| 0 <= m < k ==> providers@[m].provider_id != provider_id,
        decreases providers.len() - k,
    {
        if providers[k].provider_id == provider_id {
            proof {
                lemma_first_ai(providers@, provider_id, k as int);
            }
            return providers[k].name.clone();
        }
        k += 1;
    }
    proof {
        lemma_first_ai(providers@, provider_id, k as int);
    }
    unknown_label(provider_id)
}

/// The name of the vector-store provider with the given identifier, or
/// `unknown:<id>` when none has it.
pub fn vector_store_provider_name_for(providers: &[VectorStoreProviderDto], provider_id: u128) -> (r:
    String)
    ensures
        r@ == (match first_vs_provider(providers@, provider_id) {
            Some(i) => providers@[i].name@,
            None => unknown_name(provider_id),
        }),
{
    let mut k: usize = 0;
    while k < providers.len()
        invariant
            k <= providers.len(),
            forall|m: int| 0 <= m < k ==> providers@[m].provider_id != provider_id,
        decreases providers.len() - k,
    {
        if providers[k].provider_id == provider_id {
            proof {
                lemma_first_vs(providers@, provider_id, k as int);
            }
            return providers[k].name.clone();
        }
        k += 1;
    }
    proof {
        lemma_first_vs(providers@, provider_id, k as int);
    }
    unknown_label(provider_id)
}

/// The first eight characters of an identifier's text, as tables show it.
pub fn short_uuid(id: u128) -> (r: String)
    ensures
        r@ == uuid_text(id).take(8),
{
    let text = uuid_to_string(id);
    let v = chars_of(text.as_str());
    proof {
        lemma_uuid_text_len(id);
    }
    let head = slice_chars(v.as_slice(), 0, 8);
    assert(head@ =~= uuid_text(id).take(8));
    let mut r = String::new();
    append_chars(&mut r, head.as_slice());
    r
}

/// A name that may be missing, shown as `UNSET` when it is.
pub fn optional_name(value: Option<&str>) -> (r: String)
    ensures
        r@ == (match value {
            Some(v) => v@,
            None => "UNSET"@,
        }),
{
    match value {
        Some(v) => v.to_owned(),
        None => String::from_str("UNSET"),
    }
}

/// What the registry pages show around a command sent to the server.
pub struct CommandUi {
    /// A command is in flight; forms are disabled.
    pub busy: bool,
    /// The page-level outcome banner: success flag and message.
    pub status: Option<(bool, String)>,
    /// The error shown inside the open dialog, if the command came from one.
    pub dialog_status: Option<String>,
    /// Bumped after every successful command so that lists are fetched anew.
    pub refresh: u32,
}

/// Marks a command as sent: the page is busy and earlier outcomes are cleared.
pub fn begin_command(ui: &mut CommandUi, has_dialog: bool)
    ensures
        final(ui).busy,
        final(ui).status is None,
        has_dialog ==> final(ui).dialog_status is None,
        !has_dialog ==> final(ui).dialog_status == old(ui).dialog_status,
        final(ui).refresh == old(ui).refresh,
{
    ui.busy = true;
    ui.status = None;
    if has_dialog {
        ui.dialog_status = None;
    }
}

/// The message shown for a refused command.
pub open spec fn command_fault(error: Seq<char>) -> Seq<char> {
    "COMMAND_FAULT: "@ + error
}

/// Records the server's answer to a command.
///
/// On success the dialog error is cleared, the page shows `success_message`,
/// the lists are refreshed and the caller's success hook is to run (the
/// result is `true`). On failure the fault is shown in the dialog when the
/// command came from one, else on the page. Either way the page is no longer
/// busy.
pub fn finish_command(
    ui: &mut CommandUi,
    has_dialog: bool,
    success_message: &str,
    outcome: Result<(), String>,
) -> (run_success_hook: bool)
    requires
        outcome is Ok ==> old(ui).refresh < u32::MAX,
    ensures
        !final(ui).busy,
        run_success_hook == outcome is Ok,
        match outcome {
            Ok(()) => {
                &&& (final(ui).status matches Some(s) && s.0 && s.1@ == success_message@)
                &&& final(ui).refresh == old(ui).refresh + 1
                &&& has_dialog ==> final(ui).dialog_status is None
                &&& !has_dialog ==> final(ui).dialog_status == old(ui).dialog_status
            },
            Err(e) => {
                &&& final(ui).refresh == old(ui).refresh
                &&& has_dialog ==> (final(ui).dialog_status matches Some(m) && m@ == command_fault(
                    e@,
                ))
                &&& has_dialog ==> final(ui).status == old(ui).status
                &&& !has_dialog ==> (final(ui).status matches Some(s) && !s.0 && s.1@
                    == command_fault(e@))
                &&& !has_dialog ==> final(ui).dialog_status == old(ui).dialog_status
            },
        },
{
    let hook = match outcome {
        Ok(()) => {
            if has_dialog {
                ui.dialog_status = None;
            }
            ui.status = Some((true, success_message.to_owned()));
            ui.refresh = ui.refresh + 1;
            true
        },
        Err(e) => {
            let mut message = String::from_str("COMMAND_FAULT: ");
            message.append(e.as_str());
            if has_dialog {
                ui.dialog_status = Some(message);
            } else {
                ui.status = Some((false, message));
            }
            false
        },
    };
    ui.busy = false;
    hook
}

} // verus!
