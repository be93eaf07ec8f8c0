//! The global settings form: the embedding-model card, which keeps the
//! model's output size in line with the vector index, and the outcome of
//! saving the form.

use vstd::prelude::*;
use vstd::string::StringExecFns;
use crate::text::{decimal, push_decimal, str_eq};
use crate::tuning::{number_input, number_input_spec};

verus! {

/// Where embeddings are computed.
#[derive(Debug, Clone, Copy, PartialEq, Eq, Structural)]
pub enum EmbedderBackend {
    /// Workers AI: the index dimension decides which models fit.
    Cloudflare,
    /// A local Ollama daemon: the catalog only suggests.
    Ollama,
}

/// The value of a backend in the backend select box.
pub fn embedder_backend_value(backend: EmbedderBackend) -> (r: &'static str)
    ensures
        r@ == (match backend {
            EmbedderBackend::Cloudflare => "cloudflare"@,
            EmbedderBackend::Ollama => "ollama"@,
        }),
{
    match backend {
        EmbedderBackend::Cloudflare => "cloudflare",
        EmbedderBackend::Ollama => "ollama",
    }
}

/// The backend a select value names: `ollama`, and Cloudflare for anything
/// else.
pub fn parse_embedder_backend(value: &str) -> (r: EmbedderBackend)
    ensures
        r == (if value@ == "ollama"@ {
            EmbedderBackend::Ollama
        } else {
            EmbedderBackend::Cloudflare
        }),
{
    if str_eq(value, "ollama") {
        EmbedderBackend::Ollama
    } else {
        EmbedderBackend::Cloudflare
    }
}

/// A known model of a backend and the size of the vectors it produces.
#[derive(Debug)]
pub struct CatalogEntry {
    pub id: String,
    pub dims: u32,
}

/// The known models of both backends.
pub struct ModelCatalogs {
    pub cloudflare: Vec<CatalogEntry>,
    pub ollama: Vec<CatalogEntry>,
}

/// The embedding model as the settings store it.
#[derive(Debug)]
pub struct EmbeddingModel {
    pub backend: EmbedderBackend,
    pub id: String,
    pub dims: u32,
}

/// The catalog of one backend.
pub open spec fn catalog_for(catalogs: ModelCatalogs, backend: EmbedderBackend) -> Seq<CatalogEntry> {
    match backend {
        EmbedderBackend::Cloudflare => catalogs.cloudflare@,
        EmbedderBackend::Ollama => catalogs.ollama@,
    }
}

impl ModelCatalogs {
    /// The catalog of `backend`.
    pub fn for_backend(&self, backend: EmbedderBackend) -> (r: &[CatalogEntry])
        ensures
            r@ == catalog_for(*self, backend),
    {
        match backend {
            EmbedderBackend::Cloudflare => self.cloudflare.as_slice(),
            EmbedderBackend::Ollama => self.ollama.as_slice(),
        }
    }
}

fn copy_entry(e: &CatalogEntry) -> (r: CatalogEntry)
    ensures
        r == *e,
{
    CatalogEntry { id: e.id.clone(), dims: e.dims }
}

/// The entries whose size equals `dims` (when `equal`) or differs from it
/// (when not), in catalog order.
pub open spec fn entries_by_dims(s: Seq<CatalogEntry>, dims: u32, equal: bool) -> Seq<CatalogEntry>
    decreases s.len(),
{
    if s.len() == 0 {
        Seq::<CatalogEntry>::empty()
    } else {
        let rest = entries_by_dims(s.drop_last(), dims, equal);
        if (s.last().dims == dims) == equal {
            rest.push(s.last())
        } else {
            rest
        }
    }
}

fn filter_by_dims(catalog: &[CatalogEntry], dims: u32, equal: bool) -> (r: Vec<CatalogEntry>)
    ensures
        r@ == entries_by_dims(catalog@, dims, equal),
{
    let mut r: Vec<CatalogEntry> = Vec::new();
    let mut i: usize = 0;
    while i < catalog.len()
        invariant
            i <= catalog.len(),
            r@ == entries_by_dims(catalog@.take(i as int), dims, equal),
        decreases catalog.len() - i,
    {
        assert(catalog@.take(i + 1).drop_last() =~= catalog@.take(i as int));
        if (catalog[i].dims == dims) == equal {
            r.push(copy_entry(&catalog[i]));
        }
        i += 1;
    }
    assert(catalog@.take(catalog.len() as int) =~= catalog@);
    r
}

fn copy_entries(catalog: &[CatalogEntry]) -> (r: Vec<CatalogEntry>)
    ensures
        r@ == catalog@,
{
    let mut r: Vec<CatalogEntry> = Vec::new();
    let mut i: usize = 0;
    while i < catalog.len()
        invariant
            i <= catalog.len(),
            r@ == catalog@.take(i as int),
        decreases catalog.len() - i,
    {
        r.push(copy_entry(&catalog[i]));
        assert(r@ =~= catalog@.take(i + 1));
        i += 1;
    }
    assert(catalog@.take(catalog.len() as int) =~= catalog@);
    r
}

proof fn lemma_entries_by_dims(s: Seq<CatalogEntry>, dims: u32, equal: bool)
    ensures
        forall|i: int|
            0 <= i < entries_by_dims(s, dims, equal).len() ==> (#[trigger] entries_by_dims(
                s,
                dims,
                equal,
            )[i].dims == dims) == equal,
    decreases s.len(),
{
    if s.len() > 0 {
        let rest = entries_by_dims(s.drop_last(), dims, equal);
        lemma_entries_by_dims(s.drop_last(), dims, equal);
        let whole = entries_by_dims(s, dims, equal);
        assert forall|i: int| 0 <= i < whole.len() implies (#[trigger] whole[i].dims == dims)
            == equal by {
            if i < rest.len() {
                assert(whole[i] == rest[i]);
            }
        }
    }
}

/// The models offered in the model select box: on Cloudflare those whose
/// size matches the index, on Ollama the whole catalog.
pub open spec fn suggested_spec(catalogs: ModelCatalogs, backend: EmbedderBackend, target_dims: u32) -> Seq<
    CatalogEntry,
> {
    match backend {
        EmbedderBackend::Cloudflare => entries_by_dims(catalog_for(catalogs, backend), target_dims, true),
        EmbedderBackend::Ollama => catalog_for(catalogs, backend),
    }
}

/// The models offered for the current backend and index size.
pub fn suggested_models(catalogs: &ModelCatalogs, backend: EmbedderBackend, target_dims: u32) -> (r:
    Vec<CatalogEntry>)
    ensures
        r@ == suggested_spec(*catalogs, backend, target_dims),
{
    let catalog = catalogs.for_backend(backend);
    match backend {
        EmbedderBackend::Cloudflare => filter_by_dims(catalog, target_dims, true),
        EmbedderBackend::Ollama => copy_entries(catalog),
    }
}

/// The Cloudflare models listed as unusable because their size differs from
/// the index; none on Ollama.
pub fn incompatible_models(catalogs: &ModelCatalogs, backend: EmbedderBackend, target_dims: u32) -> (r:
    Vec<CatalogEntry>)
    ensures
        r@ == (match backend {
            EmbedderBackend::Cloudflare => entries_by_dims(
                catalog_for(*catalogs, backend),
                target_dims,
                false,
            ),
            EmbedderBackend::Ollama => Seq::<CatalogEntry>::empty(),
        }),
{
    match backend {
        EmbedderBackend::Cloudflare => filter_by_dims(catalogs.for_backend(backend), target_dims, false),
        EmbedderBackend::Ollama => Vec::new(),
    }
}

/// The first entry of `s` with the given identifier.
pub open spec fn first_with_id(s: Seq<CatalogEntry>, id: Seq<char>) -> Option<int>
    decreases s.len(),
{
    if s.len() == 0 {
        None
    } else if s[0].id@ == id {
        Some(0)
    } else {
        match first_with_id(s.drop_first(), id) {
            Some(i) => Some(i + 1),
            None => None,
        }
    }
}

/// The first entry of `s` of the given size.
pub open spec fn first_with_dims(s: Seq<CatalogEntry>, dims: u32) -> Option<int>
    decreases s.len(),
{
    if s.len() == 0 {
        None
    } else if s[0].dims == dims {
        Some(0)
    } else {
        match first_with_dims(s.drop_first(), dims) {
            Some(i) => Some(i + 1),
            None => None,
        }
    }
}

proof fn lemma_first_with_id(s: Seq<CatalogEntry>, id: Seq<char>, i: int)
    requires
        0 <= i <= s.len(),
        forall|k: int| 0 <= k < i ==> s[k].id@ != id,
    ensures
        i < s.len() && s[i].id@ == id ==> first_with_id(s, id) == Some(i),
        i == s.len() ==> first_with_id(s, id) is None,
    decreases i,
{
    if i > 0 {
        lemma_first_with_id(s.drop_first(), id, i - 1);
    }
}

proof fn lemma_first_with_dims(s: Seq<CatalogEntry>, dims: u32, i: int)
    requires
        0 <= i <= s.len(),
        forall|k: int| 0 <= k < i ==> s[k].dims != dims,
    ensures
        i < s.len() && s[i].dims == dims ==> first_with_dims(s, dims) == Some(i),
        i == s.len() ==> first_with_dims(s, dims) is None,
    decreases i,
{
    if i > 0 {
        lemma_first_with_dims(s.drop_first(), dims, i - 1);
    }
}

fn find_by_id(catalog: &[CatalogEntry], id: &str) -> (r: Option<usize>)
    ensures
        match first_with_id(catalog@, id@) {
            Some(i) => r matches Some(k) && k == i && i < catalog@.len(),
            None => r is None,
        },
{
    let mut k: usize = 0;
    while k < catalog.len()
        invariant
            k <= catalog.len(),
            forall|m: int| 0 <= m < k ==> catalog@[m].id@ != id@,
        decreases catalog.len() - k,
    {
        if str_eq(catalog[k].id.as_str(), id) {
            proof {
                lemma_first_with_id(catalog@, id@, k as int);
            }
            return Some(k);
        }
        k += 1;
    }
    proof {
        lemma_first_with_id(catalog@, id@, k as int);
    }
    None
}

fn find_by_dims(catalog: &[CatalogEntry], dims: u32) -> (r: Option<usize>)
    ensures
        match first_with_dims(catalog@, dims) {
            Some(i) => r matches Some(k) && k == i && i < catalog@.len(),
            None => r is None,
        },
{
    let mut k: usize = 0;
    while k < catalog.len()
        invariant
            k <= catalog.len(),
            forall|m: int| 0 <= m < k ==> catalog@[m].dims != dims,
        decreases catalog.len() - k,
    {
        if catalog[k].dims == dims {
            proof {
                lemma_first_with_dims(catalog@, dims, k as int);
            }
            return Some(k);
        }
        k += 1;
    }
    proof {
        lemma_first_with_dims(catalog@, dims, k as int);
    }
    None
}

/// Whether some entry of `s` has the identifier `id`.
pub open spec fn catalog_has(s: Seq<CatalogEntry>, id: Seq<char>) -> bool {
    exists|i: int| 0 <= i < s.len() && #[trigger] s[i].id@ == id
}

proof fn lemma_has_iff_first(s: Seq<CatalogEntry>, id: Seq<char>)
    ensures
        catalog_has(s, id) <==> first_with_id(s, id) is Some,
        first_with_id(s, id) matches Some(i) ==> 0 <= i < s.len() && s[i].id@ == id,
    decreases s.len(),
{
    if s.len() > 0 {
        lemma_has_iff_first(s.drop_first(), id);
        if catalog_has(s, id) && s[0].id@ != id {
            let i = choose|i: int| 0 <= i < s.len() && #[trigger] s[i].id@ == id;
            assert(s.drop_first()[i - 1].id@ == id);
        }
        if first_with_id(s.drop_first(), id) is Some && s[0].id@ != id {
            let j = first_with_id(s.drop_first(), id)->0;
            assert(s[j + 1].id@ == id);
        }
    }
}

/// Whether the model in use is one of the current backend's catalog.
pub fn in_catalog(catalogs: &ModelCatalogs, backend: EmbedderBackend, model_id: &str) -> (b: bool)
    ensures
        b == catalog_has(catalog_for(*catalogs, backend), model_id@),
{
    let catalog = catalogs.for_backend(backend);
    proof {
        lemma_has_iff_first(catalog@, model_id@);
    }
    find_by_id(catalog, model_id).is_some()
}

/// The size field is fixed when a Cloudflare catalog model is chosen: the
/// catalog knows its size.
pub fn dims_locked(catalogs: &ModelCatalogs, model: &EmbeddingModel) -> (b: bool)
    ensures
        b == (model.backend == EmbedderBackend::Cloudflare && catalog_has(
            catalog_for(*catalogs, model.backend),
            model.id@,
        )),
{
    match model.backend {
        EmbedderBackend::Cloudflare => in_catalog(catalogs, model.backend, model.id.as_str()),
        EmbedderBackend::Ollama => false,
    }
}

/// The class of the size field: dimmed while it is fixed.
pub fn dims_input_class(locked: bool) -> (r: &'static str)
    ensures
        r@ == (if locked {
            "input font-mono text-sm opacity-60"@
        } else {
            "input font-mono text-sm"@
        }),
{
    if locked {
        "input font-mono text-sm opacity-60"
    } else {
        "input font-mono text-sm"
    }
}

/// The select value that stands for a model outside the catalog.
pub open spec fn custom_marker() -> Seq<char> {
    "__custom__"@
}

/// The value shown in the model select box: the model's identifier when the
/// catalog has it, else the custom marker.
pub fn model_select_value(catalogs: &ModelCatalogs, model: &EmbeddingModel) -> (r: String)
    ensures
        r@ == (if catalog_has(catalog_for(*catalogs, model.backend), model.id@) {
            model.id@
        } else {
            custom_marker()
        }),
{
    if in_catalog(catalogs, model.backend, model.id.as_str()) {
        model.id.clone()
    } else {
        String::from_str("__custom__")
    }
}

/// The model after the operator picks another backend: the first catalog
/// model of the new backend that fits the index (Cloudflare) or the first one
/// listed (Ollama, which keeps the index size); with no such model, the
/// identifier is cleared and the size kept.
pub open spec fn backend_change_spec(
    model: EmbeddingModel,
    value: Seq<char>,
    catalogs: ModelCatalogs,
    target_dims: u32,
) -> (EmbedderBackend, Seq<char>, u32) {
    let next = if value == "ollama"@ {
        EmbedderBackend::Ollama
    } else {
        EmbedderBackend::Cloudflare
    };
    let catalog = catalog_for(catalogs, next);
    let pick = match next {
        EmbedderBackend::Cloudflare => first_with_dims(catalog, target_dims),
        EmbedderBackend::Ollama => if catalog.len() > 0 {
            Some(0int)
        } else {
            None
        },
    };
    match pick {
        Some(i) => (
            next,
            catalog[i].id@,
            if next == EmbedderBackend::Ollama {
                target_dims
            } else {
                catalog[i].dims
            },
        ),
        None => (next, Seq::<char>::empty(), model.dims),
    }
}

/// The model as (backend, identifier, size).
pub open spec fn model_view(m: EmbeddingModel) -> (EmbedderBackend, Seq<char>, u32) {
    (m.backend, m.id@, m.dims)
}

/// On Cloudflare every model offered produces vectors of the index's size,
/// and every model listed as incompatible does not.
pub proof fn law_offered_models_fit_index(catalogs: ModelCatalogs, target_dims: u32)
    ensures
        forall|i: int|
            0 <= i < suggested_spec(catalogs, EmbedderBackend::Cloudflare, target_dims).len()
                ==> #[trigger] suggested_spec(catalogs, EmbedderBackend::Cloudflare, target_dims)[i].dims
                == target_dims,
        forall|i: int|
            0 <= i < entries_by_dims(catalogs.cloudflare@, target_dims, false).len()
                ==> #[trigger] entries_by_dims(catalogs.cloudflare@, target_dims, false)[i].dims
                != target_dims,
{
    lemma_entries_by_dims(catalogs.cloudflare@, target_dims, true);
    lemma_entries_by_dims(catalogs.cloudflare@, target_dims, false);
}

proof fn lemma_first_with_dims_found(s: Seq<CatalogEntry>, dims: u32)
    ensures
        first_with_dims(s, dims) matches Some(i) ==> 0 <= i < s.len() && s[i].dims == dims,
    decreases s.len(),
{
    if s.len() > 0 {
        lemma_first_with_dims_found(s.drop_first(), dims);
    }
}

/// Switching the backend either picks a model whose output size is the
/// index's, or, when the new backend has no such model, clears the model
/// identifier and keeps the size.
pub proof fn law_backend_change_keeps_index_size(
    model: EmbeddingModel,
    value: Seq<char>,
    catalogs: ModelCatalogs,
    target_dims: u32,
)
    ensures
        backend_change_spec(model, value, catalogs, target_dims).2 == target_dims || (
        backend_change_spec(model, value, catalogs, target_dims).1.len() == 0 && backend_change_spec(
            model,
            value,
            catalogs,
            target_dims,
        ).2 == model.dims),
{
    lemma_first_with_dims_found(catalogs.cloudflare@, target_dims);
    lemma_first_with_dims_found(catalogs.ollama@, target_dims);
}

/// Applies a change of the backend select box.
pub fn model_after_backend_change(
    model: &EmbeddingModel,
    value: &str,
    catalogs: &ModelCatalogs,
    target_dims: u32,
) -> (r: EmbeddingModel)
    ensures
        model_view(r) == backend_change_spec(*model, value@, *catalogs, target_dims),
{
    let next = parse_embedder_backend(value);
    let catalog = catalogs.for_backend(next);
    let pick = match next {
        EmbedderBackend::Cloudflare => find_by_dims(catalog, target_dims),
        EmbedderBackend::Ollama => if catalog.len() > 0 {
            Some(0usize)
        } else {
            None
        },
    };
    match pick {
        Some(i) => {
            let dims = match next {
                EmbedderBackend::Ollama => target_dims,
                EmbedderBackend::Cloudflare => catalog[i].dims,
            };
            EmbeddingModel { backend: next, id: catalog[i].id.clone(), dims }
        },
        None => EmbeddingModel { backend: next, id: String::new(), dims: model.dims },
    }
}

/// The model after the operator picks an entry of the model select box.
/// The custom marker clears an identifier that came from the catalog; a
/// catalog identifier is taken over, and on Cloudflare its size with it; any
/// other value changes nothing.
pub open spec fn select_spec(model: EmbeddingModel, value: Seq<char>, catalogs: ModelCatalogs) -> (
    EmbedderBackend,
    Seq<char>,
    u32,
) {
    let catalog = catalog_for(catalogs, model.backend);
    if value == custom_marker() {
        if catalog_has(catalog, model.id@) {
            (model.backend, Seq::<char>::empty(), model.dims)
        } else {
            model_view(model)
        }
    } else {
        match first_with_id(catalog, value) {
            Some(i) => (
                model.backend,
                catalog[i].id@,
                if model.backend == EmbedderBackend::Cloudflare {
                    catalog[i].dims
                } else {
                    model.dims
                },
            ),
            None => model_view(model),
        }
    }
}

/// Applies a choice in the model select box.
pub fn model_after_select(model: &EmbeddingModel, value: &str, catalogs: &ModelCatalogs) -> (r:
    EmbeddingModel)
    ensures
        model_view(r) == select_spec(*model, value@, *catalogs),
{
    let catalog = catalogs.for_backend(model.backend);
    if str_eq(value, "__custom__") {
        if in_catalog(catalogs, model.backend, model.id.as_str()) {
            EmbeddingModel { backend: model.backend, id: String::new(), dims: model.dims }
        } else {
            EmbeddingModel { backend: model.backend, id: model.id.clone(), dims: model.dims }
        }
    } else {
        match find_by_id(catalog, value) {
            Some(i) => {
                let dims = match model.backend {
                    EmbedderBackend::Cloudflare => catalog[i].dims,
                    EmbedderBackend::Ollama => model.dims,
                };
                EmbeddingModel { backend: model.backend, id: catalog[i].id.clone(), dims }
            },
            None => EmbeddingModel { backend: model.backend, id: model.id.clone(), dims: model.dims },
        }
    }
}

/// Applies typing into the size field (text that is no number reads 0).
pub fn model_after_dims_input(model: &EmbeddingModel, input: &str) -> (r: EmbeddingModel)
    ensures
        model_view(r) == (model.backend, model.id@, number_input_spec(input@, 0)),
{
    EmbeddingModel { backend: model.backend, id: model.id.clone(), dims: number_input(input, 0) }
}

/// The label of a catalog entry: `<id> (<dims> dims)`.
pub fn catalog_option_label(entry: &CatalogEntry) -> (r: String)
    ensures
        r@ == entry.id@ + " ("@ + decimal(entry.dims as nat) + " dims)"@,
{
    let mut r = entry.id.clone();
    r.append(" (");
    push_decimal(&mut r, entry.dims as u64);
    r.append(" dims)");
    r
}

/// The warning shown when Cloudflare has no model of the index's size.
pub open spec fn no_compatible_message(target_dims: u32) -> Seq<char> {
    "NO COMPATIBLE CLOUDFLARE MODELS at "@ + decimal(target_dims as nat)
        + " dims — adjust index dimensions or switch backend."@
}

/// The warning under the model card, if the backend is Cloudflare and none
/// of its models fits the index.
pub fn no_compatible_warning(catalogs: &ModelCatalogs, backend: EmbedderBackend, target_dims: u32) -> (r:
    Option<String>)
    ensures
        match r {
            Some(m) => backend == EmbedderBackend::Cloudflare && suggested_spec(
                *catalogs,
                backend,
                target_dims,
            ).len() == 0 && m@ == no_compatible_message(target_dims),
            None => !(backend == EmbedderBackend::Cloudflare && suggested_spec(
                *catalogs,
                backend,
                target_dims,
            ).len() == 0),
        },
{
    match backend {
        EmbedderBackend::Ollama => None,
        EmbedderBackend::Cloudflare => {
            let suggested = suggested_models(catalogs, backend, target_dims);
            if suggested.len() == 0 {
                let mut m = String::from_str("NO COMPATIBLE CLOUDFLARE MODELS at ");
                push_decimal(&mut m, target_dims as u64);
                m.append(" dims — adjust index dimensions or switch backend.");
                Some(m)
            } else {
                None
            }
        },
    }
}

/// What the settings page shows after a save: success and its message.
pub fn save_outcome(result: Result<(), String>) -> (r: (bool, String))
    ensures
        match result {
            Ok(_) => r.0 && r.1@ == "STATE_SYNC_COMPLETE"@,
            Err(e) => !r.0 && r.1@ == "SYNC_FAULT: "@ + e@,
        },
{
    match result {
        Ok(_) => (true, String::from_str("STATE_SYNC_COMPLETE")),
        Err(e) => {
            let mut m = String::from_str("SYNC_FAULT: ");
            m.append(e.as_str());
            (false, m)
        },
    }
}

} // verus!
