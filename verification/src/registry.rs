//! The configuration registry as the admin pages see it: AI providers,
//! vector-store providers, embedding and generation models, vector indexes
//! and pipeline configurations. Identifiers are UUIDs held as `u128`.

use vstd::prelude::*;

verus! {

#[derive(Debug, Clone)]
pub struct AiProviderDto {
    pub provider_id: u128,
    pub name: String,
}

#[derive(Debug, Clone)]
pub struct VectorStoreProviderDto {
    pub provider_id: u128,
    pub name: String,
}

#[derive(Debug, Clone)]
pub struct EmbeddingModelDto {
    pub embedding_model_id: u128,
    pub provider_id: u128,
    pub model: String,
    pub dimensions: u32,
}

#[derive(Debug, Clone)]
pub struct GenerationModelDto {
    pub generation_model_id: u128,
    pub provider_id: u128,
    pub model: String,
}

#[derive(Debug, Clone)]
pub struct VectorIndexDto {
    pub index_id: u128,
    pub vector_store_provider_id: u128,
    pub name: String,
    pub dimensions: u32,
}

#[derive(Debug, Clone)]
pub struct PipelineConfigurationDto {
    pub pipeline_configuration_id: u128,
    pub name: String,
    pub embedding_model_id: u128,
    pub generation_model_id: u128,
    pub vector_index_id: u128,
}

/// How many embedding models belong to a provider.
pub open spec fn embedding_count_spec(models: Seq<EmbeddingModelDto>, provider_id: u128) -> nat
    decreases models.len(),
{
    if models.len() == 0 {
        0
    } else {
        embedding_count_spec(models.drop_last(), provider_id) + (if models.last().provider_id
            == provider_id {
            1nat
        } else {
            0nat
        })
    }
}

/// The number of embedding models that belong to `provider_id`.
pub fn embedding_model_count(models: &[EmbeddingModelDto], provider_id: u128) -> (n: usize)
    ensures
        n == embedding_count_spec(models@, provider_id),
{
    let mut n: usize = 0;
    let mut k: usize = 0;
    while k < models.len()
        invariant
            k <= models.len(),
            n == embedding_count_spec(models@.take(k as int), provider_id),
            n <= k,
        decreases models.len() - k,
    {
        assert(models@.take(k + 1).drop_last() =~= models@.take(k as int));
        if models[k].provider_id == provider_id {
            n += 1;
        }
        k += 1;
    }
    assert(models@.take(models.len() as int) =~= models@);
    n
}

/// How many generation models belong to a provider.
pub open spec fn generation_count_spec(models: Seq<GenerationModelDto>, provider_id: u128) -> nat
    decreases models.len(),
{
    if models.len() == 0 {
        0
    } else {
        generation_count_spec(models.drop_last(), provider_id) + (if models.last().provider_id
            == provider_id {
            1nat
        } else {
            0nat
        })
    }
}

/// The number of generation models that belong to `provider_id`.
pub fn generation_model_count(models: &[GenerationModelDto], provider_id: u128) -> (n: usize)
    ensures
        n == generation_count_spec(models@, provider_id),
{
    let mut n: usize = 0;
    let mut k: usize = 0;
    while k < models.len()
        invariant
            k <= models.len(),
            n == generation_count_spec(models@.take(k as int), provider_id),
            n <= k,
        decreases models.len() - k,
    {
        assert(models@.take(k + 1).drop_last() =~= models@.take(k as int));
        if models[k].provider_id == provider_id {
            n += 1;
        }
        k += 1;
    }
    assert(models@.take(models.len() as int) =~= models@);
    n
}

/// How many vector indexes live on a vector-store provider.
pub open spec fn index_count_spec(indexes: Seq<VectorIndexDto>, provider_id: u128) -> nat
    decreases indexes.len(),
{
    if indexes.len() == 0 {
        0
    } else {
        index_count_spec(indexes.drop_last(), provider_id) + (if indexes.last().vector_store_provider_id
            == provider_id {
            1nat
        } else {
            0nat
        })
    }
}

/// The number of vector indexes that live on `provider_id`.
pub fn vector_index_count(indexes: &[VectorIndexDto], provider_id: u128) -> (n: usize)
    ensures
        n == index_count_spec(indexes@, provider_id),
{
    let mut n: usize = 0;
    let mut k: usize = 0;
    while k < indexes.len()
        invariant
            k <= indexes.len(),
            n == index_count_spec(indexes@.take(k as int), provider_id),
            n <= k,
        decreases indexes.len() - k,
    {
        assert(indexes@.take(k + 1).drop_last() =~= indexes@.take(k as int));
        if indexes[k].vector_store_provider_id == provider_id {
            n += 1;
        }
        k += 1;
    }
    assert(indexes@.take(indexes.len() as int) =~= indexes@);
    n
}

} // verus!
