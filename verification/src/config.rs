//! The settings of generation, read once at startup.
use vstd::prelude::*;
use crate::error::ConfigError;

verus! {

/// Capacity of the context window where the configuration names none.
pub const DEFAULT_CONTEXT_SIZE: u32 = 2048;

/// Seed of the sampler where the configuration names none.
pub const DEFAULT_SEED: u32 = 1234;

/// Upper limit of prompt and output together, in tokens, where the
/// configuration names none.
pub const DEFAULT_MAX_OUTPUT_LENGTH: i32 = 32;

/// Number of layers that are offloaded where offloading is on: more than
/// any model has, so that all of them are.
pub const OFFLOADED_LAYERS: u32 = 1000;

/// Port that the server listens on where the configuration names none.
pub const DEFAULT_PORT: u16 = 3000;

/// The number of layers to offload to the GPU, where a number is to be set
/// at all: with offloading off the model's default is left as it is.
pub fn gpu_layers(offload: bool) -> (layers: Option<u32>)
    ensures
        layers == if offload {
            Some(OFFLOADED_LAYERS)
        } else {
            None::<u32>
        },
{
    if offload {
        Some(OFFLOADED_LAYERS)
    } else {
        None
    }
}

/// The port that the server listens on.
pub fn port_or_default(port: Option<u16>) -> (chosen: u16)
    ensures
        chosen == match port {
            Some(port) => port,
            None => DEFAULT_PORT,
        },
{
    match port {
        Some(port) => port,
        None => DEFAULT_PORT,
    }
}

/// The settings that every request is served with.
#[derive(Clone, Copy, Debug)]
pub struct GenerationConfig {
    /// Upper limit of prompt and output together, in tokens.
    pub max_output_length: i32,
    /// Seed of the sampler.
    pub seed: Option<u32>,
    /// Threads for generation.
    pub threads: Option<i32>,
    /// Threads for the processing of prompts and batches.
    pub threads_batch: Option<i32>,
    /// Capacity of the context window, in tokens.
    pub context_size: Option<u32>,
}

/// What a generation context is opened with.
#[derive(Clone, Copy, Debug, PartialEq, Eq, Structural)]
pub struct ContextParams {
    /// Capacity of the context window, in tokens.
    pub capacity: u32,
    /// Threads for generation; `None` leaves the model's default.
    pub threads: Option<i32>,
    /// Threads for prompts and batches; `None` leaves the model's default.
    pub threads_batch: Option<i32>,
}

/// One stage of the sampler. The stages are applied in order.
#[derive(Clone, Copy, Debug, PartialEq, Eq, Structural)]
pub enum SamplerStage {
    /// Draws from the distribution with a generator of the given seed.
    Seeded(u32),
    /// Takes the most probable token.
    Greedy,
}

impl GenerationConfig {
    /// A context size, where one is given, is not zero.
    pub open spec fn wf(&self) -> bool {
        self.context_size != Some(0u32)
    }

    /// The seed that the sampler is made with.
    pub open spec fn seed_spec(&self) -> u32 {
        match self.seed {
            Some(seed) => seed,
            None => DEFAULT_SEED,
        }
    }

    /// The parameters that a context is opened with: the configured capacity
    /// or the default, and for batches the batch threads or, where none are
    /// set, the generation threads.
    pub open spec fn context_params_spec(&self) -> ContextParams {
        ContextParams {
            capacity: match self.context_size {
                Some(size) => size,
                None => DEFAULT_CONTEXT_SIZE,
            },
            threads: self.threads,
            threads_batch: match self.threads_batch {
                Some(n) => Some(n),
                None => self.threads,
            },
        }
    }

    /// The two stages of the sampler: a seeded draw, then the greedy choice.
    /// The greedy stage decides, so the same seed and the same logits give
    /// the same token.
    pub open spec fn sampler_chain_spec(&self) -> Seq<SamplerStage> {
        seq![SamplerStage::Seeded(self.seed_spec()), SamplerStage::Greedy]
    }

    /// Checks the settings. Fails with `ZeroContextSize` where the context
    /// size is given as zero.
    pub fn new(
        max_output_length: i32,
        seed: Option<u32>,
        threads: Option<i32>,
        threads_batch: Option<i32>,
        context_size: Option<u32>,
    ) -> (r: Result<GenerationConfig, ConfigError>)
        ensures
            match r {
                Ok(config) => context_size != Some(0u32) && config.wf() && config == (
                GenerationConfig { max_output_length, seed, threads, threads_batch, context_size }),
                Err(e) => context_size == Some(0u32) && e == ConfigError::ZeroContextSize,
            },
    {
        match context_size {
            Some(0) => Err(ConfigError::ZeroContextSize),
            _ => Ok(GenerationConfig { max_output_length, seed, threads, threads_batch, context_size }),
        }
    }

    /// The seed that the sampler is made with.
    pub fn seed(&self) -> (seed: u32)
        ensures
            seed == self.seed_spec(),
    {
        match self.seed {
            Some(seed) => seed,
            None => DEFAULT_SEED,
        }
    }

    /// The parameters that a context is opened with.
    pub fn context_params(&self) -> (params: ContextParams)
        ensures
            params == self.context_params_spec(),
            self.wf() ==> params.capacity > 0,
    {
        ContextParams {
            capacity: match self.context_size {
                Some(size) => size,
                None => DEFAULT_CONTEXT_SIZE,
            },
            threads: self.threads,
            threads_batch: match self.threads_batch {
                Some(n) => Some(n),
                None => self.threads,
            },
        }
    }

    /// The stages of the sampler, in the order in which they are applied.
    pub fn sampler_chain(&self) -> (chain: Vec<SamplerStage>)
        ensures
            chain@ == self.sampler_chain_spec(),
    {
        let mut chain: Vec<SamplerStage> = Vec::new();
        chain.push(SamplerStage::Seeded(self.seed()));
        chain.push(SamplerStage::Greedy);
        assert(chain@ =~= self.sampler_chain_spec());
        chain
    }
}

impl Default for GenerationConfig {
    /// The settings of a process that was started without any.
    fn default() -> (config: GenerationConfig)
        ensures
            config.wf(),
            config == (GenerationConfig {
                max_output_length: DEFAULT_MAX_OUTPUT_LENGTH,
                seed: None,
                threads: None,
                threads_batch: None,
                context_size: None,
            }),
    {
        GenerationConfig {
            max_output_length: DEFAULT_MAX_OUTPUT_LENGTH,
            seed: None,
            threads: None,
            threads_batch: None,
            context_size: None,
        }
    }
}

} // verus!
