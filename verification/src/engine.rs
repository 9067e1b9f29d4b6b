//! The translator: the settings and the table of directions, made once at
//! startup and read by every request.
use vstd::prelude::*;
use crate::config::GenerationConfig;
use crate::prompt::fill_prompt;
use crate::protocol::{start, StepView};
use crate::router::{DirectionKey, DirectionTable};
use crate::session::{Outcome, PendingContext, Step};

verus! {

/// What every request is served with. Nothing in it changes after startup.
pub struct Translator {
    config: GenerationConfig,
    table: DirectionTable,
}

impl Translator {
    /// The settings.
    pub closed spec fn config(&self) -> GenerationConfig {
        self.config
    }

    /// The directions, each with the index of its model.
    pub closed spec fn table(&self) -> Map<DirectionKey, usize> {
        self.table@
    }

    /// The number of models that the table may refer to.
    pub closed spec fn models(&self) -> nat {
        self.table.models()
    }

    /// The settings and the table are in order.
    pub closed spec fn wf(&self) -> bool {
        self.config.wf() && self.table.wf()
    }

    /// A translator with the given settings and directions.
    pub fn new(config: GenerationConfig, table: DirectionTable) -> (translator: Translator)
        requires
            config.wf(),
            table.wf(),
        ensures
            translator.wf(),
            translator.config() == config,
            translator.table() == table@,
            translator.models() == table.models(),
    {
        Translator { config, table }
    }

    /// The settings.
    pub fn settings(&self) -> (config: &GenerationConfig)
        ensures
            *config == self.config(),
    {
        &self.config
    }

    /// Starts a request for a translation of `text` from `source` to
    /// `target`.
    ///
    /// The request ends at once, before anything is asked of a model, with
    /// `UnsupportedLanguage` where the prompt template has no instruction
    /// for `target`, else with `UnsupportedDirection` where no model serves
    /// the pair. Else the first step asks for a context on the model of the
    /// pair.
    pub fn translate(&self, text: &str, source: &str, target: &str) -> (step: Step)
        requires
            self.wf(),
        ensures
            step.wf(),
            step@ == start(self.table(), self.config(), text@, source@, target@),
            step@ matches StepView::Context(pending) ==> pending.model < self.models(),
    {
        let prompt = match fill_prompt(text, target) {
            Ok(prompt) => prompt,
            Err(error) => {
                return Step::Done(Outcome { result: Err(error), forward_passes: 0 });
            },
        };
        match self.table.select(source, target) {
            Ok(model) => Step::Context(
                PendingContext::new(
                    model,
                    prompt,
                    self.config.context_params(),
                    self.config.max_output_length,
                ),
            ),
            Err(error) => Step::Done(Outcome { result: Err(error), forward_passes: 0 }),
        }
    }
}

} // verus!
