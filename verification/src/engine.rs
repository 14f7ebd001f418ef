//! The dispatch engine: a table of rules, and finding and running the rule
//! that an instruction or a log record falls under.

pub mod decoder;
pub mod rule;
pub mod table;

pub use decoder::{InnerInstructionDecoder, InstructionDecoder};
pub use rule::{
    is_prefix, lemma_prefix_is_exact, pattern, starts_with, GenericEventParseConfig, InnerDiscriminator,
    InnerPattern, RuleView,
};
pub use table::{first_match, lemma_first_match, position, ConfigError, GenericEventParser};
