//! Verified core of a Discord slash-command framework.
//!
//! The library holds the decisions of the framework as plain values: the
//! command registry and its Discord-native hierarchy rules, the resolution of
//! submitted command paths, typed option extraction, execution policy,
//! cooldowns and concurrency slots, the interaction acknowledgement state
//! machine, the command lifecycle, autocomplete response validation, command
//! synchronization requests and the schema rules that the command macros
//! enforce.
pub mod error;
pub mod command;
pub mod text;
pub mod policy;
pub mod cooldown;
pub mod node;
pub mod registry;
pub mod interaction;
pub mod response;
pub mod observability;
pub mod choice;
pub mod dispatch;
pub mod autocomplete;
pub mod lifecycle;
pub mod slots;
pub mod framework;
pub mod schema;
pub mod choice_enum;
pub mod registration;
pub mod signature;
pub mod grouping;

pub use autocomplete::{AutocompleteChoice, AutocompleteChoiceValue};
pub use choice::{CommandChoice, ChoiceKind};
pub use command::{
    ChoiceValue, CommandChoiceDescriptor, CommandDescriptor, CommandOptionDescriptor, NumericValue,
    OptionKind,
};
pub use dispatch::{DispatchPlan, InteractionSummary};
pub use error::Error;
pub use framework::{Framework, FrameworkBuilder, Registration, DEFAULT_MAX_CONCURRENT_COMMANDS};
pub use interaction::{CommandOption, CommandOptions};
pub use node::{AutocompleteHandlerDescriptor, SlashCommand};
pub use policy::{CheckDescriptor, CommandPolicy};
pub use registry::CommandRegistry;
pub use response::{ReplyAction, ResponseState};
