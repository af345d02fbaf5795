use vstd::prelude::*;

verus! {

/// Errors produced by the slash-command framework core.
///
/// Every variant carries the data that identifies the refused item, such as
/// the space-separated command path.
#[derive(Debug, Clone, PartialEq, Eq)]
pub enum Error {
    /// A command name was registered more than once.
    DuplicateCommand(String),
    /// The configured global command-concurrency limit was zero.
    InvalidConcurrencyLimit,
    /// An application-command interaction did not include command data.
    MissingApplicationCommandData,
    /// An operation required an acknowledgement, but the interaction is still pending.
    InteractionNotAcknowledged,
    /// A second initial acknowledgement or deferral was attempted.
    InteractionAlreadyAcknowledged,
    /// The original interaction response was already deleted.
    OriginalResponseDeleted,
    /// A deferred original response was asked to change public/ephemeral visibility.
    ResponseVisibilityMismatch,
    /// The internal command scheduler was closed unexpectedly.
    CommandSchedulerClosed,
    /// A command tree does not have Discord's native shape.
    InvalidCommandHierarchy(String),
    /// Two siblings of one group share a name.
    DuplicateCommandPath(String),
    /// A leaf carries an execution policy that cannot be honoured.
    InvalidCommandPolicy(String),
    /// Autocomplete handlers and option descriptors do not agree.
    InvalidAutocompleteConfiguration(String),
    /// A submitted command path does not name a registered leaf.
    UnknownCommandPath(String),
    /// An autocomplete interaction did not focus exactly one leaf option.
    InvalidAutocompleteFocus(String),
    /// The focused option has no registered autocomplete handler.
    UnknownAutocompleteOption { path: String, option: String },
    /// An autocomplete handler returned choices that Discord would refuse.
    InvalidAutocompleteResponse(String),
    /// A required option was not submitted.
    MissingOption(String),
    /// A submitted option has another kind or value shape than expected.
    InvalidOption { name: String, expected: String },
    /// A choice-backed option received a value outside its registered choices.
    InvalidChoice { name: String },
    /// The interaction context is not among the allowed ones.
    CommandContextNotAllowed(String),
    /// The invoking member lacks required permissions.
    MissingMemberPermissions { path: String, required: u64, actual: u64 },
    /// The application lacks required permissions.
    MissingBotPermissions { path: String, required: u64, actual: u64 },
    /// A custom check declined the invocation.
    CommandCheckFailed { path: String, check: String },
    /// The invoking user is still on cooldown for this command.
    CommandOnCooldown { path: String, retry_after_ns: u128 },
    /// The invoking user could not be determined for a per-user cooldown.
    CommandUserUnavailable(String),
}

} // verus!
