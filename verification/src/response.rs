use vstd::prelude::*;
use crate::error::Error;

verus! {

/// Acknowledgement state of one interaction, shared by every clone of its context.
#[derive(Debug, Clone, Copy, PartialEq, Eq, Structural)]
pub enum ResponseState {
    /// Nothing has been sent to Discord yet.
    Pending,
    /// A deferred acknowledgement fixed the visibility of the original response.
    Deferred { ephemeral: bool },
    /// The original response exists.
    Responded,
    /// The original response was deleted.
    Deleted,
}

/// What a reply does in a given acknowledgement state.
#[derive(Debug, Clone, Copy, PartialEq, Eq, Structural)]
pub enum ReplyAction {
    /// Send the initial interaction response.
    Initial { ephemeral: bool },
    /// Complete a matching deferral by editing the original response.
    CompleteDeferred,
    /// Create a followup message.
    Followup { ephemeral: bool },
}

/// A response operation requested by a command handler.
#[derive(Debug, Clone, Copy, PartialEq, Eq, Structural)]
pub enum ResponseOp {
    Reply { ephemeral: bool },
    Defer { ephemeral: bool },
    Edit,
    Delete,
    Followup { ephemeral: bool },
}

/// The Discord call that carries out a permitted response operation.
#[derive(Debug, Clone, Copy, PartialEq, Eq, Structural)]
pub enum ResponseCall {
    /// Initial channel-message response.
    CreateResponse { ephemeral: bool },
    /// Deferred channel-message acknowledgement.
    DeferResponse { ephemeral: bool },
    /// Edit of the original response.
    EditOriginal,
    /// Deletion of the original response.
    DeleteOriginal,
    /// New followup message.
    CreateFollowup { ephemeral: bool },
}

impl ResponseState {
    pub open spec fn spec_reply_action(self, ephemeral: bool) -> Result<ReplyAction, Error> {
        match self {
            ResponseState::Pending => Ok(ReplyAction::Initial { ephemeral }),
            ResponseState::Deferred { ephemeral: deferred } => if ephemeral != deferred {
                Err(Error::ResponseVisibilityMismatch)
            } else {
                Ok(ReplyAction::CompleteDeferred)
            },
            ResponseState::Responded | ResponseState::Deleted => Ok(ReplyAction::Followup { ephemeral }),
        }
    }

    /// Plans a reply: the first reply acknowledges, a reply after a deferral of
    /// the same visibility completes it, and later replies become followups.
    pub fn reply_action(self, ephemeral: bool) -> (action: Result<ReplyAction, Error>)
        ensures
            action == self.spec_reply_action(ephemeral),
    {
        match self {
            ResponseState::Pending => Ok(ReplyAction::Initial { ephemeral }),
            ResponseState::Deferred { ephemeral: deferred } => {
                if ephemeral != deferred {
                    return Err(Error::ResponseVisibilityMismatch);
                }
                Ok(ReplyAction::CompleteDeferred)
            },
            ResponseState::Responded | ResponseState::Deleted => Ok(ReplyAction::Followup { ephemeral }),
        }
    }

    pub open spec fn spec_is_acknowledged(self) -> bool {
        !(self is Pending)
    }

    /// Whether the interaction has been acknowledged.
    pub fn is_acknowledged(self) -> (acknowledged: bool)
        ensures
            acknowledged == self.spec_is_acknowledged(),
    {
        !matches!(self, ResponseState::Pending)
    }

    /// The Discord call for `op` in this state, or the error that refuses it.
    pub open spec fn spec_plan(self, op: ResponseOp) -> Result<ResponseCall, Error> {
        match op {
            ResponseOp::Reply { ephemeral } => match self.spec_reply_action(ephemeral) {
                Ok(ReplyAction::Initial { ephemeral }) => Ok(ResponseCall::CreateResponse { ephemeral }),
                Ok(ReplyAction::CompleteDeferred) => Ok(ResponseCall::EditOriginal),
                Ok(ReplyAction::Followup { ephemeral }) => Ok(ResponseCall::CreateFollowup { ephemeral }),
                Err(e) => Err(e),
            },
            ResponseOp::Defer { ephemeral } => if self is Pending {
                Ok(ResponseCall::DeferResponse { ephemeral })
            } else {
                Err(Error::InteractionAlreadyAcknowledged)
            },
            ResponseOp::Edit => match self {
                ResponseState::Pending => Err(Error::InteractionNotAcknowledged),
                ResponseState::Deleted => Err(Error::OriginalResponseDeleted),
                _ => Ok(ResponseCall::EditOriginal),
            },
            ResponseOp::Delete => match self {
                ResponseState::Pending => Err(Error::InteractionNotAcknowledged),
                ResponseState::Deleted => Err(Error::OriginalResponseDeleted),
                _ => Ok(ResponseCall::DeleteOriginal),
            },
            ResponseOp::Followup { ephemeral } => if self.spec_is_acknowledged() {
                Ok(ResponseCall::CreateFollowup { ephemeral })
            } else {
                Err(Error::InteractionNotAcknowledged)
            },
        }
    }

    /// Decides which Discord call carries out `op`, before anything is sent.
    pub fn plan(self, op: ResponseOp) -> (call: Result<ResponseCall, Error>)
        ensures
            call == self.spec_plan(op),
    {
        match op {
            ResponseOp::Reply { ephemeral } => match self.reply_action(ephemeral) {
                Ok(ReplyAction::Initial { ephemeral }) => Ok(ResponseCall::CreateResponse { ephemeral }),
                Ok(ReplyAction::CompleteDeferred) => Ok(ResponseCall::EditOriginal),
                Ok(ReplyAction::Followup { ephemeral }) => Ok(ResponseCall::CreateFollowup { ephemeral }),
                Err(e) => Err(e),
            },
            ResponseOp::Defer { ephemeral } => {
                if matches!(self, ResponseState::Pending) {
                    Ok(ResponseCall::DeferResponse { ephemeral })
                } else {
                    Err(Error::InteractionAlreadyAcknowledged)
                }
            },
            ResponseOp::Edit => match self {
                ResponseState::Pending => Err(Error::InteractionNotAcknowledged),
                ResponseState::Deleted => Err(Error::OriginalResponseDeleted),
                _ => Ok(ResponseCall::EditOriginal),
            },
            ResponseOp::Delete => match self {
                ResponseState::Pending => Err(Error::InteractionNotAcknowledged),
                ResponseState::Deleted => Err(Error::OriginalResponseDeleted),
                _ => Ok(ResponseCall::DeleteOriginal),
            },
            ResponseOp::Followup { ephemeral } => {
                if self.is_acknowledged() {
                    Ok(ResponseCall::CreateFollowup { ephemeral })
                } else {
                    Err(Error::InteractionNotAcknowledged)
                }
            },
        }
    }

    pub open spec fn spec_after(self, call: ResponseCall) -> ResponseState {
        match call {
            ResponseCall::CreateResponse { .. } => ResponseState::Responded,
            ResponseCall::DeferResponse { ephemeral } => ResponseState::Deferred { ephemeral },
            ResponseCall::EditOriginal => if self is Deferred {
                ResponseState::Responded
            } else {
                self
            },
            ResponseCall::DeleteOriginal => ResponseState::Deleted,
            ResponseCall::CreateFollowup { .. } => self,
        }
    }

    /// The state once Discord has accepted `call`; a failed call leaves the
    /// state as it was, so the operation stays retryable.
    pub fn after(self, call: ResponseCall) -> (next: ResponseState)
        ensures
            next == self.spec_after(call),
    {
        match call {
            ResponseCall::CreateResponse { .. } => ResponseState::Responded,
            ResponseCall::DeferResponse { ephemeral } => ResponseState::Deferred { ephemeral },
            ResponseCall::EditOriginal => {
                if matches!(self, ResponseState::Deferred { .. }) {
                    ResponseState::Responded
                } else {
                    self
                }
            },
            ResponseCall::DeleteOriginal => ResponseState::Deleted,
            ResponseCall::CreateFollowup { .. } => self,
        }
    }
}

/// Whether `call` is an initial acknowledgement of the interaction.
pub open spec fn acknowledges(call: ResponseCall) -> bool {
    call is CreateResponse || call is DeferResponse
}

/// The state after every operation of `ops`, applied in order from `state`;
/// a refused operation leaves the state unchanged.
pub open spec fn run_ops(state: ResponseState, ops: Seq<ResponseOp>) -> ResponseState
    decreases ops.len(),
{
    if ops.len() == 0 {
        state
    } else {
        let next = match state.spec_plan(ops[0]) {
            Ok(call) => state.spec_after(call),
            Err(_) => state,
        };
        run_ops(next, ops.drop_first())
    }
}

/// How many operations of `ops`, applied in order from `state`, send an
/// initial acknowledgement.
pub open spec fn acknowledgements(state: ResponseState, ops: Seq<ResponseOp>) -> nat
    decreases ops.len(),
{
    if ops.len() == 0 {
        0
    } else {
        let (next, counted) = match state.spec_plan(ops[0]) {
            Ok(call) => (state.spec_after(call), if acknowledges(call) { 1nat } else { 0nat }),
            Err(_) => (state, 0nat),
        };
        counted + acknowledgements(next, ops.drop_first())
    }
}

/// Once acknowledged, an interaction never sends another initial
/// acknowledgement and never returns to the pending state.
pub proof fn acknowledged_state_stays_acknowledged(state: ResponseState, ops: Seq<ResponseOp>)
    requires
        state.spec_is_acknowledged(),
    ensures
        acknowledgements(state, ops) == 0,
        run_ops(state, ops).spec_is_acknowledged(),
    decreases ops.len(),
{
    if ops.len() > 0 {
        let next = match state.spec_plan(ops[0]) {
            Ok(call) => state.spec_after(call),
            Err(_) => state,
        };
        acknowledged_state_stays_acknowledged(next, ops.drop_first());
    }
}

/// Whatever sequence of response operations a handler and its clones issue,
/// the interaction receives at most one initial acknowledgement.
pub proof fn at_most_one_initial_acknowledgement(ops: Seq<ResponseOp>)
    ensures
        acknowledgements(ResponseState::Pending, ops) <= 1,
    decreases ops.len(),
{
    if ops.len() > 0 {
        match ResponseState::Pending.spec_plan(ops[0]) {
            Ok(call) => {
                acknowledged_state_stays_acknowledged(ResponseState::Pending.spec_after(call), ops.drop_first());
            },
            Err(_) => {
                at_most_one_initial_acknowledgement(ops.drop_first());
            },
        }
    }
}

/// A deferral fixes the visibility of the original response: a reply of the
/// other visibility is refused and leaves the deferral in place.
pub proof fn deferral_fixes_visibility(deferred: bool, ephemeral: bool)
    requires
        deferred != ephemeral,
    ensures
        (ResponseState::Deferred { ephemeral: deferred }).spec_plan((ResponseOp::Reply { ephemeral }))
            == Err::<ResponseCall, Error>(Error::ResponseVisibilityMismatch),
        run_ops((ResponseState::Deferred { ephemeral: deferred }), seq![(ResponseOp::Reply { ephemeral })])
            == (ResponseState::Deferred { ephemeral: deferred }),
{
    let state = ResponseState::Deferred { ephemeral: deferred };
    let ops = seq![(ResponseOp::Reply { ephemeral })];
    assert(ops.drop_first().len() == 0);
    assert(run_ops(state, ops.drop_first()) == state);
}

/// A reply of the deferred visibility completes the deferral by editing the
/// original response, after which replies become followups.
pub proof fn matching_reply_completes_deferral(ephemeral: bool)
    ensures
        (ResponseState::Deferred { ephemeral }).spec_plan((ResponseOp::Reply { ephemeral }))
            == Ok::<ResponseCall, Error>(ResponseCall::EditOriginal),
        (ResponseState::Deferred { ephemeral }).spec_after(ResponseCall::EditOriginal) == ResponseState::Responded,
        ResponseState::Responded.spec_plan((ResponseOp::Reply { ephemeral }))
            == Ok::<ResponseCall, Error>((ResponseCall::CreateFollowup { ephemeral })),
{
}

/// Editing the original response is planned exactly when the interaction has
/// been acknowledged and its original response still exists, and it is then
/// always an edit of the original.
pub proof fn edit_needs_a_live_original(state: ResponseState)
    ensures
        state.spec_plan(ResponseOp::Edit) is Ok <==> (state is Deferred || state is Responded),
        state.spec_plan(ResponseOp::Edit) is Ok ==> state.spec_plan(ResponseOp::Edit) == Ok::<
            ResponseCall,
            Error,
        >(ResponseCall::EditOriginal),
        state is Pending ==> state.spec_plan(ResponseOp::Edit) == Err::<ResponseCall, Error>(
            Error::InteractionNotAcknowledged,
        ),
{
}

/// Once a delete of the original response has gone through, every later edit
/// or delete is refused with `OriginalResponseDeleted`, while followups stay
/// possible.
pub proof fn deleted_original_stays_deleted(state: ResponseState, ephemeral: bool)
    ensures
        state.spec_plan(ResponseOp::Delete) matches Ok(call) ==> {
            let deleted = state.spec_after(call);
            &&& deleted.spec_plan(ResponseOp::Edit) == Err::<ResponseCall, Error>(Error::OriginalResponseDeleted)
            &&& deleted.spec_plan(ResponseOp::Delete) == Err::<ResponseCall, Error>(Error::OriginalResponseDeleted)
            &&& deleted.spec_plan(ResponseOp::Followup { ephemeral }) == Ok::<ResponseCall, Error>(
                ResponseCall::CreateFollowup { ephemeral },
            )
        },
{
}

} // verus!
