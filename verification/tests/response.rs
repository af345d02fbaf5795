use gloam_commands::response::{ResponseCall, ResponseOp};
use gloam_commands::{Error, ReplyAction, ResponseState};

#[test]
fn plans_reply_actions_from_acknowledgement_state() {
    assert_eq!(
        ResponseState::Pending.reply_action(false).expect("initial"),
        ReplyAction::Initial { ephemeral: false }
    );
    assert_eq!(
        ResponseState::Deferred { ephemeral: false }
            .reply_action(false)
            .expect("deferred"),
        ReplyAction::CompleteDeferred
    );
    assert_eq!(
        ResponseState::Deferred { ephemeral: true }
            .reply_action(true)
            .expect("ephemeral deferred"),
        ReplyAction::CompleteDeferred
    );
    assert_eq!(
        ResponseState::Responded
            .reply_action(true)
            .expect("followup"),
        ReplyAction::Followup { ephemeral: true }
    );
    assert_eq!(
        ResponseState::Deleted
            .reply_action(false)
            .expect("followup after delete"),
        ReplyAction::Followup { ephemeral: false }
    );
}

#[test]
fn rejects_visibility_changes_after_deferral() {
    assert!(matches!(
        ResponseState::Deferred { ephemeral: false }.reply_action(true),
        Err(Error::ResponseVisibilityMismatch)
    ));
    assert!(matches!(
        ResponseState::Deferred { ephemeral: true }.reply_action(false),
        Err(Error::ResponseVisibilityMismatch)
    ));
}

#[test]
fn acknowledgement_is_reported_after_any_acknowledging_call() {
    assert!(!ResponseState::Pending.is_acknowledged());
    assert!(ResponseState::Deferred { ephemeral: true }.is_acknowledged());
    assert!(ResponseState::Responded.is_acknowledged());
    assert!(ResponseState::Deleted.is_acknowledged());
}

#[test]
fn only_one_initial_acknowledgement_over_a_sequence_of_operations() {
    let ops = [
        ResponseOp::Defer { ephemeral: true },
        ResponseOp::Defer { ephemeral: false },
        ResponseOp::Reply { ephemeral: true },
        ResponseOp::Reply { ephemeral: true },
        ResponseOp::Defer { ephemeral: true },
    ];
    let mut state = ResponseState::Pending;
    let mut acknowledgements = 0;
    let mut calls = Vec::new();
    for op in ops {
        match state.plan(op) {
            Ok(call) => {
                if matches!(call, ResponseCall::CreateResponse { .. } | ResponseCall::DeferResponse { .. }) {
                    acknowledgements += 1;
                }
                calls.push(call);
                state = state.after(call);
            }
            Err(error) => assert!(matches!(error, Error::InteractionAlreadyAcknowledged)),
        }
    }
    assert_eq!(acknowledgements, 1);
    assert_eq!(
        calls,
        vec![
            ResponseCall::DeferResponse { ephemeral: true },
            ResponseCall::EditOriginal,
            ResponseCall::CreateFollowup { ephemeral: true },
        ]
    );
    assert_eq!(state, ResponseState::Responded);
}

#[test]
fn edit_and_delete_require_an_original_response() {
    assert!(matches!(
        ResponseState::Pending.plan(ResponseOp::Edit),
        Err(Error::InteractionNotAcknowledged)
    ));
    assert!(matches!(
        ResponseState::Deleted.plan(ResponseOp::Delete),
        Err(Error::OriginalResponseDeleted)
    ));
    assert_eq!(
        ResponseState::Deferred { ephemeral: false }.after(ResponseCall::EditOriginal),
        ResponseState::Responded
    );
    assert_eq!(
        ResponseState::Responded.after(ResponseCall::DeleteOriginal),
        ResponseState::Deleted
    );
    assert!(matches!(
        ResponseState::Pending.plan(ResponseOp::Followup { ephemeral: false }),
        Err(Error::InteractionNotAcknowledged)
    ));
    assert_eq!(
        ResponseState::Deleted.plan(ResponseOp::Followup { ephemeral: true }),
        Ok(ResponseCall::CreateFollowup { ephemeral: true })
    );
}
