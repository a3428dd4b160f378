//! The session stage machine: which commands are legal before and after
//! authentication, and how the stage advances.

use vstd::prelude::*;

use crate::error::PopError;

verus! {

/// The session's position in the authentication lifecycle.  It only ever
/// advances forward: `Authenticated` is entered exactly once, by a
/// successful authentication, and only from `Unauthenticated`; `Closing`
/// is terminal and entered only by the terminating command.
#[derive(Clone, Copy, PartialEq, Eq, Structural, Debug)]
pub enum Stage {
    Unauthenticated,
    Authenticated,
    Closing,
}

/// The three command categories the stage machine distinguishes.
#[derive(Clone, Copy, PartialEq, Eq, Structural, Debug)]
pub enum CommandKind {
    Authenticate,
    Mailbox,
    Terminate,
}

/// The stage table: authentication commands only before authentication,
/// mailbox operations only after it, the terminating command from any
/// stage that is not already closing.
pub open spec fn stage_allows(stage: Stage, kind: CommandKind) -> bool {
    match kind {
        CommandKind::Authenticate => stage is Unauthenticated,
        CommandKind::Mailbox => stage is Authenticated,
        CommandKind::Terminate => !(stage is Closing),
    }
}

/// The stage's position in the forward-only lifecycle.
pub open spec fn stage_index(stage: Stage) -> int {
    match stage {
        Stage::Unauthenticated => 0,
        Stage::Authenticated => 1,
        Stage::Closing => 2,
    }
}

/// Validate a command category against the current stage, before anything
/// is sent: exactly the stage table, with `WrongStage` on violation.
pub fn check(stage: Stage, kind: CommandKind) -> (r: Result<(), PopError>)
    ensures
        r is Ok <==> stage_allows(stage, kind),
        r matches Err(e) ==> e is WrongStage,
{
    let allowed = match kind {
        CommandKind::Authenticate => stage == Stage::Unauthenticated,
        CommandKind::Mailbox => stage == Stage::Authenticated,
        CommandKind::Terminate => stage != Stage::Closing,
    };
    if allowed {
        Ok(())
    } else {
        Err(PopError::WrongStage)
    }
}

/// Any mailbox operation issued before a successful authentication is out
/// of stage, so the engine rejects it locally and nothing reaches the
/// transport.
pub proof fn lemma_mailbox_before_authentication(stage: Stage)
    requires
        !(stage is Authenticated),
    ensures
        !stage_allows(stage, CommandKind::Mailbox),
{
}

/// Once a session is authenticated, authenticating again is out of stage.
pub proof fn lemma_no_second_authentication()
    ensures
        !stage_allows(Stage::Authenticated, CommandKind::Authenticate),
{
}

} // verus!
