//! The session engine: one half-duplex operation at a time.
//!
//! The engine owns no socket.  [`Session::start`] validates the stage and
//! hands back the line to write; the caller writes it, reads the reply
//! through a [`crate::reply::ReplyDecoder`], and hands the classified
//! outcome to [`Session::on_outcome`], which either asks for one more line
//! to be written (the secret line of the two-step authentication) or
//! finishes the operation with a typed result.

use vstd::prelude::*;
use vstd::string::StringExecFns;

use crate::command::first_line;
use crate::command::first_token;
use crate::command::format_pass_line;
use crate::command::format_request;
use crate::command::command_kind;
use crate::command::expects_multiline;
use crate::command::kind_of;
use crate::command::parse_stat_payload;
use crate::command::pass_line;
use crate::command::second_token;
use crate::command::stat_valid;
use crate::command::Command;
use crate::command::Request;
use crate::error::PopError;
use crate::numbers::dec_value;
use crate::reply::Outcome;
use crate::stage::check;
use crate::stage::stage_allows;
use crate::stage::stage_index;
use crate::stage::Stage;
use crate::text::join_all;
use crate::text::join_crlf;
use crate::text::join_with_head;

verus! {

/// The operation in flight, recorded when its first line is handed out and
/// resolved when the reply's outcome comes back.
pub enum Pending {
    /// No operation in flight.
    Idle,
    /// The identifier line of the two-step authentication was handed out;
    /// the secret is queued and is sent only if the identifier is accepted.
    User { pass: String },
    /// The secret line was handed out.
    Pass,
    /// The single-shot digest authentication line was handed out.
    Apop,
    /// The terminating command was handed out.
    Quit,
    /// The status command was handed out; its payload parses to counts.
    Stat,
    /// A single-line mailbox command whose success text is returned as is.
    Simple,
    /// The no-op command; its success text is dropped.
    Noop,
    /// A whole-mailbox listing: the reassembled payload keeps its first
    /// line.
    Listing,
    /// A message body: the reassembled payload drops its first line (the
    /// size line some servers echo) and returns only the content.
    Body,
}

/// A finished operation's typed result.
pub enum Reply {
    /// Success with nothing to return.
    Accepted,
    /// The status counts: messages in the mailbox, total size in octets.
    Stats { count: u32, octets: u32 },
    /// Success text or reassembled payload.
    Text { text: String },
}

/// What the engine wants after an outcome: write one more line, or the
/// operation is done.
pub enum Progress {
    Next(Request),
    Done(Reply),
}

/// The session state machine.  It validates every command against the
/// stage table before the command's line exists at all, so an out-of-stage
/// command costs no network traffic.
pub struct Session {
    stage: Stage,
    pending: Pending,
}

impl Session {
    /// The session's stage.
    pub closed spec fn stage(self) -> Stage {
        self.stage
    }

    /// The operation in flight.
    pub closed spec fn pending(self) -> Pending {
        self.pending
    }

    /// No operation is in flight.
    pub open spec fn idle(self) -> bool {
        self.pending() is Idle
    }

    /// The stage and the operation in flight agree: authentication steps
    /// only run unauthenticated, mailbox operations only authenticated,
    /// and the terminating command only once the session is closing.
    pub open spec fn wf(self) -> bool {
        &&& (self.pending() matches Pending::User { .. } ==> self.stage() is Unauthenticated)
        &&& (self.pending() is Pass ==> self.stage() is Unauthenticated)
        &&& (self.pending() is Apop ==> self.stage() is Unauthenticated)
        &&& (self.pending() is Quit ==> self.stage() is Closing)
        &&& (self.pending() is Stat ==> self.stage() is Authenticated)
        &&& (self.pending() is Simple ==> self.stage() is Authenticated)
        &&& (self.pending() is Noop ==> self.stage() is Authenticated)
        &&& (self.pending() is Listing ==> self.stage() is Authenticated)
        &&& (self.pending() is Body ==> self.stage() is Authenticated)
    }

    /// A fresh session, as the connect sequence produces it.
    pub fn new() -> (s: Session)
        ensures
            s.stage() is Unauthenticated,
            s.idle(),
            s.wf(),
    {
        Session { stage: Stage::Unauthenticated, pending: Pending::Idle }
    }

    /// The session's stage, for callers outside the proof.
    pub fn current_stage(&self) -> (s: Stage)
        ensures
            s == self.stage(),
    {
        self.stage
    }

    /// Whether no operation is in flight, for callers outside the proof.
    pub fn is_idle(&self) -> (r: bool)
        ensures
            r == self.idle(),
    {
        match self.pending {
            Pending::Idle => true,
            _ => false,
        }
    }

    /// Begin an operation: validate the stage, and hand out the command's
    /// line and expected reply shape.  An out-of-stage command is rejected
    /// locally, with the session unchanged and nothing to write.  The
    /// terminating command renders the session closing at once, whatever
    /// the server will reply.
    pub fn start(&mut self, cmd: &Command) -> (r: Result<Request, PopError>)
        requires
            old(self).idle(),
            old(self).wf(),
        ensures
            final(self).wf(),
            stage_index(old(self).stage()) <= stage_index(final(self).stage()),
            !stage_allows(old(self).stage(), kind_of(*cmd)) ==> {
                &&& r matches Err(e) && e is WrongStage
                &&& *final(self) == *old(self)
            },
            stage_allows(old(self).stage(), kind_of(*cmd)) ==> {
                &&& r matches Ok(req)
                &&& req.line@ == first_line(*cmd)
                &&& req.multiline == expects_multiline(*cmd)
                &&& final(self).pending() == pending_for(*cmd)
                &&& final(self).stage() == (if *cmd is Quit {
                    Stage::Closing
                } else {
                    old(self).stage()
                })
            },
    {
        let kind = command_kind(cmd);
        match check(self.stage, kind) {
            Err(e) => Err(e),
            Ok(()) => {
                let req = format_request(cmd);
                self.pending = pending_of(cmd);
                if let Command::Quit = cmd {
                    self.stage = Stage::Closing;
                }
                Ok(req)
            },
        }
    }

    /// Resolve the in-flight operation with the reply's outcome.
    ///
    /// A negative outcome fails the operation with the server's message
    /// verbatim and leaves the stage unchanged (a failed authentication
    /// may be retried; in particular the queued secret line is dropped
    /// unsent when the identifier line is rejected).  A positive outcome
    /// advances the two-step authentication, marks the stage authenticated
    /// when an authentication completes, and otherwise maps the payload to
    /// the operation's typed result.
    pub fn on_outcome(&mut self, outcome: &Outcome) -> (r: Result<Progress, PopError>)
        requires
            !old(self).idle(),
            old(self).wf(),
        ensures
            final(self).wf(),
            stage_index(old(self).stage()) <= stage_index(final(self).stage()),
            outcome matches Outcome::Negative { message } ==> {
                &&& r matches Err(PopError::ProtocolNegative { message: m }) && m@ == message@
                &&& final(self).idle()
                &&& final(self).stage() == old(self).stage()
            },
            outcome matches Outcome::Positive { text, body } ==> match old(self).pending() {
                Pending::Idle => true,
                Pending::User { pass } => {
                    &&& r matches Ok(Progress::Next(req))
                    &&& req.line@ == pass_line(pass@)
                    &&& req.multiline == false
                    &&& final(self).pending() is Pass
                    &&& final(self).stage() == old(self).stage()
                },
                Pending::Pass => {
                    &&& r matches Ok(Progress::Done(Reply::Accepted))
                    &&& final(self).idle()
                    &&& final(self).stage() is Authenticated
                },
                Pending::Apop => {
                    &&& r matches Ok(Progress::Done(Reply::Text { text: t })) && t@ == text@
                    &&& final(self).idle()
                    &&& final(self).stage() is Authenticated
                },
                Pending::Quit => {
                    &&& r matches Ok(Progress::Done(Reply::Accepted))
                    &&& final(self).idle()
                    &&& final(self).stage() is Closing
                },
                Pending::Stat => {
                    &&& stat_valid(text@) ==> (r matches Ok(
                        Progress::Done(Reply::Stats { count, octets }),
                    ) && count as nat == dec_value(first_token(text@)) && octets as nat
                        == dec_value(second_token(text@)))
                    &&& !stat_valid(text@) ==> (r matches Err(PopError::InvalidReply { line })
                        && line@ == text@)
                    &&& final(self).idle()
                    &&& final(self).stage() == old(self).stage()
                },
                Pending::Simple => {
                    &&& r matches Ok(Progress::Done(Reply::Text { text: t })) && t@ == text@
                    &&& final(self).idle()
                    &&& final(self).stage() == old(self).stage()
                },
                Pending::Noop => {
                    &&& r matches Ok(Progress::Done(Reply::Accepted))
                    &&& final(self).idle()
                    &&& final(self).stage() == old(self).stage()
                },
                Pending::Listing => {
                    &&& r matches Ok(Progress::Done(Reply::Text { text: t })) && t@ == join_crlf(
                        seq![text@] + body.deep_view(),
                    )
                    &&& final(self).idle()
                    &&& final(self).stage() == old(self).stage()
                },
                Pending::Body => {
                    &&& r matches Ok(Progress::Done(Reply::Text { text: t })) && t@ == join_crlf(
                        body.deep_view(),
                    )
                    &&& final(self).idle()
                    &&& final(self).stage() == old(self).stage()
                },
            },
    {
        let p = self.take_pending();
        match outcome {
            Outcome::Negative { message } => {
                Err(PopError::ProtocolNegative { message: message.clone() })
            },
            Outcome::Positive { text, body } => match p {
                Pending::Idle => Ok(Progress::Done(Reply::Accepted)),
                Pending::User { pass } => {
                    let line = format_pass_line(pass.as_str());
                    self.pending = Pending::Pass;
                    Ok(Progress::Next(Request { line, multiline: false }))
                },
                Pending::Pass => {
                    self.stage = Stage::Authenticated;
                    Ok(Progress::Done(Reply::Accepted))
                },
                Pending::Apop => {
                    self.stage = Stage::Authenticated;
                    Ok(Progress::Done(Reply::Text { text: text.clone() }))
                },
                Pending::Quit => Ok(Progress::Done(Reply::Accepted)),
                Pending::Stat => match parse_stat_payload(text.as_str()) {
                    Ok(p2) => Ok(Progress::Done(Reply::Stats { count: p2.0, octets: p2.1 })),
                    Err(e) => Err(e),
                },
                Pending::Simple => Ok(Progress::Done(Reply::Text { text: text.clone() })),
                Pending::Noop => Ok(Progress::Done(Reply::Accepted)),
                Pending::Listing => {
                    let joined = join_with_head(text.as_str(), body);
                    Ok(Progress::Done(Reply::Text { text: joined }))
                },
                Pending::Body => {
                    let joined = join_all(body);
                    Ok(Progress::Done(Reply::Text { text: joined }))
                },
            },
        }
    }

    fn take_pending(&mut self) -> (p: Pending)
        ensures
            p == old(self).pending(),
            final(self).pending() is Idle,
            final(self).stage() == old(self).stage(),
    {
        let mut p = Pending::Idle;
        core::mem::swap(&mut p, &mut self.pending);
        p
    }
}

/// A session's state is nothing but its stage and its in-flight record.
/// Completing a mailbox operation leaves the stage unchanged and the
/// engine idle again (the ensures of [`Session::on_outcome`]), so by this
/// lemma the session is restored exactly; a repeat of the same command
/// therefore hands out the identical line, and what classification comes
/// back depends on the mailbox alone.
pub proof fn lemma_session_determined_by_stage_and_pending(a: Session, b: Session)
    requires
        a.stage() == b.stage(),
        a.pending() == b.pending(),
    ensures
        a == b,
{
}

/// The in-flight record each command leaves behind.
pub open spec fn pending_for(cmd: Command) -> Pending {
    match cmd {
        Command::Login { pass, .. } => Pending::User { pass },
        Command::Apop { .. } => Pending::Apop,
        Command::Quit => Pending::Quit,
        Command::Stat => Pending::Stat,
        Command::Noop => Pending::Noop,
        Command::Dele { .. } => Pending::Simple,
        Command::Rset => Pending::Simple,
        Command::List { msg: Some(_) } => Pending::Simple,
        Command::Uidl { msg: Some(_) } => Pending::Simple,
        Command::List { msg: None } => Pending::Listing,
        Command::Uidl { msg: None } => Pending::Listing,
        Command::Retr { .. } => Pending::Body,
        Command::Top { .. } => Pending::Body,
    }
}

fn pending_of(cmd: &Command) -> (p: Pending)
    ensures
        p == pending_for(*cmd),
{
    match cmd {
        Command::Login { pass, .. } => Pending::User { pass: pass.clone() },
        Command::Apop { .. } => Pending::Apop,
        Command::Quit => Pending::Quit,
        Command::Stat => Pending::Stat,
        Command::Noop => Pending::Noop,
        Command::Dele { .. } => Pending::Simple,
        Command::Rset => Pending::Simple,
        Command::List { msg } => match msg {
            Some(_) => Pending::Simple,
            None => Pending::Listing,
        },
        Command::Uidl { msg } => match msg {
            Some(_) => Pending::Simple,
            None => Pending::Listing,
        },
        Command::Retr { .. } => Pending::Body,
        Command::Top { .. } => Pending::Body,
    }
}

} // verus!
