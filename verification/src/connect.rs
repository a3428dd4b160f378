//! The connect sequence: consume the greeting, optionally drive the
//! in-band security upgrade, and produce a ready session.
//!
//! The caller owns the socket: it reads the greeting and the upgrade reply
//! through a [`crate::reply::ReplyDecoder`] in single-line mode, hands each
//! outcome here, writes the line handed back, and runs the opaque security
//! handshake when told to.  Only after a successful handshake may the
//! session returned by [`Connector::on_upgrade_reply`] be used, and from
//! then on every line travels through the secured layer.

use vstd::prelude::*;
use vstd::string::StringExecFns;

use crate::command::Request;
use crate::error::PopError;
use crate::reply::Outcome;
use crate::session::Session;

verus! {

/// Whether the connection stays plain or must be upgraded in band before
/// the session is handed out.  Resolved once, at connect time.
#[derive(Clone, Copy, PartialEq, Eq, Structural, Debug)]
pub enum SecurityPolicy {
    Plain,
    UpgradeTls,
}

/// The line that requests the in-band security upgrade.
pub open spec fn upgrade_line() -> Seq<char> {
    "STLS\r\n"@
}

/// What a positive greeting leads to: a ready session, or the upgrade
/// request that must be written first.
pub enum GreetingStep {
    Ready(Session),
    Upgrade(Connector, Request),
}

/// Drives the decisions of the connect sequence.
pub struct Connector {
    policy: SecurityPolicy,
    awaiting_upgrade: bool,
}

impl Connector {
    /// The security policy this connect attempt was configured with.
    pub closed spec fn policy(self) -> SecurityPolicy {
        self.policy
    }

    /// Whether the upgrade command is out and its reply is awaited.
    pub closed spec fn awaiting_upgrade(self) -> bool {
        self.awaiting_upgrade
    }

    /// A connect attempt, awaiting the server's greeting.
    pub fn new(policy: SecurityPolicy) -> (c: Connector)
        ensures
            c.policy() == policy,
            !c.awaiting_upgrade(),
    {
        Connector { policy, awaiting_upgrade: false }
    }

    /// Consume the greeting.  A negative greeting fails the whole connect
    /// attempt; a positive one yields the session at once under the plain
    /// policy, and the upgrade request otherwise.
    pub fn on_greeting(self, outcome: &Outcome) -> (r: Result<GreetingStep, PopError>)
        requires
            !self.awaiting_upgrade(),
        ensures
            outcome matches Outcome::Negative { message } ==> {
                &&& r matches Err(PopError::GreetingRejected { message: m })
                &&& m@ == message@
            },
            outcome matches Outcome::Positive { .. } ==> if self.policy() is Plain {
                &&& r matches Ok(GreetingStep::Ready(s))
                &&& s.stage() is Unauthenticated
                &&& s.idle()
                &&& s.wf()
            } else {
                &&& r matches Ok(GreetingStep::Upgrade(c, req))
                &&& c.policy() == self.policy()
                &&& c.awaiting_upgrade()
                &&& req.line@ == upgrade_line()
                &&& req.multiline == false
            },
    {
        match outcome {
            Outcome::Negative { message } => {
                Err(PopError::GreetingRejected { message: message.clone() })
            },
            Outcome::Positive { .. } => match self.policy {
                SecurityPolicy::Plain => Ok(GreetingStep::Ready(Session::new())),
                SecurityPolicy::UpgradeTls => {
                    let req = Request { line: String::from_str("STLS\r\n"), multiline: false };
                    Ok(
                        GreetingStep::Upgrade(
                            Connector { policy: self.policy, awaiting_upgrade: true },
                            req,
                        ),
                    )
                },
            },
        }
    }

    /// Consume the reply to the upgrade command.  A rejection fails the
    /// connect attempt; on acceptance the caller must complete the
    /// security handshake on the same socket before using the session (a
    /// handshake that then fails is `UpgradeFailed`).
    pub fn on_upgrade_reply(self, outcome: &Outcome) -> (r: Result<Session, PopError>)
        requires
            self.awaiting_upgrade(),
        ensures
            outcome matches Outcome::Negative { message } ==> {
                &&& r matches Err(PopError::UpgradeRejected { message: m })
                &&& m@ == message@
            },
            outcome matches Outcome::Positive { .. } ==> {
                &&& r matches Ok(s)
                &&& s.stage() is Unauthenticated
                &&& s.idle()
                &&& s.wf()
            },
    {
        match outcome {
            Outcome::Negative { message } => {
                Err(PopError::UpgradeRejected { message: message.clone() })
            },
            Outcome::Positive { .. } => Ok(Session::new()),
        }
    }
}

} // verus!
