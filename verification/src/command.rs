//! The protocol verbs: composing each command's outgoing line, the shape of
//! the reply it expects, and the payload parsing the status verb needs.

use vstd::prelude::*;
use vstd::string::StrSliceExecFns;
use vstd::string::StringExecFns;

use crate::error::PopError;
use crate::numbers::all_digits;
use crate::numbers::dec_digits;
use crate::numbers::dec_value;
use crate::numbers::parse_u32;
use crate::numbers::u32_to_dec;
use crate::stage::CommandKind;

verus! {

/// One operation of the protocol, with its arguments.  Message references
/// are positive 32-bit integers; `List` and `Uidl` cover one message when a
/// reference is given and the whole mailbox when it is not.
pub enum Command {
    Login { user: String, pass: String },
    Apop { name: String, digest: String },
    Quit,
    Stat,
    List { msg: Option<u32> },
    Retr { msg: u32 },
    Dele { msg: u32 },
    Noop,
    Rset,
    Top { msg: u32, lines: u32 },
    Uidl { msg: Option<u32> },
}

/// The category the stage machine checks a command against.
pub open spec fn kind_of(cmd: Command) -> CommandKind {
    match cmd {
        Command::Login { .. } => CommandKind::Authenticate,
        Command::Apop { .. } => CommandKind::Authenticate,
        Command::Quit => CommandKind::Terminate,
        _ => CommandKind::Mailbox,
    }
}

/// Whether the command's reply is multi-line: always for full and partial
/// retrieval, and for the listing verbs when no message is singled out.
pub open spec fn expects_multiline(cmd: Command) -> bool {
    match cmd {
        Command::List { msg } => msg is None,
        Command::Uidl { msg } => msg is None,
        Command::Retr { .. } => true,
        Command::Top { .. } => true,
        _ => false,
    }
}

/// The first (for most commands: the only) line sent for a command.
pub open spec fn first_line(cmd: Command) -> Seq<char> {
    match cmd {
        Command::Login { user, .. } => "USER "@ + user@ + "\r\n"@,
        Command::Apop { name, digest } => "APOP "@ + name@ + " "@ + digest@ + "\r\n"@,
        Command::Quit => "QUIT\r\n"@,
        Command::Stat => "STAT\r\n"@,
        Command::List { msg: Some(n) } => "LIST "@ + dec_digits(n as nat) + "\r\n"@,
        Command::List { msg: None } => "LIST\r\n"@,
        Command::Retr { msg } => "RETR "@ + dec_digits(msg as nat) + "\r\n"@,
        Command::Dele { msg } => "DELE "@ + dec_digits(msg as nat) + "\r\n"@,
        Command::Noop => "NOOP\r\n"@,
        Command::Rset => "RSET\r\n"@,
        Command::Top { msg, lines } => "TOP "@ + dec_digits(msg as nat) + " "@ + dec_digits(
            lines as nat,
        ) + "\r\n"@,
        Command::Uidl { msg: Some(n) } => "UIDL "@ + dec_digits(n as nat) + "\r\n"@,
        Command::Uidl { msg: None } => "UIDL\r\n"@,
    }
}

/// The second line of the two-step authentication, sent only after the
/// identifier line was accepted.
pub open spec fn pass_line(pass: Seq<char>) -> Seq<char> {
    "PASS "@ + pass + "\r\n"@
}

/// One line ready to be written to the transport, and the shape of the
/// reply to read after it.
pub struct Request {
    pub line: String,
    pub multiline: bool,
}

pub fn command_kind(cmd: &Command) -> (k: CommandKind)
    ensures
        k == kind_of(*cmd),
{
    match cmd {
        Command::Login { .. } => CommandKind::Authenticate,
        Command::Apop { .. } => CommandKind::Authenticate,
        Command::Quit => CommandKind::Terminate,
        _ => CommandKind::Mailbox,
    }
}

/// Compose the command's first outgoing line, terminator included.
pub fn format_first_line(cmd: &Command) -> (r: String)
    ensures
        r@ == first_line(*cmd),
{
    match cmd {
        Command::Login { user, .. } => {
            let mut s = String::from_str("USER ");
            s.append(user.as_str());
            s.append("\r\n");
            s
        },
        Command::Apop { name, digest } => {
            let mut s = String::from_str("APOP ");
            s.append(name.as_str());
            s.append(" ");
            s.append(digest.as_str());
            s.append("\r\n");
            s
        },
        Command::Quit => String::from_str("QUIT\r\n"),
        Command::Stat => String::from_str("STAT\r\n"),
        Command::List { msg } => match msg {
            Some(n) => {
                let mut s = String::from_str("LIST ");
                s.append(u32_to_dec(*n).as_str());
                s.append("\r\n");
                s
            },
            None => String::from_str("LIST\r\n"),
        },
        Command::Retr { msg } => {
            let mut s = String::from_str("RETR ");
            s.append(u32_to_dec(*msg).as_str());
            s.append("\r\n");
            s
        },
        Command::Dele { msg } => {
            let mut s = String::from_str("DELE ");
            s.append(u32_to_dec(*msg).as_str());
            s.append("\r\n");
            s
        },
        Command::Noop => String::from_str("NOOP\r\n"),
        Command::Rset => String::from_str("RSET\r\n"),
        Command::Top { msg, lines } => {
            let mut s = String::from_str("TOP ");
            s.append(u32_to_dec(*msg).as_str());
            s.append(" ");
            s.append(u32_to_dec(*lines).as_str());
            s.append("\r\n");
            s
        },
        Command::Uidl { msg } => match msg {
            Some(n) => {
                let mut s = String::from_str("UIDL ");
                s.append(u32_to_dec(*n).as_str());
                s.append("\r\n");
                s
            },
            None => String::from_str("UIDL\r\n"),
        },
    }
}

/// Compose the secret line of the two-step authentication.
pub fn format_pass_line(pass: &str) -> (r: String)
    ensures
        r@ == pass_line(pass@),
{
    let mut s = String::from_str("PASS ");
    s.append(pass);
    s.append("\r\n");
    s
}

/// Compose the request for a command: its first line and the reply shape.
pub fn format_request(cmd: &Command) -> (r: Request)
    ensures
        r.line@ == first_line(*cmd),
        r.multiline == expects_multiline(*cmd),
{
    let line = format_first_line(cmd);
    let multiline = match cmd {
        Command::List { msg } => msg.is_none(),
        Command::Uidl { msg } => msg.is_none(),
        Command::Retr { .. } => true,
        Command::Top { .. } => true,
        _ => false,
    };
    Request { line, multiline }
}

/// Where the first field of a space-separated payload ends, scanning from
/// `from`: the first space at or after it, or the end of the payload.
pub open spec fn token_end(s: Seq<char>, from: int) -> int
    decreases s.len() - from,
{
    if from < 0 || from >= s.len() {
        s.len() as int
    } else if s[from] == ' ' {
        from
    } else {
        token_end(s, from + 1)
    }
}

/// `token_end` is pinned by its characterization: everything before it is
/// not a space, and it is a space or the end.
pub proof fn lemma_token_end_is(s: Seq<char>, from: int, e: int)
    requires
        0 <= from <= e <= s.len(),
        e == s.len() || s[e] == ' ',
        forall|j: int| from <= j < e ==> s[j] != ' ',
    ensures
        token_end(s, from) == e,
    decreases e - from,
{
    if from < e {
        lemma_token_end_is(s, from + 1, e);
    }
}

/// The first space-separated field of a status payload.
pub open spec fn first_token(s: Seq<char>) -> Seq<char> {
    s.subrange(0, token_end(s, 0))
}

pub open spec fn has_second_token(s: Seq<char>) -> bool {
    token_end(s, 0) < s.len()
}

/// The second space-separated field of a status payload.
pub open spec fn second_token(s: Seq<char>) -> Seq<char>
    recommends
        has_second_token(s),
{
    s.subrange(token_end(s, 0) + 1, token_end(s, token_end(s, 0) + 1))
}

/// A status payload is well-formed when both of its first two fields are
/// non-empty digit strings whose values fit in 32 bits.
pub open spec fn stat_valid(s: Seq<char>) -> bool {
    &&& has_second_token(s)
    &&& first_token(s).len() > 0
    &&& all_digits(first_token(s))
    &&& dec_value(first_token(s)) <= u32::MAX
    &&& second_token(s).len() > 0
    &&& all_digits(second_token(s))
    &&& dec_value(second_token(s)) <= u32::MAX
}

/// Parse a status payload into (message count, total octets).  A missing
/// or non-numeric field is a malformed reply, carried verbatim; it is not
/// a protocol-level failure.
pub fn parse_stat_payload(text: &str) -> (r: Result<(u32, u32), PopError>)
    ensures
        r is Ok <==> stat_valid(text@),
        r matches Ok(p) ==> p.0 as nat == dec_value(first_token(text@)) && p.1 as nat == dec_value(
            second_token(text@),
        ),
        r matches Err(e) ==> e matches PopError::InvalidReply { line } && line@ == text@,
{
    let n = text.unicode_len();
    let mut i: usize = 0;
    while i < n && text.get_char(i) != ' '
        invariant
            i <= n,
            n == text@.len(),
            forall|j: int| 0 <= j < i ==> text@[j] != ' ',
        decreases n - i,
    {
        i = i + 1;
    }
    proof {
        lemma_token_end_is(text@, 0, i as int);
    }
    if i == n {
        return Err(PopError::InvalidReply { line: text.to_owned() });
    }
    let first = text.substring_char(0, i);
    let a = parse_u32(first);
    let start2 = i + 1;
    let mut j: usize = start2;
    while j < n && text.get_char(j) != ' '
        invariant
            start2 <= j <= n,
            n == text@.len(),
            forall|k: int| start2 <= k < j ==> text@[k] != ' ',
        decreases n - j,
    {
        j = j + 1;
    }
    proof {
        lemma_token_end_is(text@, start2 as int, j as int);
    }
    let second = text.substring_char(start2, j);
    let b = parse_u32(second);
    match (a, b) {
        (Some(count), Some(octets)) => Ok((count, octets)),
        _ => Err(PopError::InvalidReply { line: text.to_owned() }),
    }
}

} // verus!
