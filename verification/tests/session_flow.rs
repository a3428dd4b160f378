use pop3_client::command::Command;
use pop3_client::error::PopError;
use pop3_client::reply::Outcome;
use pop3_client::session::Progress;
use pop3_client::session::Reply;
use pop3_client::session::Session;
use pop3_client::stage::Stage;

fn pos(text: &str) -> Outcome {
    Outcome::Positive { text: text.to_string(), body: Vec::new() }
}

fn pos_body(text: &str, lines: &[&str]) -> Outcome {
    Outcome::Positive {
        text: text.to_string(),
        body: lines.iter().map(|l| l.to_string()).collect(),
    }
}

fn neg(message: &str) -> Outcome {
    Outcome::Negative { message: message.to_string() }
}

fn login_cmd() -> Command {
    Command::Login { user: "alice".to_string(), pass: "s3cret".to_string() }
}

fn authenticated() -> Session {
    let mut s = Session::new();
    let req = s.start(&login_cmd()).expect("the identifier line");
    assert_eq!(req.line, "USER alice\r\n");
    match s.on_outcome(&pos("")) {
        Ok(Progress::Next(req2)) => assert_eq!(req2.line, "PASS s3cret\r\n"),
        _ => panic!("expected the secret line to follow"),
    }
    match s.on_outcome(&pos("maildrop ready")) {
        Ok(Progress::Done(Reply::Accepted)) => {}
        _ => panic!("expected the authentication to complete"),
    }
    s
}

#[test]
fn happy_path_authenticates_in_two_steps() {
    let mut s = Session::new();
    assert_eq!(s.current_stage(), Stage::Unauthenticated);
    let req = s.start(&login_cmd()).expect("the identifier line");
    assert_eq!(req.line, "USER alice\r\n");
    assert!(!req.multiline);
    // The secret line exists only after the identifier line was accepted.
    let next = match s.on_outcome(&pos("")) {
        Ok(Progress::Next(req2)) => req2,
        _ => panic!("expected the secret line to follow"),
    };
    assert_eq!(next.line, "PASS s3cret\r\n");
    assert!(!next.multiline);
    assert_eq!(s.current_stage(), Stage::Unauthenticated);
    match s.on_outcome(&pos("")) {
        Ok(Progress::Done(Reply::Accepted)) => {}
        _ => panic!("expected the authentication to complete"),
    }
    assert_eq!(s.current_stage(), Stage::Authenticated);
}

#[test]
fn rejected_identifier_never_reaches_the_secret() {
    let mut s = Session::new();
    let _ = s.start(&login_cmd()).expect("the identifier line");
    match s.on_outcome(&neg("no such mailbox")) {
        Err(PopError::ProtocolNegative { message }) => {
            assert_eq!(message, "no such mailbox");
        }
        _ => panic!("expected the server's failure verbatim"),
    }
    // The stage is unchanged and the engine is idle: the caller may retry.
    assert_eq!(s.current_stage(), Stage::Unauthenticated);
    assert!(s.is_idle());
    let req = s.start(&login_cmd()).expect("a retry is legal");
    assert_eq!(req.line, "USER alice\r\n");
}

#[test]
fn rejected_secret_leaves_stage_unchanged() {
    let mut s = Session::new();
    let _ = s.start(&login_cmd()).expect("the identifier line");
    let _ = match s.on_outcome(&pos("")) {
        Ok(Progress::Next(req2)) => req2,
        _ => panic!("expected the secret line to follow"),
    };
    assert!(matches!(
        s.on_outcome(&neg("invalid password")),
        Err(PopError::ProtocolNegative { .. })
    ));
    assert_eq!(s.current_stage(), Stage::Unauthenticated);
}

#[test]
fn second_authentication_is_wrong_stage_with_no_write() {
    let mut s = authenticated();
    match s.start(&login_cmd()) {
        Err(PopError::WrongStage) => {}
        _ => panic!("expected a local rejection with nothing to write"),
    }
    // The engine handed out no request, so nothing reached the transport,
    // and the session is untouched.
    assert_eq!(s.current_stage(), Stage::Authenticated);
    assert!(s.is_idle());
}

#[test]
fn mailbox_operation_before_authentication_is_wrong_stage() {
    for cmd in [
        Command::Stat,
        Command::List { msg: None },
        Command::Retr { msg: 1 },
        Command::Dele { msg: 1 },
        Command::Noop,
        Command::Rset,
        Command::Top { msg: 1, lines: 2 },
        Command::Uidl { msg: None },
    ] {
        let mut s = Session::new();
        match s.start(&cmd) {
            Err(PopError::WrongStage) => {}
            _ => panic!("expected a local rejection with nothing to write"),
        }
        assert!(s.is_idle());
        assert_eq!(s.current_stage(), Stage::Unauthenticated);
    }
}

#[test]
fn repeated_noop_is_idempotent() {
    let mut s = authenticated();
    let first = s.start(&Command::Noop).expect("in stage");
    assert_eq!(first.line, "NOOP\r\n");
    assert!(matches!(
        s.on_outcome(&pos("")),
        Ok(Progress::Done(Reply::Accepted))
    ));
    // The completed operation restored the session state, so the repeat
    // is the identical request.
    assert_eq!(s.current_stage(), Stage::Authenticated);
    assert!(s.is_idle());
    let second = s.start(&Command::Noop).expect("in stage");
    assert_eq!(second.line, first.line);
    assert_eq!(second.multiline, first.multiline);
    assert!(matches!(
        s.on_outcome(&pos("")),
        Ok(Progress::Done(Reply::Accepted))
    ));
}

#[test]
fn stat_parses_counts() {
    let mut s = authenticated();
    let req = s.start(&Command::Stat).expect("in stage");
    assert_eq!(req.line, "STAT\r\n");
    assert!(!req.multiline);
    match s.on_outcome(&pos("2 340")) {
        Ok(Progress::Done(Reply::Stats { count, octets })) => {
            assert_eq!((count, octets), (2, 340));
        }
        _ => panic!("expected the parsed counts"),
    }
}

#[test]
fn stat_with_non_numeric_field_is_invalid_reply() {
    let mut s = authenticated();
    let _ = s.start(&Command::Stat).expect("in stage");
    match s.on_outcome(&pos("2 abc")) {
        Err(PopError::InvalidReply { line }) => assert_eq!(line, "2 abc"),
        _ => panic!("expected a malformed payload, not a panic"),
    }
    assert_eq!(s.current_stage(), Stage::Authenticated);
}

#[test]
fn retrieval_drops_the_echoed_size_line() {
    let mut s = authenticated();
    let req = s.start(&Command::Retr { msg: 1 }).expect("in stage");
    assert_eq!(req.line, "RETR 1\r\n");
    assert!(req.multiline);
    match s.on_outcome(&pos_body("120 octets", &["line one", "line two"])) {
        Ok(Progress::Done(Reply::Text { text })) => {
            assert_eq!(text, "line one\r\nline two");
        }
        _ => panic!("expected the message content alone"),
    }
}

#[test]
fn whole_mailbox_listing_keeps_its_first_line() {
    let mut s = authenticated();
    let req = s.start(&Command::List { msg: None }).expect("in stage");
    assert_eq!(req.line, "LIST\r\n");
    assert!(req.multiline);
    match s.on_outcome(&pos_body("2 messages", &["1 120", "2 220"])) {
        Ok(Progress::Done(Reply::Text { text })) => {
            assert_eq!(text, "2 messages\r\n1 120\r\n2 220");
        }
        _ => panic!("expected the reassembled listing"),
    }
}

#[test]
fn single_message_listing_is_single_line() {
    let mut s = authenticated();
    let req = s.start(&Command::List { msg: Some(2) }).expect("in stage");
    assert_eq!(req.line, "LIST 2\r\n");
    assert!(!req.multiline);
    match s.on_outcome(&pos("2 220")) {
        Ok(Progress::Done(Reply::Text { text })) => assert_eq!(text, "2 220"),
        _ => panic!("expected the listing line"),
    }
}

#[test]
fn command_lines_and_reply_shapes() {
    let mut s = authenticated();
    let req = s.start(&Command::Dele { msg: 3 }).expect("in stage");
    assert_eq!(req.line, "DELE 3\r\n");
    assert!(!req.multiline);
    let _ = s.on_outcome(&pos("message 3 deleted"));

    let req = s.start(&Command::Rset).expect("in stage");
    assert_eq!(req.line, "RSET\r\n");
    assert!(!req.multiline);
    let _ = s.on_outcome(&pos(""));

    let req = s.start(&Command::Top { msg: 1, lines: 2 }).expect("in stage");
    assert_eq!(req.line, "TOP 1 2\r\n");
    assert!(req.multiline);
    let _ = s.on_outcome(&pos_body("", &["a"]));

    let req = s.start(&Command::Uidl { msg: None }).expect("in stage");
    assert_eq!(req.line, "UIDL\r\n");
    assert!(req.multiline);
    let _ = s.on_outcome(&pos_body("", &["1 whqtswO00WBw418f9t5JxYwZ"]));

    let req = s.start(&Command::Uidl { msg: Some(1) }).expect("in stage");
    assert_eq!(req.line, "UIDL 1\r\n");
    assert!(!req.multiline);
    let _ = s.on_outcome(&pos("1 whqtswO00WBw418f9t5JxYwZ"));
}

#[test]
fn digest_authentication_is_single_shot() {
    let mut s = Session::new();
    let req = s
        .start(&Command::Apop {
            name: "mrose".to_string(),
            digest: "c4c9334bac560ecc979e58001b3e22fb".to_string(),
        })
        .expect("in stage");
    assert_eq!(req.line, "APOP mrose c4c9334bac560ecc979e58001b3e22fb\r\n");
    assert!(!req.multiline);
    match s.on_outcome(&pos("maildrop has 2 messages")) {
        Ok(Progress::Done(Reply::Text { text })) => {
            assert_eq!(text, "maildrop has 2 messages");
        }
        _ => panic!("expected the success text"),
    }
    assert_eq!(s.current_stage(), Stage::Authenticated);
}

#[test]
fn terminate_closes_whatever_the_reply() {
    let mut s = authenticated();
    let req = s.start(&Command::Quit).expect("legal from any stage");
    assert_eq!(req.line, "QUIT\r\n");
    // The session is closing as soon as the command is out.
    assert_eq!(s.current_stage(), Stage::Closing);
    assert!(matches!(
        s.on_outcome(&pos("bye")),
        Ok(Progress::Done(Reply::Accepted))
    ));
    assert!(matches!(s.start(&Command::Noop), Err(PopError::WrongStage)));
    assert!(matches!(s.start(&Command::Quit), Err(PopError::WrongStage)));
}

#[test]
fn failed_terminate_still_closes() {
    let mut s = authenticated();
    let _ = s.start(&Command::Quit).expect("legal from any stage");
    assert!(matches!(
        s.on_outcome(&neg("some deleted messages not removed")),
        Err(PopError::ProtocolNegative { .. })
    ));
    assert_eq!(s.current_stage(), Stage::Closing);
    assert!(matches!(s.start(&Command::Stat), Err(PopError::WrongStage)));
}

#[test]
fn terminate_is_legal_before_authentication() {
    let mut s = Session::new();
    let req = s.start(&Command::Quit).expect("legal from any stage");
    assert_eq!(req.line, "QUIT\r\n");
    assert_eq!(s.current_stage(), Stage::Closing);
}
