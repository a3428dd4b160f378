use pop3_client::error::PopError;
use pop3_client::reply::Outcome;
use pop3_client::reply::ReplyDecoder;
use pop3_client::reply::Step;

#[test]
fn single_line_positive_payload_exact() {
    let d = ReplyDecoder::new(false);
    match d.feed_line("+OK 2 340\r\n") {
        Ok(Step::Done(Outcome::Positive { text, body })) => {
            assert_eq!(text, "2 340");
            assert!(body.is_empty());
        }
        _ => panic!("expected a completed positive reply"),
    }
}

#[test]
fn bare_positive_marker_has_empty_payload() {
    let d = ReplyDecoder::new(false);
    match d.feed_line("+OK\r\n") {
        Ok(Step::Done(Outcome::Positive { text, body })) => {
            assert_eq!(text, "");
            assert!(body.is_empty());
        }
        _ => panic!("expected a completed positive reply"),
    }
}

#[test]
fn negative_line_carries_message_verbatim() {
    let d = ReplyDecoder::new(false);
    match d.feed_line("-ERR no such message\r\n") {
        Ok(Step::Done(Outcome::Negative { message })) => {
            assert_eq!(message, "no such message");
        }
        _ => panic!("expected a completed negative reply"),
    }
}

#[test]
fn bare_negative_marker_has_empty_message() {
    let d = ReplyDecoder::new(false);
    match d.feed_line("-ERR\r\n") {
        Ok(Step::Done(Outcome::Negative { message })) => {
            assert_eq!(message, "");
        }
        _ => panic!("expected a completed negative reply"),
    }
}

#[test]
fn short_line_is_invalid_reply_verbatim() {
    let d = ReplyDecoder::new(false);
    match d.feed_line("+O\r\n") {
        Err(PopError::InvalidReply { line }) => {
            assert_eq!(line, "+O\r\n");
        }
        _ => panic!("expected a malformed reply"),
    }
}

#[test]
fn marker_without_space_is_invalid_reply() {
    let d = ReplyDecoder::new(false);
    match d.feed_line("+OKx y\r\n") {
        Err(PopError::InvalidReply { line }) => {
            assert_eq!(line, "+OKx y\r\n");
        }
        _ => panic!("expected a malformed reply"),
    }
}

#[test]
fn negative_reply_completes_even_in_multiline_mode() {
    let d = ReplyDecoder::new(true);
    match d.feed_line("-ERR maildrop locked\r\n") {
        Ok(Step::Done(Outcome::Negative { message })) => {
            assert_eq!(message, "maildrop locked");
        }
        _ => panic!("expected a completed negative reply"),
    }
}

#[test]
fn multiline_body_unescapes_and_strips_terminator() {
    let d = ReplyDecoder::new(true);
    let d = match d.feed_line("+OK 2 messages\r\n") {
        Ok(Step::More(d)) => d,
        _ => panic!("expected the decoder to want the body"),
    };
    let d = match d.feed_line("line one\r\n") {
        Ok(Step::More(d)) => d,
        _ => panic!("expected the decoder to want more lines"),
    };
    let d = match d.feed_line("..dotted\r\n") {
        Ok(Step::More(d)) => d,
        _ => panic!("expected the decoder to want more lines"),
    };
    match d.feed_line(".\r\n") {
        Ok(Step::Done(Outcome::Positive { text, body })) => {
            assert_eq!(text, "2 messages");
            assert_eq!(body, vec!["line one".to_string(), ".dotted".to_string()]);
        }
        _ => panic!("expected the terminator to complete the reply"),
    }
}

#[test]
fn single_dot_line_without_second_dot_is_kept() {
    let d = ReplyDecoder::new(true);
    let d = match d.feed_line("+OK body follows\r\n") {
        Ok(Step::More(d)) => d,
        _ => panic!("expected the decoder to want the body"),
    };
    let d = match d.feed_line(".x\r\n") {
        Ok(Step::More(d)) => d,
        _ => panic!("expected the decoder to want more lines"),
    };
    match d.feed_line(".\r\n") {
        Ok(Step::Done(Outcome::Positive { text: _, body })) => {
            assert_eq!(body, vec![".x".to_string()]);
        }
        _ => panic!("expected the terminator to complete the reply"),
    }
}

#[test]
fn aborted_multiline_read_is_connection_aborted() {
    let d = ReplyDecoder::new(true);
    let d = match d.feed_line("+OK 2 messages\r\n") {
        Ok(Step::More(d)) => d,
        _ => panic!("expected the decoder to want the body"),
    };
    let d = match d.feed_line("1 120\r\n") {
        Ok(Step::More(d)) => d,
        _ => panic!("expected the decoder to want more lines"),
    };
    let e = d.feed_eof();
    assert!(matches!(e, PopError::ConnectionAborted));
}

#[test]
fn eof_instead_of_first_line_is_connection_aborted() {
    let d = ReplyDecoder::new(false);
    let e = d.feed_eof();
    assert!(matches!(e, PopError::ConnectionAborted));
}
