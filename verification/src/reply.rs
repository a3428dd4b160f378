//! Classifying and reassembling server replies.
//!
//! Every reply's first line starts with the positive marker `+OK` or the
//! negative marker `-ERR`, each followed by a single separating space and
//! free text (the text may be absent).  A multi-line reply follows a
//! positive first line with payload lines and ends with a terminator line
//! consisting of a single dot; payload lines that begin with two dots have
//! one stripped (transparency un-escaping).
//!
//! The decoder is fed one line at a time, as read from the stream; the
//! caller that owns the stream maps a zero-length read to [`ReplyDecoder::feed_eof`].

use vstd::prelude::*;
use vstd::string::StrSliceExecFns;

use crate::error::PopError;
use crate::text::crlf;
use crate::text::strip_crlf;
use crate::text::strip_crlf_str;

verus! {

/// The fixed positive marker.
pub open spec fn pos_marker() -> Seq<char> {
    seq!['+', 'O', 'K']
}

/// The fixed negative marker.
pub open spec fn neg_marker() -> Seq<char> {
    seq!['-', 'E', 'R', 'R']
}

/// A terminator-stripped first line is positive when it is the positive
/// marker alone, or the marker followed by the separating space.
pub open spec fn line_is_positive(b: Seq<char>) -> bool {
    b.len() >= 3 && b.subrange(0, 3) == pos_marker() && (b.len() == 3 || b[3] == ' ')
}

/// A terminator-stripped first line is negative when it is the negative
/// marker alone, or the marker followed by the separating space.
pub open spec fn line_is_negative(b: Seq<char>) -> bool {
    b.len() >= 4 && b.subrange(0, 4) == neg_marker() && (b.len() == 4 || b[4] == ' ')
}

/// Whatever follows the first `k` characters; empty when nothing does.
pub open spec fn text_after(b: Seq<char>, k: int) -> Seq<char> {
    if b.len() > k {
        b.subrange(k, b.len() as int)
    } else {
        Seq::empty()
    }
}

/// The free text of a positive first line: marker and separating space
/// stripped.
pub open spec fn positive_text(b: Seq<char>) -> Seq<char> {
    text_after(b, 4)
}

/// The free text of a negative first line: marker and separating space
/// stripped.
pub open spec fn negative_text(b: Seq<char>) -> Seq<char> {
    text_after(b, 5)
}

/// The terminator line of a multi-line reply, once its line ending is
/// stripped: a single dot.
pub open spec fn is_terminator(b: Seq<char>) -> bool {
    b.len() == 1 && b[0] == '.'
}

/// Transparency un-escaping: a payload line beginning with two dots loses
/// one; every other line is kept as it is.
pub open spec fn unescape(b: Seq<char>) -> Seq<char> {
    if b.len() >= 2 && b[0] == '.' && b[1] == '.' {
        b.subrange(1, b.len() as int)
    } else {
        b
    }
}

/// A classified reply.  `text` is the first line's free text; `body` holds
/// the terminator-stripped, transparency-unescaped payload lines of a
/// multi-line reply (empty for a single-line reply).
pub enum Outcome {
    Positive { text: String, body: Vec<String> },
    Negative { message: String },
}

/// What one more line did to the decoder: either the reply is complete, or
/// the decoder wants the next line.
pub enum Step {
    More(ReplyDecoder),
    Done(Outcome),
}

/// Decodes one reply, fed one line at a time.
pub struct ReplyDecoder {
    multiline: bool,
    in_body: bool,
    text: String,
    body: Vec<String>,
}

impl ReplyDecoder {
    /// Whether a multi-line reply is expected after a positive first line.
    pub closed spec fn multiline(self) -> bool {
        self.multiline
    }

    /// Whether the first line has been consumed and payload lines follow.
    pub closed spec fn in_body(self) -> bool {
        self.in_body
    }

    /// The first line's free text, once in the body.
    pub closed spec fn text_view(self) -> Seq<char> {
        self.text@
    }

    /// The unescaped payload lines collected so far.
    pub closed spec fn body_view(self) -> Seq<Seq<char>> {
        self.body.deep_view()
    }

    /// A fresh decoder, awaiting the reply's first line.
    pub fn new(multiline: bool) -> (r: ReplyDecoder)
        ensures
            !r.in_body(),
            r.multiline() == multiline,
    {
        ReplyDecoder { multiline, in_body: false, text: String::new(), body: Vec::new() }
    }

    /// Consume the next line as read from the stream (terminator included,
    /// when the stream had one).
    ///
    /// On the first line: a negative line completes the reply at once,
    /// whatever was expected; a positive line completes it in single-line
    /// mode and opens the body in multi-line mode; anything else is a
    /// malformed reply, surfaced verbatim.  In the body: the terminator
    /// line completes the reply and is not part of the payload; every other
    /// line is unescaped and appended.
    pub fn feed_line(self, line: &str) -> (r: Result<Step, PopError>)
        ensures
            ({
                let b = strip_crlf(line@);
                if !self.in_body() {
                    if line_is_positive(b) {
                        if self.multiline() {
                            &&& r matches Ok(Step::More(d))
                            &&& d.in_body()
                            &&& d.multiline()
                            &&& d.text_view() == positive_text(b)
                            &&& d.body_view() == Seq::<Seq<char>>::empty()
                        } else {
                            &&& r matches Ok(Step::Done(Outcome::Positive { text, body }))
                            &&& text@ == positive_text(b)
                            &&& body@.len() == 0
                        }
                    } else if line_is_negative(b) {
                        &&& r matches Ok(Step::Done(Outcome::Negative { message }))
                        &&& message@ == negative_text(b)
                    } else {
                        &&& r matches Err(PopError::InvalidReply { line: l })
                        &&& l@ == line@
                    }
                } else {
                    if is_terminator(b) {
                        &&& r matches Ok(Step::Done(Outcome::Positive { text, body }))
                        &&& text@ == self.text_view()
                        &&& body.deep_view() == self.body_view()
                    } else {
                        &&& r matches Ok(Step::More(d))
                        &&& d.in_body()
                        &&& d.multiline() == self.multiline()
                        &&& d.text_view() == self.text_view()
                        &&& d.body_view() == self.body_view().push(unescape(b))
                    }
                }
            }),
    {
        let b = strip_crlf_str(line);
        if !self.in_body {
            if is_positive_str(b) {
                let t = tail_from(b, 4);
                if self.multiline {
                    Ok(
                        Step::More(
                            ReplyDecoder {
                                multiline: self.multiline,
                                in_body: true,
                                text: t,
                                body: Vec::new(),
                            },
                        ),
                    )
                } else {
                    Ok(Step::Done(Outcome::Positive { text: t, body: Vec::new() }))
                }
            } else if is_negative_str(b) {
                let m = tail_from(b, 5);
                Ok(Step::Done(Outcome::Negative { message: m }))
            } else {
                Err(PopError::InvalidReply { line: line.to_owned() })
            }
        } else {
            if is_terminator_str(b) {
                Ok(Step::Done(Outcome::Positive { text: self.text, body: self.body }))
            } else {
                let u = unescape_str(b);
                let ghost old_body = self.body.deep_view();
                let mut body = self.body;
                body.push(u);
                proof {
                    assert(body.deep_view() =~= old_body.push(unescape(strip_crlf(line@))));
                }
                Ok(
                    Step::More(
                        ReplyDecoder {
                            multiline: self.multiline,
                            in_body: true,
                            text: self.text,
                            body,
                        },
                    ),
                )
            }
        }
    }

    /// A zero-length read (the peer closed the stream) while a reply was
    /// still expected: always a distinct abort, never a negative reply.
    pub fn feed_eof(self) -> (e: PopError)
        ensures
            e is ConnectionAborted,
    {
        PopError::ConnectionAborted
    }
}

fn is_positive_str(b: &str) -> (r: bool)
    ensures
        r == line_is_positive(b@),
{
    let n = b.unicode_len();
    if n < 3 {
        return false;
    }
    if !(b.get_char(0) == '+' && b.get_char(1) == 'O' && b.get_char(2) == 'K') {
        proof {
            assert(b@.subrange(0, 3)[0] == b@[0]);
            assert(b@.subrange(0, 3)[1] == b@[1]);
            assert(b@.subrange(0, 3)[2] == b@[2]);
        }
        return false;
    }
    proof {
        assert(b@.subrange(0, 3) =~= pos_marker());
    }
    if n == 3 {
        return true;
    }
    b.get_char(3) == ' '
}

fn is_negative_str(b: &str) -> (r: bool)
    ensures
        r == line_is_negative(b@),
{
    let n = b.unicode_len();
    if n < 4 {
        return false;
    }
    if !(b.get_char(0) == '-' && b.get_char(1) == 'E' && b.get_char(2) == 'R' && b.get_char(3)
        == 'R') {
        proof {
            assert(b@.subrange(0, 4)[0] == b@[0]);
            assert(b@.subrange(0, 4)[1] == b@[1]);
            assert(b@.subrange(0, 4)[2] == b@[2]);
            assert(b@.subrange(0, 4)[3] == b@[3]);
        }
        return false;
    }
    proof {
        assert(b@.subrange(0, 4) =~= neg_marker());
    }
    if n == 4 {
        return true;
    }
    b.get_char(4) == ' '
}

fn is_terminator_str(b: &str) -> (r: bool)
    ensures
        r == is_terminator(b@),
{
    let n = b.unicode_len();
    n == 1 && b.get_char(0) == '.'
}

fn tail_from(b: &str, k: usize) -> (r: String)
    ensures
        r@ == text_after(b@, k as int),
{
    let n = b.unicode_len();
    if n > k {
        b.substring_char(k, n).to_owned()
    } else {
        String::new()
    }
}

fn unescape_str(b: &str) -> (r: String)
    ensures
        r@ == unescape(b@),
{
    let n = b.unicode_len();
    if n >= 2 && b.get_char(0) == '.' && b.get_char(1) == '.' {
        b.substring_char(1, n).to_owned()
    } else {
        b.to_owned()
    }
}

/// No line is both positive and negative: the markers differ in their
/// first character, so the classification is unambiguous.
pub proof fn lemma_markers_disjoint(b: Seq<char>)
    ensures
        !(line_is_positive(b) && line_is_negative(b)),
{
    if line_is_positive(b) && line_is_negative(b) {
        assert(b.subrange(0, 3)[0] == b[0]);
        assert(b.subrange(0, 4)[0] == b[0]);
    }
}

/// A single-line positive reply `+OK <text>` with its line terminator
/// decodes to exactly `<text>`: the marker and the one separating space are
/// stripped, and so is the trailing terminator.
pub proof fn lemma_single_line_positive(text: Seq<char>)
    ensures
        ({
            let raw = seq!['+', 'O', 'K', ' '] + text + crlf();
            &&& strip_crlf(raw) == seq!['+', 'O', 'K', ' '] + text
            &&& line_is_positive(strip_crlf(raw))
            &&& positive_text(strip_crlf(raw)) == text
        }),
{
    let raw = seq!['+', 'O', 'K', ' '] + text + crlf();
    assert(raw[raw.len() - 2] == '\r');
    assert(raw[raw.len() - 1] == '\n');
    assert(strip_crlf(raw) =~= seq!['+', 'O', 'K', ' '] + text);
    let b = strip_crlf(raw);
    assert(b.subrange(0, 3) =~= pos_marker());
    assert(b[3] == ' ');
    assert(positive_text(b) =~= text);
}

/// In a multi-line body, a line beginning with two dots is appended with
/// exactly one dot stripped, and the line holding a single dot is the
/// terminator (it completes the reply and is never part of the payload).
pub proof fn lemma_transparency(rest: Seq<char>)
    ensures
        unescape(strip_crlf(seq!['.', '.'] + rest + crlf())) == seq!['.'] + rest,
        is_terminator(strip_crlf(seq!['.'] + crlf())),
{
    let raw = seq!['.', '.'] + rest + crlf();
    assert(raw[raw.len() - 2] == '\r');
    assert(raw[raw.len() - 1] == '\n');
    assert(strip_crlf(raw) =~= seq!['.', '.'] + rest);
    let b = strip_crlf(raw);
    assert(unescape(b) =~= seq!['.'] + rest);
    let t = seq!['.'] + crlf();
    assert(t[t.len() - 2] == '\r');
    assert(t[t.len() - 1] == '\n');
    assert(strip_crlf(t) =~= seq!['.']);
}

} // verus!
