//! Characters and lines: the line terminator, stripping it from a line as
//! read, and joining reassembled lines back into one text.

use vstd::prelude::*;
use vstd::string::StrSliceExecFns;
use vstd::string::StringExecFns;

verus! {

/// The line terminator, as characters.
pub open spec fn crlf() -> Seq<char> {
    seq!['\r', '\n']
}

/// The literal written by the exec code is the same two characters.
pub proof fn lemma_crlf_literal()
    ensures
        "\r\n"@ == crlf(),
{
    reveal_strlit("\r\n");
    assert("\r\n"@ =~= crlf());
}

/// A line as read from the stream with its trailing terminator removed:
/// a final "\r\n" if present, else a final bare "\n" if present, else the
/// line unchanged.
pub open spec fn strip_crlf(s: Seq<char>) -> Seq<char> {
    if s.len() >= 2 && s[s.len() - 2] == '\r' && s[s.len() - 1] == '\n' {
        s.subrange(0, s.len() - 2)
    } else if s.len() >= 1 && s[s.len() - 1] == '\n' {
        s.subrange(0, s.len() - 1)
    } else {
        s
    }
}

/// Strip the trailing line terminator from a line as read.
pub fn strip_crlf_str<'a>(s: &'a str) -> (r: &'a str)
    ensures
        r@ == strip_crlf(s@),
{
    let n = s.unicode_len();
    if n >= 2 && s.get_char(n - 2) == '\r' && s.get_char(n - 1) == '\n' {
        s.substring_char(0, n - 2)
    } else if n >= 1 && s.get_char(n - 1) == '\n' {
        s.substring_char(0, n - 1)
    } else {
        s
    }
}

/// Lines joined into one text with the line terminator between them (no
/// terminator after the last line).
pub open spec fn join_crlf(lines: Seq<Seq<char>>) -> Seq<char>
    decreases lines.len(),
{
    if lines.len() == 0 {
        Seq::empty()
    } else if lines.len() == 1 {
        lines[0]
    } else {
        join_crlf(lines.drop_last()) + crlf() + lines.last()
    }
}

pub proof fn lemma_join_push(lines: Seq<Seq<char>>, line: Seq<char>)
    requires
        lines.len() >= 1,
    ensures
        join_crlf(lines.push(line)) == join_crlf(lines) + crlf() + line,
{
    assert(lines.push(line).drop_last() =~= lines);
    assert(lines.push(line).last() == line);
}

/// Join a head line and the lines after it.
pub fn join_with_head(head: &str, tail: &Vec<String>) -> (r: String)
    ensures
        r@ == join_crlf(seq![head@] + tail.deep_view()),
{
    let mut out = head.to_owned();
    proof {
        assert(seq![head@] + tail.deep_view().subrange(0, 0) =~= seq![head@]);
    }
    let mut i: usize = 0;
    while i < tail.len()
        invariant
            i <= tail.len(),
            out@ == join_crlf(seq![head@] + tail.deep_view().subrange(0, i as int)),
        decreases tail.len() - i,
    {
        out.append("\r\n");
        out.append(tail[i].as_str());
        proof {
            lemma_crlf_literal();
            let prefix = seq![head@] + tail.deep_view().subrange(0, i as int);
            lemma_join_push(prefix, tail.deep_view()[i as int]);
            assert(prefix.push(tail.deep_view()[i as int]) =~= seq![head@]
                + tail.deep_view().subrange(0, i as int + 1));
            assert(tail.deep_view()[i as int] == tail@[i as int]@);
        }
        i = i + 1;
    }
    proof {
        assert(tail.deep_view().subrange(0, tail.len() as int) =~= tail.deep_view());
    }
    out
}

/// Join all lines of a vector; an empty vector joins to the empty text.
pub fn join_all(lines: &Vec<String>) -> (r: String)
    ensures
        r@ == join_crlf(lines.deep_view()),
{
    if lines.len() == 0 {
        let out = String::new();
        proof {
            assert(lines.deep_view() =~= Seq::<Seq<char>>::empty());
        }
        out
    } else {
        let mut out = lines[0].clone();
        proof {
            assert(lines.deep_view().subrange(0, 1) =~= seq![lines@[0]@]);
        }
        let mut i: usize = 1;
        while i < lines.len()
            invariant
                1 <= i <= lines.len(),
                out@ == join_crlf(lines.deep_view().subrange(0, i as int)),
            decreases lines.len() - i,
        {
            out.append("\r\n");
            out.append(lines[i].as_str());
            proof {
                lemma_crlf_literal();
                let prefix = lines.deep_view().subrange(0, i as int);
                lemma_join_push(prefix, lines.deep_view()[i as int]);
                assert(prefix.push(lines.deep_view()[i as int]) =~= lines.deep_view()
                    .subrange(0, i as int + 1));
                assert(lines.deep_view()[i as int] == lines@[i as int]@);
            }
            i = i + 1;
        }
        proof {
            assert(lines.deep_view().subrange(0, lines.len() as int) =~= lines.deep_view());
        }
        out
    }
}

} // verus!
