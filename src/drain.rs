use vstd::prelude::*;
use vstd::string::*;

verus! {

/// What `str::trim_end` gives for a line: the line without its trailing
/// white space.
pub uninterp spec fn trimmed_end(s: Seq<char>) -> Seq<char>;

/// Relies on str::trim_end: the result is the line without its trailing
/// white space, a prefix of the line.
#[verifier::external_body]
fn trim_end(s: &str) -> (r: &str)
    ensures
        r@ == trimmed_end(s@),
        r@ == s@.subrange(0, r@.len() as int),
{
    s.trim_end()
}

/// Return to the line's start, clear the line, return again.
pub open spec fn redraw_prefix() -> Seq<char> {
    seq!['\r', '\x1b', '[', '2', 'K', '\r']
}

/// The text that replaces the progress display with `line`.
pub fn status_text(line: &str) -> (r: String)
    ensures
        r@ == redraw_prefix() + trimmed_end(line@),
{
    let mut r = String::from_str("\r\x1b[2K\r");
    proof {
        reveal_strlit("\r\x1b[2K\r");
    }
    assert(r@ =~= redraw_prefix());
    r.append(trim_end(line));
    r
}

/// One attempt to read a line of diagnostic text.
pub enum LineRead {
    /// A line, with its terminator if it had one.
    Line(String),
    /// The stream ended.
    End,
    /// Reading failed.
    Failed,
}

/// The drain's answer to one read: the text to show, or `None` when the
/// drain stops. The end of the stream and a failed read both stop it and
/// are never escalated.
pub fn drain_step(read: LineRead) -> (r: Option<String>)
    ensures
        match read {
            LineRead::Line(l) => if l@.len() > 0 {
                r is Some && r->0@ == redraw_prefix() + trimmed_end(l@)
            } else {
                r is None
            },
            _ => r is None,
        },
{
    match read {
        LineRead::Line(l) => {
            if l.as_str().is_empty() {
                None
            } else {
                Some(status_text(l.as_str()))
            }
        },
        _ => None,
    }
}

} // verus!
