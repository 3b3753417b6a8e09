//! The per-stream log writer: forwarding a child's output lines to the
//! console and to a size-capped log file.
//!
//! The blocking reads and the file writes are outside work; here stand the
//! decisions: what one read yields (stop, skip, or an exact formatted
//! entry), where the log file lives, and when it is truncated.
use vstd::prelude::*;

use crate::LOG_SIZE_CAP;
use crate::messages::Color;
use crate::messages::ConsoleLine;
use crate::messages::closed_stream_text;
use crate::messages::line_closed_stream;
use crate::timestamp::MAX_RFC3339_SECS;
use crate::timestamp::forward_line;
use crate::timestamp::forwarded_text;
use crate::timestamp::rfc3339_seconds_of;

verus! {

/// Which of the child's two output streams a writer reads.
#[derive(Clone, Copy, PartialEq, Eq, Structural, Debug)]
pub enum StreamKind {
    Stdout,
    Stderr,
}

/// The stream's name as it appears in console lines.
pub open spec fn stream_label(kind: StreamKind) -> Seq<char> {
    match kind {
        StreamKind::Stdout => "stdout"@,
        StreamKind::Stderr => "stderr"@,
    }
}

/// The directory the stream's log file lives in: stdout logs are kept on
/// the ram disk, stderr logs on the persistent data partition.
pub open spec fn log_dir(kind: StreamKind) -> Seq<char> {
    match kind {
        StreamKind::Stdout => "/tmp"@,
        StreamKind::Stderr => "/data"@,
    }
}

/// The extension of the stream's log file.
pub open spec fn log_ext(kind: StreamKind) -> Seq<char> {
    match kind {
        StreamKind::Stdout => ".log"@,
        StreamKind::Stderr => ".err"@,
    }
}

/// The full path of a service's log file for one stream.
pub open spec fn log_path_spec(name: Seq<char>, kind: StreamKind) -> Seq<char> {
    log_dir(kind) + "/"@ + name + log_ext(kind)
}

/// Build the path of the log file a writer appends to.
pub fn log_path(name: &str, kind: StreamKind) -> (r: String)
    ensures
        r@ == log_path_spec(name@, kind),
{
    match kind {
        StreamKind::Stdout => String::from_str("/tmp").concat("/").concat(name).concat(".log"),
        StreamKind::Stderr => String::from_str("/data").concat("/").concat(name).concat(".err"),
    }
}

/// What the writer does with one read from the pipe.
pub enum WriterDirective {
    /// The pipe reached EOF: emit this line and stop the writer.
    CloseStream(ConsoleLine),
    /// An empty line: write nothing, read on.
    SkipLine,
    /// Forward this exact entry to the console and the log file.
    Emit(String),
}

/// The directive with its texts as character sequences.
pub enum DirectiveView {
    CloseStream(Color, Seq<char>),
    SkipLine,
    Emit(Seq<char>),
}

impl View for WriterDirective {
    type V = DirectiveView;

    open spec fn view(&self) -> DirectiveView {
        match self {
            WriterDirective::CloseStream(l) => DirectiveView::CloseStream(l.color, l.text@),
            WriterDirective::SkipLine => DirectiveView::SkipLine,
            WriterDirective::Emit(e) => DirectiveView::Emit(e@),
        }
    }
}

/// The directive one read yields: EOF closes the stream with a yellow
/// notice, an empty line is skipped, and any other line is forwarded with
/// the timestamp of the moment it was read.
pub open spec fn directive_spec(
    name: Seq<char>,
    kind: StreamKind,
    secs: int,
    line: Option<Seq<char>>,
) -> DirectiveView {
    match line {
        Option::None => DirectiveView::CloseStream(
            Color::Yellow,
            closed_stream_text(name, stream_label(kind)),
        ),
        Option::Some(l) => if l.len() == 0 {
            DirectiveView::SkipLine
        } else {
            DirectiveView::Emit(forwarded_text(rfc3339_seconds_of(secs), name, l))
        },
    }
}

/// Decide what to do with one read from the pipe. `line` is `None` at EOF;
/// `secs` is the UTC second count at which the line was read.
pub fn writer_step(name: &str, kind: StreamKind, secs: u64, line: Option<&String>) -> (r:
    WriterDirective)
    requires
        secs <= MAX_RFC3339_SECS,
    ensures
        r@ == directive_spec(name@, kind, secs as int, line.deep_view()),
{
    match line {
        Option::None => {
            let label = match kind {
                StreamKind::Stdout => "stdout",
                StreamKind::Stderr => "stderr",
            };
            WriterDirective::CloseStream(line_closed_stream(name, label))
        },
        Option::Some(l) => {
            if l.as_str().unicode_len() == 0 {
                WriterDirective::SkipLine
            } else {
                WriterDirective::Emit(forward_line(secs, name, l.as_str()))
            }
        },
    }
}

/// Whether a log file of the observed length must be truncated to zero
/// before the next entry is written.
pub open spec fn must_truncate(observed_len: u64) -> bool {
    observed_len > LOG_SIZE_CAP
}

/// The file's length after an entry of `entry_len` bytes is written to a
/// file of `observed_len` bytes: a hard reset to zero first whenever the
/// cap is already exceeded.
pub open spec fn len_after_write(observed_len: u64, entry_len: u64) -> int {
    (if must_truncate(observed_len) {
        0
    } else {
        observed_len as int
    }) + entry_len
}

/// Decide the rotation and account for one write: returns whether the file
/// must be truncated first, and its length once the entry is written.
pub fn apply_write(observed_len: u64, entry_len: u64) -> (r: (bool, u64))
    requires
        entry_len <= u64::MAX - LOG_SIZE_CAP,
    ensures
        r.0 == must_truncate(observed_len),
        r.1 == len_after_write(observed_len, entry_len),
        r.1 <= LOG_SIZE_CAP + entry_len,
{
    if observed_len > LOG_SIZE_CAP {
        (true, entry_len)
    } else {
        (false, observed_len + entry_len)
    }
}

/// Law: however long the file had grown, after one write it holds at most
/// the cap plus the one entry just written — the cap is never exceeded by
/// more than one line's worth of bytes.
pub proof fn lemma_log_size_capped(observed_len: u64, entry_len: u64)
    ensures
        len_after_write(observed_len, entry_len) <= LOG_SIZE_CAP + entry_len,
{
}

} // verus!
