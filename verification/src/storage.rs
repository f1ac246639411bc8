//! Append-only JSONL persistence used for audit and deterministic replay: the store's
//! address, its failures, and how a stored file is cut into numbered records.

use vstd::prelude::*;
use vstd::string::*;

use crate::text::{concat2, concat4, int_text, owned, push_char, trim, trimmed, usize_to_text};

verus! {

/// Storage failure with line context for replay errors.
#[derive(Debug, Clone, PartialEq)]
pub enum StorageError {
    /// File-system operation failed, with the system's message.
    Io(String),
    /// Serialization failed before append, with the encoder's message.
    Serialize(String),
    /// A specific JSONL line could not be decoded.
    Deserialize {
        /// One-based line number.
        line: usize,
        /// JSON decoder message.
        message: String,
    },
}

/// The message of a storage failure.
pub open spec fn storage_error_message(e: StorageError) -> Seq<char> {
    match e {
        StorageError::Io(m) => "storage I/O error: "@ + m@,
        StorageError::Serialize(m) => "failed to serialize JSONL record: "@ + m@,
        StorageError::Deserialize { line, message } => "invalid JSONL at line "@ + int_text(
            line as int,
        ) + ": "@ + message@,
    }
}

impl StorageError {
    /// The human-readable message.
    pub fn message(&self) -> (s: String)
        ensures
            s@ == storage_error_message(*self),
    {
        match self {
            StorageError::Io(m) => concat2("storage I/O error: ", m.as_str()),
            StorageError::Serialize(m) => concat2("failed to serialize JSONL record: ", m.as_str()),
            StorageError::Deserialize { line, message } => {
                let n = usize_to_text(*line);
                concat4("invalid JSONL at line ", n.as_str(), ": ", message.as_str())
            },
        }
    }
}

/// Append-only newline-delimited JSON store.
#[derive(Debug, Clone)]
pub struct JsonlStore {
    path: String,
}

impl JsonlStore {
    /// The backing path, as text.
    pub closed spec fn location(&self) -> Seq<char> {
        self.path@
    }

    /// Creates a store for the provided path.
    pub fn new(path: &str) -> (s: Self)
        ensures
            s.location() == path@,
    {
        JsonlStore { path: owned(path) }
    }

    /// Returns the backing path.
    pub fn path(&self) -> (r: &str)
        ensures
            r@ == self.location(),
    {
        self.path.as_str()
    }
}

/// A line's end: a `\r` just before its `\n` is part of the line ending.
pub open spec fn strip_carriage_return(line: Seq<char>) -> Seq<char> {
    if line.len() > 0 && line.last() == '\r' {
        line.drop_last()
    } else {
        line
    }
}

/// The lines completed by a text, and the unfinished line after the last `\n`.
pub open spec fn line_scan(s: Seq<char>) -> (Seq<Seq<char>>, Seq<char>)
    decreases s.len(),
{
    if s.len() == 0 {
        (seq![], seq![])
    } else {
        let (done, current) = line_scan(s.drop_last());
        if s.last() == '\n' {
            (done.push(strip_carriage_return(current)), seq![])
        } else {
            (done, current.push(s.last()))
        }
    }
}

/// The lines of a text, as `str::lines` yields them: split at `\n` or `\r\n`, without
/// the terminators, and no empty line after a final line ending.
pub open spec fn text_lines(s: Seq<char>) -> Seq<Seq<char>> {
    let (done, current) = line_scan(s);
    if current.len() == 0 {
        done
    } else {
        done.push(current)
    }
}

/// A line holding nothing but whitespace.
pub open spec fn blank_line(line: Seq<char>) -> bool {
    trimmed(line).len() == 0
}

/// The non-blank lines, each with its one-based line number, in file order.
pub open spec fn numbered_records(lines: Seq<Seq<char>>) -> Seq<(int, Seq<char>)>
    decreases lines.len(),
{
    if lines.len() == 0 {
        seq![]
    } else {
        let earlier = numbered_records(lines.drop_last());
        if blank_line(lines.last()) {
            earlier
        } else {
            earlier.push((lines.len() as int, lines.last()))
        }
    }
}

/// The records as plain values.
pub open spec fn records_view(v: Seq<(usize, String)>) -> Seq<(int, Seq<char>)> {
    v.map_values(|p: (usize, String)| (p.0 as int, p.1@))
}

/// Adds a finished line to the records unless it is blank.
fn finish_line(
    records: &mut Vec<(usize, String)>,
    line: String,
    count: usize,
    Ghost(lines): Ghost<Seq<Seq<char>>>,
)
    requires
        records_view(old(records)@) == numbered_records(lines),
        count == lines.len() + 1,
    ensures
        records_view(final(records)@) == numbered_records(lines.push(line@)),
{
    proof {
        assert(lines.push(line@).drop_last() =~= lines);
    }
    let t = trim(line.as_str());
    if !t.is_empty() {
        records.push((count, line));
        proof {
            assert(records_view(final(records)@) =~= records_view(old(records)@).push(
                (count as int, line@),
            ));
        }
    }
}

/// Cuts a stored file into its records: the non-blank lines, each with its one-based
/// line number, in file order.
pub fn jsonl_records(content: &str) -> (r: Vec<(usize, String)>)
    requires
        content@.len() < usize::MAX,
    ensures
        records_view(r@) == numbered_records(text_lines(content@)),
{
    let mut records: Vec<(usize, String)> = Vec::new();
    let mut current = String::new();
    let mut count: usize = 0;
    let mut chars = content.chars();
    let ghost total = content@;
    let ghost mut seen: int = 0;
    loop
        invariant
            0 <= seen <= total.len(),
            total == content@,
            total.len() < usize::MAX,
            vstd::std_specs::iter::IteratorSpec::remaining(&chars) == total.subrange(seen, total.len() as int),
            line_scan(total.subrange(0, seen)).0.len() == count,
            count <= seen,
            current@ == line_scan(total.subrange(0, seen)).1,
            records_view(records@) == numbered_records(line_scan(total.subrange(0, seen)).0),
        ensures
            seen == total.len(),
            total == content@,
            line_scan(total).0.len() == count,
            count <= total.len(),
            current@ == line_scan(total).1,
            records_view(records@) == numbered_records(line_scan(total).0),
        decreases total.len() - seen,
    {
        let ghost before = total.subrange(0, seen);
        match chars.next() {
            Some(c) => {
                proof {
                    assert(total.subrange(0, seen + 1).drop_last() =~= before);
                    assert(total.subrange(seen + 1, total.len() as int) =~= total.subrange(
                        seen,
                        total.len() as int,
                    ).drop_first());
                }
                if c == '\n' {
                    let mut line = String::new();
                    std::mem::swap(&mut line, &mut current);
                    let n = line.as_str().unicode_len();
                    let stripped = if n > 0 && line.as_str().get_char(n - 1) == '\r' {
                        line.as_str().substring_char(0, n - 1).to_owned()
                    } else {
                        line
                    };
                    proof {
                        let cur = line_scan(before).1;
                        if n > 0 {
                            assert(cur.drop_last() =~= cur.subrange(0, n - 1));
                        }
                    }
                    finish_line(
                        &mut records,
                        stripped,
                        count + 1,
                        Ghost(line_scan(before).0),
                    );
                    count = count + 1;
                } else {
                    push_char(&mut current, c);
                }
                proof {
                    seen = seen + 1;
                }
            },
            None => {
                proof {
                    assert(total.subrange(0, seen) =~= total);
                }
                break;
            },
        }
    }
    if current.as_str().unicode_len() > 0 {
        finish_line(&mut records, current, count + 1, Ghost(line_scan(content@).0));
    }
    records
}


/// The file content left by appending each line followed by `\n`, in order.
pub open spec fn appended_lines(lines: Seq<Seq<char>>) -> Seq<char>
    decreases lines.len(),
{
    if lines.len() == 0 {
        seq![]
    } else {
        appended_lines(lines.drop_last()) + lines.last() + seq!['\n']
    }
}

/// A line as one append writes it: no line break inside, no `\r` at its end, and not
/// blank.
pub open spec fn appendable_line(line: Seq<char>) -> bool {
    &&& !line.contains('\n')
    &&& !(line.len() > 0 && line.last() == '\r')
    &&& !blank_line(line)
}

proof fn lemma_scan_without_newline(s: Seq<char>, t: Seq<char>)
    requires
        !t.contains('\n'),
    ensures
        line_scan(s + t) == (line_scan(s).0, line_scan(s).1 + t),
    decreases t.len(),
{
    if t.len() == 0 {
        assert(s + t =~= s);
        assert(line_scan(s).1 + t =~= line_scan(s).1);
    } else {
        let u = t.drop_last();
        assert(!u.contains('\n')) by {
            if u.contains('\n') {
                let k = choose|k: int| 0 <= k < u.len() && u[k] == '\n';
                assert(t[k] == '\n');
            }
        }
        assert(t[t.len() - 1] != '\n');
        lemma_scan_without_newline(s, u);
        assert((s + t).drop_last() =~= s + u);
        assert((line_scan(s).1 + u).push(t.last()) =~= line_scan(s).1 + t);
    }
}

proof fn lemma_scan_appended(lines: Seq<Seq<char>>)
    requires
        forall|i: int| 0 <= i < lines.len() ==> appendable_line(#[trigger] lines[i]),
    ensures
        line_scan(appended_lines(lines)) == (lines, Seq::<char>::empty()),
    decreases lines.len(),
{
    if lines.len() == 0 {
        assert(line_scan(appended_lines(lines)).0 =~= lines);
    } else {
        let front = lines.drop_last();
        let l = lines.last();
        assert(appendable_line(lines[lines.len() - 1]));
        assert forall|i: int| 0 <= i < front.len() implies appendable_line(#[trigger] front[i]) by {
            assert(appendable_line(lines[i]));
        }
        lemma_scan_appended(front);
        lemma_scan_without_newline(appended_lines(front), l);
        let whole = appended_lines(lines);
        assert(whole.drop_last() =~= appended_lines(front) + l);
        assert(Seq::<char>::empty() + l =~= l);
        assert(strip_carriage_return(l) == l);
        assert(front.push(l) =~= lines);
    }
}

proof fn lemma_numbered_all(lines: Seq<Seq<char>>)
    requires
        forall|i: int| 0 <= i < lines.len() ==> !blank_line(#[trigger] lines[i]),
    ensures
        numbered_records(lines) == Seq::new(lines.len(), |i: int| (i + 1, lines[i])),
    decreases lines.len(),
{
    if lines.len() > 0 {
        let front = lines.drop_last();
        assert(!blank_line(lines[lines.len() - 1]));
        assert forall|i: int| 0 <= i < front.len() implies !blank_line(#[trigger] front[i]) by {
            assert(!blank_line(lines[i]));
        }
        lemma_numbered_all(front);
        assert(Seq::new(front.len(), |i: int| (i + 1, front[i])).push(
            (lines.len() as int, lines.last()),
        ) =~= Seq::new(lines.len(), |i: int| (i + 1, lines[i])));
    } else {
        assert(numbered_records(lines) =~= Seq::new(lines.len(), |i: int| (i + 1, lines[i])));
    }
}

/// Replay gives back what was appended: a file written by appending lines, each without
/// a line break, a final `\r` or blankness, is read back as exactly those lines, in
/// order, numbered from one.
pub proof fn lemma_appended_records_replay_in_order(lines: Seq<Seq<char>>)
    requires
        forall|i: int| 0 <= i < lines.len() ==> appendable_line(#[trigger] lines[i]),
    ensures
        numbered_records(text_lines(appended_lines(lines))) == Seq::new(
            lines.len(),
            |i: int| (i + 1, lines[i]),
        ),
{
    lemma_scan_appended(lines);
    assert forall|i: int| 0 <= i < lines.len() implies !blank_line(#[trigger] lines[i]) by {
        assert(appendable_line(lines[i]));
    }
    lemma_numbered_all(lines);
}

} // verus!
