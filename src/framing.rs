//! Framing of a child's output into records, and prefixing of records.
use vstd::prelude::*;

use crate::config::AppInfo;
use crate::text::{append_bytes, append_str, append_string, lit, utf8};

verus! {

/// The line feed byte, which ends a record.
pub const NEWLINE: u8 = 10;

/// The carriage return byte, dropped before a final line feed.
pub const CARRIAGE_RETURN: u8 = 13;

/// `s` holds no line feed.
pub open spec fn no_newline(s: Seq<u8>) -> bool {
    forall|j: int| 0 <= j < s.len() ==> s[j] != NEWLINE
}

/// A record without its terminator: a final `\r\n` or `\n` is dropped.
pub open spec fn strip_terminator(r: Seq<u8>) -> Seq<u8> {
    if r.len() >= 2 && r[r.len() - 2] == CARRIAGE_RETURN && r[r.len() - 1] == NEWLINE {
        r.take(r.len() - 2)
    } else if r.len() >= 1 && r[r.len() - 1] == NEWLINE {
        r.take(r.len() - 1)
    } else {
        r
    }
}

/// `n` is the number of buffered bytes `p` that the next record takes: up to and including
/// the first line feed; at the end of the stream, all of an unterminated rest; else none.
pub open spec fn record_end(p: Seq<u8>, at_eof: bool, n: int) -> bool {
    &&& 0 <= n <= p.len()
    &&& forall|j: int| 0 <= j < n - 1 ==> p[j] != NEWLINE
    &&& n > 0 ==> (p[n - 1] == NEWLINE || (at_eof && n == p.len()))
    &&& n == 0 ==> no_newline(p) && (at_eof ==> p.len() == 0)
}

/// Bytes read from one pipe of a child that do not yet form a whole record.
pub struct LineReader {
    pending: Vec<u8>,
}

impl View for LineReader {
    type V = Seq<u8>;

    closed spec fn view(&self) -> Seq<u8> {
        self.pending@
    }
}

impl LineReader {
    /// A reader with nothing buffered.
    pub fn new() -> (r: LineReader)
        ensures
            r@ == Seq::<u8>::empty(),
    {
        LineReader { pending: Vec::new() }
    }

    /// Buffers bytes that were read from the pipe.
    pub fn push(&mut self, chunk: &[u8])
        ensures
            final(self)@ == old(self)@ + chunk@,
    {
        append_bytes(&mut self.pending, chunk);
    }
}

/// Takes the next record out of `reader` into `buf`, without its terminator, and
/// returns how many buffered bytes it took; 0 where no record is ready. With
/// `at_eof` the stream has ended, and an unterminated rest is a record too.
pub fn read_line(reader: &mut LineReader, at_eof: bool, buf: &mut Vec<u8>) -> (n: usize)
    ensures
        record_end(old(reader)@, at_eof, n as int),
        final(buf)@ == strip_terminator(old(reader)@.take(n as int)),
        final(reader)@ == old(reader)@.skip(n as int),
{
    let ghost p = reader@;
    let len = reader.pending.len();
    let mut i: usize = 0;
    while i < len && reader.pending[i] != NEWLINE
        invariant
            p == reader@,
            len == p.len(),
            i <= len,
            forall|j: int| 0 <= j < i ==> p[j] != NEWLINE,
        decreases len - i,
    {
        i = i + 1;
    }
    let n: usize = if i < len {
        i + 1
    } else if at_eof {
        len
    } else {
        0
    };
    let mut end: usize = n;
    if end >= 2 && reader.pending[end - 2] == CARRIAGE_RETURN && reader.pending[end - 1] == NEWLINE {
        end = end - 2;
    } else if end >= 1 && reader.pending[end - 1] == NEWLINE {
        end = end - 1;
    }
    buf.clear();
    let mut k: usize = 0;
    while k < end
        invariant
            p == reader@,
            end <= n <= len == p.len(),
            k <= end,
            buf@ == p.take(k as int),
        decreases end - k,
    {
        buf.push(reader.pending[k]);
        k = k + 1;
        assert(buf@ =~= p.take(k as int));
    }
    assert(buf@ =~= strip_terminator(p.take(n as int)));
    let mut rest: Vec<u8> = Vec::new();
    let mut m: usize = n;
    while m < len
        invariant
            p == reader@,
            n <= m <= len == p.len(),
            rest@ == p.subrange(n as int, m as int),
        decreases len - m,
    {
        rest.push(reader.pending[m]);
        m = m + 1;
        assert(rest@ =~= p.subrange(n as int, m as int));
    }
    reader.pending = rest;
    assert(reader@ =~= p.skip(n as int));
    n
}

/// The output line for one record of the named app: `[name] record\n`.
pub open spec fn app_line(name: Seq<u8>, line: Seq<u8>) -> Seq<u8> {
    lit("[") + name + lit("] ") + line + lit("\n")
}

/// Appends the output line for one record of `app` to `out`.
pub fn write_app_line_to_stream(out: &mut Vec<u8>, app: &AppInfo, line: &[u8])
    ensures
        final(out)@ == old(out)@ + app_line(utf8(&app.name), line@),
{
    append_str(out, "[");
    append_string(out, &app.name);
    append_str(out, "] ");
    append_bytes(out, line);
    append_str(out, "\n");
    assert(out@ =~= old(out)@ + app_line(utf8(&app.name), line@));
}

/// Prefixing loses nothing: under one app name, the output line determines the
/// record it was made from.
pub proof fn lemma_app_line_injective(name: Seq<u8>, a: Seq<u8>, b: Seq<u8>)
    requires
        app_line(name, a) == app_line(name, b),
    ensures
        a == b,
{
    let p = lit("[") + name + lit("] ");
    let la = app_line(name, a);
    let lb = app_line(name, b);
    assert(la.len() == p.len() + a.len() + lit("\n").len());
    assert(lb.len() == p.len() + b.len() + lit("\n").len());
    assert(a.len() == b.len());
    assert(a =~= la.subrange(p.len() as int, p.len() + a.len() as int));
    assert(b =~= lb.subrange(p.len() as int, p.len() + b.len() as int));
}

} // verus!
