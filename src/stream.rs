//! The line source and the text sink that a prompt/read cycle runs on, and
//! their implementations over std's in-memory readers and writers.
use vstd::prelude::*;
use vstd::string::*;

verus! {

/// One call of `InputReader::read_line`: the buffer before and after it, and
/// what it returned.
pub struct SourceCall {
    pub before: Seq<char>,
    pub after: Seq<char>,
    pub result: std::io::Result<usize>,
}

/// One call made on an `OutputWriter`, with what it returned.
pub enum SinkCall {
    Write { text: Seq<char>, result: std::io::Result<()> },
    Flush { result: std::io::Result<()> },
}

/// A source of lines.
pub trait InputReader {
    /// The calls of `read_line` made on this source so far, in order. Types
    /// verified in this library keep their own record; the default only lets
    /// implementations written outside Verus compile.
    closed spec fn read_log(&self) -> Seq<SourceCall> {
        Seq::empty()
    }

    /// Appends the next line to `buf`; `Ok(0)` means the end of the stream.
    fn read_line(&mut self, buf: &mut String) -> (r: std::io::Result<usize>)
        ensures
            final(self).read_log() == old(self).read_log().push(
                SourceCall { before: old(buf)@, after: final(buf)@, result: r },
            ),
    ;
}

/// A sink for prompt text.
pub trait OutputWriter {
    /// The calls made on this sink so far, in order. Types verified in this
    /// library keep their own record; the default only lets implementations
    /// written outside Verus compile.
    closed spec fn sink_log(&self) -> Seq<SinkCall> {
        Seq::empty()
    }

    /// Emits `s`.
    fn write_str(&mut self, s: &str) -> (r: std::io::Result<()>)
        ensures
            final(self).sink_log() == old(self).sink_log().push(
                SinkCall::Write { text: s@, result: r },
            ),
    ;

    /// Makes everything emitted so far visible.
    fn flush(&mut self) -> (r: std::io::Result<()>)
        ensures
            final(self).sink_log() == old(self).sink_log().push(SinkCall::Flush { result: r }),
    ;
}

/// std's in-memory cursor over a buffer.
#[verifier::external_type_specification]
#[verifier::external_body]
#[verifier::reject_recursive_types(T)]
pub struct ExCursor<T>(std::io::Cursor<T>);

/// Relies on `std::io::BufRead::read_line`: reads up to and including the
/// next line feed, or to the end of the stream, and appends it to `buf`.
#[verifier::external_body]
fn read_line_from<T: std::io::BufRead>(reader: &mut T, buf: &mut String) -> (r: std::io::Result<usize>)
    ensures
        r is Ok ==> final(buf)@.len() >= old(buf)@.len() && final(buf)@.subrange(
            0,
            old(buf)@.len() as int,
        ) == old(buf)@,
        r is Ok && r->Ok_0 == 0 ==> final(buf)@ == old(buf)@,
{
    reader.read_line(buf)
}

/// Relies on `std::io::Write::write_all` for `Vec<u8>`, which appends the
/// bytes to the vector and does not fail.
#[verifier::external_body]
fn write_all_to_vec(v: &mut Vec<u8>, s: &str) -> (r: std::io::Result<()>)
    ensures
        r is Ok,
        final(v)@ == old(v)@ + s.spec_bytes(),
{
    std::io::Write::write_all(v, s.as_bytes())
}

/// Relies on `std::io::Write::flush` for `Vec<u8>`, which does nothing and
/// does not fail.
#[verifier::external_body]
fn flush_vec(v: &mut Vec<u8>) -> (r: std::io::Result<()>)
    ensures
        r is Ok,
        final(v)@ == old(v)@,
{
    std::io::Write::flush(v)
}

/// A buffered byte stream that lines can be read from. `BufReaderInput` is
/// generic over this trait rather than over `std::io::BufRead`, which Verus
/// does not take as a bound of an impl of `InputReader`; other streams can
/// implement it in the same one-line way.
pub trait LineRead {
    /// Appends the next line to `buf`, line feed included; `Ok(0)` at the end.
    fn read_line_into(&mut self, buf: &mut String) -> (r: std::io::Result<usize>)
        ensures
            r is Ok ==> final(buf)@.len() >= old(buf)@.len() && final(buf)@.subrange(
                0,
                old(buf)@.len() as int,
            ) == old(buf)@,
            r is Ok && r->Ok_0 == 0 ==> final(buf)@ == old(buf)@,
    ;
}

impl<'a> LineRead for std::io::Cursor<&'a str> {
    fn read_line_into(&mut self, buf: &mut String) -> (r: std::io::Result<usize>) {
        read_line_from(self, buf)
    }
}

impl<'a> LineRead for std::io::Cursor<&'a [u8]> {
    fn read_line_into(&mut self, buf: &mut String) -> (r: std::io::Result<usize>) {
        read_line_from(self, buf)
    }
}

impl LineRead for std::io::Cursor<String> {
    fn read_line_into(&mut self, buf: &mut String) -> (r: std::io::Result<usize>) {
        read_line_from(self, buf)
    }
}

impl LineRead for std::io::Cursor<Vec<u8>> {
    fn read_line_into(&mut self, buf: &mut String) -> (r: std::io::Result<usize>) {
        read_line_from(self, buf)
    }
}

/// A byte stream that text can be written to. `GenericWriter` is generic
/// over this trait rather than over `std::io::Write`, for the same reason.
pub trait ByteWrite {
    /// The bytes the stream holds so far. Types verified in this library
    /// give their own; the default only lets implementations written outside
    /// Verus compile, and for them the clauses below then say nothing.
    closed spec fn written(&self) -> Seq<u8> {
        Seq::empty()
    }

    /// Whether writing and flushing this type of stream always succeed.
    closed spec fn never_fails() -> bool {
        false
    }

    /// Writes the UTF-8 bytes of `s`.
    fn write_text(&mut self, s: &str) -> (r: std::io::Result<()>)
        ensures
            r is Ok ==> final(self).written() == old(self).written() + s.spec_bytes(),
            Self::never_fails() ==> r is Ok,
    ;

    /// Flushes what was written; the bytes held stay as they are.
    fn flush_bytes(&mut self) -> (r: std::io::Result<()>)
        ensures
            final(self).written() == old(self).written(),
            Self::never_fails() ==> r is Ok,
    ;
}

impl ByteWrite for Vec<u8> {
    open spec fn written(&self) -> Seq<u8> {
        self@
    }

    open spec fn never_fails() -> bool {
        true
    }

    fn write_text(&mut self, s: &str) -> (r: std::io::Result<()>) {
        write_all_to_vec(self, s)
    }

    fn flush_bytes(&mut self) -> (r: std::io::Result<()>) {
        flush_vec(self)
    }
}

/// A line source over a buffered byte stream.
pub struct BufReaderInput<R> {
    reader: R,
    log: Ghost<Seq<SourceCall>>,
}

impl<R: LineRead> BufReaderInput<R> {
    /// The stream underneath.
    pub closed spec fn inner(&self) -> R {
        self.reader
    }

    pub fn new(reader: R) -> (r: Self)
        ensures
            r.inner() == reader,
            r.read_log() == Seq::<SourceCall>::empty(),
    {
        BufReaderInput { reader, log: Ghost(Seq::empty()) }
    }
}

impl<R: LineRead> InputReader for BufReaderInput<R> {
    closed spec fn read_log(&self) -> Seq<SourceCall> {
        self.log@
    }

    fn read_line(&mut self, buf: &mut String) -> (r: std::io::Result<usize>)
        ensures
            r is Ok ==> final(buf)@.len() >= old(buf)@.len() && final(buf)@.subrange(
                0,
                old(buf)@.len() as int,
            ) == old(buf)@,
            r is Ok && r->Ok_0 == 0 ==> final(buf)@ == old(buf)@,
    {
        let ghost before = buf@;
        let r = self.reader.read_line_into(buf);
        self.log = Ghost(self.log@.push(SourceCall { before, after: buf@, result: r }));
        r
    }
}

/// A text sink over a byte stream.
pub struct GenericWriter<W> {
    writer: W,
    log: Ghost<Seq<SinkCall>>,
}

impl<W: ByteWrite> GenericWriter<W> {
    /// The stream underneath.
    pub closed spec fn inner(&self) -> W {
        self.writer
    }

    pub fn new(writer: W) -> (r: Self)
        ensures
            r.inner() == writer,
            r.sink_log() == Seq::<SinkCall>::empty(),
    {
        GenericWriter { writer, log: Ghost(Seq::empty()) }
    }

    /// Gives the stream underneath back.
    pub fn into_inner(self) -> (r: W)
        ensures
            r == self.inner(),
    {
        self.writer
    }
}

impl<W: ByteWrite> OutputWriter for GenericWriter<W> {
    closed spec fn sink_log(&self) -> Seq<SinkCall> {
        self.log@
    }

    fn write_str(&mut self, s: &str) -> (r: std::io::Result<()>)
        ensures
            r is Ok ==> final(self).inner().written() == old(self).inner().written()
                + s.spec_bytes(),
            W::never_fails() ==> r is Ok,
    {
        let r = self.writer.write_text(s);
        self.log = Ghost(self.log@.push(SinkCall::Write { text: s@, result: r }));
        r
    }

    fn flush(&mut self) -> (r: std::io::Result<()>)
        ensures
            final(self).inner().written() == old(self).inner().written(),
            W::never_fails() ==> r is Ok,
    {
        let r = self.writer.flush_bytes();
        self.log = Ghost(self.log@.push(SinkCall::Flush { result: r }));
        r
    }
}

} // verus!
