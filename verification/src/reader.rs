use crate::error::{ErrorKind, IrcError};
use crate::text::{find, lemma_find_is};
use vstd::prelude::*;
use vstd::slice::slice_subrange;

verus! {

/// The inbound half of a transport, read line by line.
///
/// A line ends with its line feed, or with the end of the stream. Bytes
/// that are no valid UTF-8 are replaced, never refused. The end of the
/// stream is reported as `None`, or as an error of kind
/// `ErrorKind::EndOfStream`.
pub trait TolerantLineReader: Sized {
    /// Reads the next line, line break included.
    fn read_line_tolerant(&mut self) -> Option<Result<String, IrcError>>;

    /// The lines that are still to come.
    fn lines_tolerant<'a>(&'a mut self) -> (lines: LinesTolerant<'a, Self>)
        ensures
            lines.reader() == *old(self),
    {
        LinesTolerant { read: self }
    }
}

/// The lines of a reader that are still to come.
pub struct LinesTolerant<'a, T> {
    read: &'a mut T,
}

impl<'a, T> LinesTolerant<'a, T> {
    /// The reader as it is now.
    pub closed spec fn reader(&self) -> T {
        *self.read
    }
}

impl<'a, T: TolerantLineReader> LinesTolerant<'a, T> {
    /// Reads the next line from the reader: the result is the answer of
    /// the reader's `read_line_tolerant`, and the reader is left as that
    /// call leaves it.
    pub fn next(&mut self) -> (r: Option<Result<String, IrcError>>)
        ensures
            exists|m: &mut T|
                {
                    &&& mut_ref_current(m) == old(self).reader()
                    &&& mut_ref_future(m) == final(self).reader()
                    &&& #[trigger] call_ensures(T::read_line_tolerant, (m,), r)
                },
    {
        self.read.read_line_tolerant()
    }
}

/// The text that `String::from_utf8_lossy` makes of a sequence of bytes:
/// the text they encode, with a replacement character wherever they encode
/// none.
pub uninterp spec fn lossy_text(bytes: Seq<u8>) -> Seq<char>;

/// Decodes bytes with `String::from_utf8_lossy` of the standard library.
/// Believed of it: the result depends on the bytes alone, and valid UTF-8
/// is decoded as it stands.
#[verifier::external_body]
fn decode_lossy(bytes: &[u8]) -> (text: String)
    ensures
        text@ == lossy_text(bytes@),
        vstd::utf8::valid_utf8(bytes@) ==> text@ == vstd::utf8::decode_utf8(bytes@),
{
    String::from_utf8_lossy(bytes).into_owned()
}

/// The length of the first line of `bytes`, its line feed included; the
/// length of `bytes` where they hold no line feed.
pub open spec fn first_line_len(bytes: Seq<u8>) -> nat {
    if find(bytes, 10u8) < bytes.len() {
        find(bytes, 10u8) + 1
    } else {
        bytes.len()
    }
}

/// A reader over bytes held in memory.
pub struct MemReader {
    data: Vec<u8>,
    pos: usize,
}

impl MemReader {
    #[verifier::type_invariant]
    spec fn inv(self) -> bool {
        self.pos <= self.data.len()
    }

    /// The bytes that were not read yet.
    pub closed spec fn pending(&self) -> Seq<u8> {
        self.data@.skip(self.pos as int)
    }

    /// A reader that will give the lines of `data`.
    pub fn new(data: Vec<u8>) -> (reader: MemReader)
        ensures
            reader.pending() == data@,
    {
        MemReader { data, pos: 0 }
    }
}

impl TolerantLineReader for MemReader {
    /// Gives the first line of what is pending, decoded, and leaves the
    /// rest pending. Bytes that are valid UTF-8 are decoded as they stand.
    /// With nothing pending, reports the end of the stream.
    fn read_line_tolerant(&mut self) -> (r: Option<Result<String, IrcError>>)
        ensures
            final(self).pending() == old(self).pending().skip(
                first_line_len(old(self).pending()) as int,
            ),
            old(self).pending().len() == 0 ==> r == Some(
                Err::<String, IrcError>((IrcError { kind: ErrorKind::EndOfStream, detail: None })),
            ),
            old(self).pending().len() > 0 ==> (r matches Some(Ok(line)) && line@ == lossy_text(
                old(self).pending().take(first_line_len(old(self).pending()) as int),
            )),
            old(self).pending().len() > 0 && vstd::utf8::valid_utf8(
                old(self).pending().take(first_line_len(old(self).pending()) as int),
            ) ==> (r matches Some(Ok(line)) && line@ == vstd::utf8::decode_utf8(
                old(self).pending().take(first_line_len(old(self).pending()) as int),
            )),
    {
        proof {
            use_type_invariant(&*self);
        }
        let len = self.data.len();
        if self.pos == len {
            return Some(Err(IrcError::new(ErrorKind::EndOfStream)));
        }
        let start = self.pos;
        let mut end: usize = start;
        while end < len && self.data[end] != 10u8
            invariant
                start <= end <= len,
                len == self.data.len(),
                forall|i: int| start <= i < end ==> self.data@[i] != 10u8,
            decreases len - end,
        {
            end += 1;
        }
        let ghost pending = self.data@.skip(start as int);
        proof {
            lemma_find_is(pending, 10u8, end - start);
        }
        if end < len {
            end += 1;
        }
        let line = decode_lossy(slice_subrange(self.data.as_slice(), start, end));
        self.pos = end;
        proof {
            assert(pending.take(end - start) == self.data@.subrange(start as int, end as int));
            assert(pending.skip(end - start) == self.data@.skip(end as int));
        }
        Some(Ok(line))
    }
}

} // verus!
