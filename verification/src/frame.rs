//! The bytes of one read, bounded, and the place where the header block ends.

use vstd::prelude::*;
use vstd::slice::*;

verus! {

/// Largest number of bytes that one read of a connection may hand over.
pub const MAX_REQUEST_SIZE: usize = 8192;

/// The blank line that parts the header block from the body begins at `i`:
/// CR, LF, CR, LF.
pub open spec fn blank_line_at(bytes: Seq<u8>, i: int) -> bool {
    &&& 0 <= i
    &&& i + 3 < bytes.len()
    &&& bytes[i] == 13
    &&& bytes[i + 1] == 10
    &&& bytes[i + 2] == 13
    &&& bytes[i + 3] == 10
}

/// The first index at or after `from` at which a blank line begins;
/// `bytes.len()` when there is none.
pub open spec fn first_blank_line(bytes: Seq<u8>, from: int) -> int
    recommends
        0 <= from,
    decreases bytes.len() - from,
{
    if from < 0 || from + 3 >= bytes.len() {
        bytes.len() as int
    } else if blank_line_at(bytes, from) {
        from
    } else {
        first_blank_line(bytes, from + 1)
    }
}

/// Where the header block of a frame ends: at its first blank line, or at the
/// end of the frame when it has none.
pub open spec fn header_end_of(bytes: Seq<u8>) -> int {
    first_blank_line(bytes, 0)
}

/// The body of a frame: what follows its first blank line. Empty when the
/// frame has no blank line or ends with it.
pub open spec fn body_of(bytes: Seq<u8>) -> Seq<u8> {
    if header_end_of(bytes) + 4 <= bytes.len() {
        bytes.subrange(header_end_of(bytes) + 4, bytes.len() as int)
    } else {
        Seq::empty()
    }
}

/// What is kept of `data` under a bound of `max_size` bytes: all of it when it
/// fits, else its first `max_size` bytes.
pub open spec fn truncated(data: Seq<u8>, max_size: int) -> Seq<u8> {
    if data.len() <= max_size {
        data
    } else {
        data.take(max_size)
    }
}

/// `first_blank_line` is the least index from `from` on at which a blank line
/// begins.
pub proof fn lemma_first_blank_line(bytes: Seq<u8>, from: int)
    requires
        0 <= from <= bytes.len(),
    ensures
        from <= first_blank_line(bytes, from) <= bytes.len(),
        forall|i: int| from <= i < first_blank_line(bytes, from) ==> !blank_line_at(bytes, i),
        first_blank_line(bytes, from) < bytes.len() ==> blank_line_at(
            bytes,
            first_blank_line(bytes, from),
        ),
        first_blank_line(bytes, from) == bytes.len() ==> forall|i: int|
            from <= i ==> !blank_line_at(bytes, i),
    decreases bytes.len() - from,
{
    if from + 3 < bytes.len() && !blank_line_at(bytes, from) {
        lemma_first_blank_line(bytes, from + 1);
    }
}

/// The header block and the body never overlap and never reach past the
/// frame: the body is a suffix of the frame, and together with the header
/// block and the four bytes of the blank line it makes up the whole frame.
pub proof fn lemma_body_within_frame(bytes: Seq<u8>)
    ensures
        0 <= header_end_of(bytes) <= bytes.len(),
        body_of(bytes).len() <= bytes.len(),
        header_end_of(bytes) < bytes.len() ==> header_end_of(bytes) + 4 + body_of(bytes).len()
            == bytes.len(),
        header_end_of(bytes) == bytes.len() ==> body_of(bytes).len() == 0,
        forall|k: int|
            0 <= k < body_of(bytes).len() ==> body_of(bytes)[k] == bytes[header_end_of(bytes) + 4
                + k],
{
    lemma_first_blank_line(bytes, 0);
}

/// The bytes captured from one read of a connection.
///
/// A frame never holds more bytes than the limit it was captured under. An
/// empty frame means that the peer closed the connection before it sent
/// anything.
#[derive(Debug)]
pub struct RawFrame {
    bytes: Vec<u8>,
    limit: usize,
}

impl View for RawFrame {
    type V = Seq<u8>;

    closed spec fn view(&self) -> Seq<u8> {
        self.bytes@
    }
}

impl RawFrame {
    #[verifier::type_invariant]
    spec fn within_limit(self) -> bool {
        self.bytes@.len() <= self.limit
    }

    /// The bound under which the frame was captured.
    pub closed spec fn spec_limit(&self) -> usize {
        self.limit
    }

    /// Captures what one read returned, under a bound of `max_size` bytes.
    /// Bytes past the bound are dropped.
    pub fn capture(data: &[u8], max_size: usize) -> (frame: RawFrame)
        ensures
            frame@ == truncated(data@, max_size as int),
            frame.spec_limit() == max_size,
            frame@.len() <= max_size,
            data@.len() > max_size ==> frame@.len() == max_size,
            forall|i: int| 0 <= i < frame@.len() ==> frame@[i] == data@[i],
    {
        let kept = if data.len() <= max_size {
            data
        } else {
            slice_subrange(data, 0, max_size)
        };
        assert(data@.len() <= max_size ==> data@ == truncated(data@, max_size as int));
        RawFrame { bytes: slice_to_vec(kept), limit: max_size }
    }

    /// The bound under which the frame was captured.
    #[verifier::when_used_as_spec(spec_limit)]
    pub fn limit(&self) -> (limit: usize)
        ensures
            limit == self.spec_limit(),
            self@.len() <= limit,
    {
        proof {
            use_type_invariant(self);
        }
        self.limit
    }

    /// The number of bytes in the frame.
    pub fn len(&self) -> (len: usize)
        ensures
            len == self@.len(),
            len <= self.spec_limit(),
    {
        proof {
            use_type_invariant(self);
        }
        self.bytes.len()
    }

    /// Tells whether the read returned nothing, that is, whether the peer
    /// closed the connection.
    pub fn is_empty(&self) -> (empty: bool)
        ensures
            empty == (self@.len() == 0),
    {
        self.bytes.len() == 0
    }

    /// The bytes of the frame.
    pub fn as_bytes(&self) -> (bytes: &[u8])
        ensures
            bytes@ == self@,
    {
        self.bytes.as_slice()
    }

    /// Where the header block ends.
    pub fn header_end(&self) -> (at: usize)
        ensures
            at == header_end_of(self@),
            at <= self@.len(),
    {
        find_blank_line(self.bytes.as_slice())
    }

    /// The body: the bytes after the first blank line.
    pub fn body(&self) -> (body: &[u8])
        ensures
            body@ == body_of(self@),
    {
        split_body(self.bytes.as_slice())
    }
}

/// Finds the first blank line of `bytes`.
pub fn find_blank_line(bytes: &[u8]) -> (at: usize)
    ensures
        at == header_end_of(bytes@),
        at <= bytes@.len(),
{
    let n = bytes.len();
    let mut i: usize = 0;
    while n - i >= 4 && !(bytes[i] == 13 && bytes[i + 1] == 10 && bytes[i + 2] == 13 && bytes[i
        + 3] == 10)
        invariant
            n == bytes@.len(),
            i <= n,
            first_blank_line(bytes@, 0) == first_blank_line(bytes@, i as int),
        decreases n - i,
    {
        i = i + 1;
    }
    if n - i >= 4 {
        i
    } else {
        n
    }
}

/// The part of `bytes` after its first blank line.
pub fn split_body(bytes: &[u8]) -> (body: &[u8])
    ensures
        body@ == body_of(bytes@),
{
    let n = bytes.len();
    let at = find_blank_line(bytes);
    if n - at >= 4 {
        slice_subrange(bytes, at + 4, n)
    } else {
        let empty = slice_subrange(bytes, n, n);
        assert(empty@ =~= Seq::<u8>::empty());
        empty
    }
}

} // verus!
