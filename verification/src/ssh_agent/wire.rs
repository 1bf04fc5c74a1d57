//! The wire format of the SSH agent protocol: big-endian numbers, strings
//! with a length in front, and frames.

use vstd::prelude::*;

verus! {

/// The four bytes of a number, most significant first.
pub open spec fn be32(number: u32) -> Seq<u8> {
    seq![
        (number / 0x100_0000) as u8,
        ((number / 0x1_0000) % 0x100) as u8,
        ((number / 0x100) % 0x100) as u8,
        (number % 0x100) as u8,
    ]
}

/// The number that four bytes write, most significant first.
pub open spec fn be32_value(b0: u8, b1: u8, b2: u8, b3: u8) -> u32 {
    (b0 * 0x100_0000 + b1 * 0x1_0000 + b2 * 0x100 + b3) as u32
}

/// A string on the wire: its length as a number, then its bytes.
pub open spec fn ssh_string(bytes: Seq<u8>) -> Seq<u8> {
    be32(bytes.len() as u32) + bytes
}

/// A frame: the length of the payload as a number, then the payload.
pub open spec fn frame(payload: Seq<u8>) -> Seq<u8> {
    be32(payload.len() as u32) + payload
}

/// The number that stands at a place of a buffer, if four bytes are there.
pub open spec fn u32_at(buffer: Seq<u8>, at: int) -> Option<u32> {
    if 0 <= at && at + 4 <= buffer.len() {
        Some(be32_value(buffer[at], buffer[at + 1], buffer[at + 2], buffer[at + 3]))
    } else {
        None
    }
}

/// The string that stands at a place of a buffer, with the place after it,
/// if the buffer holds all of it.
pub open spec fn string_at(buffer: Seq<u8>, at: int) -> Option<(Seq<u8>, int)> {
    match u32_at(buffer, at) {
        Some(length) => if at + 4 + length <= buffer.len() {
            Some((buffer.subrange(at + 4, at + 4 + length), at + 4 + length))
        } else {
            None
        },
        None => None,
    }
}

/// Reading a number gives back the number that was written.
pub proof fn lemma_be32_round_trip(number: u32)
    ensures
        be32(number).len() == 4,
        be32_value(be32(number)[0], be32(number)[1], be32(number)[2], be32(number)[3]) == number,
{
}

/// A string that was written at a place of a buffer is read back from that
/// place, and reading ends where the string ends.
pub proof fn lemma_string_round_trip(before: Seq<u8>, bytes: Seq<u8>, after: Seq<u8>)
    requires
        bytes.len() <= u32::MAX,
    ensures
        string_at(before + ssh_string(bytes) + after, before.len() as int) == Some(
            (bytes, (before.len() + 4 + bytes.len()) as int),
        ),
{
    let buffer = before + ssh_string(bytes) + after;
    let at = before.len() as int;
    lemma_be32_round_trip(bytes.len() as u32);
    assert(buffer[at] == be32(bytes.len() as u32)[0]);
    assert(buffer[at + 1] == be32(bytes.len() as u32)[1]);
    assert(buffer[at + 2] == be32(bytes.len() as u32)[2]);
    assert(buffer[at + 3] == be32(bytes.len() as u32)[3]);
    assert(buffer.subrange(at + 4, at + 4 + bytes.len()) =~= bytes);
}

/// Reads the number that four bytes write, most significant first.
pub fn read_u32(buffer: &[u8], at: usize) -> (number: Option<u32>)
    ensures
        number == u32_at(buffer@, at as int),
{
    if buffer.len() < 4 || at > buffer.len() - 4 {
        return None;
    }
    let b0 = buffer[at] as u32;
    let b1 = buffer[at + 1] as u32;
    let b2 = buffer[at + 2] as u32;
    let b3 = buffer[at + 3] as u32;
    Some(b0 * 0x100_0000 + b1 * 0x1_0000 + b2 * 0x100 + b3)
}

/// Whether a length fits the four bytes that write it.
pub fn fits_u32(length: usize) -> (fits: bool)
    ensures
        fits == (length <= u32::MAX),
{
    length as u64 <= 0xffff_ffff
}

/// Appends the four bytes of a number, most significant first.
pub fn put_u32(buffer: &mut Vec<u8>, number: u32)
    ensures
        final(buffer)@ == old(buffer)@ + be32(number),
{
    buffer.push((number / 0x100_0000) as u8);
    buffer.push(((number / 0x1_0000) % 0x100) as u8);
    buffer.push(((number / 0x100) % 0x100) as u8);
    buffer.push((number % 0x100) as u8);
    assert(buffer@ =~= old(buffer)@ + be32(number));
}

/// Appends bytes as they are.
pub fn put_bytes(buffer: &mut Vec<u8>, bytes: &[u8])
    ensures
        final(buffer)@ == old(buffer)@ + bytes@,
{
    let mut i: usize = 0;
    while i < bytes.len()
        invariant
            i <= bytes@.len(),
            buffer@ == old(buffer)@ + bytes@.subrange(0, i as int),
        decreases bytes@.len() - i,
    {
        buffer.push(bytes[i]);
        assert(bytes@.subrange(0, i + 1) =~= bytes@.subrange(0, i as int).push(bytes@[i as int]));
        i += 1;
    }
    assert(bytes@.subrange(0, bytes@.len() as int) =~= bytes@);
}

/// Appends a string: its length, then its bytes. The length must fit the
/// four bytes that write it.
pub fn put_string(buffer: &mut Vec<u8>, bytes: &[u8])
    requires
        bytes@.len() <= u32::MAX,
    ensures
        final(buffer)@ == old(buffer)@ + ssh_string(bytes@),
{
    put_u32(buffer, bytes.len() as u32);
    put_bytes(buffer, bytes);
    assert(buffer@ =~= old(buffer)@ + ssh_string(bytes@));
}

/// Puts the length of a payload in front of it. The length must fit the four
/// bytes that write it.
pub fn into_frame(payload: &[u8]) -> (framed: Vec<u8>)
    requires
        payload@.len() <= u32::MAX,
    ensures
        framed@ == frame(payload@),
{
    let mut framed: Vec<u8> = Vec::new();
    put_u32(&mut framed, payload.len() as u32);
    put_bytes(&mut framed, payload);
    assert(framed@ =~= frame(payload@));
    framed
}

/// The frame that holds one byte.
pub fn byte_frame(byte: u8) -> (framed: Vec<u8>)
    ensures
        framed@ == frame(seq![byte]),
{
    let mut payload: Vec<u8> = Vec::new();
    payload.push(byte);
    assert(payload@ =~= seq![byte]);
    into_frame(payload.as_slice())
}

/// A place in a buffer from which values are read one after another.
pub struct Reader<'a> {
    buffer: &'a [u8],
    position: usize,
}

impl<'a> Reader<'a> {
    /// The buffer that is read.
    pub closed spec fn source(&self) -> Seq<u8> {
        self.buffer@
    }

    /// The place of the next byte to read.
    pub closed spec fn place(&self) -> int {
        self.position as int
    }

    /// The reader's invariant: the place lies within the buffer or at its
    /// end.
    #[verifier::type_invariant]
    pub closed spec fn wf(&self) -> bool {
        self.position <= self.buffer@.len()
    }

    /// A reader at a place of a buffer; a place beyond the end counts as the
    /// end.
    pub fn new(buffer: &'a [u8], position: usize) -> (reader: Reader<'a>)
        ensures
            reader.source() == buffer@,
            reader.place() == (if position <= buffer@.len() {
                position as int
            } else {
                buffer@.len() as int
            }),
    {
        let position = if position <= buffer.len() {
            position
        } else {
            buffer.len()
        };
        Reader { buffer, position }
    }

    /// How many bytes are left to read.
    pub fn remaining(&self) -> (left: usize)
        ensures
            left == self.source().len() - self.place(),
    {
        proof {
            use_type_invariant(self);
        }
        self.buffer.len() - self.position
    }

    /// Reads one byte, if one is left.
    pub fn read_byte(&mut self) -> (byte: Option<u8>)
        ensures
            final(self).source() == old(self).source(),
            match byte {
                Some(read) => {
                    &&& old(self).place() < old(self).source().len()
                    &&& read == old(self).source()[old(self).place()]
                    &&& final(self).place() == old(self).place() + 1
                },
                None => old(self).place() >= old(self).source().len() && final(self).place()
                    == old(self).place(),
            },
    {
        proof {
            use_type_invariant(&*self);
        }
        if self.position < self.buffer.len() {
            let byte = self.buffer[self.position];
            self.position = self.position + 1;
            Some(byte)
        } else {
            None
        }
    }

    /// Reads a number, if four bytes are left.
    pub fn read_u32(&mut self) -> (number: Option<u32>)
        ensures
            final(self).source() == old(self).source(),
            number == u32_at(old(self).source(), old(self).place()),
            final(self).place() == (if number is Some {
                old(self).place() + 4
            } else {
                old(self).place()
            }),
    {
        proof {
            use_type_invariant(&*self);
        }
        let total = self.buffer.len();
        match read_u32(self.buffer, self.position) {
            Some(number) => {
                assert(self.position + 4 <= total);
                self.position = self.position + 4;
                Some(number)
            },
            None => None,
        }
    }

    /// Reads a string, if the buffer holds all of it.
    pub fn read_string(&mut self) -> (bytes: Option<&'a [u8]>)
        ensures
            final(self).source() == old(self).source(),
            match bytes {
                Some(read) => string_at(old(self).source(), old(self).place()) == Some(
                    (read@, final(self).place()),
                ),
                None => {
                    &&& string_at(old(self).source(), old(self).place()) is None
                    &&& final(self).place() == old(self).place()
                },
            },
    {
        proof {
            use_type_invariant(&*self);
        }
        let total = self.buffer.len();
        let length = match read_u32(self.buffer, self.position) {
            Some(length) => length as usize,
            None => {
                return None;
            },
        };
        assert(self.position + 4 <= total);
        let start = self.position + 4;
        if length > total - start {
            return None;
        }
        let bytes = vstd::slice::slice_subrange(self.buffer, start, start + length);
        self.position = start + length;
        Some(bytes)
    }
}

} // verus!
