//! The serial console's line editor: it collects the bytes typed on the UART
//! into a command line, echoes them, and hands the line over on Enter.
use vstd::prelude::*;
use vstd::utf8::encode_scalar;
use crate::command::{padded, CMD_SIZE};
use crate::token::push_bytes;

verus! {

/// The byte that the Enter key sends: a carriage return.
pub const ENTER: u8 = 13;

/// What the line editor does with one received byte.
#[derive(Debug, Clone, Copy)]
pub enum LineEvent {
    /// Enter was pressed: the line, padded with NUL bytes, is handed over.
    Entered([u8; CMD_SIZE]),
    /// The line was already full: it is dropped, with the byte.
    TooLong,
    /// The byte was added to the line and is echoed back.
    Echo(u8),
}

/// The typed text after one more received byte: empty after Enter or when
/// the line was already full, else one byte longer.
pub open spec fn typed_after(typed: Seq<u8>, byte: u8) -> Seq<u8> {
    if byte == ENTER || typed.len() >= CMD_SIZE {
        Seq::empty()
    } else {
        typed.push(byte)
    }
}

/// The typed text after each of `bytes` is received in turn.
pub open spec fn typed_after_all(typed: Seq<u8>, bytes: Seq<u8>) -> Seq<u8>
    decreases bytes.len(),
{
    if bytes.len() == 0 {
        typed
    } else {
        typed_after(typed_after_all(typed, bytes.drop_last()), bytes.last())
    }
}

/// The command line being typed: at most `CMD_SIZE` bytes, the rest of the
/// buffer NUL.
pub struct CommandLine {
    buf: [u8; CMD_SIZE],
    len: usize,
}

impl View for CommandLine {
    type V = Seq<u8>;

    closed spec fn view(&self) -> Seq<u8> {
        self.buf@.take(self.len as int)
    }
}

impl CommandLine {
    #[verifier::type_invariant]
    closed spec fn well_formed(self) -> bool {
        &&& self.len <= CMD_SIZE
        &&& forall|i: int| self.len <= i < CMD_SIZE ==> self.buf@[i] == 0u8
    }

    /// Number of bytes typed so far; never more than `CMD_SIZE`.
    pub fn len(&self) -> (n: usize)
        ensures
            n == self@.len(),
            n <= CMD_SIZE,
    {
        proof {
            use_type_invariant(self);
        }
        self.len
    }

    /// An empty line.
    pub fn new() -> (l: CommandLine)
        ensures
            l@ == Seq::<u8>::empty(),
    {
        let l = CommandLine { buf: [0u8; CMD_SIZE], len: 0 };
        assert(l@ =~= Seq::<u8>::empty());
        l
    }

    /// The typed bytes, padded with NUL bytes to `CMD_SIZE`.
    pub fn padded_line(&self) -> (raw: [u8; CMD_SIZE])
        ensures
            raw@ == padded(self@),
    {
        proof {
            use_type_invariant(self);
        }
        assert(self.buf@ =~= padded(self@));
        self.buf
    }

    /// Takes one byte received on the UART: Enter hands the line over and
    /// starts a new one; a byte that does not fit drops the line; any other
    /// byte is added and echoed.
    pub fn feed(&mut self, byte: u8) -> (e: LineEvent)
        ensures
            final(self)@ == typed_after(old(self)@, byte),
            byte == ENTER ==> (e matches LineEvent::Entered(raw) && raw@ == padded(old(self)@)),
            byte != ENTER && old(self)@.len() >= CMD_SIZE ==> e == LineEvent::TooLong,
            byte != ENTER && old(self)@.len() < CMD_SIZE ==> e == LineEvent::Echo(byte),
    {
        proof {
            use_type_invariant(&*self);
        }
        let ghost typed = self@;
        if byte == ENTER {
            let raw = self.padded_line();
            *self = CommandLine::new();
            LineEvent::Entered(raw)
        } else if self.len >= CMD_SIZE {
            *self = CommandLine::new();
            LineEvent::TooLong
        } else {
            let mut buf = self.buf;
            let len = self.len;
            buf[len] = byte;
            let next = CommandLine { buf, len: len + 1 };
            assert(next@ =~= typed.push(byte));
            *self = next;
            LineEvent::Echo(byte)
        }
    }
}

/// Typing up to `CMD_SIZE` bytes without Enter on an empty line leaves
/// exactly those bytes on the line, so that Enter then hands them over
/// padded with NUL bytes.
pub proof fn lemma_typed_bytes_kept(bytes: Seq<u8>)
    requires
        bytes.len() <= CMD_SIZE,
        forall|i: int| 0 <= i < bytes.len() ==> bytes[i] != ENTER,
    ensures
        typed_after_all(Seq::empty(), bytes) == bytes,
    decreases bytes.len(),
{
    if bytes.len() > 0 {
        let init = bytes.drop_last();
        lemma_typed_bytes_kept(init);
        assert(init.push(bytes.last()) =~= bytes);
    }
}

/// The text that reports a line that grew too long: `"invalid command length\r\n"`.
pub const TOO_LONG: [u8; 24] = ['i' as u8, 'n' as u8, 'v' as u8, 'a' as u8, 'l' as u8, 'i' as u8, 'd' as u8, ' ' as u8, 'c' as u8, 'o' as u8, 'm' as u8, 'm' as u8, 'a' as u8, 'n' as u8, 'd' as u8, ' ' as u8, 'l' as u8, 'e' as u8, 'n' as u8, 'g' as u8, 't' as u8, 'h' as u8, '\r' as u8, '\n' as u8];

/// The line reported when a typed line grows too long.
pub fn too_long_message() -> (m: Vec<u8>)
    ensures
        m@ == TOO_LONG@,
{
    let mut m: Vec<u8> = Vec::new();
    push_bytes(&mut m, TOO_LONG.as_slice());
    assert(m@ =~= TOO_LONG@);
    m
}

/// The echo of a received byte: the UTF-8 encoding of the character whose
/// code point is the byte.
pub fn echo_message(byte: u8) -> (m: Vec<u8>)
    ensures
        m@ == encode_scalar(byte as u32),
{
    let mut m: Vec<u8> = Vec::new();
    if byte < 0x80 {
        m.push(byte);
        assert((byte as u32 & 0x7F) as u8 == byte) by (bit_vector)
            requires
                byte < 0x80,
        ;
    } else {
        let lead: u8 = 0xC0 | (byte >> 6);
        let cont: u8 = 0x80 | (byte & 0x3F);
        m.push(lead);
        m.push(cont);
        assert(0xC0 | ((byte as u32 >> 6) & 0x1F) as u8 == 0xC0 | (byte >> 6)) by (bit_vector);
        assert(0x80 | (byte as u32 & 0x3F) as u8 == 0x80 | (byte & 0x3F)) by (bit_vector);
    }
    assert(m@ =~= encode_scalar(byte as u32));
    m
}

} // verus!
