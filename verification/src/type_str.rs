//! A string literal lifted to a chain of single bytes, and the decoding of such a
//! chain into a fixed-size buffer and a string.

use vstd::prelude::*;
use vstd::utf8::*;
use crate::sealed::Sealed;

verus! {

/// Size of the buffer that a chain is decoded into: the longest string literal,
/// in bytes, that can be lifted to a chain and read back.
pub const MAX_STR_LIT_LEN: usize = 32768;

/// One byte of a string literal's UTF-8 encoding.
#[derive(Clone, Copy, Debug, PartialEq, Eq, Structural)]
pub struct Byte {
    pub val: u8,
}

/// Reads out the byte that a chain element stands for.
pub trait ContainsByte: Sealed {
    spec fn byte_spec(&self) -> u8;

    fn byte(&self) -> (b: u8)
        ensures
            b == self.byte_spec(),
    ;
}

impl Sealed for Byte {

}

impl ContainsByte for Byte {
    open spec fn byte_spec(&self) -> u8 {
        self.val
    }

    fn byte(&self) -> (b: u8) {
        self.val
    }
}

/// A chain of bytes: empty, or a head byte in front of a rest chain.
///
/// The chain is viewed as the sequence of its bytes, head first.
#[derive(Clone, Debug, PartialEq, Eq)]
pub struct TypeStr {
    bytes: Vec<Byte>,
}

impl Sealed for TypeStr {

}

impl View for TypeStr {
    type V = Seq<u8>;

    closed spec fn view(&self) -> Seq<u8> {
        self.bytes@.map_values(|b: Byte| b.val)
    }
}

/// `String::from_utf8` of std: the bytes become a string exactly when they are
/// well-formed UTF-8, and that string then encodes to the same bytes.
#[verifier::external_body]
fn string_from_utf8(bytes: Vec<u8>) -> (r: Option<String>)
    ensures
        r is Some <==> valid_utf8(bytes@),
        r is Some ==> encode_utf8(r->0@) == bytes@,
{
    match String::from_utf8(bytes) {
        Ok(s) => Some(s),
        Err(_) => None,
    }
}

/// The buffer that a byte sequence decodes to: the bytes themselves, then zeros.
pub open spec fn buffer_of(bytes: Seq<u8>) -> Seq<u8> {
    Seq::new(
        MAX_STR_LIT_LEN as nat,
        |i: int| if 0 <= i < bytes.len() { bytes[i] } else { 0u8 },
    )
}

impl TypeStr {
    /// A chain can be decoded when it fits the buffer.
    pub open spec fn fits(&self) -> bool {
        self@.len() <= MAX_STR_LIT_LEN
    }

    /// A chain reads back as a string when it fits the buffer and its bytes are
    /// well-formed UTF-8.
    pub open spec fn is_text(&self) -> bool {
        self.fits() && valid_utf8(self@)
    }

    /// The empty chain.
    pub fn nil() -> (r: TypeStr)
        ensures
            r@ == Seq::<u8>::empty(),
    {
        let r = TypeStr { bytes: Vec::new() };
        assert(r@ =~= Seq::<u8>::empty());
        r
    }

    /// The chain with `head` in front of `rest`.
    pub fn cons(head: Byte, rest: TypeStr) -> (r: TypeStr)
        ensures
            r@ == seq![head.val] + rest@,
    {
        let mut bytes = rest.bytes;
        let ghost before = bytes@;
        bytes.insert(0, head);
        let r = TypeStr { bytes };
        assert(r@ =~= seq![head.val] + before.map_values(|b: Byte| b.val));
        r
    }

    /// Number of bytes in the chain.
    pub fn len(&self) -> (n: usize)
        ensures
            n == self@.len(),
    {
        self.bytes.len()
    }

    /// The chain's bytes laid out in a buffer of fixed size, zero after the last.
    pub fn v(&self) -> (buf: [u8; MAX_STR_LIT_LEN])
        requires
            self.fits(),
        ensures
            buf@ == buffer_of(self@),
    {
        let mut buf: [u8; MAX_STR_LIT_LEN] = [0u8; MAX_STR_LIT_LEN];
        let n: usize = self.bytes.len();
        let mut i: usize = 0;
        while i < n
            invariant
                n == self.bytes@.len(),
                n <= MAX_STR_LIT_LEN,
                i <= n,
                forall|j: int| 0 <= j < i ==> buf@[j] == self@[j],
                forall|j: int| i <= j < MAX_STR_LIT_LEN ==> buf@[j] == 0u8,
            decreases n - i,
        {
            buf[i] = self.bytes[i].byte();
            i += 1;
        }
        assert(buf@ =~= buffer_of(self@));
        buf
    }

    /// The chain read back as text: the leading `len` bytes of the buffer, taken
    /// as UTF-8.
    pub fn str(&self) -> (s: String)
        requires
            self.is_text(),
        ensures
            encode_utf8(s@) == self@,
            s@ == decode_utf8(self@),
    {
        let buf = self.v();
        let n: usize = self.len();
        let mut bytes: Vec<u8> = Vec::new();
        let mut i: usize = 0;
        while i < n
            invariant
                n == self@.len(),
                n <= MAX_STR_LIT_LEN,
                i <= n,
                buf@ == buffer_of(self@),
                bytes@ == self@.subrange(0, i as int),
            decreases n - i,
        {
            bytes.push(buf[i]);
            assert(bytes@ =~= self@.subrange(0, i + 1));
            i += 1;
        }
        assert(bytes@ =~= self@);
        match string_from_utf8(bytes) {
            Some(s) => {
                proof {
                    encode_utf8_decode_utf8(s@);
                }
                s
            },
            None => unreached(),
        }
    }
}

/// The buffer node by node: that of the empty chain is all zero; that of a chain
/// with a head is the head byte, then the buffer of the rest, cut to the buffer's
/// size.
pub proof fn lemma_buffer_by_node(head: u8, rest: Seq<u8>)
    ensures
        buffer_of(Seq::empty()) == Seq::new(MAX_STR_LIT_LEN as nat, |i: int| 0u8),
        buffer_of(seq![head] + rest) == (seq![head] + buffer_of(rest)).subrange(
            0,
            MAX_STR_LIT_LEN as int,
        ),
{
    assert(buffer_of(Seq::empty()) =~= Seq::new(MAX_STR_LIT_LEN as nat, |i: int| 0u8));
    assert(buffer_of(seq![head] + rest) =~= (seq![head] + buffer_of(rest)).subrange(
        0,
        MAX_STR_LIT_LEN as int,
    ));
}

/// Reading back the chain of a text's bytes gives that text: where the bytes fit
/// the buffer, they are the buffer's leading bytes, they are well-formed UTF-8,
/// and they decode to the text.
pub proof fn lemma_chain_reads_back(chain: TypeStr, text: Seq<char>)
    requires
        chain@ == encode_utf8(text),
        chain.fits(),
    ensures
        buffer_of(chain@).subrange(0, chain@.len() as int) == chain@,
        chain.is_text(),
        decode_utf8(chain@) == text,
{
    assert(buffer_of(chain@).subrange(0, chain@.len() as int) =~= chain@);
    encode_utf8_valid_utf8(text);
    encode_utf8_decode_utf8(text);
}

} // verus!
