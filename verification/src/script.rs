//! Scripts as byte strings, and the encodings of what is pushed onto them.

use vstd::prelude::*;
use crate::encode::{append, le_bytes_u16, le_bytes_u32, pow256, push_u16_le, push_u32_le};

verus! {

// The opcodes that the scripts of this library are made of.
pub const OP_0: u8 = 0x00;

pub const OP_PUSHDATA1: u8 = 0x4c;

pub const OP_PUSHDATA2: u8 = 0x4d;

pub const OP_PUSHDATA4: u8 = 0x4e;

pub const OP_1NEGATE: u8 = 0x4f;

pub const OP_1: u8 = 0x51;

pub const OP_IF: u8 = 0x63;

pub const OP_ENDIF: u8 = 0x68;

pub const OP_RETURN: u8 = 0x6a;

pub const OP_DUP: u8 = 0x76;

pub const OP_EQUAL: u8 = 0x87;

pub const OP_EQUALVERIFY: u8 = 0x88;

pub const OP_NUMEQUAL: u8 = 0x9c;

pub const OP_NUMEQUALVERIFY: u8 = 0x9d;

pub const OP_HASH160: u8 = 0xa9;

pub const OP_CHECKSIG: u8 = 0xac;

pub const OP_CHECKSIGVERIFY: u8 = 0xad;

pub const OP_CHECKSEQUENCEVERIFY: u8 = 0xb2;

pub const OP_CHECKSIGADD: u8 = 0xba;

/// A locking or unlocking script: opcodes and pushed data, as consensus reads them.
#[derive(Debug)]
pub struct Script {
    pub bytes: Vec<u8>,
}

impl View for Script {
    type V = Seq<u8>;

    open spec fn view(&self) -> Seq<u8> {
        self.bytes@
    }
}

/// The bytes that push `data`: the shortest push opcode for its length, the
/// length, then the data.
pub open spec fn push_data(data: Seq<u8>) -> Seq<u8> {
    if data.len() < 0x4c {
        seq![data.len() as u8] + data
    } else if data.len() <= 0xff {
        seq![0x4cu8, data.len() as u8] + data
    } else if data.len() <= 0xffff {
        seq![0x4du8] + le_bytes_u16(data.len() as u16) + data
    } else {
        seq![0x4eu8] + le_bytes_u32(data.len() as u32) + data
    }
}

/// The bytes of a positive number, low byte first, without leading zero bytes.
pub open spec fn magnitude_bytes(m: nat) -> Seq<u8>
    decreases m,
{
    if m == 0 {
        Seq::empty()
    } else {
        seq![(m % 256) as u8] + magnitude_bytes(m / 256)
    }
}

/// A number as scripts hold it: the magnitude, low byte first, with the sign
/// in the top bit of the last byte, and one more byte where that bit is taken.
pub open spec fn script_number(n: int) -> Seq<u8> {
    if n == 0 {
        Seq::empty()
    } else {
        let m = magnitude_bytes(
            (if n < 0 {
                -n
            } else {
                n
            }) as nat,
        );
        if m.last() >= 0x80 {
            m.push(
                if n < 0 {
                    0x80u8
                } else {
                    0u8
                },
            )
        } else if n < 0 {
            m.update(m.len() - 1, (m.last() + 0x80) as u8)
        } else {
            m
        }
    }
}

/// The bytes that push the number `n`: a single opcode for -1 and 0 to 16,
/// else a push of the number as scripts hold it.
pub open spec fn push_number(n: int) -> Seq<u8> {
    if n == 0 {
        seq![0x00u8]
    } else if n == -1 {
        seq![0x4fu8]
    } else if 1 <= n <= 16 {
        seq![(0x50 + n) as u8]
    } else {
        push_data(script_number(n))
    }
}

/// The bytes of a number's magnitude, which are eight at most.
fn magnitude_to_bytes(magnitude: u64) -> (out: Vec<u8>)
    ensures
        out@ == magnitude_bytes(magnitude as nat),
        out@.len() <= 8,
        magnitude > 0 ==> out@.len() > 0,
{
    let mut out: Vec<u8> = Vec::new();
    let mut m: u64 = magnitude;
    while m > 0
        invariant
            out@ + magnitude_bytes(m as nat) == magnitude_bytes(magnitude as nat),
            out@.len() <= 8,
            m < pow256(8 - out@.len()),
            magnitude > 0 && m == 0 ==> out@.len() > 0,
        decreases m,
    {
        let ghost before = out@;
        let low: u8 = (m % 256) as u8;
        out.push(low);
        let ghost rest = magnitude_bytes((m / 256) as nat);
        assert(out@ + rest =~= before + (seq![low] + rest));
        m = m / 256;
    }
    assert(out@ + Seq::<u8>::empty() =~= out@);
    out
}

impl Script {
    /// The empty script.
    pub fn new() -> (s: Script)
        ensures
            s@ == Seq::<u8>::empty(),
    {
        Script { bytes: Vec::new() }
    }

    /// The script of the given bytes.
    pub fn from(bytes: Vec<u8>) -> (s: Script)
        ensures
            s@ == bytes@,
    {
        Script { bytes }
    }

    /// A copy of the script.
    pub fn duplicate(&self) -> (s: Script)
        ensures
            s@ == self@,
    {
        let mut bytes: Vec<u8> = Vec::new();
        append(&mut bytes, self.bytes.as_slice());
        assert(bytes@ =~= self@);
        Script { bytes }
    }

    /// The script's bytes.
    pub fn as_slice(&self) -> (out: &[u8])
        ensures
            out@ == self@,
    {
        self.bytes.as_slice()
    }

    /// Appends one opcode.
    pub fn push(&mut self, opcode: u8)
        ensures
            final(self)@ == old(self)@.push(opcode),
    {
        self.bytes.push(opcode);
    }

    /// Appends raw bytes.
    pub fn append(&mut self, data: &[u8])
        ensures
            final(self)@ == old(self)@ + data@,
    {
        append(&mut self.bytes, data);
    }

    /// Appends a push of `data`.
    pub fn push_slice(&mut self, data: &[u8])
        requires
            data@.len() <= 0xffff_ffff,
        ensures
            final(self)@ == old(self)@ + push_data(data@),
    {
        let size: usize = data.len();
        if size < 0x4c {
            self.bytes.push(size as u8);
        } else if size <= 0xff {
            self.bytes.push(OP_PUSHDATA1);
            self.bytes.push(size as u8);
        } else if size <= 0xffff {
            self.bytes.push(OP_PUSHDATA2);
            push_u16_le(&mut self.bytes, size as u16);
        } else {
            self.bytes.push(OP_PUSHDATA4);
            push_u32_le(&mut self.bytes, size as u32);
        }
        append(&mut self.bytes, data);
        assert(self@ =~= old(self)@ + push_data(data@));
    }

    /// Appends a push of the number `n`.
    pub fn push_int(&mut self, n: i64)
        ensures
            final(self)@ == old(self)@ + push_number(n as int),
    {
        if n == 0 {
            self.bytes.push(OP_0);
            assert(self@ =~= old(self)@ + push_number(n as int));
        } else if n == -1 {
            self.bytes.push(OP_1NEGATE);
            assert(self@ =~= old(self)@ + push_number(n as int));
        } else if 1 <= n && n <= 16 {
            self.bytes.push((0x50 + n) as u8);
            assert(self@ =~= old(self)@ + push_number(n as int));
        } else {
            let negative: bool = n < 0;
            let magnitude: u64 = if negative {
                ((-(n + 1)) as u64) + 1
            } else {
                n as u64
            };
            let mut number: Vec<u8> = magnitude_to_bytes(magnitude);
            let last: u8 = number[number.len() - 1];
            if last >= 0x80 {
                number.push(if negative { 0x80u8 } else { 0u8 });
            } else if negative {
                let top: usize = number.len() - 1;
                number.set(top, last + 0x80);
            }
            assert(number@ =~= script_number(n as int));
            self.push_slice(number.as_slice());
        }
    }
}

} // verus!
