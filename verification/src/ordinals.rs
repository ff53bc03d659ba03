//! Inscriptions: data that a tapscript leaf carries in an envelope, and the
//! BRC-20 transfer that is inscribed as JSON text.

use vstd::prelude::*;
use crate::encode::append;
use crate::schnorr::XOnlyPublicKey;
use crate::script::{push_data, Script, OP_0, OP_CHECKSIG, OP_ENDIF, OP_IF};

verus! {

/// The most bytes that a script may push at once.
pub const MAX_PUSH: usize = 520;

/// The protocol name of inscriptions, `ord`.
pub const ORD: [u8; 3] = [0x6f, 0x72, 0x64];

/// The content type of plain text, `text/plain;charset=utf-8`.
pub const MIME_TEXT_PLAIN: [u8; 24] = [
    0x74, 0x65, 0x78, 0x74, 0x2f, 0x70, 0x6c, 0x61, 0x69, 0x6e, 0x3b, 0x63, 0x68, 0x61, 0x72, 0x73,
    0x65, 0x74, 0x3d, 0x75, 0x74, 0x66, 0x2d, 0x38,
];

/// The text `{"p":"brc-20","op":"transfer","tick":`.
pub const TRANSFER_HEAD: [u8; 37] = [
    0x7b, 0x22, 0x70, 0x22, 0x3a, 0x22, 0x62, 0x72, 0x63, 0x2d, 0x32, 0x30, 0x22, 0x2c, 0x22, 0x6f,
    0x70, 0x22, 0x3a, 0x22, 0x74, 0x72, 0x61, 0x6e, 0x73, 0x66, 0x65, 0x72, 0x22, 0x2c, 0x22, 0x74,
    0x69, 0x63, 0x6b, 0x22, 0x3a,
];

/// The text `,"amt":`.
pub const TRANSFER_AMOUNT: [u8; 7] = [0x2c, 0x22, 0x61, 0x6d, 0x74, 0x22, 0x3a];

/// The lower-case hexadecimal digit of a number below 16.
pub open spec fn hex_digit(n: u8) -> u8 {
    if n < 10 {
        (0x30 + n) as u8
    } else {
        (0x57 + n) as u8
    }
}

/// One byte of a string as it stands in JSON text: quote and backslash behind
/// a backslash, control characters by their short or their `\u00..` escape,
/// every other byte as it is.
pub open spec fn json_escaped_byte(b: u8) -> Seq<u8> {
    if b == 0x22 {
        seq![0x5cu8, 0x22u8]
    } else if b == 0x5c {
        seq![0x5cu8, 0x5cu8]
    } else if b == 0x08 {
        seq![0x5cu8, 0x62u8]
    } else if b == 0x09 {
        seq![0x5cu8, 0x74u8]
    } else if b == 0x0a {
        seq![0x5cu8, 0x6eu8]
    } else if b == 0x0c {
        seq![0x5cu8, 0x66u8]
    } else if b == 0x0d {
        seq![0x5cu8, 0x72u8]
    } else if b < 0x20 {
        seq![0x5cu8, 0x75u8, 0x30u8, 0x30u8, hex_digit(b / 16), hex_digit(b % 16)]
    } else {
        seq![b]
    }
}

/// The bytes of a string as they stand in JSON text between the quotes.
pub open spec fn json_escaped(s: Seq<u8>) -> Seq<u8>
    decreases s.len(),
{
    if s.len() == 0 {
        Seq::empty()
    } else {
        json_escaped(s.drop_last()) + json_escaped_byte(s.last())
    }
}

/// A string as JSON text.
pub open spec fn json_string(s: Seq<u8>) -> Seq<u8> {
    seq![0x22u8] + json_escaped(s) + seq![0x22u8]
}

/// The JSON text of a BRC-20 transfer of `amount` of the token `ticker`.
pub open spec fn transfer_payload(ticker: Seq<u8>, amount: Seq<u8>) -> Seq<u8> {
    TRANSFER_HEAD@ + json_string(ticker) + TRANSFER_AMOUNT@ + json_string(amount) + seq![0x7du8]
}

/// Pushes of `data` in pieces of 520 bytes, the last of what is left.
pub open spec fn chunk_pushes(data: Seq<u8>) -> Seq<u8>
    decreases data.len(),
{
    if data.len() == 0 {
        Seq::empty()
    } else if data.len() <= 520 {
        push_data(data)
    } else {
        push_data(data.subrange(0, 520)) + chunk_pushes(data.subrange(520, data.len() as int))
    }
}

/// The script of a leaf that carries an inscription: the recipient signs,
/// and a branch that is never taken holds the protocol name, the content
/// type and the data.
pub open spec fn inscription_script(recipient: Seq<u8>, mime: Seq<u8>, data: Seq<u8>) -> Seq<u8> {
    push_data(recipient) + seq![0xacu8, 0x00u8, 0x63u8] + push_data(ORD@) + seq![0x01u8, 0x01u8]
        + push_data(mime) + seq![0x00u8] + chunk_pushes(data) + seq![0x68u8]
}

/// The script of the leaf that inscribes a BRC-20 transfer.
pub open spec fn transfer_script(recipient: Seq<u8>, ticker: Seq<u8>, amount: Seq<u8>) -> Seq<u8> {
    inscription_script(recipient, MIME_TEXT_PLAIN@, transfer_payload(ticker, amount))
}

fn hex_digit_of(n: u8) -> (d: u8)
    requires
        n < 16,
    ensures
        d == hex_digit(n),
{
    if n < 10 {
        0x30 + n
    } else {
        0x57 + n
    }
}

fn push_json_string(dst: &mut Vec<u8>, s: &[u8])
    ensures
        final(dst)@ == old(dst)@ + json_string(s@),
{
    dst.push(0x22u8);
    let ghost start = dst@;
    let mut i: usize = 0;
    while i < s.len()
        invariant
            i <= s@.len(),
            dst@ == start + json_escaped(s@.subrange(0, i as int)),
        decreases s@.len() - i,
    {
        let ghost before = dst@;
        let b: u8 = s[i];
        if b == 0x22 {
            dst.push(0x5cu8);
            dst.push(0x22u8);
        } else if b == 0x5c {
            dst.push(0x5cu8);
            dst.push(0x5cu8);
        } else if b == 0x08 {
            dst.push(0x5cu8);
            dst.push(0x62u8);
        } else if b == 0x09 {
            dst.push(0x5cu8);
            dst.push(0x74u8);
        } else if b == 0x0a {
            dst.push(0x5cu8);
            dst.push(0x6eu8);
        } else if b == 0x0c {
            dst.push(0x5cu8);
            dst.push(0x66u8);
        } else if b == 0x0d {
            dst.push(0x5cu8);
            dst.push(0x72u8);
        } else if b < 0x20 {
            dst.push(0x5cu8);
            dst.push(0x75u8);
            dst.push(0x30u8);
            dst.push(0x30u8);
            dst.push(hex_digit_of(b / 16));
            dst.push(hex_digit_of(b % 16));
        } else {
            dst.push(b);
        }
        proof {
            assert(dst@ =~= before + json_escaped_byte(b));
            let next = s@.subrange(0, i + 1);
            assert(next.drop_last() =~= s@.subrange(0, i as int));
            assert(next.last() == b);
            assert(dst@ =~= start + json_escaped(next));
        }
        i += 1;
    }
    assert(s@.subrange(0, i as int) =~= s@);
    dst.push(0x22u8);
    assert(dst@ =~= old(dst)@ + json_string(s@));
}

/// The JSON text of a BRC-20 transfer.
pub fn new_transfer_payload(ticker: &[u8], amount: &[u8]) -> (out: Vec<u8>)
    ensures
        out@ == transfer_payload(ticker@, amount@),
{
    let mut out: Vec<u8> = Vec::new();
    append(&mut out, TRANSFER_HEAD.as_slice());
    push_json_string(&mut out, ticker);
    append(&mut out, TRANSFER_AMOUNT.as_slice());
    push_json_string(&mut out, amount);
    out.push(0x7du8);
    assert(out@ =~= transfer_payload(ticker@, amount@));
    out
}

/// The script of a leaf that carries `data` of the content type `mime` for
/// the recipient.
pub fn new_inscription_script(recipient: &XOnlyPublicKey, mime: &[u8], data: &[u8]) -> (s: Script)
    requires
        mime@.len() <= 0xffff_ffff,
    ensures
        s@ == inscription_script(recipient@, mime@, data@),
{
    let mut s = Script::new();
    s.push_slice(recipient.as_slice());
    s.push(OP_CHECKSIG);
    s.push(OP_0);
    s.push(OP_IF);
    s.push_slice(ORD.as_slice());
    s.push(0x01u8);
    s.push(0x01u8);
    s.push_slice(mime);
    s.push(OP_0);
    let ghost head = s@;
    assert(head =~= push_data(recipient@) + seq![0xacu8, 0x00u8, 0x63u8] + push_data(ORD@) + seq![
        0x01u8,
        0x01u8,
    ] + push_data(mime@) + seq![0x00u8]);
    let n: usize = data.len();
    let mut i: usize = 0;
    assert(data@.subrange(0, n as int) =~= data@);
    while n - i > MAX_PUSH
        invariant
            i <= n,
            n == data@.len(),
            s@ + chunk_pushes(data@.subrange(i as int, n as int)) == head + chunk_pushes(data@),
        decreases n - i,
    {
        let ghost rest = data@.subrange(i as int, n as int);
        let ghost before = s@;
        let chunk: &[u8] = vstd::slice::slice_subrange(data, i, i + MAX_PUSH);
        s.push_slice(chunk);
        proof {
            assert(rest.subrange(0, 520) =~= chunk@);
            assert(rest.subrange(520, rest.len() as int) =~= data@.subrange(i + 520, n as int));
            let tail = chunk_pushes(data@.subrange(i + 520, n as int));
            assert(s@ + tail =~= before + (push_data(chunk@) + tail));
        }
        i += MAX_PUSH;
    }
    let ghost before = s@;
    let ghost rest = data@.subrange(i as int, n as int);
    if n - i > 0 {
        let chunk: &[u8] = vstd::slice::slice_subrange(data, i, n);
        s.push_slice(chunk);
        assert(s@ =~= before + chunk_pushes(rest));
    } else {
        assert(s@ =~= before + chunk_pushes(rest));
    }
    s.push(OP_ENDIF);
    assert(s@ =~= inscription_script(recipient@, mime@, data@));
    s
}

/// The script of the leaf that inscribes a BRC-20 transfer to the recipient.
pub fn new_transfer_script(recipient: &XOnlyPublicKey, ticker: &[u8], amount: &[u8]) -> (s: Script)
    ensures
        s@ == transfer_script(recipient@, ticker@, amount@),
{
    let payload = new_transfer_payload(ticker, amount);
    new_inscription_script(recipient, MIME_TEXT_PLAIN.as_slice(), payload.as_slice())
}

} // verus!
