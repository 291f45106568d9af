//! Bit-exact layout of the 4-byte control words exchanged with the co-processor.
use vstd::prelude::*;

verus! {

/// Opcode that announces an outbound message.
pub const SEND_OPCODE: u8 = 0x02;

/// Opcode that requests a pending message.
pub const RECEIVE_OPCODE: u8 = 0x01;

/// Tag byte of the send-length header.
pub const SEND_TAG: u8 = 0x41;

/// Tag byte that every well-formed reply header carries.
pub const REPLY_TAG: u8 = 0x42;

/// Longest outbound payload: the length field is 7 bits wide.
pub const MAX_SEND_LEN: usize = 127;

pub open spec fn send_header_spec() -> Seq<u8> {
    seq![SEND_OPCODE, 0u8, 0u8, 0u8]
}

pub open spec fn length_header_spec(len: nat) -> Seq<u8> {
    seq![len as u8, 0u8, 0u8, SEND_TAG]
}

pub open spec fn receive_header_spec() -> Seq<u8> {
    seq![RECEIVE_OPCODE, 0u8, 0u8, 0u8]
}

/// A reply header is well formed when its last byte is the reply tag.
pub open spec fn reply_well_formed(h: Seq<u8>) -> bool {
    h.len() == 4 && h[3] == REPLY_TAG
}

/// Length announced by a reply header: the low 7 bits of byte 0 plus byte 1
/// shifted left by 7.
pub open spec fn reply_length(h: Seq<u8>) -> nat
    recommends
        h.len() == 4,
{
    (h[0] % 128) as nat + (h[1] as nat) * 128
}

/// The header that announces an outbound message.
pub fn send_header() -> (r: Vec<u8>)
    ensures
        r@ == send_header_spec(),
{
    let r = vec![SEND_OPCODE, 0u8, 0u8, 0u8];
    assert(r@ =~= send_header_spec());
    r
}

/// The header that gives the length of an outbound payload.
pub fn length_header(len: usize) -> (r: Vec<u8>)
    requires
        len <= MAX_SEND_LEN,
    ensures
        r@ == length_header_spec(len as nat),
{
    let r = vec![len as u8, 0u8, 0u8, SEND_TAG];
    assert(r@ =~= length_header_spec(len as nat));
    r
}

/// The header that requests a pending message.
pub fn receive_header() -> (r: Vec<u8>)
    ensures
        r@ == receive_header_spec(),
{
    let r = vec![RECEIVE_OPCODE, 0u8, 0u8, 0u8];
    assert(r@ =~= receive_header_spec());
    r
}

/// Decodes a reply header: the announced length, or `None` when the tag is wrong.
pub fn decode_reply(h: &[u8]) -> (r: Option<usize>)
    requires
        h@.len() == 4,
    ensures
        r.is_none() <==> !reply_well_formed(h@),
        r matches Some(n) ==> n as nat == reply_length(h@),
        r matches Some(n) ==> n < 32768,
{
    if h[3] != REPLY_TAG {
        None
    } else {
        Some((h[0] % 128) as usize + (h[1] as usize) * 128)
    }
}

/// A length header written by the driver, sent back with the reply tag in
/// place of the send tag, announces the same length.
pub proof fn lemma_echoed_length(len: nat)
    requires
        len <= MAX_SEND_LEN,
    ensures
        reply_well_formed(length_header_spec(len).update(3, REPLY_TAG)),
        reply_length(length_header_spec(len).update(3, REPLY_TAG)) == len,
{
}

} // verus!
