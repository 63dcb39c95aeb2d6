//! Command frame encoder.
//!
//! Every packet on the wire is exactly [`FRAME_LEN`] bytes: a command
//! identifier, a zero-padded payload area, and a trailing XOR checksum.

use crate::LightError;
use vstd::prelude::*;

verus! {

/// Number of bytes in every frame on the wire.
pub const FRAME_LEN: usize = 20;

/// Number of payload bytes a frame carries between identifier and checksum.
pub const PAYLOAD_AREA: usize = 18;

/// Largest payload a caller may supply; shorter payloads are zero-padded.
pub const MAX_PAYLOAD: usize = 17;

/// XOR of `acc` and every byte of `data`.
pub open spec fn xor_fold(acc: u8, data: Seq<u8>) -> u8
    decreases data.len(),
{
    if data.len() == 0 {
        acc
    } else {
        xor_fold(acc, data.drop_last()) ^ data.last()
    }
}

/// The payload area of a frame: the payload, zero-padded to [`PAYLOAD_AREA`] bytes.
pub open spec fn padded_payload(data: Seq<u8>) -> Seq<u8> {
    Seq::new(PAYLOAD_AREA as nat, |i: int| if i < data.len() { data[i] } else { 0u8 })
}

/// The frame built from identifier `id` and payload `data`: identifier,
/// padded payload area, checksum.
pub open spec fn frame_spec(id: u8, data: Seq<u8>) -> Seq<u8> {
    seq![id] + padded_payload(data) + seq![xor_fold(id, data)]
}

/// Appending zero bytes to a sequence leaves its XOR fold unchanged.
proof fn lemma_xor_fold_zero_suffix(acc: u8, s: Seq<u8>, t: Seq<u8>)
    requires
        forall|i: int| 0 <= i < t.len() ==> t[i] == 0u8,
    ensures
        xor_fold(acc, s + t) == xor_fold(acc, s),
    decreases t.len(),
{
    if t.len() == 0 {
        assert(s + t =~= s);
    } else {
        let shorter = t.drop_last();
        assert((s + t).drop_last() =~= s + shorter);
        assert((s + t).last() == 0u8);
        lemma_xor_fold_zero_suffix(acc, s, shorter);
        let x = xor_fold(acc, s);
        assert(x ^ 0u8 == x) by (bit_vector);
    }
}

/// The checksum over a payload equals the checksum over its padded payload
/// area: the padding zeros do not disturb the fold.
pub proof fn lemma_checksum_ignores_padding(id: u8, data: Seq<u8>)
    requires
        data.len() <= PAYLOAD_AREA,
    ensures
        xor_fold(id, padded_payload(data)) == xor_fold(id, data),
{
    let zeros = Seq::new((PAYLOAD_AREA - data.len()) as nat, |i: int| 0u8);
    assert(padded_payload(data) =~= data + zeros);
    lemma_xor_fold_zero_suffix(id, data, zeros);
}

/// Recomputing the XOR fold over a frame's identifier and whole payload
/// area reproduces the frame's checksum byte.
pub proof fn lemma_checksum_recompute(id: u8, data: Seq<u8>)
    requires
        data.len() <= MAX_PAYLOAD,
    ensures
        xor_fold(frame_spec(id, data)[0], frame_spec(id, data).subrange(1, 19)) == frame_spec(
            id,
            data,
        )[19],
{
    let frame = frame_spec(id, data);
    assert(frame[0] == id);
    assert(frame.subrange(1, 19) =~= padded_payload(data));
    lemma_checksum_ignores_padding(id, data);
}

/// Build the frame for identifier `id` and payload `data`: the identifier,
/// the payload zero-padded to [`PAYLOAD_AREA`] bytes, and the XOR checksum
/// of identifier and payload.
pub fn construct_message(id: u8, data: Vec<u8>) -> (frame: Vec<u8>)
    requires
        data@.len() <= MAX_PAYLOAD,
    ensures
        frame@ == frame_spec(id, data@),
        frame@.len() == FRAME_LEN,
{
    let mut xor: u8 = id;
    let mut i: usize = 0;
    while i < data.len()
        invariant
            i <= data@.len(),
            xor == xor_fold(id, data@.take(i as int)),
        decreases data@.len() - i,
    {
        proof {
            assert(data@.take(i + 1).drop_last() =~= data@.take(i as int));
            assert(data@.take(i + 1).last() == data@[i as int]);
        }
        xor = xor ^ data[i];
        i += 1;
    }
    proof {
        assert(data@.take(data@.len() as int) =~= data@);
    }

    let mut frame: Vec<u8> = Vec::new();
    frame.push(id);
    let mut j: usize = 0;
    while j < data.len()
        invariant
            j <= data@.len() <= MAX_PAYLOAD,
            frame@.len() == j + 1,
            frame@[0] == id,
            forall|k: int| 1 <= k <= j ==> #[trigger] frame@[k] == padded_payload(data@)[k - 1],
        decreases data@.len() - j,
    {
        frame.push(data[j]);
        j += 1;
    }
    while j < PAYLOAD_AREA
        invariant
            data@.len() <= j <= PAYLOAD_AREA,
            frame@.len() == j + 1,
            frame@[0] == id,
            forall|k: int| 1 <= k <= j ==> #[trigger] frame@[k] == padded_payload(data@)[k - 1],
        decreases PAYLOAD_AREA - j,
    {
        frame.push(0);
        j += 1;
    }
    proof {
        assert(frame@ =~= seq![id] + padded_payload(data@));
    }
    frame.push(xor);
    proof {
        assert(frame@ =~= frame_spec(id, data@));
    }
    frame
}

/// Identifier byte of every set-color frame.
pub const LIGHT_COMMAND_ID: u8 = 0x33;

/// Identifier byte of every keep-alive frame.
pub const KEEP_ALIVE_ID: u8 = 0xAA;

/// Payload of a set-color command: a fixed three-byte header, the three
/// channel intensities, five zero bytes, and the two-byte "all segments"
/// trailer.
pub open spec fn light_payload(r: u8, g: u8, b: u8) -> Seq<u8> {
    seq![0x05u8, 0x15u8, 0x01u8, r, g, b, 0u8, 0u8, 0u8, 0u8, 0u8, 0xFFu8, 0x0Fu8]
}

/// The full set-color frame for channel intensities `r`, `g`, `b`.
pub open spec fn light_frame(r: u8, g: u8, b: u8) -> Seq<u8> {
    frame_spec(LIGHT_COMMAND_ID, light_payload(r, g, b))
}

/// Payload of the keep-alive command.
pub open spec fn keep_alive_payload() -> Seq<u8> {
    seq![0x33u8]
}

/// The full keep-alive frame.
pub open spec fn keep_alive_frame() -> Seq<u8> {
    frame_spec(KEEP_ALIVE_ID, keep_alive_payload())
}

/// Build the set-color frame: identifier `0x33`, the channel intensities at
/// payload positions 3 through 5 (frame bytes 4 through 6), checksum last.
pub fn light_message(r: u8, g: u8, b: u8) -> (frame: Vec<u8>)
    ensures
        frame@ == light_frame(r, g, b),
        frame@.len() == FRAME_LEN,
        frame@[0] == LIGHT_COMMAND_ID,
        frame@[4] == r,
        frame@[5] == g,
        frame@[6] == b,
{
    let data: Vec<u8> = vec![0x05, 0x15, 0x01, r, g, b, 0x00, 0x00, 0x00, 0x00, 0x00, 0xFF, 0x0F];
    proof {
        assert(data@ =~= light_payload(r, g, b));
    }
    construct_message(LIGHT_COMMAND_ID, data)
}

/// Build the keep-alive frame: identifier `0xAA`, payload `[0x33]`.
pub fn keep_alive_message() -> (frame: Vec<u8>)
    ensures
        frame@ == keep_alive_frame(),
        frame@.len() == FRAME_LEN,
        frame@[0] == KEEP_ALIVE_ID,
{
    let data: Vec<u8> = vec![0x33];
    proof {
        assert(data@ =~= keep_alive_payload());
    }
    construct_message(KEEP_ALIVE_ID, data)
}

/// Checked encoder: rejects oversized payloads instead of refusing them at
/// the contract level.
pub fn encode(id: u8, data: Vec<u8>) -> (r: Result<Vec<u8>, LightError>)
    ensures
        data@.len() <= MAX_PAYLOAD ==> (r matches Ok(frame) && frame@ == frame_spec(id, data@)),
        data@.len() > MAX_PAYLOAD ==> r == Err::<Vec<u8>, LightError>(LightError::PayloadTooLarge),
{
    if data.len() <= MAX_PAYLOAD {
        Ok(construct_message(id, data))
    } else {
        Err(LightError::PayloadTooLarge)
    }
}

} // verus!
