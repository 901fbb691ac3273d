//! The wire format that both halves share: each message is a big-endian `u32`
//! payload length followed by that many bytes of payload, and a payload is at
//! most 4 MiB. The length is checked before anything is allocated for the
//! payload.
use vstd::prelude::*;

verus! {

#[verifier::external_type_specification]
#[verifier::external_body]
pub struct ExBincodeErrorKind(bincode::ErrorKind);

/// The bytes of the length that precedes each payload.
pub const LENGTH_PREFIX_SIZE: usize = 4;

/// The longest payload, in bytes: 4 MiB.
pub const MAXIMUM_MESSAGE_LENGTH: u32 = 4 * 1024 * 1024;

/// Why a message could not be sent or received.
#[derive(Debug)]
pub enum TransportError {
    /// The payload could not be encoded or decoded.
    Bincode(bincode::Error),
    /// The stream failed.
    IO(std::io::Error),
    /// The payload is longer than `MAXIMUM_MESSAGE_LENGTH`.
    MessageTooLarge,
}

/// The four bytes of `n`, most significant first.
pub open spec fn be_bytes(n: u32) -> Seq<u8> {
    seq![(n >> 24u32) as u8, (n >> 16u32) as u8, (n >> 8u32) as u8, n as u8]
}

/// The number that four bytes stand for, most significant first.
pub open spec fn be_value(b: Seq<u8>) -> u32
    recommends
        b.len() == 4,
{
    ((b[0] as u32) << 24u32) | ((b[1] as u32) << 16u32) | ((b[2] as u32) << 8u32) | (b[3] as u32)
}

/// A message on the wire: the length of `payload`, then `payload`.
pub open spec fn framed(payload: Seq<u8>) -> Seq<u8> {
    be_bytes(payload.len() as u32) + payload
}

/// The four bytes of `n`, most significant first, as `u32::to_be_bytes` gives
/// them.
fn u32_to_be_bytes(n: u32) -> (b: [u8; 4])
    ensures
        b@ == be_bytes(n),
{
    let b = [(n >> 24u32) as u8, (n >> 16u32) as u8, (n >> 8u32) as u8, n as u8];
    proof {
        assert(b@ =~= be_bytes(n));
    }
    b
}

/// The number that four bytes stand for, most significant first, as
/// `u32::from_be_bytes` reads them.
fn u32_from_be_bytes(b: [u8; 4]) -> (n: u32)
    ensures
        n == be_value(b@),
{
    ((b[0] as u32) << 24u32) | ((b[1] as u32) << 16u32) | ((b[2] as u32) << 8u32) | (b[3] as u32)
}

/// A buffer for one outgoing message, with room for its length at the front; the
/// payload is written after it.
pub fn new_frame() -> (frame: Vec<u8>)
    ensures
        frame@ == seq![0u8, 0u8, 0u8, 0u8],
{
    let frame: Vec<u8> = vec![0u8, 0u8, 0u8, 0u8];
    proof {
        assert(frame@ =~= seq![0u8, 0u8, 0u8, 0u8]);
    }
    frame
}

/// Writes the payload's length in front of it, in the room that `new_frame`
/// left. A payload longer than `MAXIMUM_MESSAGE_LENGTH` is refused, and the
/// buffer is left as it was.
pub fn frame_payload(frame: &mut Vec<u8>) -> (result: Result<(), TransportError>)
    requires
        old(frame)@.len() >= LENGTH_PREFIX_SIZE,
    ensures
        ({
            let payload = old(frame)@.subrange(LENGTH_PREFIX_SIZE as int, old(frame)@.len() as int);
            if payload.len() > MAXIMUM_MESSAGE_LENGTH {
                &&& result matches Err(TransportError::MessageTooLarge)
                &&& final(frame)@ == old(frame)@
            } else {
                &&& result is Ok
                &&& final(frame)@ == framed(payload)
            }
        }),
{
    let message_length = frame.len() - LENGTH_PREFIX_SIZE;
    if message_length > MAXIMUM_MESSAGE_LENGTH as usize {
        return Err(TransportError::MessageTooLarge);
    }
    let prefix = u32_to_be_bytes(message_length as u32);
    frame.set(0, prefix[0]);
    frame.set(1, prefix[1]);
    frame.set(2, prefix[2]);
    frame.set(3, prefix[3]);
    proof {
        let payload = old(frame)@.subrange(LENGTH_PREFIX_SIZE as int, old(frame)@.len() as int);
        assert(frame@ =~= framed(payload));
    }
    Ok(())
}

/// Reads the length that precedes a payload. A length over
/// `MAXIMUM_MESSAGE_LENGTH` is refused before anything is allocated for it.
pub fn decode_length_prefix(raw: [u8; 4]) -> (result: Result<usize, TransportError>)
    ensures
        be_value(raw@) > MAXIMUM_MESSAGE_LENGTH ==> result matches Err(
            TransportError::MessageTooLarge,
        ),
        be_value(raw@) <= MAXIMUM_MESSAGE_LENGTH ==> result == Ok::<usize, TransportError>(
            be_value(raw@) as usize,
        ),
{
    let message_length = u32_from_be_bytes(raw);
    if message_length > MAXIMUM_MESSAGE_LENGTH {
        return Err(TransportError::MessageTooLarge);
    }
    Ok(message_length as usize)
}

/// Four bytes read back as a number give the number they were written from.
pub proof fn be_round_trip(n: u32)
    ensures
        be_value(be_bytes(n)) == n,
{
    let b0 = (n >> 24u32) as u8;
    let b1 = (n >> 16u32) as u8;
    let b2 = (n >> 8u32) as u8;
    let b3 = n as u8;
    assert(((b0 as u32) << 24u32) | ((b1 as u32) << 16u32) | ((b2 as u32) << 8u32) | (b3 as u32)
        == n) by (bit_vector)
        requires
            b0 == (n >> 24u32) as u8,
            b1 == (n >> 16u32) as u8,
            b2 == (n >> 8u32) as u8,
            b3 == n as u8,
    ;
}

/// Both halves agree on the format: the length at the front of any message that
/// `frame_payload` accepts reads back as the payload's length, which
/// `decode_length_prefix` accepts, and the payload follows it unchanged.
pub proof fn framed_message_reads_back(payload: Seq<u8>)
    requires
        payload.len() <= MAXIMUM_MESSAGE_LENGTH,
    ensures
        be_value(framed(payload).subrange(0, LENGTH_PREFIX_SIZE as int)) == payload.len(),
        be_value(framed(payload).subrange(0, LENGTH_PREFIX_SIZE as int))
            <= MAXIMUM_MESSAGE_LENGTH,
        framed(payload).subrange(LENGTH_PREFIX_SIZE as int, framed(payload).len() as int)
            == payload,
{
    let n = payload.len() as u32;
    be_round_trip(n);
    assert(framed(payload).subrange(0, 4) =~= be_bytes(n));
    assert(framed(payload).subrange(4, framed(payload).len() as int) =~= payload);
}

} // verus!
