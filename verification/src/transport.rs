//! The framing codec: one self-delimiting `[tag][len][payload]` unit on the
//! wire, decodable from a complete buffer or incrementally from a byte stream.

use crate::err_house::ErrorKind;
use crate::stream::ByteChannel;
use vstd::prelude::*;

verus! {

broadcast use vstd::seq_lib::group_seq_lib_default, vstd::seq::group_seq_axioms;

/// The tag byte of the one known frame type.
pub const SIMPLE_PACK: u8 = 0xA2;

/// The frame type named by the tag byte.
#[derive(Clone, Copy, Debug, PartialEq, Eq, Structural)]
pub enum TypePack {
    /// The known self-delimiting frame: tag, one length byte, payload.
    Simple,
    /// Any other tag byte; such a frame carries no decodable payload.
    Unknown(u8),
}

impl TypePack {
    /// The frame type a tag byte names.
    pub open spec fn spec_from_byte(value: u8) -> TypePack {
        if value == SIMPLE_PACK {
            TypePack::Simple
        } else {
            TypePack::Unknown(value)
        }
    }

    /// The tag byte of a frame type.
    pub open spec fn spec_to_byte(self) -> u8 {
        match self {
            TypePack::Simple => SIMPLE_PACK,
            TypePack::Unknown(value) => value,
        }
    }

    /// Classifies a tag byte.
    pub fn from_byte(value: u8) -> (r: TypePack)
        ensures
            r == TypePack::spec_from_byte(value),
    {
        if value == SIMPLE_PACK {
            TypePack::Simple
        } else {
            TypePack::Unknown(value)
        }
    }

    /// The tag byte this frame type is written as.
    pub fn to_byte(self) -> (r: u8)
        ensures
            r == self.spec_to_byte(),
    {
        match self {
            TypePack::Simple => SIMPLE_PACK,
            TypePack::Unknown(value) => value,
        }
    }
}

/// The bytes of a frame with the given tag: the tag, then the payload length
/// reduced to one byte, then the payload itself. A payload longer than 255
/// bytes keeps all its bytes but the length byte holds only `len % 256`:
/// the one-byte length field is a protocol ceiling, not an auto-split.
pub open spec fn frame_bytes(tag: u8, payload: Seq<u8>) -> Seq<u8> {
    seq![tag, (payload.len() % 256) as u8] + payload
}

/// Whether a buffer begins with a complete well-tagged frame.
pub open spec fn frame_complete(bytes: Seq<u8>) -> bool {
    &&& bytes.len() >= 2
    &&& bytes[0] == SIMPLE_PACK
    &&& bytes.len() >= 2 + bytes[1] as int
}

/// The payload the frame at the head of the buffer declares and carries.
pub open spec fn frame_payload(bytes: Seq<u8>) -> Seq<u8>
    recommends
        frame_complete(bytes),
{
    bytes.subrange(2, 2 + bytes[1] as int)
}

/// How decoding a buffer that holds no complete frame fails: an alien tag is
/// reported as such, any truncation as a deserialization error.
pub open spec fn frame_decode_err(bytes: Seq<u8>) -> ErrorKind {
    if bytes.len() >= 1 && bytes[0] != SIMPLE_PACK {
        ErrorKind::UnknownTypePack
    } else {
        ErrorKind::DeserializationError
    }
}

/// One frame: a tag and an opaque payload.
pub struct TranportPack {
    pub type_pack: TypePack,
    pub payload: Vec<u8>,
}

impl TranportPack {
    /// Wraps a payload under a frame type.
    pub fn new(type_pack: TypePack, payload: Vec<u8>) -> (r: TranportPack)
        ensures
            r.type_pack == type_pack,
            r.payload == payload,
    {
        TranportPack { type_pack, payload }
    }

    /// Writes the frame out as bytes. The length byte is exactly
    /// `payload.len() % 256` while every payload byte is written, so a
    /// payload longer than 255 bytes yields a frame whose declared and
    /// carried lengths differ; callers must keep payloads within one byte.
    pub fn serialize(&self) -> (r: Vec<u8>)
        ensures
            r@ == frame_bytes(self.type_pack.spec_to_byte(), self.payload@),
            r@.len() == 2 + self.payload@.len(),
    {
        let mut res: Vec<u8> = Vec::new();
        res.push(self.type_pack.to_byte());
        res.push((self.payload.len() % 256) as u8);
        crate::wire::push_all(&mut res, self.payload.as_slice());
        proof {
            assert(res@ =~= frame_bytes(self.type_pack.spec_to_byte(), self.payload@));
        }
        res
    }

    /// Decodes one frame from a buffer that holds it whole, as a datagram
    /// does. Succeeds exactly on a complete well-tagged frame and then takes
    /// exactly the declared number of payload bytes.
    pub fn deserialize(bin_pack: &[u8]) -> (r: Result<TranportPack, ErrorKind>)
        ensures
            match r {
                Ok(pack) => {
                    &&& frame_complete(bin_pack@)
                    &&& pack.type_pack == TypePack::Simple
                    &&& pack.payload@ == frame_payload(bin_pack@)
                },
                Err(e) => {
                    &&& !frame_complete(bin_pack@)
                    &&& e == frame_decode_err(bin_pack@)
                },
            },
    {
        if bin_pack.len() == 0 {
            return Err(ErrorKind::DeserializationError);
        }
        let type_pack = TypePack::from_byte(bin_pack[0]);
        match type_pack {
            TypePack::Simple => {
                if bin_pack.len() < 2 {
                    return Err(ErrorKind::DeserializationError);
                }
                let payload_len = bin_pack[1] as usize;
                if bin_pack.len() < payload_len + 2 {
                    return Err(ErrorKind::DeserializationError);
                }
                let payload = vstd::slice::slice_to_vec(
                    vstd::slice::slice_subrange(bin_pack, 2, 2 + payload_len),
                );
                Ok(TranportPack { type_pack, payload })
            },
            TypePack::Unknown(_) => Err(ErrorKind::UnknownTypePack),
        }
    }

    /// Decodes one frame from a byte stream, reading the tag, then the
    /// length, then exactly that many payload bytes. An alien tag fails with
    /// `UnknownTypePack` after consuming only the tag byte; a stream too
    /// short for its own header fails with an I/O-class error and never
    /// yields a truncated payload.
    pub fn from_reader<R: ByteChannel>(reader: &mut R) -> (r: Result<TranportPack, ErrorKind>)
        ensures
            final(reader).outgoing() == old(reader).outgoing(),
            match r {
                Ok(pack) => {
                    &&& frame_complete(old(reader).incoming())
                    &&& pack.type_pack == TypePack::Simple
                    &&& pack.payload@ == frame_payload(old(reader).incoming())
                    &&& final(reader).incoming() == old(reader).incoming().skip(
                        2 + pack.payload@.len() as int,
                    )
                },
                Err(e) => if e == ErrorKind::UnknownTypePack {
                    &&& old(reader).incoming().len() >= 1
                    &&& old(reader).incoming()[0] != SIMPLE_PACK
                    &&& final(reader).incoming() == old(reader).incoming().skip(1)
                } else {
                    e == ErrorKind::IoTimeOut || e == ErrorKind::IoError
                },
            },
            !frame_complete(old(reader).incoming()) && (old(reader).incoming().len() == 0
                || old(reader).incoming()[0] == SIMPLE_PACK) ==> (r matches Err(e) && (e
                == ErrorKind::IoTimeOut || e == ErrorKind::IoError)),
    {
        let tag_buf = match reader.read_bytes(1) {
            Ok(v) => v,
            Err(e) => {
                return Err(e);
            },
        };
        let type_pack = TypePack::from_byte(tag_buf[0]);
        match type_pack {
            TypePack::Simple => {
                let len_buf = match reader.read_bytes(1) {
                    Ok(v) => v,
                    Err(e) => {
                        return Err(e);
                    },
                };
                let payload_len = len_buf[0] as usize;
                let payload = match reader.read_bytes(payload_len) {
                    Ok(v) => v,
                    Err(e) => {
                        return Err(e);
                    },
                };
                proof {
                    let pre = old(reader).incoming();
                    assert(pre[1] == pre.skip(1).take(1)[0]);
                    assert(payload@ =~= frame_payload(pre));
                    assert(reader.incoming() =~= pre.skip(2 + payload_len as int));
                }
                Ok(TranportPack { type_pack, payload })
            },
            TypePack::Unknown(_) => {
                proof {
                    assert(old(reader).incoming()[0] == old(reader).incoming().take(1)[0]);
                }
                Err(ErrorKind::UnknownTypePack)
            },
        }
    }

    /// A borrowed view of the payload.
    pub fn get_payload(&self) -> (r: &[u8])
        ensures
            r@ == self.payload@,
    {
        self.payload.as_slice()
    }

    /// Takes the payload out of the frame.
    pub fn into_payload(self) -> (r: Vec<u8>)
        ensures
            r == self.payload,
    {
        self.payload
    }
}

/// Framing round trip: a payload of at most 255 bytes, framed as a simple
/// pack, decodes back to exactly the same payload.
pub proof fn lemma_frame_round_trip(payload: Seq<u8>)
    requires
        payload.len() <= 255,
    ensures
        frame_complete(frame_bytes(SIMPLE_PACK, payload)),
        frame_payload(frame_bytes(SIMPLE_PACK, payload)) == payload,
{
    let bytes = frame_bytes(SIMPLE_PACK, payload);
    assert(bytes[1] == payload.len());
    assert(frame_payload(bytes) =~= payload);
}

/// The length byte of a frame is always the payload length reduced modulo
/// 256, while the frame always carries every payload byte: an oversized
/// payload is never silently re-declared, its truncated length is exact.
pub proof fn lemma_frame_length_byte(tag: u8, payload: Seq<u8>)
    ensures
        frame_bytes(tag, payload).len() == 2 + payload.len(),
        frame_bytes(tag, payload)[1] == (payload.len() % 256) as u8,
        frame_bytes(tag, payload).skip(2) == payload,
{
    assert(frame_bytes(tag, payload).skip(2) =~= payload);
}

/// A buffer that declares more payload than it holds never decodes: it is
/// rejected as a deserialization error, never returned truncated.
pub proof fn lemma_short_frame_rejected(bytes: Seq<u8>)
    requires
        bytes.len() >= 2,
        bytes[0] == SIMPLE_PACK,
        bytes.len() < 2 + bytes[1] as int,
    ensures
        !frame_complete(bytes),
        frame_decode_err(bytes) == ErrorKind::DeserializationError,
{
}

} // verus!
