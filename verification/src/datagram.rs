//! The datagram decoder: wire-format model, the `UdpDatagram` type, and the
//! validating decode function.

use vstd::prelude::*;

verus! {

/// The number of bytes in the fixed header: two bytes each for the source
/// identifier, the destination identifier, the declared length, and the
/// checksum field.
pub const HEADER_SIZE: usize = 8;

/// The 16-bit value that two bytes encode in big-endian (network) order.
pub open spec fn be16(hi: u8, lo: u8) -> u16 {
    (hi * 256 + lo) as u16
}

/// Reads a big-endian 16-bit value from two bytes.
pub fn read_be16(hi: u8, lo: u8) -> (r: u16)
    ensures
        r == be16(hi, lo),
{
    (hi as u16) * 256 + (lo as u16)
}

/// A port-like endpoint identifier carried in the header.
#[derive(Debug, Clone, Copy, PartialEq, Eq, Structural)]
pub struct Port(pub u16);

/// Why a byte buffer could not be decoded as a datagram.
#[derive(Debug, Clone, Copy, PartialEq, Eq, Structural)]
pub enum DecodeError {
    /// The buffer is shorter than the fixed header, so no header can be read.
    TooShort,
    /// The header's declared length is below the header size or beyond the
    /// actual buffer; both values are carried for diagnostics.
    InvalidLength { declared: u16, actual: usize },
}

/// A decoded datagram: the four header fields and an owned copy of the
/// payload bytes.
#[derive(Debug)]
pub struct UdpDatagram {
    pub source: Port,
    pub destination: Port,
    pub length: u16,
    pub checksum: u16,
    pub payload: Vec<u8>,
}

/// The mathematical content of a decoded datagram: the header fields as
/// 16-bit values and the payload as a byte sequence.
pub struct DatagramView {
    pub source: u16,
    pub destination: u16,
    pub length: u16,
    pub checksum: u16,
    pub payload: Seq<u8>,
}

impl View for UdpDatagram {
    type V = DatagramView;

    open spec fn view(&self) -> DatagramView {
        DatagramView {
            source: self.source.0,
            destination: self.destination.0,
            length: self.length,
            checksum: self.checksum,
            payload: self.payload@,
        }
    }
}

/// What decoding a byte sequence yields: the unique datagram the wire format
/// assigns to it, or the error that rejects it.
///
/// A buffer shorter than the header is `TooShort`. Otherwise the four header
/// fields are the big-endian 16-bit values at offsets 0, 2, 4 and 6; a
/// declared length below the header size or beyond the buffer is
/// `InvalidLength`; and otherwise the payload is the bytes from the end of
/// the header up to the declared length.
pub open spec fn decode_spec(bytes: Seq<u8>) -> Result<DatagramView, DecodeError> {
    if bytes.len() < HEADER_SIZE {
        Err(DecodeError::TooShort)
    } else {
        let declared = be16(bytes[4], bytes[5]);
        if declared < HEADER_SIZE || declared > bytes.len() {
            Err(DecodeError::InvalidLength { declared, actual: bytes.len() as usize })
        } else {
            Ok(
                DatagramView {
                    source: be16(bytes[0], bytes[1]),
                    destination: be16(bytes[2], bytes[3]),
                    length: declared,
                    checksum: be16(bytes[6], bytes[7]),
                    payload: bytes.subrange(HEADER_SIZE as int, declared as int),
                },
            )
        }
    }
}

/// The more significant byte of a 16-bit value in big-endian order.
pub open spec fn be16_hi(v: u16) -> u8 {
    (v / 256) as u8
}

/// The less significant byte of a 16-bit value in big-endian order.
pub open spec fn be16_lo(v: u16) -> u8 {
    (v % 256) as u8
}

/// The byte sequence that encodes the given header fields and payload: the
/// 8-byte big-endian header, with the declared length set to the header size
/// plus the payload length, followed by the payload bytes.
pub open spec fn encode_spec(
    source: u16,
    destination: u16,
    checksum: u16,
    payload: Seq<u8>,
) -> Seq<u8>
    recommends
        HEADER_SIZE + payload.len() <= u16::MAX,
{
    let length = (HEADER_SIZE + payload.len()) as u16;
    seq![
        be16_hi(source),
        be16_lo(source),
        be16_hi(destination),
        be16_lo(destination),
        be16_hi(length),
        be16_lo(length),
        be16_hi(checksum),
        be16_lo(checksum),
    ] + payload
}

/// Splitting a 16-bit value into its big-endian bytes and reading them back
/// recovers the value.
pub proof fn lemma_be16_roundtrip(v: u16)
    ensures
        be16(be16_hi(v), be16_lo(v)) == v,
{
    assert(v / 256 < 256);
    assert((v / 256) * 256 + v % 256 == v) by (nonlinear_arith);
}

/// Size floor: every buffer shorter than the header decodes to `TooShort`.
pub proof fn lemma_size_floor(bytes: Seq<u8>)
    requires
        bytes.len() < HEADER_SIZE,
    ensures
        decode_spec(bytes) == Err::<DatagramView, DecodeError>(DecodeError::TooShort),
{
}

/// Length consistency: every buffer at least as long as the header whose
/// declared-length field is below the header size or beyond the buffer
/// decodes to `InvalidLength` carrying both lengths, never to a datagram.
pub proof fn lemma_length_consistency(bytes: Seq<u8>)
    requires
        bytes.len() >= HEADER_SIZE,
        be16(bytes[4], bytes[5]) < HEADER_SIZE || be16(bytes[4], bytes[5]) > bytes.len(),
    ensures
        decode_spec(bytes) == Err::<DatagramView, DecodeError>(
            DecodeError::InvalidLength {
                declared: be16(bytes[4], bytes[5]),
                actual: bytes.len() as usize,
            },
        ),
{
}

/// Round trip: a buffer built by encoding chosen fields and payload, with
/// any trailing bytes after the declared length, decodes to exactly those
/// field values and exactly that payload.
pub proof fn lemma_round_trip(
    source: u16,
    destination: u16,
    checksum: u16,
    payload: Seq<u8>,
    extra: Seq<u8>,
)
    requires
        HEADER_SIZE + payload.len() <= u16::MAX,
    ensures
        decode_spec(encode_spec(source, destination, checksum, payload) + extra)
            == Ok::<DatagramView, DecodeError>(
            DatagramView {
                source,
                destination,
                length: (HEADER_SIZE + payload.len()) as u16,
                checksum,
                payload,
            },
        ),
{
    let length = (HEADER_SIZE + payload.len()) as u16;
    let buf = encode_spec(source, destination, checksum, payload) + extra;
    lemma_be16_roundtrip(source);
    lemma_be16_roundtrip(destination);
    lemma_be16_roundtrip(length);
    lemma_be16_roundtrip(checksum);
    assert(buf.subrange(HEADER_SIZE as int, length as int) =~= payload);
}

impl UdpDatagram {
    /// Decodes an untrusted byte buffer into a validated datagram, or
    /// reports why it cannot be one. The declared length is range-checked
    /// against the actual buffer before it is used as a slicing bound, so
    /// decoding never faults on any input.
    pub fn from_bytes(bytes: &[u8]) -> (r: Result<UdpDatagram, DecodeError>)
        ensures
            match r {
                Ok(d) => decode_spec(bytes@) == Ok::<DatagramView, DecodeError>(d@),
                Err(e) => decode_spec(bytes@) == Err::<DatagramView, DecodeError>(e),
            },
    {
        if bytes.len() < HEADER_SIZE {
            return Err(DecodeError::TooShort);
        }
        let source = read_be16(bytes[0], bytes[1]);
        let destination = read_be16(bytes[2], bytes[3]);
        let declared = read_be16(bytes[4], bytes[5]);
        let checksum = read_be16(bytes[6], bytes[7]);
        if (declared as usize) < HEADER_SIZE || (declared as usize) > bytes.len() {
            return Err(DecodeError::InvalidLength { declared, actual: bytes.len() });
        }
        let mut payload: Vec<u8> = Vec::new();
        let mut i: usize = HEADER_SIZE;
        while i < declared as usize
            invariant
                HEADER_SIZE <= i <= declared as usize,
                declared as usize <= bytes@.len(),
                payload@ == bytes@.subrange(HEADER_SIZE as int, i as int),
            decreases declared as usize - i,
        {
            let b = bytes[i];
            payload.push(b);
            proof {
                assert(payload@ =~= bytes@.subrange(HEADER_SIZE as int, i + 1 as int));
            }
            i = i + 1;
        }
        Ok(
            UdpDatagram {
                source: Port(source),
                destination: Port(destination),
                length: declared,
                checksum,
                payload,
            },
        )
    }

    /// Renders the payload as text for display, substituting the replacement
    /// character for byte sequences that are not valid text. Whether the
    /// payload is valid text never affects whether decoding succeeded.
    pub fn as_text(&self) -> (r: String)
        ensures
            r@ == crate::text::lossy_text_of(self.payload@),
            crate::text::all_ascii(self.payload@) ==> r@ == crate::text::ascii_chars_of(
                self.payload@,
            ),
    {
        crate::text::as_text(self.payload.as_slice())
    }
}

} // verus!
