//! Envelope framing.
//!
//! An envelope is a payload followed by a fixed trailer: the 32 bytes of
//! the source address, then the 32 bytes of the destination address.
//! Nothing marks where the payload ends; packer and opener agree on the
//! trailer's width and order instead, and the opener reads from the end.

use crate::address::{Address, DestAddress, SourceAddress, ADDRESS_LENGTH, FILLER};
use vstd::prelude::*;
use vstd::std_specs::convert::{FromSpec, FromSpecImpl};

verus! {

/// The width of the trailer: two addresses.
pub const TRAILER_LENGTH: usize = 64;

/// A payload with its routing trailer, as one owned buffer.
#[derive(Debug)]
pub struct Envelope(Vec<u8>);

/// Why an envelope cannot be opened.
#[derive(Clone, Copy, Debug, PartialEq, Eq)]
pub enum EnvelopeError {
    /// The buffer is shorter than the trailer.
    Underflow,
}

impl View for Envelope {
    type V = Seq<u8>;

    /// The bytes of the buffer.
    closed spec fn view(&self) -> Seq<u8> {
        self.0@
    }
}

/// The bytes of the envelope that carries `payload` from `source` to
/// `destination`.
pub open spec fn packed(payload: Seq<u8>, source: Seq<u8>, destination: Seq<u8>) -> Seq<u8> {
    payload + source + destination
}

/// What opening the buffer `bytes` gives: the destination from the last 32
/// bytes, the source from the 32 bytes before them and the payload from
/// what is left; an error where the buffer is shorter than the trailer.
pub open spec fn opened(bytes: Seq<u8>) -> Result<(Seq<u8>, Seq<u8>, Seq<u8>), EnvelopeError> {
    if bytes.len() < TRAILER_LENGTH {
        Err(EnvelopeError::Underflow)
    } else {
        Ok(
            (
                bytes.subrange(bytes.len() - ADDRESS_LENGTH, bytes.len() as int),
                bytes.subrange(bytes.len() - TRAILER_LENGTH, bytes.len() - ADDRESS_LENGTH),
                bytes.subrange(0, bytes.len() - TRAILER_LENGTH),
            ),
        )
    }
}

/// What [`Envelope::open`] returned, with addresses and payload taken by
/// their bytes.
pub open spec fn open_outcome(
    outcome: Result<(DestAddress, SourceAddress, Vec<u8>), EnvelopeError>,
) -> Result<(Seq<u8>, Seq<u8>, Seq<u8>), EnvelopeError> {
    match outcome {
        Ok((destination, source, payload)) => Ok((destination@, source@, payload@)),
        Err(error) => Err(error),
    }
}

/// Opening what was packed gives back destination, source and payload,
/// byte for byte.
pub proof fn lemma_envelope_round_trip(
    payload: Seq<u8>,
    source: Seq<u8>,
    destination: Seq<u8>,
)
    requires
        source.len() == ADDRESS_LENGTH,
        destination.len() == ADDRESS_LENGTH,
    ensures
        opened(packed(payload, source, destination)) == Ok::<
            (Seq<u8>, Seq<u8>, Seq<u8>),
            EnvelopeError,
        >((destination, source, payload)),
{
    let bytes = packed(payload, source, destination);
    let len = bytes.len() as int;
    assert(bytes.subrange(len - ADDRESS_LENGTH, len) =~= destination);
    assert(bytes.subrange(len - TRAILER_LENGTH, len - ADDRESS_LENGTH) =~= source);
    assert(bytes.subrange(0, len - TRAILER_LENGTH) =~= payload);
}

/// A buffer is refused exactly when it is shorter than the trailer.
pub proof fn lemma_underflow_is_refused(bytes: Seq<u8>)
    ensures
        bytes.len() < TRAILER_LENGTH <==> opened(bytes) == Err::<
            (Seq<u8>, Seq<u8>, Seq<u8>),
            EnvelopeError,
        >(EnvelopeError::Underflow),
        bytes.len() >= TRAILER_LENGTH <==> opened(bytes) is Ok,
{
}

/// Wrapping a buffer keeps its bytes.
pub proof fn lemma_envelope_from(bytes: Vec<u8>)
    ensures
        <Envelope as FromSpec<Vec<u8>>>::from_spec(bytes)@ == bytes@,
{
}

impl From<Vec<u8>> for Envelope {
    fn from(bytes: Vec<u8>) -> (envelope: Self) {
        Self(bytes)
    }
}

impl FromSpecImpl<Vec<u8>> for Envelope {
    open spec fn obeys_from_spec() -> bool {
        true
    }

    closed spec fn from_spec(bytes: Vec<u8>) -> Self {
        Envelope(bytes)
    }
}

/// Copies the 32 bytes of `bytes` that start at `start` into an address.
fn address_at(bytes: &Vec<u8>, start: usize) -> (address: Address)
    requires
        start + ADDRESS_LENGTH <= bytes.len(),
    ensures
        address@ == bytes@.subrange(start as int, start + ADDRESS_LENGTH),
{
    let mut raw = [FILLER;ADDRESS_LENGTH];
    let mut i: usize = 0;
    while i < ADDRESS_LENGTH
        invariant
            i <= ADDRESS_LENGTH,
            start + ADDRESS_LENGTH <= bytes.len(),
            forall|k: int| 0 <= k < i ==> raw@[k] == bytes@[start + k],
        decreases ADDRESS_LENGTH - i,
    {
        raw[i] = bytes[start + i];
        i += 1;
    }
    assert(raw@ =~= bytes@.subrange(start as int, start + ADDRESS_LENGTH));
    Address::from_bytes(raw)
}

impl Envelope {
    /// Appends the bytes of `source`, then those of `destination`, to
    /// `payload`.
    pub fn pack(payload: Vec<u8>, source: &SourceAddress, destination: &DestAddress) -> (envelope:
        Envelope)
        ensures
            envelope@ == packed(payload@, source@, destination@),
    {
        let mut bytes = payload;
        bytes.extend_from_slice(source.as_bytes().as_slice());
        bytes.extend_from_slice(destination.as_bytes().as_slice());
        assert(bytes@ =~= packed(payload@, source@, destination@));
        Envelope(bytes)
    }

    /// Takes the envelope apart: the last 32 bytes are the destination,
    /// the 32 bytes before them the source, the rest the payload. Fails
    /// with [`EnvelopeError::Underflow`] exactly when the buffer is
    /// shorter than 64 bytes.
    pub fn open(self) -> (outcome: Result<(DestAddress, SourceAddress, Vec<u8>), EnvelopeError>)
        ensures
            open_outcome(outcome) == opened(self@),
            outcome is Err <==> self@.len() < TRAILER_LENGTH,
    {
        let mut bytes = self.0;
        let len = bytes.len();
        if len < TRAILER_LENGTH {
            return Err(EnvelopeError::Underflow);
        }
        let destination = address_at(&bytes, len - ADDRESS_LENGTH);
        let source = address_at(&bytes, len - TRAILER_LENGTH);
        bytes.truncate(len - TRAILER_LENGTH);
        Ok((destination, source, bytes))
    }

    /// Gives the buffer back, as it goes over the wire.
    pub fn into_bytes(self) -> (bytes: Vec<u8>)
        ensures
            bytes@ == self@,
    {
        self.0
    }
}

} // verus!
