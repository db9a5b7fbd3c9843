//! Fixed-width mailbox addresses.
//!
//! An address is 32 bytes: the connection string `<scheme>://<token>`,
//! padded on the right with the filler byte. The scheme is `inproc` for a
//! mailbox inside the process and `tcp` for a networked one, and the first
//! three bytes tell the two apart. The same 32 bytes serve as the string a
//! transport binds or connects to (the content before the first filler
//! byte) and as routing metadata at the end of an envelope.

use vstd::prelude::*;
use vstd::slice::slice_subrange;
use vstd::string::StringSliceAdditionalSpecFns;
use vstd::utf8::{
    decode_utf8, encode_utf8_decode_utf8, is_leading_byte_width_1, partial_valid_utf8,
    partial_valid_utf8_extend_ascii_block, valid_utf8, valid_utf8_concat,
};

verus! {

/// The width of an address in bytes.
pub const ADDRESS_LENGTH: usize = 32;

/// The byte that pads an address to its full width. A transport refuses a
/// connection string that holds it, so it never occurs in the content.
pub const FILLER: u8 = 0;

/// The number of letters in the token of a generated local address: what
/// is left of the width behind `inproc://`.
pub const LOCAL_TOKEN_LENGTH: usize = 23;

/// The two transports an address can name.
#[derive(Clone, Copy, Debug, PartialEq, Eq)]
pub enum AddressType {
    /// A mailbox inside this process (`inproc`).
    Local,
    /// A networked mailbox (`tcp`).
    Remote,
}

/// Why an address cannot be made or read.
#[derive(Clone, Copy, Debug, PartialEq, Eq)]
pub enum AddressError {
    /// The first three bytes name neither scheme.
    UnknownScheme,
    /// The bytes asked for are not valid UTF-8.
    InvalidText,
    /// Scheme and token together are wider than an address.
    TokenTooLong,
    /// The token holds the filler byte.
    FillerInToken,
}

/// A mailbox address: 32 bytes, copied freely.
#[derive(Clone, Copy, Debug, PartialEq, Eq)]
pub struct Address {
    conn_string: [u8; ADDRESS_LENGTH],
}

/// The address a message is sent to.
pub type DestAddress = Address;

/// The address a message comes from.
pub type SourceAddress = Address;

impl View for Address {
    type V = Seq<u8>;

    /// The 32 bytes of the address.
    closed spec fn view(&self) -> Seq<u8> {
        self.conn_string@
    }
}

/// `inproc://` in ASCII.
pub open spec fn local_prefix() -> Seq<u8> {
    seq![0x69u8, 0x6e, 0x70, 0x72, 0x6f, 0x63, 0x3a, 0x2f, 0x2f]
}

/// `tcp://` in ASCII.
pub open spec fn remote_prefix() -> Seq<u8> {
    seq![0x74u8, 0x63, 0x70, 0x3a, 0x2f, 0x2f]
}

/// The bytes an address of the given kind starts with.
pub open spec fn scheme_prefix(address_type: AddressType) -> Seq<u8> {
    match address_type {
        AddressType::Local => local_prefix(),
        AddressType::Remote => remote_prefix(),
    }
}

/// The scheme that the first three bytes name: `inp` a local address, `tcp`
/// a remote one, anything else none.
pub open spec fn scheme_of(bytes: Seq<u8>) -> Option<AddressType> {
    if bytes.len() >= 3 && bytes[0] == 0x69 && bytes[1] == 0x6e && bytes[2] == 0x70 {
        Some(AddressType::Local)
    } else if bytes.len() >= 3 && bytes[0] == 0x74 && bytes[1] == 0x63 && bytes[2] == 0x70 {
        Some(AddressType::Remote)
    } else {
        None
    }
}

/// Whether the content of `bytes` ends at `end`: no filler byte before it,
/// and the first filler byte, if there is one, at it.
pub open spec fn ends_content(bytes: Seq<u8>, end: int) -> bool {
    &&& 0 <= end <= bytes.len()
    &&& forall|i: int| 0 <= i < end ==> bytes[i] != FILLER
    &&& end < bytes.len() ==> bytes[end] == FILLER
}

/// The length of the content of `bytes`: the position of the first filler
/// byte, or the whole length where there is none.
pub open spec fn content_len(bytes: Seq<u8>) -> int {
    choose|end: int| ends_content(bytes, end)
}

/// The content of `bytes`: what stands before the first filler byte.
pub open spec fn content(bytes: Seq<u8>) -> Seq<u8> {
    bytes.subrange(0, content_len(bytes))
}

/// `text` widened to an address with filler bytes on the right.
pub open spec fn padded(text: Seq<u8>) -> Seq<u8> {
    Seq::new(ADDRESS_LENGTH as nat, |i: int| if i < text.len() { text[i] } else { FILLER })
}

/// The bytes of the address `<scheme>://<token>`.
pub open spec fn address_bytes(address_type: AddressType, token: Seq<u8>) -> Seq<u8> {
    padded(scheme_prefix(address_type) + token)
}

/// Whether `token` can be written behind the scheme of the given kind: it
/// fits and holds no filler byte.
pub open spec fn fits(address_type: AddressType, token: Seq<u8>) -> bool {
    &&& scheme_prefix(address_type).len() + token.len() <= ADDRESS_LENGTH
    &&& forall|i: int| 0 <= i < token.len() ==> token[i] != FILLER
}

/// Whether `token` can stand in an address of the given kind: it is text,
/// fits behind the scheme and holds no filler byte.
pub open spec fn valid_token(address_type: AddressType, token: Seq<u8>) -> bool {
    valid_utf8(token) && fits(address_type, token)
}

/// What [`Address::with_token`] answers, by the bytes of the address.
pub open spec fn composed(address_type: AddressType, token: Seq<u8>) -> Result<
    Seq<u8>,
    AddressError,
> {
    if scheme_prefix(address_type).len() + token.len() > ADDRESS_LENGTH {
        Err(AddressError::TokenTooLong)
    } else if exists|i: int| 0 <= i < token.len() && token[i] == FILLER {
        Err(AddressError::FillerInToken)
    } else {
        Ok(address_bytes(address_type, token))
    }
}

/// What [`truncate_byte_array_string`] answers, by the bytes of the text:
/// the content where it is valid UTF-8.
pub open spec fn connect_string(bytes: Seq<u8>) -> Result<Seq<u8>, AddressError> {
    if valid_utf8(content(bytes)) {
        Ok(content(bytes))
    } else {
        Err(AddressError::InvalidText)
    }
}

/// The lower-case letter a random draw stands for.
pub open spec fn letter_of(draw: u64) -> u8 {
    (0x61 + draw % 26) as u8
}

/// The token a sequence of random draws stands for: one letter a draw.
pub open spec fn local_token(draws: Seq<u64>) -> Seq<u8> {
    Seq::new(draws.len(), |i: int| letter_of(draws[i]))
}

/// The port a random draw stands for, from 5000 to 9999.
pub open spec fn port_of(draw: u64) -> int {
    5000 + draw % 5000
}

/// `127.0.0.1:` in ASCII.
pub open spec fn loopback_host() -> Seq<u8> {
    seq![0x31u8, 0x32, 0x37, 0x2e, 0x30, 0x2e, 0x30, 0x2e, 0x31, 0x3a]
}

/// The four decimal digits of a port from 1000 to 9999, in ASCII.
pub open spec fn port_digits(port: int) -> Seq<u8> {
    seq![
        (0x30 + port / 1000) as u8,
        (0x30 + port / 100 % 10) as u8,
        (0x30 + port / 10 % 10) as u8,
        (0x30 + port % 10) as u8,
    ]
}

/// The token `127.0.0.1:<port>` of a remote address.
pub open spec fn remote_token(port: int) -> Seq<u8> {
    loopback_host() + port_digits(port)
}

/// Whether `token` is one that [`Address::new`] generates for the kind:
/// 23 letters for a local address, the loopback host and a port from 5000
/// to 9999 for a remote one.
pub open spec fn generated_token(address_type: AddressType, token: Seq<u8>) -> bool {
    match address_type {
        AddressType::Local => exists|draws: Seq<u64>|
            draws.len() == LOCAL_TOKEN_LENGTH && token == #[trigger] local_token(draws),
        AddressType::Remote => exists|draw: u64| token == remote_token(#[trigger] port_of(draw)),
    }
}

/// What a fallible constructor returned, with the address taken by its
/// bytes.
pub open spec fn address_outcome(outcome: Result<Address, AddressError>) -> Result<
    Seq<u8>,
    AddressError,
> {
    match outcome {
        Ok(address) => Ok(address@),
        Err(error) => Err(error),
    }
}

/// What reading text out of bytes returned, with the text taken by its
/// bytes.
pub open spec fn text_outcome(outcome: Result<&str, AddressError>) -> Result<
    Seq<u8>,
    AddressError,
> {
    match outcome {
        Ok(text) => Ok(text.spec_bytes()),
        Err(error) => Err(error),
    }
}

/// Every address is [`ADDRESS_LENGTH`] bytes wide.
pub proof fn lemma_address_width(address: Address)
    ensures
        address@.len() == ADDRESS_LENGTH,
{
}

/// Every byte sequence has an end of content.
pub proof fn lemma_content_ends(bytes: Seq<u8>)
    ensures
        ends_content(bytes, content_len(bytes)),
    decreases bytes.len(),
{
    if bytes.len() == 0 || bytes[0] == FILLER {
        assert(ends_content(bytes, 0));
    } else {
        let rest = bytes.drop_first();
        lemma_content_ends(rest);
        let end = content_len(rest) + 1;
        assert forall|i: int| 0 <= i < end implies bytes[i] != FILLER by {
            if i > 0 {
                assert(bytes[i] == rest[i - 1]);
            }
        }
        assert(end < bytes.len() ==> bytes[end] == rest[end - 1]);
        assert(ends_content(bytes, end));
    }
}

/// The end of content is unique.
pub proof fn lemma_content_len_is(bytes: Seq<u8>, end: int)
    requires
        ends_content(bytes, end),
    ensures
        content_len(bytes) == end,
{
    let other = content_len(bytes);
    assert(ends_content(bytes, other));
    if other < end {
        assert(bytes[other] != FILLER);
    } else if end < other {
        assert(bytes[end] != FILLER);
    }
}

/// The content of padded text is the text, where the text fits and holds
/// no filler byte.
pub proof fn lemma_content_of_padded(text: Seq<u8>)
    requires
        text.len() <= ADDRESS_LENGTH,
        forall|i: int| 0 <= i < text.len() ==> text[i] != FILLER,
    ensures
        content(padded(text)) == text,
{
    lemma_content_len_is(padded(text), text.len() as int);
    assert(padded(text).subrange(0, text.len() as int) =~= text);
}

/// Bytes below 0x80 are valid UTF-8.
pub proof fn lemma_ascii_is_text(bytes: Seq<u8>)
    requires
        forall|i: int| 0 <= i < bytes.len() ==> bytes[i] < 0x80,
    ensures
        valid_utf8(bytes),
{
    assert(bytes.subrange(0, 0) =~= Seq::<u8>::empty());
    assert(partial_valid_utf8(bytes, 0));
    assert forall|i: int| 0 <= i < bytes.len() implies #[trigger] is_leading_byte_width_1(
        bytes[i],
    ) by {}
    partial_valid_utf8_extend_ascii_block(bytes, 0, bytes.len() as int);
    assert(bytes.subrange(0, bytes.len() as int) =~= bytes);
}

/// An address made of a scheme and a valid token names that scheme, and
/// the string it connects by is scheme and token: text without a filler
/// byte.
pub proof fn lemma_address_round_trip(address_type: AddressType, token: Seq<u8>)
    requires
        valid_token(address_type, token),
    ensures
        address_bytes(address_type, token).len() == ADDRESS_LENGTH,
        scheme_of(address_bytes(address_type, token)) == Some(address_type),
        connect_string(address_bytes(address_type, token)) == Ok::<Seq<u8>, AddressError>(
            scheme_prefix(address_type) + token,
        ),
        forall|i: int|
            0 <= i < (scheme_prefix(address_type) + token).len() ==> (scheme_prefix(address_type)
                + token)[i] != FILLER,
{
    let prefix = scheme_prefix(address_type);
    lemma_content_of_padded(prefix + token);
    lemma_ascii_is_text(prefix);
    valid_utf8_concat(prefix, token);
}

/// Every token that [`Address::new`] generates is valid.
pub proof fn lemma_generated_token_is_valid(address_type: AddressType, token: Seq<u8>)
    requires
        generated_token(address_type, token),
    ensures
        valid_token(address_type, token),
{
    lemma_ascii_is_text(token);
}

/// The string a transport connects by never holds the filler byte.
pub proof fn lemma_connect_string_has_no_filler(bytes: Seq<u8>)
    ensures
        forall|i: int| 0 <= i < content(bytes).len() ==> content(bytes)[i] != FILLER,
{
    lemma_content_ends(bytes);
}

/// The error of `core::str::from_utf8`, carried through unread.
#[verifier::external_type_specification]
#[verifier::external_body]
pub struct ExUtf8Error(core::str::Utf8Error);

/// `core::str::from_utf8` succeeds exactly on valid UTF-8, and the text it
/// gives has the bytes it was given.
pub assume_specification<'a>[ core::str::from_utf8 ](bytes: &'a [u8]) -> (outcome: Result<
    &'a str,
    core::str::Utf8Error,
>)
    ensures
        outcome is Ok <==> valid_utf8(bytes@),
        outcome matches Ok(text) ==> text.spec_bytes() == bytes@,
;

/// Draws a random `u64` with `rand::random`. Trusted; nothing is claimed
/// of the number drawn.
#[verifier::external_body]
fn random_u64() -> (draw: u64) {
    rand::random::<u64>()
}

/// The prefix of a kind, as bytes to copy.
fn scheme_prefix_bytes(address_type: AddressType) -> (prefix: Vec<u8>)
    ensures
        prefix@ == scheme_prefix(address_type),
{
    let prefix = match address_type {
        AddressType::Local => vec![0x69u8, 0x6e, 0x70, 0x72, 0x6f, 0x63, 0x3a, 0x2f, 0x2f],
        AddressType::Remote => vec![0x74u8, 0x63, 0x70, 0x3a, 0x2f, 0x2f],
    };
    assert(prefix@ =~= scheme_prefix(address_type));
    prefix
}

/// The token of a local address for the given random draws: one
/// lower-case letter a draw, in order.
pub fn local_token_for(draws: &[u64]) -> (token: Vec<u8>)
    ensures
        token@ == local_token(draws@),
{
    let mut token: Vec<u8> = Vec::new();
    let mut i: usize = 0;
    while i < draws.len()
        invariant
            i <= draws.len(),
            token.len() == i,
            forall|k: int| 0 <= k < i ==> token[k] == letter_of(draws[k]),
        decreases draws.len() - i,
    {
        let letter: u8 = 0x61 + (draws[i] % 26) as u8;
        token.push(letter);
        i += 1;
    }
    assert(token@ =~= local_token(draws@));
    token
}

/// The token of a remote address for the given random draw: the loopback
/// host and the port 5000 + `draw` mod 5000 in decimal.
pub fn remote_token_for(draw: u64) -> (token: Vec<u8>)
    ensures
        token@ == remote_token(port_of(draw)),
{
    let port: u64 = 5000 + draw % 5000;
    let mut token: Vec<u8> = vec![0x31u8, 0x32, 0x37, 0x2e, 0x30, 0x2e, 0x30, 0x2e, 0x31, 0x3a];
    token.push(0x30 + (port / 1000) as u8);
    token.push(0x30 + (port / 100 % 10) as u8);
    token.push(0x30 + (port / 10 % 10) as u8);
    token.push(0x30 + (port % 10) as u8);
    assert(token@ =~= remote_token(port_of(draw)));
    token
}

/// Cuts `bytes` before the first filler byte and reads what is left as
/// text: the string a transport binds or connects to. Fails with
/// [`AddressError::InvalidText`] when the content is not valid UTF-8.
pub fn truncate_byte_array_string(bytes: &[u8]) -> (outcome: Result<&str, AddressError>)
    ensures
        text_outcome(outcome) == connect_string(bytes@),
        outcome matches Ok(text) ==> text@ == decode_utf8(content(bytes@)),
{
    let mut end: usize = 0;
    while end < bytes.len() && bytes[end] != FILLER
        invariant
            end <= bytes.len(),
            forall|i: int| 0 <= i < end ==> bytes@[i] != FILLER,
        decreases bytes.len() - end,
    {
        end += 1;
    }
    proof {
        lemma_content_len_is(bytes@, end as int);
    }
    match core::str::from_utf8(slice_subrange(bytes, 0, end)) {
        Ok(text) => {
            proof {
                encode_utf8_decode_utf8(text@);
            }
            Ok(text)
        },
        Err(_) => Err(AddressError::InvalidText),
    }
}

impl Address {
    /// Writes scheme and token into a fresh address.
    fn compose(address_type: AddressType, token: &[u8]) -> (address: Address)
        requires
            fits(address_type, token@),
        ensures
            address@ == address_bytes(address_type, token@),
    {
        let prefix = scheme_prefix_bytes(address_type);
        let ghost text = scheme_prefix(address_type) + token@;
        let mut conn_string = [FILLER;ADDRESS_LENGTH];
        let mut i: usize = 0;
        while i < prefix.len()
            invariant
                i <= prefix.len() <= ADDRESS_LENGTH,
                prefix@ == scheme_prefix(address_type),
                text == scheme_prefix(address_type) + token@,
                forall|k: int| 0 <= k < i ==> conn_string@[k] == text[k],
                forall|k: int| i <= k < ADDRESS_LENGTH ==> conn_string@[k] == FILLER,
            decreases prefix.len() - i,
        {
            conn_string[i] = prefix[i];
            i += 1;
        }
        let mut j: usize = 0;
        while j < token.len()
            invariant
                j <= token.len(),
                i == prefix.len(),
                i + token.len() <= ADDRESS_LENGTH,
                prefix@ == scheme_prefix(address_type),
                text == scheme_prefix(address_type) + token@,
                forall|k: int| 0 <= k < i + j ==> conn_string@[k] == text[k],
                forall|k: int| i + j <= k < ADDRESS_LENGTH ==> conn_string@[k] == FILLER,
            decreases token.len() - j,
        {
            conn_string[i + j] = token[j];
            j += 1;
        }
        assert(conn_string@ =~= padded(text));
        Address { conn_string }
    }

    /// Generates a fresh address of the requested kind. A local address is
    /// `inproc://` and 23 random lower-case letters; a remote one is
    /// `tcp://127.0.0.1:` and a random port from 5000 to 9999.
    pub fn new(address_type: AddressType) -> (address: Address)
        ensures
            exists|token: Seq<u8>|
                #[trigger] generated_token(address_type, token) && address@ == address_bytes(
                    address_type,
                    token,
                ),
            scheme_of(address@) == Some(address_type),
            connect_string(address@) is Ok,
    {
        let token = match address_type {
            AddressType::Local => {
                let mut draws: Vec<u64> = Vec::new();
                while draws.len() < LOCAL_TOKEN_LENGTH
                    invariant
                        draws.len() <= LOCAL_TOKEN_LENGTH,
                    decreases LOCAL_TOKEN_LENGTH - draws.len(),
                {
                    draws.push(random_u64());
                }
                let token = local_token_for(draws.as_slice());
                assert(generated_token(address_type, token@));
                token
            },
            AddressType::Remote => {
                let draw = random_u64();
                let token = remote_token_for(draw);
                assert(generated_token(address_type, token@));
                token
            },
        };
        proof {
            lemma_generated_token_is_valid(address_type, token@);
            lemma_address_round_trip(address_type, token@);
        }
        Address::compose(address_type, token.as_slice())
    }

    /// Makes the address `<scheme>://<token>`, padded with the filler byte.
    /// Fails with [`AddressError::TokenTooLong`] when scheme and token are
    /// wider than an address, else with [`AddressError::FillerInToken`]
    /// when the token holds the filler byte.
    pub fn with_token(address_type: AddressType, token: &str) -> (outcome: Result<
        Address,
        AddressError,
    >)
        ensures
            address_outcome(outcome) == composed(address_type, token.spec_bytes()),
    {
        let bytes = token.as_bytes();
        let prefix_len: usize = match address_type {
            AddressType::Local => 9,
            AddressType::Remote => 6,
        };
        assert(prefix_len == scheme_prefix(address_type).len());
        if bytes.len() > ADDRESS_LENGTH - prefix_len {
            return Err(AddressError::TokenTooLong);
        }
        let mut i: usize = 0;
        while i < bytes.len()
            invariant
                i <= bytes.len(),
                bytes@ == token.spec_bytes(),
                scheme_prefix(address_type).len() + bytes.len() <= ADDRESS_LENGTH,
                forall|k: int| 0 <= k < i ==> bytes@[k] != FILLER,
            decreases bytes.len() - i,
        {
            if bytes[i] == FILLER {
                return Err(AddressError::FillerInToken);
            }
            i += 1;
        }
        Ok(Address::compose(address_type, bytes))
    }

    /// Wraps 32 raw bytes, whatever they hold.
    pub fn from_bytes(bytes: [u8; ADDRESS_LENGTH]) -> (address: Address)
        ensures
            address@ == bytes@,
    {
        Address { conn_string: bytes }
    }

    /// The 32 bytes of the address.
    pub fn as_bytes(&self) -> (bytes: &[u8; ADDRESS_LENGTH])
        ensures
            bytes@ == self@,
    {
        &self.conn_string
    }

    /// Tells which scheme the address names, by its first three bytes.
    /// Fails with [`AddressError::UnknownScheme`] when they are neither
    /// `inp` nor `tcp`.
    pub fn get_type(&self) -> (outcome: Result<AddressType, AddressError>)
        ensures
            outcome == match scheme_of(self@) {
                Some(address_type) => Ok::<AddressType, AddressError>(address_type),
                None => Err::<AddressType, AddressError>(AddressError::UnknownScheme),
            },
    {
        let bytes = &self.conn_string;
        if bytes[0] == 0x69 && bytes[1] == 0x6e && bytes[2] == 0x70 {
            Ok(AddressType::Local)
        } else if bytes[0] == 0x74 && bytes[1] == 0x63 && bytes[2] == 0x70 {
            Ok(AddressType::Remote)
        } else {
            Err(AddressError::UnknownScheme)
        }
    }

    /// Reads all 32 bytes as text, padding included. Fails with
    /// [`AddressError::InvalidText`] when they are not valid UTF-8.
    pub fn as_str(&self) -> (outcome: Result<&str, AddressError>)
        ensures
            text_outcome(outcome) == if valid_utf8(self@) {
                Ok::<Seq<u8>, AddressError>(self@)
            } else {
                Err::<Seq<u8>, AddressError>(AddressError::InvalidText)
            },
            outcome matches Ok(text) ==> text@ == decode_utf8(self@),
    {
        match core::str::from_utf8(self.conn_string.as_slice()) {
            Ok(text) => {
                proof {
                    encode_utf8_decode_utf8(text@);
                }
                Ok(text)
            },
            Err(_) => Err(AddressError::InvalidText),
        }
    }

    /// The string a transport binds or connects to: the content before
    /// the first filler byte. Fails with [`AddressError::InvalidText`]
    /// when the content is not valid UTF-8.
    pub fn as_connectable_string(&self) -> (outcome: Result<&str, AddressError>)
        ensures
            text_outcome(outcome) == connect_string(self@),
            outcome matches Ok(text) ==> text@ == decode_utf8(content(self@)),
    {
        truncate_byte_array_string(self.conn_string.as_slice())
    }
}

} // verus!
