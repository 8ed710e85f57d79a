//! Wire format of the two payload families: a one-byte discriminant
//! followed by the variant's fields.
//!
//! * token-transfer payload: `1`, then a 32-byte recipient address;
//! * messenger "alive" payload: `0`, then a 32-byte program identifier;
//! * messenger "data" payload: `1`, then a big-endian `u16` length and at
//!   most [`MESSAGE_MAX_LENGTH`] bytes.
//!
//! Decoding reads one value from the front of its input; bytes after it are
//! not looked at.
use vstd::prelude::*;

verus! {

/// Discriminant of the token-transfer payload.
pub const PAYLOAD_ID_HELLO: u8 = 1;

/// Discriminant of the messenger's "alive" payload.
pub const PAYLOAD_ID_ALIVE: u8 = 0;

/// Discriminant of the messenger's "data" payload.
pub const PAYLOAD_ID_MESSAGE: u8 = 1;

/// Largest data payload the messenger carries, in bytes.
pub const MESSAGE_MAX_LENGTH: usize = 1024;

/// Why a payload could not be encoded or decoded.
#[derive(Clone, Copy, Debug, PartialEq, Eq, Structural)]
pub enum CodecError {
    /// Unknown discriminant, truncated input, or a declared length over the bound.
    InvalidPayload,
    /// A data payload longer than [`MESSAGE_MAX_LENGTH`] was given to the encoder.
    PayloadTooLarge,
}

/// Payload that travels with a token transfer: who receives the tokens.
#[derive(Clone, Copy, Debug)]
pub enum TokenMessage {
    Hello { recipient: [u8; 32] },
}

/// Mathematical value of a [`TokenMessage`].
pub enum TokenMessageModel {
    Hello { recipient: Seq<u8> },
}

impl View for TokenMessage {
    type V = TokenMessageModel;

    open spec fn view(&self) -> TokenMessageModel {
        match self {
            TokenMessage::Hello { recipient } => TokenMessageModel::Hello { recipient: recipient@ },
        }
    }
}

/// Payload of the pure-message flow.
#[derive(Clone, Debug)]
pub enum MessengerMessage {
    /// Announces that the sending program is live.
    Alive { program_id: [u8; 32] },
    /// Carries opaque application data.
    Message { payload: Vec<u8> },
}

/// Mathematical value of a [`MessengerMessage`].
pub enum MessengerMessageModel {
    Alive { program_id: Seq<u8> },
    Message { payload: Seq<u8> },
}

impl View for MessengerMessage {
    type V = MessengerMessageModel;

    open spec fn view(&self) -> MessengerMessageModel {
        match self {
            MessengerMessage::Alive { program_id } => MessengerMessageModel::Alive {
                program_id: program_id@,
            },
            MessengerMessage::Message { payload } => MessengerMessageModel::Message {
                payload: payload@,
            },
        }
    }
}

/// Encoding of a token-transfer payload.
pub open spec fn token_message_bytes(m: TokenMessageModel) -> Seq<u8> {
    match m {
        TokenMessageModel::Hello { recipient } => seq![PAYLOAD_ID_HELLO] + recipient,
    }
}

/// The token-transfer payload at the front of `b`, if there is one.
pub open spec fn token_message_of(b: Seq<u8>) -> Result<TokenMessageModel, CodecError> {
    if b.len() >= 33 && b[0] == PAYLOAD_ID_HELLO {
        Ok(TokenMessageModel::Hello { recipient: b.subrange(1, 33) })
    } else {
        Err(CodecError::InvalidPayload)
    }
}

/// The two bytes of `n` in big-endian order.
pub open spec fn be_u16_bytes(n: nat) -> Seq<u8> {
    seq![(n / 256) as u8, (n % 256) as u8]
}

/// The number that the two bytes `hi`, `lo` give in big-endian order.
pub open spec fn be_u16_value(hi: u8, lo: u8) -> nat {
    (hi as nat) * 256 + (lo as nat)
}

/// Encoding of a messenger payload; data over the bound is refused.
pub open spec fn messenger_message_bytes(m: MessengerMessageModel) -> Result<Seq<u8>, CodecError> {
    match m {
        MessengerMessageModel::Alive { program_id } => Ok(seq![PAYLOAD_ID_ALIVE] + program_id),
        MessengerMessageModel::Message { payload } => if payload.len() > MESSAGE_MAX_LENGTH {
            Err(CodecError::PayloadTooLarge)
        } else {
            Ok(seq![PAYLOAD_ID_MESSAGE] + be_u16_bytes(payload.len()) + payload)
        },
    }
}

/// The messenger payload at the front of `b`, if there is one.
pub open spec fn messenger_message_of(b: Seq<u8>) -> Result<MessengerMessageModel, CodecError> {
    if b.len() >= 33 && b[0] == PAYLOAD_ID_ALIVE {
        Ok(MessengerMessageModel::Alive { program_id: b.subrange(1, 33) })
    } else if b.len() >= 3 && b[0] == PAYLOAD_ID_MESSAGE {
        let n = be_u16_value(b[1], b[2]);
        if n <= MESSAGE_MAX_LENGTH && b.len() >= 3 + n {
            Ok(MessengerMessageModel::Message { payload: b.subrange(3, (3 + n) as int) })
        } else {
            Err(CodecError::InvalidPayload)
        }
    } else {
        Err(CodecError::InvalidPayload)
    }
}

/// A token-transfer payload whose fields have their fixed sizes.
pub open spec fn token_message_well_formed(m: TokenMessageModel) -> bool {
    match m {
        TokenMessageModel::Hello { recipient } => recipient.len() == 32,
    }
}

/// A messenger payload whose fixed fields have their sizes and whose data is
/// within the bound.
pub open spec fn messenger_message_well_formed(m: MessengerMessageModel) -> bool {
    match m {
        MessengerMessageModel::Alive { program_id } => program_id.len() == 32,
        MessengerMessageModel::Message { payload } => payload.len() <= MESSAGE_MAX_LENGTH,
    }
}

/// Decoding the encoding of a token-transfer payload gives that payload back.
pub proof fn lemma_token_message_round_trip(m: TokenMessageModel)
    requires
        token_message_well_formed(m),
    ensures
        token_message_of(token_message_bytes(m)) == Ok::<TokenMessageModel, CodecError>(m),
{
    let TokenMessageModel::Hello { recipient } = m;
    let b = token_message_bytes(m);
    assert(b.subrange(1, 33) =~= recipient);
}

/// Every messenger payload within the bound encodes, and decoding its encoding
/// gives that payload back.
pub proof fn lemma_messenger_message_round_trip(m: MessengerMessageModel)
    requires
        messenger_message_well_formed(m),
    ensures
        messenger_message_bytes(m) is Ok,
        messenger_message_of(messenger_message_bytes(m)->Ok_0) == Ok::<
            MessengerMessageModel,
            CodecError,
        >(m),
{
    match m {
        MessengerMessageModel::Alive { program_id } => {
            let b = seq![PAYLOAD_ID_ALIVE] + program_id;
            assert(b.subrange(1, 33) =~= program_id);
        },
        MessengerMessageModel::Message { payload } => {
            let n = payload.len();
            let b = seq![PAYLOAD_ID_MESSAGE] + be_u16_bytes(n) + payload;
            assert(b[1] == (n / 256) as u8);
            assert(b[2] == (n % 256) as u8);
            assert(be_u16_value(b[1], b[2]) == n) by {
                assert(n / 256 < 256);
                assert((n / 256) as u8 == n / 256);
                assert((n % 256) as u8 == n % 256);
            }
            assert(b.subrange(3, 3 + n as int) =~= payload);
        },
    }
}

/// Appends the 32 bytes of `a` to `out`.
fn push_bytes32(out: &mut Vec<u8>, a: &[u8; 32])
    ensures
        final(out)@ == old(out)@ + a@,
{
    let ghost start = out@;
    let mut i: usize = 0;
    while i < 32
        invariant
            0 <= i <= 32,
            a@.len() == 32,
            out@ == start + a@.subrange(0, i as int),
        decreases 32 - i,
    {
        out.push(a[i]);
        i = i + 1;
        assert(out@ =~= start + a@.subrange(0, i as int));
    }
    assert(a@.subrange(0, 32) =~= a@);
}

/// The 32 bytes of `b` that start at `at`.
fn read_bytes32(b: &[u8], at: usize) -> (r: [u8; 32])
    requires
        at + 32 <= b@.len(),
    ensures
        r@ == b@.subrange(at as int, at + 32),
{
    let len = b.len();
    let mut r = [0u8; 32];
    let mut i: usize = 0;
    while i < 32
        invariant
            0 <= i <= 32,
            len == b@.len(),
            at + 32 <= b@.len(),
            r@.len() == 32,
            forall|j: int| 0 <= j < i ==> r@[j] == b@[at + j],
        decreases 32 - i,
    {
        r[i] = b[at + i];
        i = i + 1;
    }
    assert(r@ =~= b@.subrange(at as int, at + 32));
    r
}

impl TokenMessage {
    /// The recipient address that the payload names.
    pub fn recipient(&self) -> (r: [u8; 32])
        ensures
            self@ == (TokenMessageModel::Hello { recipient: r@ }),
    {
        match self {
            TokenMessage::Hello { recipient } => *recipient,
        }
    }

    /// Encodes the payload: its discriminant, then the recipient address.
    pub fn encode(&self) -> (r: Vec<u8>)
        ensures
            r@ == token_message_bytes(self@),
    {
        let mut out: Vec<u8> = Vec::new();
        out.push(PAYLOAD_ID_HELLO);
        match self {
            TokenMessage::Hello { recipient } => push_bytes32(&mut out, recipient),
        }
        assert(out@ =~= token_message_bytes(self@));
        out
    }

    /// Decodes the token-transfer payload at the front of `bytes`.
    pub fn decode(bytes: &[u8]) -> (r: Result<TokenMessage, CodecError>)
        ensures
            match r {
                Ok(m) => token_message_of(bytes@) == Ok::<TokenMessageModel, CodecError>(m@),
                Err(e) => token_message_of(bytes@) == Err::<TokenMessageModel, CodecError>(e),
            },
    {
        if bytes.len() >= 33 && bytes[0] == PAYLOAD_ID_HELLO {
            let recipient = read_bytes32(bytes, 1);
            Ok(TokenMessage::Hello { recipient })
        } else {
            Err(CodecError::InvalidPayload)
        }
    }
}

impl MessengerMessage {
    /// Encodes the payload; a data payload over [`MESSAGE_MAX_LENGTH`] bytes is
    /// refused with `PayloadTooLarge` rather than cut short.
    pub fn encode(&self) -> (r: Result<Vec<u8>, CodecError>)
        ensures
            match r {
                Ok(b) => messenger_message_bytes(self@) == Ok::<Seq<u8>, CodecError>(b@),
                Err(e) => messenger_message_bytes(self@) == Err::<Seq<u8>, CodecError>(e),
            },
    {
        match self {
            MessengerMessage::Alive { program_id } => Ok(MessengerMessage::encode_alive(program_id)),
            MessengerMessage::Message { payload } => {
                let n = payload.len();
                if n > MESSAGE_MAX_LENGTH {
                    return Err(CodecError::PayloadTooLarge);
                }
                let mut out: Vec<u8> = Vec::new();
                out.push(PAYLOAD_ID_MESSAGE);
                out.push((n / 256) as u8);
                out.push((n % 256) as u8);
                let ghost head = out@;
                assert(head =~= seq![PAYLOAD_ID_MESSAGE] + be_u16_bytes(n as nat));
                let mut i: usize = 0;
                while i < n
                    invariant
                        0 <= i <= n,
                        n == payload@.len(),
                        out@ == head + payload@.subrange(0, i as int),
                    decreases n - i,
                {
                    out.push(payload[i]);
                    i = i + 1;
                    assert(out@ =~= head + payload@.subrange(0, i as int));
                }
                assert(payload@.subrange(0, n as int) =~= payload@);
                Ok(out)
            },
        }
    }

    /// Encodes an "alive" payload announcing `program_id`; having no length
    /// to exceed, it always encodes.
    pub fn encode_alive(program_id: &[u8; 32]) -> (r: Vec<u8>)
        ensures
            messenger_message_bytes(MessengerMessageModel::Alive { program_id: program_id@ })
                == Ok::<Seq<u8>, CodecError>(r@),
    {
        let mut out: Vec<u8> = Vec::new();
        out.push(PAYLOAD_ID_ALIVE);
        push_bytes32(&mut out, program_id);
        assert(out@ =~= seq![PAYLOAD_ID_ALIVE] + program_id@);
        out
    }

    /// Decodes the messenger payload at the front of `bytes`.
    pub fn decode(bytes: &[u8]) -> (r: Result<MessengerMessage, CodecError>)
        ensures
            match r {
                Ok(m) => messenger_message_of(bytes@) == Ok::<MessengerMessageModel, CodecError>(
                    m@,
                ),
                Err(e) => messenger_message_of(bytes@) == Err::<MessengerMessageModel, CodecError>(
                    e,
                ),
            },
    {
        if bytes.len() >= 33 && bytes[0] == PAYLOAD_ID_ALIVE {
            let program_id = read_bytes32(bytes, 1);
            return Ok(MessengerMessage::Alive { program_id });
        }
        if bytes.len() < 3 || bytes[0] != PAYLOAD_ID_MESSAGE {
            return Err(CodecError::InvalidPayload);
        }
        let n: usize = (bytes[1] as usize) * 256 + (bytes[2] as usize);
        assert(n == be_u16_value(bytes@[1], bytes@[2]));
        if n > MESSAGE_MAX_LENGTH || bytes.len() - 3 < n {
            return Err(CodecError::InvalidPayload);
        }
        let len = bytes.len();
        let mut payload: Vec<u8> = Vec::new();
        let mut i: usize = 0;
        while i < n
            invariant
                0 <= i <= n,
                len == bytes@.len(),
                3 + n <= bytes@.len(),
                payload@ == bytes@.subrange(3, 3 + i),
            decreases n - i,
        {
            payload.push(bytes[3 + i]);
            i = i + 1;
            assert(payload@ =~= bytes@.subrange(3, 3 + i));
        }
        Ok(MessengerMessage::Message { payload })
    }
}

} // verus!
