//! The messenger program: sends and receives opaque payloads between
//! registered emitters, storing each delivered payload under its origin
//! chain and sequence until the owner evicts it.
//!
//! Every operation is all-or-nothing: it either returns `Ok` with its effect
//! on the program state, or an error with the state untouched. A message to
//! post is returned as an [`OutboundMessage`] for the host to hand to the
//! core bridge.
use std::collections::HashMap;
use vstd::prelude::*;

use crate::address::bytes_eq;
use crate::codec::{
    messenger_message_bytes, messenger_message_of, CodecError, MessengerMessage,
    MessengerMessageModel, MESSAGE_MAX_LENGTH,
};
use crate::error::MessengerError;
use crate::state::{is_valid_registration, valid_registration};

verus! {

broadcast use vstd::std_specs::hash::group_hash_axioms;

/// Finality level that the messenger asks of the attestation network.
pub const FINALITY_CONFIRMED: u8 = 0;

/// Core-bridge accounts that the messenger posts through.
#[derive(Clone, Copy, Debug)]
pub struct WormholeAddresses {
    pub bridge: [u8; 32],
    pub fee_collector: [u8; 32],
    pub sequence: [u8; 32],
}

/// The messenger's singleton configuration.
#[derive(Clone, Copy, Debug)]
pub struct Config {
    /// The owning identity.
    pub owner: [u8; 32],
    pub wormhole: WormholeAddresses,
    /// Batch id given to every posted message.
    pub batch_id: u32,
    /// Finality level asked of the attestation network.
    pub finality: u8,
}

/// The messenger's emitter account, which signs posted messages.
#[derive(Clone, Copy, Debug)]
pub struct WormholeEmitter {
    /// Bump seed of the emitter's derived address.
    pub bump: u8,
}

/// Registry entry: the trusted messenger on a foreign chain.
#[derive(Clone, Copy, Debug)]
pub struct ForeignEmitter {
    /// The foreign chain's id; never 0 nor the home chain's.
    pub chain: u16,
    /// The foreign messenger's emitter address; never all zero.
    pub address: [u8; 32],
}

impl ForeignEmitter {
    /// Whether `address` is this registered emitter's.
    pub fn verify(&self, address: &[u8; 32]) -> (r: bool)
        ensures
            r == (*address == self.address),
    {
        bytes_eq(address, &self.address)
    }
}

/// A delivered payload, kept until the owner evicts it.
#[derive(Clone, Debug)]
pub struct Received {
    /// Batch id of the attested message.
    pub batch_id: u32,
    /// Content hash of the attested message.
    pub wormhole_message_hash: [u8; 32],
    /// The delivered data, at most [`MESSAGE_MAX_LENGTH`] bytes.
    pub payload: Vec<u8>,
}

/// An attested message as the attestation network hands it over: already
/// verified, read here field by field.
#[derive(Clone, Debug)]
pub struct PostedMessage {
    pub emitter_chain: u16,
    pub emitter_address: [u8; 32],
    pub sequence: u64,
    pub batch_id: u32,
    /// The encoded messenger payload.
    pub payload: Vec<u8>,
}

/// What the host posts through the core bridge: first `fee` to the fee
/// collector (nothing when it is zero), then `payload` with `batch_id` at
/// `finality`.
#[derive(Clone, Debug)]
pub struct OutboundMessage {
    pub fee: u64,
    pub batch_id: u32,
    pub finality: u8,
    pub payload: Vec<u8>,
}

/// Accounts and values that initialisation reads.
#[derive(Clone, Copy, Debug)]
pub struct Initialize {
    pub owner: [u8; 32],
    /// This program's identity, announced in the first message.
    pub program_id: [u8; 32],
    pub wormhole_bridge: [u8; 32],
    pub wormhole_fee_collector: [u8; 32],
    pub wormhole_sequence: [u8; 32],
    pub wormhole_emitter_bump: u8,
    /// The core bridge's current message fee.
    pub wormhole_fee: u64,
}

/// Accounts that registering an emitter reads.
#[derive(Clone, Copy, Debug)]
pub struct RegisterEmitter {
    /// The caller.
    pub owner: [u8; 32],
}

/// Accounts that sending a message reads.
#[derive(Clone, Copy, Debug)]
pub struct SendMessage {
    pub wormhole_bridge: [u8; 32],
    pub wormhole_fee_collector: [u8; 32],
    pub wormhole_sequence: [u8; 32],
    /// The core bridge's current message fee.
    pub wormhole_fee: u64,
}

/// Accounts that receiving a message reads.
#[derive(Clone, Debug)]
pub struct ReceiveMessage {
    /// The attested message to receive.
    pub posted: PostedMessage,
}

/// Accounts that evicting a stored message reads.
#[derive(Clone, Copy, Debug)]
pub struct CloseReceived {
    /// The caller.
    pub owner: [u8; 32],
}

/// Where the message of `chain` with `sequence` is stored: one slot per
/// pair.
pub open spec fn received_key(chain: u16, sequence: u64) -> u128 {
    (chain as nat * 0x1_0000_0000_0000_0000 + sequence as nat) as u128
}

/// Distinct (chain, sequence) pairs are stored in distinct slots.
pub proof fn lemma_received_key_injective(c1: u16, s1: u64, c2: u16, s2: u64)
    requires
        received_key(c1, s1) == received_key(c2, s2),
    ensures
        c1 == c2,
        s1 == s2,
{
    let m: int = 0x1_0000_0000_0000_0000;
    assert(c1 as int * m + s1 < 0x1_0000_0000_0000_0000_0000_0000_0000_0000) by (nonlinear_arith)
        requires
            c1 < 0x1_0000,
            s1 < m,
            m == 0x1_0000_0000_0000_0000,
    ;
    assert(c2 as int * m + s2 < 0x1_0000_0000_0000_0000_0000_0000_0000_0000) by (nonlinear_arith)
        requires
            c2 < 0x1_0000,
            s2 < m,
            m == 0x1_0000_0000_0000_0000,
    ;
    assert(c1 == c2 && s1 == s2) by (nonlinear_arith)
        requires
            c1 as int * m + s1 == c2 as int * m + s2,
            0 <= s1 < m,
            0 <= s2 < m,
            c1 >= 0,
            c2 >= 0,
    ;
}

fn received_slot(chain: u16, sequence: u64) -> (r: u128)
    ensures
        r == received_key(chain, sequence),
{
    proof {
        assert((chain as nat) * 0x1_0000_0000_0000_0000 + (sequence as nat)
            < 0x1_0000_0000_0000_0000_0000_0000_0000_0000) by (nonlinear_arith)
            requires
                chain < 0x1_0000,
                sequence < 0x1_0000_0000_0000_0000,
        ;
    }
    (chain as u128) * 0x1_0000_0000_0000_0000 + (sequence as u128)
}

/// State of the messenger program: its configuration, its emitter, the
/// registry of foreign emitters keyed by chain id, and the stored messages
/// keyed by [`received_key`].
pub struct Messenger {
    pub config: Config,
    pub wormhole_emitter: WormholeEmitter,
    pub foreign_emitters: HashMap<u16, ForeignEmitter>,
    pub received: HashMap<u128, Received>,
}

/// The configuration that initialisation records.
pub open spec fn initial_config(ctx: Initialize) -> Config {
    Config {
        owner: ctx.owner,
        wormhole: WormholeAddresses {
            bridge: ctx.wormhole_bridge,
            fee_collector: ctx.wormhole_fee_collector,
            sequence: ctx.wormhole_sequence,
        },
        batch_id: 0,
        finality: FINALITY_CONFIRMED,
    }
}

/// Creates the program state, with no registered emitter and no stored
/// message, and the "alive" message announcing the program.
pub fn initialize(ctx: &Initialize) -> (r: (Messenger, OutboundMessage))
    ensures
        r.0.wf(),
        r.0.config == initial_config(*ctx),
        r.0.wormhole_emitter.bump == ctx.wormhole_emitter_bump,
        r.0.foreign_emitters@ == Map::<u16, ForeignEmitter>::empty(),
        r.0.received@ == Map::<u128, Received>::empty(),
        r.1.fee == ctx.wormhole_fee,
        r.1.batch_id == 0,
        r.1.finality == FINALITY_CONFIRMED,
        messenger_message_bytes(MessengerMessageModel::Alive { program_id: ctx.program_id@ })
            == Ok::<Seq<u8>, CodecError>(r.1.payload@),
{
    let config = Config {
        owner: ctx.owner,
        wormhole: WormholeAddresses {
            bridge: ctx.wormhole_bridge,
            fee_collector: ctx.wormhole_fee_collector,
            sequence: ctx.wormhole_sequence,
        },
        batch_id: 0,
        finality: FINALITY_CONFIRMED,
    };
    let payload = MessengerMessage::encode_alive(&ctx.program_id);
    let messenger = Messenger {
        config,
        wormhole_emitter: WormholeEmitter { bump: ctx.wormhole_emitter_bump },
        foreign_emitters: HashMap::new(),
        received: HashMap::new(),
    };
    (messenger, OutboundMessage { fee: ctx.wormhole_fee, batch_id: 0, finality: FINALITY_CONFIRMED, payload })
}

impl Messenger {
    /// Every registry entry is valid and filed under its own chain id, and
    /// every stored payload is within the bound.
    pub open spec fn wf(&self) -> bool {
        &&& forall|c: u16| #[trigger]
            self.foreign_emitters@.contains_key(c) ==> {
                &&& self.foreign_emitters@[c].chain == c
                &&& valid_registration(c, self.foreign_emitters@[c].address@)
            }
        &&& forall|k: u128| #[trigger]
            self.received@.contains_key(k) ==> self.received@[k].payload@.len()
                <= MESSAGE_MAX_LENGTH
    }

    /// The configuration, the emitter and the registry are as in `other`.
    pub open spec fn same_setup(&self, other: &Messenger) -> bool {
        &&& self.config == other.config
        &&& self.wormhole_emitter == other.wormhole_emitter
        &&& self.foreign_emitters@ == other.foreign_emitters@
    }

    /// Registers, or re-registers, the trusted emitter on `chain`. Refused
    /// with `Unauthorized` unless the caller is the owner, then with
    /// `InvalidEntry` for chain 0, the home chain or an all-zero address.
    pub fn register_emitter(&mut self, ctx: &RegisterEmitter, chain: u16, address: [u8; 32]) -> (r:
        Result<(), MessengerError>)
        requires
            old(self).wf(),
        ensures
            final(self).wf(),
            r is Ok <==> ctx.owner == old(self).config.owner && valid_registration(chain, address@),
            r matches Err(e) ==> {
                &&& *final(self) == *old(self)
                &&& e == if ctx.owner != old(self).config.owner {
                    MessengerError::Unauthorized
                } else {
                    MessengerError::InvalidEntry
                }
            },
            r is Ok ==> {
                &&& final(self).config == old(self).config
                &&& final(self).wormhole_emitter == old(self).wormhole_emitter
                &&& final(self).received@ == old(self).received@
                &&& final(self).foreign_emitters@ == old(self).foreign_emitters@.insert(
                    chain,
                    (ForeignEmitter { chain, address }),
                )
            },
    {
        if !bytes_eq(&ctx.owner, &self.config.owner) {
            return Err(MessengerError::Unauthorized);
        }
        if !is_valid_registration(chain, &address) {
            return Err(MessengerError::InvalidEntry);
        }
        self.foreign_emitters.insert(chain, ForeignEmitter { chain, address });
        Ok(())
    }

    /// Why sending is refused, if it is: a supplied core-bridge account
    /// that differs from the recorded one, then a payload over the bound.
    pub open spec fn send_error(&self, ctx: &SendMessage, payload: Seq<u8>) -> Option<MessengerError> {
        if ctx.wormhole_bridge != self.config.wormhole.bridge {
            Some(MessengerError::InvalidWormholeConfig)
        } else if ctx.wormhole_fee_collector != self.config.wormhole.fee_collector {
            Some(MessengerError::InvalidWormholeFeeCollector)
        } else if ctx.wormhole_sequence != self.config.wormhole.sequence {
            Some(MessengerError::InvalidWormholeSequence)
        } else if payload.len() > MESSAGE_MAX_LENGTH {
            Some(MessengerError::PayloadTooLarge)
        } else {
            None
        }
    }

    /// Sends `payload` to the registered emitters of other chains as a data
    /// message; the refusals are those of [`Messenger::send_error`], in its
    /// order.
    pub fn send_message(&self, ctx: &SendMessage, payload: Vec<u8>) -> (r: Result<
        OutboundMessage,
        MessengerError,
    >)
        ensures
            r is Ok <==> self.send_error(ctx, payload@) is None,
            r matches Err(e) ==> self.send_error(ctx, payload@) == Some(e),
            r matches Ok(m) ==> {
                &&& m.fee == ctx.wormhole_fee
                &&& m.batch_id == self.config.batch_id
                &&& m.finality == self.config.finality
                &&& messenger_message_bytes(MessengerMessageModel::Message { payload: payload@ })
                    == Ok::<Seq<u8>, CodecError>(m.payload@)
            },
    {
        if !bytes_eq(&ctx.wormhole_bridge, &self.config.wormhole.bridge) {
            return Err(MessengerError::InvalidWormholeConfig);
        }
        if !bytes_eq(&ctx.wormhole_fee_collector, &self.config.wormhole.fee_collector) {
            return Err(MessengerError::InvalidWormholeFeeCollector);
        }
        if !bytes_eq(&ctx.wormhole_sequence, &self.config.wormhole.sequence) {
            return Err(MessengerError::InvalidWormholeSequence);
        }
        let message = MessengerMessage::Message { payload };
        match message.encode() {
            Ok(encoded) => Ok(
                OutboundMessage {
                    fee: ctx.wormhole_fee,
                    batch_id: self.config.batch_id,
                    finality: self.config.finality,
                    payload: encoded,
                },
            ),
            Err(_) => Err(MessengerError::PayloadTooLarge),
        }
    }

    /// Why receiving is refused, if it is: the message does not come from
    /// the registered emitter of its origin chain, a message with its origin
    /// chain and sequence is already stored, or its payload is not a data
    /// payload within the bound.
    pub open spec fn receive_error(&self, posted: &PostedMessage) -> Option<MessengerError> {
        if !(self.foreign_emitters@.contains_key(posted.emitter_chain)
            && self.foreign_emitters@[posted.emitter_chain].address == posted.emitter_address) {
            Some(MessengerError::InvalidForeignEmitter)
        } else if self.received@.contains_key(received_key(posted.emitter_chain, posted.sequence)) {
            Some(MessengerError::AlreadyReceived)
        } else if !(messenger_message_of(posted.payload@) matches Ok(
            MessengerMessageModel::Message { .. },
        )) {
            Some(MessengerError::InvalidMessage)
        } else {
            None
        }
    }

    /// Receives an attested message and stores its data under its origin
    /// chain and sequence, with its batch id and content hash `vaa_hash`.
    /// The refusals are those of [`Messenger::receive_error`], in its order.
    pub fn receive_message(&mut self, ctx: &ReceiveMessage, vaa_hash: [u8; 32]) -> (r: Result<
        (),
        MessengerError,
    >)
        requires
            old(self).wf(),
        ensures
            final(self).wf(),
            r is Ok <==> old(self).receive_error(&ctx.posted) is None,
            r matches Err(e) ==> old(self).receive_error(&ctx.posted) == Some(e) && *final(self)
                == *old(self),
            r is Ok ==> {
                let k = received_key(ctx.posted.emitter_chain, ctx.posted.sequence);
                &&& final(self).same_setup(old(self))
                &&& final(self).received@ == old(self).received@.insert(k, final(self).received@[k])
                &&& final(self).received@[k].batch_id == ctx.posted.batch_id
                &&& final(self).received@[k].wormhole_message_hash == vaa_hash
                &&& messenger_message_of(ctx.posted.payload@) == Ok::<
                    MessengerMessageModel,
                    CodecError,
                >(MessengerMessageModel::Message { payload: final(self).received@[k].payload@ })
            },
    {
        let posted = &ctx.posted;
        match self.foreign_emitters.get(&posted.emitter_chain) {
            Some(fe) => {
                if !fe.verify(&posted.emitter_address) {
                    return Err(MessengerError::InvalidForeignEmitter);
                }
            },
            None => {
                return Err(MessengerError::InvalidForeignEmitter);
            },
        }
        let slot = received_slot(posted.emitter_chain, posted.sequence);
        if self.received.contains_key(&slot) {
            return Err(MessengerError::AlreadyReceived);
        }
        let payload = match MessengerMessage::decode(posted.payload.as_slice()) {
            Ok(MessengerMessage::Message { payload }) => payload,
            _ => {
                return Err(MessengerError::InvalidMessage);
            },
        };
        let record = Received { batch_id: posted.batch_id, wormhole_message_hash: vaa_hash, payload };
        self.received.insert(slot, record);
        Ok(())
    }

    /// The stored message of `emitter_chain` with `sequence`, if there is one.
    pub fn received_message(&self, emitter_chain: u16, sequence: u64) -> (r: Option<&Received>)
        ensures
            match r {
                Some(v) => self.received@.contains_key(received_key(emitter_chain, sequence))
                    && *v == self.received@[received_key(emitter_chain, sequence)],
                None => !self.received@.contains_key(received_key(emitter_chain, sequence)),
            },
    {
        self.received.get(&received_slot(emitter_chain, sequence))
    }

    /// Evicts the stored message of `emitter_chain` with `sequence`. Refused
    /// with `Unauthorized` unless the caller is the owner, then with
    /// `ReceivedNotFound` where no such message is stored.
    pub fn close_received(&mut self, ctx: &CloseReceived, emitter_chain: u16, sequence: u64) -> (r:
        Result<(), MessengerError>)
        requires
            old(self).wf(),
        ensures
            final(self).wf(),
            r is Ok <==> ctx.owner == old(self).config.owner && old(self).received@.contains_key(
                received_key(emitter_chain, sequence),
            ),
            r matches Err(e) ==> {
                &&& *final(self) == *old(self)
                &&& e == if ctx.owner != old(self).config.owner {
                    MessengerError::Unauthorized
                } else {
                    MessengerError::ReceivedNotFound
                }
            },
            r is Ok ==> {
                &&& final(self).same_setup(old(self))
                &&& final(self).received@ == old(self).received@.remove(
                    received_key(emitter_chain, sequence),
                )
            },
    {
        if !bytes_eq(&ctx.owner, &self.config.owner) {
            return Err(MessengerError::Unauthorized);
        }
        let slot = received_slot(emitter_chain, sequence);
        if !self.received.contains_key(&slot) {
            return Err(MessengerError::ReceivedNotFound);
        }
        self.received.remove(&slot);
        Ok(())
    }
}

} // verus!
