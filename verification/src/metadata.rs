//! The envelope that every event carries.

use vstd::prelude::*;
use crate::pubkey::Pubkey;

verus! {

/// The protocol family that a rule belongs to.
#[derive(Clone, Copy, Debug, PartialEq, Eq, Structural, Hash)]
pub enum ProtocolType {
    Unknown,
    PumpFun,
    AxiomTrading1,
    AxiomTrading2,
    ProgramF5tfv,
    Program6HB1V,
    PhotonProtocol,
    MeteoraDBC,
    MeteoraDAMMv2,
}

/// The operation that an event records.
#[derive(Clone, Copy, Debug, PartialEq, Eq, Structural, Hash)]
pub enum EventType {
    Unknown,
    PumpFunCreateToken,
    PumpFunBuy,
    PumpFunSell,
    AxiomPumpFunBuy,
    AxiomPumpSwapBuy,
    F5tfvPumpFunBuy,
    Prog6HB1VPumpSwapBuy,
    PhotonPumpFunBuy,
    PhotonPumpFunSell,
    PhotonPumpSwapTrade,
    MeteoraDBCSwap,
    MeteoraDBCSwap2,
    MeteoraDAMMv2Swap,
}

/// A point in time as the chain reports it.
#[derive(Clone, Copy, Debug, PartialEq, Eq, Structural, Hash)]
pub struct Timestamp {
    pub seconds: i64,
    pub nanos: i32,
}

/// What is known of an event apart from its decoded fields.
#[derive(Debug, PartialEq, Eq)]
pub struct EventMetadata {
    /// The identity by which consumers recognise a repeated delivery.
    pub id: String,
    pub signature: String,
    pub slot: u64,
    pub block_time: Option<Timestamp>,
    pub program_received_time_ms: i64,
    pub protocol: ProtocolType,
    pub event_type: EventType,
    pub program_id: Pubkey,
    /// The position inside the transaction: `"3"`, or `"3.1"` for the second
    /// inner instruction of the fourth instruction.
    pub index: String,
}

impl EventMetadata {
    /// Two envelopes that read the same, whatever memory holds their text.
    pub open spec fn same_content(self, other: EventMetadata) -> bool {
        &&& self.id@ == other.id@
        &&& self.signature@ == other.signature@
        &&& self.slot == other.slot
        &&& self.block_time == other.block_time
        &&& self.program_received_time_ms == other.program_received_time_ms
        &&& self.protocol == other.protocol
        &&& self.event_type == other.event_type
        &&& self.program_id == other.program_id
        &&& self.index@ == other.index@
    }

    /// Whether nothing is set: the texts are empty, the numbers zero, the
    /// tags unknown and the program the zero address.
    pub open spec fn is_blank(self) -> bool {
        &&& self.id@.len() == 0
        &&& self.signature@.len() == 0
        &&& self.index@.len() == 0
        &&& self.slot == 0
        &&& self.block_time.is_none()
        &&& self.program_received_time_ms == 0
        &&& self.protocol == ProtocolType::Unknown
        &&& self.event_type == EventType::Unknown
        &&& self.program_id == Pubkey::zero()
    }

    /// Whether `self` is `base` under another identity.
    pub open spec fn is_renamed(self, base: EventMetadata) -> bool {
        self == (EventMetadata { id: self.id, ..base })
    }

    /// An envelope whose identity is the transaction signature.
    pub fn new(
        signature: String,
        slot: u64,
        block_time: Option<Timestamp>,
        program_received_time_ms: i64,
        protocol: ProtocolType,
        event_type: EventType,
        program_id: Pubkey,
        index: String,
    ) -> (m: EventMetadata)
        ensures
            m.id == signature,
            m == (EventMetadata {
                id: m.id,
                signature,
                slot,
                block_time,
                program_received_time_ms,
                protocol,
                event_type,
                program_id,
                index,
            }),
    {
        let id = signature.clone();
        EventMetadata {
            id,
            signature,
            slot,
            block_time,
            program_received_time_ms,
            protocol,
            event_type,
            program_id,
            index,
        }
    }

    /// Replaces the identity.
    pub fn set_id(&mut self, id: String)
        ensures
            *final(self) == (EventMetadata { id, ..*old(self) }),
    {
        self.id = id;
    }

    /// Stamps the envelope with the tags of the rule that decodes under it.
    pub fn with_rule(
        self,
        protocol: ProtocolType,
        event_type: EventType,
        program_id: Pubkey,
    ) -> (m: EventMetadata)
        ensures
            m == (EventMetadata { protocol, event_type, program_id, ..self }),
    {
        let mut m = self;
        m.protocol = protocol;
        m.event_type = event_type;
        m.program_id = program_id;
        m
    }
}

impl Clone for EventMetadata {
    fn clone(&self) -> (m: EventMetadata)
        ensures
            m == *self,
    {
        EventMetadata {
            id: self.id.clone(),
            signature: self.signature.clone(),
            slot: self.slot,
            block_time: self.block_time,
            program_received_time_ms: self.program_received_time_ms,
            protocol: self.protocol,
            event_type: self.event_type,
            program_id: self.program_id,
            index: self.index.clone(),
        }
    }
}

impl Default for EventMetadata {
    fn default() -> (m: EventMetadata)
        ensures
            m.is_blank(),
    {
        EventMetadata {
            id: String::new(),
            signature: String::new(),
            slot: 0,
            block_time: None,
            program_received_time_ms: 0,
            protocol: ProtocolType::Unknown,
            event_type: EventType::Unknown,
            program_id: Pubkey::default(),
            index: String::new(),
        }
    }
}

} // verus!
