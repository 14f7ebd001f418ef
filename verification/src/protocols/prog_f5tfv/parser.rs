//! The decoder of program F5tfv.

use vstd::prelude::*;
use crate::engine::{
    pattern, GenericEventParseConfig, GenericEventParser, InnerDiscriminator, InnerInstructionDecoder,
    InnerPattern, InstructionDecoder, RuleView,
};
use crate::event::UnifiedEvent;
use crate::metadata::{EventMetadata, EventType, ProtocolType};
use crate::pubkey::Pubkey;
use crate::transaction::CompiledInstruction;
use crate::protocols::prog_f5tfv::discriminators;
use crate::protocols::prog_f5tfv::events::ProgF5tfvPumpFunTradeEvent;
use crate::wire::{le_u64, read_u64_le};

verus! {

/// Program F5tfv.
pub const PROGF5TFV_PROGRAM_ID: [u8; 32] = [
    209, 68, 93, 106, 159, 155, 190, 154,
    115, 42, 198, 120, 153, 177, 4, 47,
    108, 225, 58, 193, 33, 123, 119, 65,
    245, 122, 200, 212, 44, 213, 223, 112,
];

/// The rules of program F5tfv, in the order of their registration.
pub open spec fn rules() -> Seq<RuleView> {
    seq![
        RuleView {
            program_id: Pubkey { bytes: PROGF5TFV_PROGRAM_ID },
            protocol_type: ProtocolType::ProgramF5tfv,
            inner_instruction_discriminator: InnerPattern::Bytes(Seq::<u8>::empty()),
            instruction_discriminator: discriminators::PROGF5TFV_PUMPFUN_BUY_IX@,
            event_type: EventType::F5tfvPumpFunBuy,
            inner_instruction_parser: None,
            instruction_parser: Some(InstructionDecoder::F5tfvPumpFunBuy),
            requires_inner_instruction: false,
        },
    ]
}

/// The programs of program F5tfv.
pub open spec fn program_ids() -> Seq<Pubkey> {
    seq![Pubkey { bytes: PROGF5TFV_PROGRAM_ID }]
}

/// The rules of program F5tfv.
pub fn configs() -> (v: Vec<GenericEventParseConfig>)
    ensures
        v@.len() == rules().len(),
        forall|i: int| 0 <= i < v@.len() ==> (#[trigger] v@[i])@ == rules()[i],
        forall|i: int| 0 <= i < v@.len() ==> (#[trigger] v@[i]).well_formed(),
{
    let mut v: Vec<GenericEventParseConfig> = Vec::new();
    v.push(
        GenericEventParseConfig {
            program_id: Pubkey { bytes: PROGF5TFV_PROGRAM_ID },
            protocol_type: ProtocolType::ProgramF5tfv,
            inner_instruction_discriminator: InnerDiscriminator::none(),
            instruction_discriminator: pattern(discriminators::PROGF5TFV_PUMPFUN_BUY_IX),
            event_type: EventType::F5tfvPumpFunBuy,
            inner_instruction_parser: None,
            instruction_parser: Some(InstructionDecoder::F5tfvPumpFunBuy),
            requires_inner_instruction: false,
        },
    );
    v
}

/// The table of program F5tfv.
pub fn table() -> (t: GenericEventParser)
    ensures
        t.rules() == rules(),
        t.program_ids@ == program_ids(),
        t.well_formed(),
{
    let mut ids: Vec<Pubkey> = Vec::new();
    ids.push(Pubkey { bytes: PROGF5TFV_PROGRAM_ID });
    let rules = configs();
    let t = GenericEventParser::new(ids, rules).unwrap();
    assert(t.rules() =~= self::rules());
    assert(t.program_ids@ =~= program_ids());
    t
}

/// The fields that the buy instruction gives: the highest cost in bytes 0 to
/// 8, raised by one, the amount in bytes 8 to 16, and nine accounts by their
/// position.
pub open spec fn buy_record(data: Seq<u8>, accounts: Seq<Pubkey>, metadata: EventMetadata) -> ProgF5tfvPumpFunTradeEvent {
    ProgF5tfvPumpFunTradeEvent {
        fee_recipient: accounts[1],
        mint: accounts[2],
        bonding_curve: accounts[3],
        associated_bonding_curve: accounts[4],
        associated_user: accounts[5],
        user: accounts[6],
        creator_vault: accounts[9],
        global_volume_accumulator: accounts[12],
        user_volume_accumulator: accounts[13],
        max_sol_cost: (le_u64(data, 0) + 1) as u64,
        amount: le_u64(data, 8) as u64,
        is_buy: true,
        ..ProgF5tfvPumpFunTradeEvent::blank(metadata)
    }
}

/// Whether the buy decoder takes the instruction: 16 bytes, 14 accounts, and
/// a highest cost that can be raised by one.
pub open spec fn buy_accepts(data: Seq<u8>, accounts: Seq<Pubkey>) -> bool {
    data.len() >= 16 && accounts.len() >= 14 && le_u64(data, 0) < u64::MAX
}

/// What the buy decoder returns.
pub open spec fn buy_decoded(
    data: Seq<u8>,
    accounts: Seq<Pubkey>,
    metadata: EventMetadata,
    r: Option<UnifiedEvent>,
) -> bool {
    if buy_accepts(data, accounts) {
        r == Some(UnifiedEvent::ProgF5tfvPumpFunTrade(buy_record(data, accounts, metadata)))
    } else {
        r.is_none()
    }
}

/// The parser of program F5tfv.
#[derive(Clone, Debug)]
pub struct F5tfvEventParser {
    inner: GenericEventParser,
}

impl Default for F5tfvEventParser {
    fn default() -> (p: F5tfvEventParser)
        ensures
            p.table().rules() == rules(),
            p.table().program_ids@ == program_ids(),
    {
        F5tfvEventParser::new()
    }
}

impl F5tfvEventParser {
    /// The table that the parser works on.
    pub closed spec fn table(self) -> GenericEventParser {
        self.inner
    }

    /// A parser with the rules of the program.
    pub fn new() -> (p: F5tfvEventParser)
        ensures
            p.table().rules() == rules(),
            p.table().program_ids@ == program_ids(),
            p.table().well_formed(),
    {
        F5tfvEventParser { inner: table() }
    }

    /// The table that the parser works on.
    pub fn inner(&self) -> (t: &GenericEventParser)
        ensures
            *t == self.table(),
    {
        &self.inner
    }

    /// The events of one inner instruction of a transaction.
    pub fn parse_events_from_inner_instruction(
        &self,
        inner_instruction: &CompiledInstruction,
        accounts: &[Pubkey],
        metadata: EventMetadata,
    ) -> (out: Vec<UnifiedEvent>)
        ensures
            self.table().inner_instruction_events(*inner_instruction, accounts@, metadata, out@),
    {
        self.inner.parse_events_from_inner_instruction(inner_instruction, accounts, metadata)
    }

    /// The events of one instruction of a transaction.
    pub fn parse_events_from_instruction(
        &self,
        instruction: &CompiledInstruction,
        accounts: &[Pubkey],
        metadata: EventMetadata,
    ) -> (out: Vec<UnifiedEvent>)
        ensures
            self.table().instruction_events(*instruction, accounts@, metadata, out@),
    {
        self.inner.parse_events_from_instruction(instruction, accounts, metadata)
    }

    /// Whether the parser takes instructions of this program.
    pub fn should_handle(&self, program_id: &Pubkey) -> (b: bool)
        ensures
            b == self.table().handles(*program_id),
    {
        self.inner.should_handle(program_id)
    }

    /// The programs whose instructions the parser takes.
    pub fn supported_program_ids(&self) -> (ids: Vec<Pubkey>)
        ensures
            ids@ == self.table().program_ids@,
    {
        self.inner.supported_program_ids()
    }

    /// The program logs nothing that is decoded.
    pub fn parse_prog_f5tfv_trade_inner_instruction(data: &[u8], metadata: EventMetadata) -> (r: Option<UnifiedEvent>)
        ensures
            r.is_none(),
    {
        None
    }

    /// Decodes a buy on the bonding curve.
    pub fn parse_prog_f5tfv_pumpfun_buy_instruction(data: &[u8], accounts: &[Pubkey], metadata: EventMetadata) -> (r: Option<
        UnifiedEvent,
    >)
        ensures
            buy_decoded(data@, accounts@, metadata, r),
    {
        if data.len() < 16 || accounts.len() < 14 {
            return None;
        }
        let amount = read_u64_le(data, 8)?;
        let cost = read_u64_le(data, 0)?;
        if cost == u64::MAX {
            return None;
        }
        let mut e = ProgF5tfvPumpFunTradeEvent::new(metadata);
        e.fee_recipient = accounts[1];
        e.mint = accounts[2];
        e.bonding_curve = accounts[3];
        e.associated_bonding_curve = accounts[4];
        e.associated_user = accounts[5];
        e.user = accounts[6];
        e.creator_vault = accounts[9];
        e.global_volume_accumulator = accounts[12];
        e.user_volume_accumulator = accounts[13];
        e.max_sol_cost = cost + 1;
        e.amount = amount;
        e.is_buy = true;
        Some(UnifiedEvent::ProgF5tfvPumpFunTrade(e))
    }
}

} // verus!
