//! The decoder of program 6HB1V.

use vstd::prelude::*;
use crate::engine::{
    pattern, GenericEventParseConfig, GenericEventParser, InnerDiscriminator, InnerInstructionDecoder,
    InnerPattern, InstructionDecoder, RuleView,
};
use crate::event::UnifiedEvent;
use crate::metadata::{EventMetadata, EventType, ProtocolType};
use crate::pubkey::Pubkey;
use crate::transaction::CompiledInstruction;
use crate::protocols::prog6hb1v::discriminators;
use crate::protocols::prog6hb1v::events::Prog6HB1VPumpSwapBuyEvent;
use crate::wire::{account_or_default, account_or_zero, le_u64, read_u64_le};

verus! {

/// Program 6HB1V.
pub const PROG6HB1V_PROGRAM_ID: [u8; 32] = [
    78, 111, 11, 73, 11, 140, 166, 216,
    45, 79, 189, 251, 186, 201, 244, 175,
    253, 47, 136, 24, 98, 53, 2, 15,
    34, 175, 124, 175, 50, 14, 129, 155,
];

/// The rules of program 6HB1V, in the order of their registration.
pub open spec fn rules() -> Seq<RuleView> {
    seq![
        RuleView {
            program_id: Pubkey { bytes: PROG6HB1V_PROGRAM_ID },
            protocol_type: ProtocolType::Program6HB1V,
            inner_instruction_discriminator: InnerPattern::Bytes(Seq::<u8>::empty()),
            instruction_discriminator: discriminators::PROG6HB1V_PUMPSWAP_BUY_IX@,
            event_type: EventType::Prog6HB1VPumpSwapBuy,
            inner_instruction_parser: None,
            instruction_parser: Some(InstructionDecoder::Prog6HB1VPumpSwapBuy),
            requires_inner_instruction: false,
        },
    ]
}

/// The programs of program 6HB1V.
pub open spec fn program_ids() -> Seq<Pubkey> {
    seq![Pubkey { bytes: PROG6HB1V_PROGRAM_ID }]
}

/// The rules of program 6HB1V.
pub fn configs() -> (v: Vec<GenericEventParseConfig>)
    ensures
        v@.len() == rules().len(),
        forall|i: int| 0 <= i < v@.len() ==> (#[trigger] v@[i])@ == rules()[i],
        forall|i: int| 0 <= i < v@.len() ==> (#[trigger] v@[i]).well_formed(),
{
    let mut v: Vec<GenericEventParseConfig> = Vec::new();
    v.push(
        GenericEventParseConfig {
            program_id: Pubkey { bytes: PROG6HB1V_PROGRAM_ID },
            protocol_type: ProtocolType::Program6HB1V,
            inner_instruction_discriminator: InnerDiscriminator::none(),
            instruction_discriminator: pattern(discriminators::PROG6HB1V_PUMPSWAP_BUY_IX),
            event_type: EventType::Prog6HB1VPumpSwapBuy,
            inner_instruction_parser: None,
            instruction_parser: Some(InstructionDecoder::Prog6HB1VPumpSwapBuy),
            requires_inner_instruction: false,
        },
    );
    v
}

/// The table of program 6HB1V.
pub fn table() -> (t: GenericEventParser)
    ensures
        t.rules() == rules(),
        t.program_ids@ == program_ids(),
        t.well_formed(),
{
    let mut ids: Vec<Pubkey> = Vec::new();
    ids.push(Pubkey { bytes: PROG6HB1V_PROGRAM_ID });
    let rules = configs();
    let t = GenericEventParser::new(ids, rules).unwrap();
    assert(t.rules() =~= self::rules());
    assert(t.program_ids@ =~= program_ids());
    t
}

/// The fields that the buy instruction gives: the highest quote amount in
/// bytes 0 to 8, the base amount in bytes 8 to 16, and the accounts by their
/// position; the last two are the zero address where the list ends before
/// them.
pub open spec fn buy_record(data: Seq<u8>, accounts: Seq<Pubkey>, metadata: EventMetadata) -> Prog6HB1VPumpSwapBuyEvent {
    Prog6HB1VPumpSwapBuyEvent {
        base_amount_out: le_u64(data, 8) as u64,
        max_quote_amount_in: le_u64(data, 0) as u64,
        pool: accounts[0],
        user: accounts[1],
        base_mint: accounts[3],
        quote_mint: accounts[4],
        user_base_token_account: accounts[5],
        user_quote_token_account: accounts[6],
        pool_base_token_account: accounts[7],
        pool_quote_token_account: accounts[8],
        protocol_fee_recipient: accounts[9],
        protocol_fee_recipient_token_account: accounts[10],
        coin_creator_vault_ata: accounts[17],
        coin_creator_vault_authority: accounts[18],
        global_volume_accumulator: account_or_zero(accounts, 19),
        user_volume_accumulator: account_or_zero(accounts, 20),
        ..Prog6HB1VPumpSwapBuyEvent::blank(metadata)
    }
}

/// What the buy decoder returns: a record exactly where there are 16 bytes
/// and 19 accounts.
pub open spec fn buy_decoded(
    data: Seq<u8>,
    accounts: Seq<Pubkey>,
    metadata: EventMetadata,
    r: Option<UnifiedEvent>,
) -> bool {
    if data.len() >= 16 && accounts.len() >= 19 {
        r == Some(UnifiedEvent::Prog6HB1VPumpSwapBuy(buy_record(data, accounts, metadata)))
    } else {
        r.is_none()
    }
}

/// The parser of program 6HB1V.
#[derive(Clone, Debug)]
pub struct Prog6HB1VEventParser {
    inner: GenericEventParser,
}

impl Default for Prog6HB1VEventParser {
    fn default() -> (p: Prog6HB1VEventParser)
        ensures
            p.table().rules() == rules(),
            p.table().program_ids@ == program_ids(),
    {
        Prog6HB1VEventParser::new()
    }
}

impl Prog6HB1VEventParser {
    /// The table that the parser works on.
    pub closed spec fn table(self) -> GenericEventParser {
        self.inner
    }

    /// A parser with the rules of the program.
    pub fn new() -> (p: Prog6HB1VEventParser)
        ensures
            p.table().rules() == rules(),
            p.table().program_ids@ == program_ids(),
            p.table().well_formed(),
    {
        Prog6HB1VEventParser { inner: table() }
    }

    /// The table that the parser works on.
    pub fn inner(&self) -> (t: &GenericEventParser)
        ensures
            *t == self.table(),
    {
        &self.inner
    }

    /// The events of one inner instruction of a transaction.
    pub fn parse_events_from_inner_instruction(
        &self,
        inner_instruction: &CompiledInstruction,
        accounts: &[Pubkey],
        metadata: EventMetadata,
    ) -> (out: Vec<UnifiedEvent>)
        ensures
            self.table().inner_instruction_events(*inner_instruction, accounts@, metadata, out@),
    {
        self.inner.parse_events_from_inner_instruction(inner_instruction, accounts, metadata)
    }

    /// The events of one instruction of a transaction.
    pub fn parse_events_from_instruction(
        &self,
        instruction: &CompiledInstruction,
        accounts: &[Pubkey],
        metadata: EventMetadata,
    ) -> (out: Vec<UnifiedEvent>)
        ensures
            self.table().instruction_events(*instruction, accounts@, metadata, out@),
    {
        self.inner.parse_events_from_instruction(instruction, accounts, metadata)
    }

    /// Whether the parser takes instructions of this program.
    pub fn should_handle(&self, program_id: &Pubkey) -> (b: bool)
        ensures
            b == self.table().handles(*program_id),
    {
        self.inner.should_handle(program_id)
    }

    /// The programs whose instructions the parser takes.
    pub fn supported_program_ids(&self) -> (ids: Vec<Pubkey>)
        ensures
            ids@ == self.table().program_ids@,
    {
        self.inner.supported_program_ids()
    }

    /// The program logs nothing that is decoded.
    pub fn parse_prog6hb1v_trade_inner_instruction(data: &[u8], metadata: EventMetadata) -> (r: Option<UnifiedEvent>)
        ensures
            r.is_none(),
    {
        None
    }

    /// Decodes a buy on a pool.
    pub fn parse_prog6hb1v_pumpswap_buy_instruction(data: &[u8], accounts: &[Pubkey], metadata: EventMetadata) -> (r: Option<
        UnifiedEvent,
    >)
        ensures
            buy_decoded(data@, accounts@, metadata, r),
    {
        if data.len() < 16 || accounts.len() < 19 {
            return None;
        }
        let base_amount_out = read_u64_le(data, 8)?;
        let max_quote_amount_in = read_u64_le(data, 0)?;
        let mut e = Prog6HB1VPumpSwapBuyEvent::new(metadata);
        e.base_amount_out = base_amount_out;
        e.max_quote_amount_in = max_quote_amount_in;
        e.pool = accounts[0];
        e.user = accounts[1];
        e.base_mint = accounts[3];
        e.quote_mint = accounts[4];
        e.user_base_token_account = accounts[5];
        e.user_quote_token_account = accounts[6];
        e.pool_base_token_account = accounts[7];
        e.pool_quote_token_account = accounts[8];
        e.protocol_fee_recipient = accounts[9];
        e.protocol_fee_recipient_token_account = accounts[10];
        e.coin_creator_vault_ata = account_or_default(accounts, 17);
        e.coin_creator_vault_authority = account_or_default(accounts, 18);
        e.global_volume_accumulator = account_or_default(accounts, 19);
        e.user_volume_accumulator = account_or_default(accounts, 20);
        Some(UnifiedEvent::Prog6HB1VPumpSwapBuy(e))
    }
}

} // verus!
