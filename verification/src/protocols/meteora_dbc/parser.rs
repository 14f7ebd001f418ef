//! The decoders of the dynamic bonding curve program.

use vstd::prelude::*;
use crate::engine::{
    pattern, GenericEventParseConfig, GenericEventParser, InnerDiscriminator, InnerInstructionDecoder,
    InnerPattern, InstructionDecoder, RuleView,
};
use crate::event::UnifiedEvent;
use crate::metadata::{EventMetadata, EventType, ProtocolType};
use crate::pubkey::Pubkey;
use crate::protocols::meteora_dbc::discriminators;
use crate::protocols::meteora_dbc::events::MeteoraDBCSwapEvent;
use crate::protocols::meteora_dbc::types::TradeDirection;
use crate::pubkey::associated_token_address;
use crate::wire::{le_u64, read_u64_le};

verus! {

/// The dynamic bonding curve program.
pub const METEORA_DBC_PROGRAM_ID: [u8; 32] = [
    9, 96, 12, 165, 36, 247, 177, 183,
    214, 204, 177, 195, 151, 58, 160, 51,
    13, 25, 3, 218, 96, 28, 201, 181,
    222, 227, 198, 98, 180, 202, 209, 73,
];

/// The rules of the dynamic bonding curve program, in the order of their registration.
pub open spec fn rules() -> Seq<RuleView> {
    seq![
        RuleView {
            program_id: Pubkey { bytes: METEORA_DBC_PROGRAM_ID },
            protocol_type: ProtocolType::MeteoraDBC,
            inner_instruction_discriminator: InnerPattern::Hex(discriminators::TRADE_EVENT@),
            instruction_discriminator: discriminators::SWAP@,
            event_type: EventType::MeteoraDBCSwap,
            inner_instruction_parser: Some(InnerInstructionDecoder::MeteoraDBCTrade),
            instruction_parser: Some(InstructionDecoder::MeteoraDBCSwap),
            requires_inner_instruction: false,
        },
        RuleView {
            program_id: Pubkey { bytes: METEORA_DBC_PROGRAM_ID },
            protocol_type: ProtocolType::MeteoraDBC,
            inner_instruction_discriminator: InnerPattern::Hex(discriminators::TRADE_EVENT@),
            instruction_discriminator: discriminators::SWAP2@,
            event_type: EventType::MeteoraDBCSwap2,
            inner_instruction_parser: Some(InnerInstructionDecoder::MeteoraDBCTrade),
            instruction_parser: Some(InstructionDecoder::MeteoraDBCSwap),
            requires_inner_instruction: false,
        },
    ]
}

/// The programs of the dynamic bonding curve program.
pub open spec fn program_ids() -> Seq<Pubkey> {
    seq![Pubkey { bytes: METEORA_DBC_PROGRAM_ID }]
}

/// The rules of the dynamic bonding curve program.
pub fn configs() -> (v: Vec<GenericEventParseConfig>)
    ensures
        v@.len() == rules().len(),
        forall|i: int| 0 <= i < v@.len() ==> (#[trigger] v@[i])@ == rules()[i],
        forall|i: int| 0 <= i < v@.len() ==> (#[trigger] v@[i]).well_formed(),
{
    let mut v: Vec<GenericEventParseConfig> = Vec::new();
    v.push(
        GenericEventParseConfig {
            program_id: Pubkey { bytes: METEORA_DBC_PROGRAM_ID },
            protocol_type: ProtocolType::MeteoraDBC,
            inner_instruction_discriminator: InnerDiscriminator::hex(discriminators::TRADE_EVENT),
            instruction_discriminator: pattern(discriminators::SWAP),
            event_type: EventType::MeteoraDBCSwap,
            inner_instruction_parser: Some(InnerInstructionDecoder::MeteoraDBCTrade),
            instruction_parser: Some(InstructionDecoder::MeteoraDBCSwap),
            requires_inner_instruction: false,
        },
    );
    v.push(
        GenericEventParseConfig {
            program_id: Pubkey { bytes: METEORA_DBC_PROGRAM_ID },
            protocol_type: ProtocolType::MeteoraDBC,
            inner_instruction_discriminator: InnerDiscriminator::hex(discriminators::TRADE_EVENT),
            instruction_discriminator: pattern(discriminators::SWAP2),
            event_type: EventType::MeteoraDBCSwap2,
            inner_instruction_parser: Some(InnerInstructionDecoder::MeteoraDBCTrade),
            instruction_parser: Some(InstructionDecoder::MeteoraDBCSwap),
            requires_inner_instruction: false,
        },
    );
    v
}

/// The table of the dynamic bonding curve program.
pub fn table() -> (t: GenericEventParser)
    ensures
        t.rules() == rules(),
        t.program_ids@ == program_ids(),
        t.well_formed(),
{
    let mut ids: Vec<Pubkey> = Vec::new();
    ids.push(Pubkey { bytes: METEORA_DBC_PROGRAM_ID });
    let rules = configs();
    let t = GenericEventParser::new(ids, rules).unwrap();
    assert(t.rules() =~= self::rules());
    assert(t.program_ids@ =~= program_ids());
    t
}

/// The direction of a swap: a buy exactly where the account that receives is
/// the associated token account of the payer for the base token.
pub open spec fn swap_direction(payer: Pubkey, base_mint: Pubkey, output: Pubkey) -> TradeDirection {
    if associated_token_address(payer@, base_mint@) == Some(output@) {
        TradeDirection::Buy
    } else {
        TradeDirection::Sell
    }
}

/// The fields that the swap instruction gives: the amount in bytes 0 to 8, the
/// lowest amount out in bytes 8 to 16, the accounts by their position and the
/// direction; no remaining accounts.
pub open spec fn swap_record(
    data: Seq<u8>,
    accounts: Seq<Pubkey>,
    metadata: EventMetadata,
    remaining_accounts: Vec<Pubkey>,
) -> MeteoraDBCSwapEvent {
    MeteoraDBCSwapEvent {
        pool: accounts[0],
        config: accounts[1],
        payer: accounts[9],
        base_mint: accounts[7],
        quote_mint: accounts[8],
        input_token_account: accounts[3],
        output_token_account: accounts[4],
        base_vault: accounts[5],
        quote_vault: accounts[6],
        token_base_program: accounts[10],
        token_quote_program: accounts[11],
        trade_direction: swap_direction(accounts[9], accounts[7], accounts[4]),
        param_amount_in: le_u64(data, 0) as u64,
        param_minimum_amount_out: le_u64(data, 8) as u64,
        amount_in: le_u64(data, 0) as u64,
        ..MeteoraDBCSwapEvent::blank(metadata, remaining_accounts)
    }
}

/// What the swap decoder returns: a record exactly where there are 16 bytes
/// and 15 accounts.
pub open spec fn swap_decoded(
    data: Seq<u8>,
    accounts: Seq<Pubkey>,
    metadata: EventMetadata,
    r: Option<UnifiedEvent>,
) -> bool {
    if data.len() >= 16 && accounts.len() >= 15 {
        &&& r matches Some(UnifiedEvent::MeteoraDBCSwap(e))
        &&& e == swap_record(data, accounts, metadata, e.remaining_accounts)
        &&& e.remaining_accounts@.len() == 0
    } else {
        r.is_none()
    }
}

/// What the decoder of a swap log returns: the logged fields, exactly where
/// the payload is a log record.
pub open spec fn trade_log_decoded(data: Seq<u8>, metadata: EventMetadata, r: Option<UnifiedEvent>) -> bool {
    if MeteoraDBCSwapEvent::log_well_formed(data) {
        &&& r matches Some(UnifiedEvent::MeteoraDBCSwap(e))
        &&& e.is_log_record(data, metadata)
    } else {
        r.is_none()
    }
}

/// Decodes the log record of a swap.
pub fn parse_trade_inner_instruction(data: &[u8], metadata: EventMetadata) -> (r: Option<UnifiedEvent>)
    ensures
        trade_log_decoded(data@, metadata, r),
{
    match MeteoraDBCSwapEvent::from_log(data, metadata) {
        Some(e) => Some(UnifiedEvent::MeteoraDBCSwap(e)),
        None => None,
    }
}

/// Decodes a swap instruction.
pub fn parse_swap_instruction(data: &[u8], accounts: &[Pubkey], metadata: EventMetadata) -> (r: Option<
    UnifiedEvent,
>)
    ensures
        swap_decoded(data@, accounts@, metadata, r),
{
    if data.len() < 16 || accounts.len() < 15 {
        return None;
    }
    let amount_in = read_u64_le(data, 0)?;
    let minimum_amount_out = read_u64_le(data, 8)?;
    let payer = accounts[9];
    let base_mint = accounts[7];
    let output_token_account = accounts[4];
    let direction = match payer.associated_token_account(&base_mint) {
        Some(derived) => {
            proof {
                Pubkey::lemma_equal_by_view();
            }
            if derived.same(&output_token_account) {
                TradeDirection::Buy
            } else {
                TradeDirection::Sell
            }
        },
        None => TradeDirection::Sell,
    };
    let mut e = MeteoraDBCSwapEvent::new(metadata);
    e.pool = accounts[0];
    e.config = accounts[1];
    e.payer = accounts[9];
    e.base_mint = accounts[7];
    e.quote_mint = accounts[8];
    e.input_token_account = accounts[3];
    e.output_token_account = accounts[4];
    e.base_vault = accounts[5];
    e.quote_vault = accounts[6];
    e.token_base_program = accounts[10];
    e.token_quote_program = accounts[11];
    e.trade_direction = direction;
    e.param_amount_in = amount_in;
    e.param_minimum_amount_out = minimum_amount_out;
    e.amount_in = amount_in;
    Some(UnifiedEvent::MeteoraDBCSwap(e))
}

} // verus!
