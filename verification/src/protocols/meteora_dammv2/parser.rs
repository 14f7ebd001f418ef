//! The decoders of the dynamic market maker program.

use vstd::prelude::*;
use crate::engine::{
    pattern, GenericEventParseConfig, GenericEventParser, InnerDiscriminator, InnerInstructionDecoder,
    InnerPattern, InstructionDecoder, RuleView,
};
use crate::event::UnifiedEvent;
use crate::metadata::{EventMetadata, EventType, ProtocolType};
use crate::pubkey::Pubkey;
use crate::protocols::meteora_dammv2::discriminators;
use crate::protocols::meteora_dammv2::events::MeteoraDAMMv2SwapEvent;
use crate::protocols::meteora_dbc::types::TradeDirection;
use crate::pubkey::associated_token_address;
use crate::wire::{le_u64, read_u64_le};

verus! {

/// The dynamic market maker program.
pub const METEORA_DAMM_V2_PROGRAM_ID: [u8; 32] = [
    9, 45, 33, 53, 101, 122, 21, 156,
    43, 135, 212, 182, 106, 112, 219, 142,
    151, 82, 56, 159, 247, 106, 175, 32,
    108, 237, 6, 58, 56, 249, 90, 237,
];

/// The rules of the dynamic market maker program, in the order of their registration.
pub open spec fn rules() -> Seq<RuleView> {
    seq![
        RuleView {
            program_id: Pubkey { bytes: METEORA_DAMM_V2_PROGRAM_ID },
            protocol_type: ProtocolType::MeteoraDAMMv2,
            inner_instruction_discriminator: InnerPattern::Hex(discriminators::TRADE_EVENT@),
            instruction_discriminator: discriminators::SWAP@,
            event_type: EventType::MeteoraDAMMv2Swap,
            inner_instruction_parser: Some(InnerInstructionDecoder::MeteoraDAMMv2Trade),
            instruction_parser: Some(InstructionDecoder::MeteoraDAMMv2Swap),
            requires_inner_instruction: false,
        },
    ]
}

/// The programs of the dynamic market maker program.
pub open spec fn program_ids() -> Seq<Pubkey> {
    seq![Pubkey { bytes: METEORA_DAMM_V2_PROGRAM_ID }]
}

/// The rules of the dynamic market maker program.
pub fn configs() -> (v: Vec<GenericEventParseConfig>)
    ensures
        v@.len() == rules().len(),
        forall|i: int| 0 <= i < v@.len() ==> (#[trigger] v@[i])@ == rules()[i],
        forall|i: int| 0 <= i < v@.len() ==> (#[trigger] v@[i]).well_formed(),
{
    let mut v: Vec<GenericEventParseConfig> = Vec::new();
    v.push(
        GenericEventParseConfig {
            program_id: Pubkey { bytes: METEORA_DAMM_V2_PROGRAM_ID },
            protocol_type: ProtocolType::MeteoraDAMMv2,
            inner_instruction_discriminator: InnerDiscriminator::hex(discriminators::TRADE_EVENT),
            instruction_discriminator: pattern(discriminators::SWAP),
            event_type: EventType::MeteoraDAMMv2Swap,
            inner_instruction_parser: Some(InnerInstructionDecoder::MeteoraDAMMv2Trade),
            instruction_parser: Some(InstructionDecoder::MeteoraDAMMv2Swap),
            requires_inner_instruction: false,
        },
    );
    v
}

/// The table of the dynamic market maker program.
pub fn table() -> (t: GenericEventParser)
    ensures
        t.rules() == rules(),
        t.program_ids@ == program_ids(),
        t.well_formed(),
{
    let mut ids: Vec<Pubkey> = Vec::new();
    ids.push(Pubkey { bytes: METEORA_DAMM_V2_PROGRAM_ID });
    let rules = configs();
    let t = GenericEventParser::new(ids, rules).unwrap();
    assert(t.rules() =~= self::rules());
    assert(t.program_ids@ =~= program_ids());
    t
}

/// The direction of a swap: a buy exactly where the account that receives is
/// the associated token account of the payer for the base token.
pub open spec fn swap_direction(payer: Pubkey, base_mint: Pubkey, output: Pubkey) -> TradeDirection {
    if associated_token_address(payer@, base_mint@) == Some(output@) {
        TradeDirection::Buy
    } else {
        TradeDirection::Sell
    }
}

/// The fields that the swap instruction gives: the amount in bytes 0 to 8, the
/// lowest amount out in bytes 8 to 16, the accounts by their position and the
/// direction; no remaining accounts.
pub open spec fn swap_record(
    data: Seq<u8>,
    accounts: Seq<Pubkey>,
    metadata: EventMetadata,
    remaining_accounts: Vec<Pubkey>,
) -> MeteoraDAMMv2SwapEvent {
    MeteoraDAMMv2SwapEvent {
        pool: accounts[1],
        payer: accounts[8],
        token_a_mint: accounts[6],
        token_b_mint: accounts[7],
        input_token_account: accounts[2],
        output_token_account: accounts[3],
        token_a_vault: accounts[4],
        token_b_vault: accounts[5],
        token_a_program: accounts[9],
        token_b_program: accounts[10],
        trade_direction: swap_direction(accounts[8], accounts[6], accounts[3]),
        param_amount_in: le_u64(data, 0) as u64,
        param_minimum_amount_out: le_u64(data, 8) as u64,
        amount_in: le_u64(data, 0) as u64,
        ..MeteoraDAMMv2SwapEvent::blank(metadata, remaining_accounts)
    }
}

/// What the swap decoder returns: a record exactly where there are 16 bytes
/// and 14 accounts.
pub open spec fn swap_decoded(
    data: Seq<u8>,
    accounts: Seq<Pubkey>,
    metadata: EventMetadata,
    r: Option<UnifiedEvent>,
) -> bool {
    if data.len() >= 16 && accounts.len() >= 14 {
        &&& r matches Some(UnifiedEvent::MeteoraDAMMv2Swap(e))
        &&& e == swap_record(data, accounts, metadata, e.remaining_accounts)
        &&& e.remaining_accounts@.len() == 0
    } else {
        r.is_none()
    }
}

/// What the decoder of a swap log returns: the logged fields, exactly where
/// the payload is a log record.
pub open spec fn trade_log_decoded(data: Seq<u8>, metadata: EventMetadata, r: Option<UnifiedEvent>) -> bool {
    if MeteoraDAMMv2SwapEvent::log_well_formed(data) {
        &&& r matches Some(UnifiedEvent::MeteoraDAMMv2Swap(e))
        &&& e.is_log_record(data, metadata)
    } else {
        r.is_none()
    }
}

/// Decodes the log record of a swap.
pub fn parse_trade_inner_instruction(data: &[u8], metadata: EventMetadata) -> (r: Option<UnifiedEvent>)
    ensures
        trade_log_decoded(data@, metadata, r),
{
    match MeteoraDAMMv2SwapEvent::from_log(data, metadata) {
        Some(e) => Some(UnifiedEvent::MeteoraDAMMv2Swap(e)),
        None => None,
    }
}

/// Decodes a swap instruction.
pub fn parse_swap_instruction(data: &[u8], accounts: &[Pubkey], metadata: EventMetadata) -> (r: Option<
    UnifiedEvent,
>)
    ensures
        swap_decoded(data@, accounts@, metadata, r),
{
    if data.len() < 16 || accounts.len() < 14 {
        return None;
    }
    let amount_in = read_u64_le(data, 0)?;
    let minimum_amount_out = read_u64_le(data, 8)?;
    let payer = accounts[8];
    let base_mint = accounts[6];
    let output_token_account = accounts[3];
    let direction = match payer.associated_token_account(&base_mint) {
        Some(derived) => {
            proof {
                Pubkey::lemma_equal_by_view();
            }
            if derived.same(&output_token_account) {
                TradeDirection::Buy
            } else {
                TradeDirection::Sell
            }
        },
        None => TradeDirection::Sell,
    };
    let mut e = MeteoraDAMMv2SwapEvent::new(metadata);
    e.pool = accounts[1];
    e.payer = accounts[8];
    e.token_a_mint = accounts[6];
    e.token_b_mint = accounts[7];
    e.input_token_account = accounts[2];
    e.output_token_account = accounts[3];
    e.token_a_vault = accounts[4];
    e.token_b_vault = accounts[5];
    e.token_a_program = accounts[9];
    e.token_b_program = accounts[10];
    e.trade_direction = direction;
    e.param_amount_in = amount_in;
    e.param_minimum_amount_out = minimum_amount_out;
    e.amount_in = amount_in;
    Some(UnifiedEvent::MeteoraDAMMv2Swap(e))
}

} // verus!
