//! The decoders of the Photon router.

use vstd::prelude::*;
use crate::engine::{
    pattern, GenericEventParseConfig, GenericEventParser, InnerDiscriminator, InnerInstructionDecoder,
    InnerPattern, InstructionDecoder, RuleView,
};
use crate::event::UnifiedEvent;
use crate::metadata::{EventMetadata, EventType, ProtocolType};
use crate::pubkey::Pubkey;
use crate::transaction::CompiledInstruction;
use crate::protocols::photon::discriminators;
use crate::protocols::photon::events::{PhotonPumpFunTradeEvent, PhotonPumpSwapTradeEvent};
use crate::protocols::pumpfun::events::PumpFunTradeEvent;
use crate::pubkey::associated_token_address;
use crate::wire::{account_or_default, le_u64, read_u64_le};

verus! {

/// The Photon router.
pub const PHOTON_PROGRAM_ID: [u8; 32] = [
    155, 39, 151, 140, 221, 135, 61, 190,
    217, 91, 118, 52, 31, 230, 158, 177,
    12, 83, 125, 252, 6, 107, 246, 248,
    88, 67, 180, 116, 212, 23, 50, 241,
];

/// The rules of the Photon router, in the order of their registration.
pub open spec fn rules() -> Seq<RuleView> {
    seq![
        RuleView {
            program_id: Pubkey { bytes: PHOTON_PROGRAM_ID },
            protocol_type: ProtocolType::PhotonProtocol,
            inner_instruction_discriminator: InnerPattern::Bytes(Seq::<u8>::empty()),
            instruction_discriminator: discriminators::PHOTON_PUMPFUN_BUY_IX@,
            event_type: EventType::PhotonPumpFunBuy,
            inner_instruction_parser: None,
            instruction_parser: Some(InstructionDecoder::PhotonPumpFunBuy),
            requires_inner_instruction: false,
        },
        RuleView {
            program_id: Pubkey { bytes: PHOTON_PROGRAM_ID },
            protocol_type: ProtocolType::PhotonProtocol,
            inner_instruction_discriminator: InnerPattern::Bytes(Seq::<u8>::empty()),
            instruction_discriminator: discriminators::PHOTON_PUMPFUN_SELL_IX@,
            event_type: EventType::PhotonPumpFunSell,
            inner_instruction_parser: None,
            instruction_parser: Some(InstructionDecoder::PhotonPumpFunSell),
            requires_inner_instruction: false,
        },
        RuleView {
            program_id: Pubkey { bytes: PHOTON_PROGRAM_ID },
            protocol_type: ProtocolType::PhotonProtocol,
            inner_instruction_discriminator: InnerPattern::Bytes(Seq::<u8>::empty()),
            instruction_discriminator: discriminators::PHOTON_PUMPSWAP_TRADE_IX@,
            event_type: EventType::PhotonPumpSwapTrade,
            inner_instruction_parser: None,
            instruction_parser: Some(InstructionDecoder::PhotonPumpSwapTrade),
            requires_inner_instruction: false,
        },
    ]
}

/// The programs of the Photon router.
pub open spec fn program_ids() -> Seq<Pubkey> {
    seq![Pubkey { bytes: PHOTON_PROGRAM_ID }]
}

/// The rules of the Photon router.
pub fn configs() -> (v: Vec<GenericEventParseConfig>)
    ensures
        v@.len() == rules().len(),
        forall|i: int| 0 <= i < v@.len() ==> (#[trigger] v@[i])@ == rules()[i],
        forall|i: int| 0 <= i < v@.len() ==> (#[trigger] v@[i]).well_formed(),
{
    let mut v: Vec<GenericEventParseConfig> = Vec::new();
    v.push(
        GenericEventParseConfig {
            program_id: Pubkey { bytes: PHOTON_PROGRAM_ID },
            protocol_type: ProtocolType::PhotonProtocol,
            inner_instruction_discriminator: InnerDiscriminator::none(),
            instruction_discriminator: pattern(discriminators::PHOTON_PUMPFUN_BUY_IX),
            event_type: EventType::PhotonPumpFunBuy,
            inner_instruction_parser: None,
            instruction_parser: Some(InstructionDecoder::PhotonPumpFunBuy),
            requires_inner_instruction: false,
        },
    );
    v.push(
        GenericEventParseConfig {
            program_id: Pubkey { bytes: PHOTON_PROGRAM_ID },
            protocol_type: ProtocolType::PhotonProtocol,
            inner_instruction_discriminator: InnerDiscriminator::none(),
            instruction_discriminator: pattern(discriminators::PHOTON_PUMPFUN_SELL_IX),
            event_type: EventType::PhotonPumpFunSell,
            inner_instruction_parser: None,
            instruction_parser: Some(InstructionDecoder::PhotonPumpFunSell),
            requires_inner_instruction: false,
        },
    );
    v.push(
        GenericEventParseConfig {
            program_id: Pubkey { bytes: PHOTON_PROGRAM_ID },
            protocol_type: ProtocolType::PhotonProtocol,
            inner_instruction_discriminator: InnerDiscriminator::none(),
            instruction_discriminator: pattern(discriminators::PHOTON_PUMPSWAP_TRADE_IX),
            event_type: EventType::PhotonPumpSwapTrade,
            inner_instruction_parser: None,
            instruction_parser: Some(InstructionDecoder::PhotonPumpSwapTrade),
            requires_inner_instruction: false,
        },
    );
    v
}

/// The table of the Photon router.
pub fn table() -> (t: GenericEventParser)
    ensures
        t.rules() == rules(),
        t.program_ids@ == program_ids(),
        t.well_formed(),
{
    let mut ids: Vec<Pubkey> = Vec::new();
    ids.push(Pubkey { bytes: PHOTON_PROGRAM_ID });
    let rules = configs();
    let t = GenericEventParser::new(ids, rules).unwrap();
    assert(t.rules() =~= self::rules());
    assert(t.program_ids@ =~= program_ids());
    t
}

/// The fields that a buy on the bonding curve gives: the highest cost in
/// bytes 8 to 16, the amount in bytes 16 to 24, and nine accounts by their
/// position.
pub open spec fn pumpfun_buy_record(data: Seq<u8>, accounts: Seq<Pubkey>, metadata: EventMetadata) -> PhotonPumpFunTradeEvent {
    PhotonPumpFunTradeEvent {
        fee_recipient: accounts[1],
        mint: accounts[3],
        bonding_curve: accounts[4],
        associated_bonding_curve: accounts[5],
        associated_user: accounts[6],
        user: accounts[7],
        creator_vault: accounts[14],
        global_volume_accumulator: accounts[15],
        user_volume_accumulator: accounts[16],
        max_sol_cost: le_u64(data, 8) as u64,
        amount: le_u64(data, 16) as u64,
        is_buy: true,
        ..PhotonPumpFunTradeEvent::blank(metadata)
    }
}

/// What the decoder of a buy on the bonding curve returns: a record exactly
/// where there are 32 bytes and 17 accounts.
pub open spec fn pumpfun_buy_decoded(
    data: Seq<u8>,
    accounts: Seq<Pubkey>,
    metadata: EventMetadata,
    r: Option<UnifiedEvent>,
) -> bool {
    if data.len() >= 32 && accounts.len() >= 17 {
        r == Some(UnifiedEvent::PhotonPumpFunTrade(pumpfun_buy_record(data, accounts, metadata)))
    } else {
        r.is_none()
    }
}

/// The fields that a sell on the bonding curve gives: the amount in bytes 8 to
/// 16, the lowest output in bytes 16 to 24, and seven accounts by their
/// position.
pub open spec fn pumpfun_sell_record(data: Seq<u8>, accounts: Seq<Pubkey>, metadata: EventMetadata) -> PumpFunTradeEvent {
    PumpFunTradeEvent {
        fee_recipient: accounts[1],
        mint: accounts[3],
        bonding_curve: accounts[4],
        associated_bonding_curve: accounts[5],
        associated_user: accounts[6],
        user: accounts[7],
        creator_vault: accounts[14],
        min_sol_output: le_u64(data, 16) as u64,
        amount: le_u64(data, 8) as u64,
        is_buy: false,
        ..PumpFunTradeEvent::blank(metadata)
    }
}

/// What the decoder of a sell on the bonding curve returns: a record exactly
/// where there are 32 bytes and 15 accounts.
pub open spec fn pumpfun_sell_decoded(
    data: Seq<u8>,
    accounts: Seq<Pubkey>,
    metadata: EventMetadata,
    r: Option<UnifiedEvent>,
) -> bool {
    if data.len() >= 32 && accounts.len() >= 15 {
        r == Some(UnifiedEvent::PumpFunTrade(pumpfun_sell_record(data, accounts, metadata)))
    } else {
        r.is_none()
    }
}

/// Whether a pool trade is a buy: the account that receives is the
/// associated token account of the user for the base token.
pub open spec fn pumpswap_is_buy(accounts: Seq<Pubkey>) -> bool {
    associated_token_address(accounts[1]@, accounts[3]@) == Some(accounts[6]@)
}

/// The fields that every pool trade gives.
pub open spec fn pumpswap_common(accounts: Seq<Pubkey>, metadata: EventMetadata) -> PhotonPumpSwapTradeEvent {
    PhotonPumpSwapTradeEvent {
        pool: accounts[0],
        user: accounts[1],
        base_mint: accounts[3],
        quote_mint: accounts[4],
        pool_base_token_account: accounts[7],
        pool_quote_token_account: accounts[8],
        protocol_fee_recipient: accounts[9],
        protocol_fee_recipient_token_account: accounts[10],
        coin_creator_vault_ata: accounts[17],
        coin_creator_vault_authority: accounts[18],
        ..PhotonPumpSwapTradeEvent::blank(metadata)
    }
}

/// The fields that a pool trade gives. A buy has the highest quote amount in
/// bytes 0 to 8 and the base amount in bytes 8 to 16; the user receives the
/// base token. A sell has the base amount in bytes 0 to 8 and the lowest
/// quote amount in bytes 8 to 16; the user receives the quote token, and the
/// two volume accounts are known.
pub open spec fn pumpswap_trade_record(data: Seq<u8>, accounts: Seq<Pubkey>, metadata: EventMetadata) -> PhotonPumpSwapTradeEvent {
    if pumpswap_is_buy(accounts) {
        PhotonPumpSwapTradeEvent {
            base_amount_out: le_u64(data, 8) as u64,
            max_quote_amount_in: le_u64(data, 0) as u64,
            is_buy: true,
            user_base_token_account: accounts[6],
            user_quote_token_account: accounts[5],
            ..pumpswap_common(accounts, metadata)
        }
    } else {
        PhotonPumpSwapTradeEvent {
            base_amount_in: le_u64(data, 0) as u64,
            min_quote_amount_out: le_u64(data, 8) as u64,
            is_buy: false,
            user_base_token_account: accounts[5],
            user_quote_token_account: accounts[6],
            global_volume_accumulator: accounts[19],
            user_volume_accumulator: accounts[20],
            ..pumpswap_common(accounts, metadata)
        }
    }
}

/// What the decoder of a pool trade returns: a record exactly where there
/// are 16 bytes and 21 accounts.
pub open spec fn pumpswap_trade_decoded(
    data: Seq<u8>,
    accounts: Seq<Pubkey>,
    metadata: EventMetadata,
    r: Option<UnifiedEvent>,
) -> bool {
    if data.len() >= 16 && accounts.len() >= 21 {
        r == Some(UnifiedEvent::PhotonPumpSwapTrade(pumpswap_trade_record(data, accounts, metadata)))
    } else {
        r.is_none()
    }
}

/// The parser of the Photon router.
#[derive(Clone, Debug)]
pub struct PhotonEventParser {
    inner: GenericEventParser,
}

impl Default for PhotonEventParser {
    fn default() -> (p: PhotonEventParser)
        ensures
            p.table().rules() == rules(),
            p.table().program_ids@ == program_ids(),
    {
        PhotonEventParser::new()
    }
}

impl PhotonEventParser {
    /// The table that the parser works on.
    pub closed spec fn table(self) -> GenericEventParser {
        self.inner
    }

    /// A parser with the rules of the program.
    pub fn new() -> (p: PhotonEventParser)
        ensures
            p.table().rules() == rules(),
            p.table().program_ids@ == program_ids(),
            p.table().well_formed(),
    {
        PhotonEventParser { inner: table() }
    }

    /// The table that the parser works on.
    pub fn inner(&self) -> (t: &GenericEventParser)
        ensures
            *t == self.table(),
    {
        &self.inner
    }

    /// The events of one inner instruction of a transaction.
    pub fn parse_events_from_inner_instruction(
        &self,
        inner_instruction: &CompiledInstruction,
        accounts: &[Pubkey],
        metadata: EventMetadata,
    ) -> (out: Vec<UnifiedEvent>)
        ensures
            self.table().inner_instruction_events(*inner_instruction, accounts@, metadata, out@),
    {
        self.inner.parse_events_from_inner_instruction(inner_instruction, accounts, metadata)
    }

    /// The events of one instruction of a transaction.
    pub fn parse_events_from_instruction(
        &self,
        instruction: &CompiledInstruction,
        accounts: &[Pubkey],
        metadata: EventMetadata,
    ) -> (out: Vec<UnifiedEvent>)
        ensures
            self.table().instruction_events(*instruction, accounts@, metadata, out@),
    {
        self.inner.parse_events_from_instruction(instruction, accounts, metadata)
    }

    /// Whether the parser takes instructions of this program.
    pub fn should_handle(&self, program_id: &Pubkey) -> (b: bool)
        ensures
            b == self.table().handles(*program_id),
    {
        self.inner.should_handle(program_id)
    }

    /// The programs whose instructions the parser takes.
    pub fn supported_program_ids(&self) -> (ids: Vec<Pubkey>)
        ensures
            ids@ == self.table().program_ids@,
    {
        self.inner.supported_program_ids()
    }

    /// The router logs nothing that is decoded for a trade on the bonding curve.
    pub fn parse_pumpfun_trade_inner_instruction(data: &[u8], metadata: EventMetadata) -> (r: Option<UnifiedEvent>)
        ensures
            r.is_none(),
    {
        None
    }

    /// The router logs nothing that is decoded for a trade on a pool.
    pub fn parse_pumpswap_inner_instruction(data: &[u8], metadata: EventMetadata) -> (r: Option<UnifiedEvent>)
        ensures
            r.is_none(),
    {
        None
    }

    /// Decodes a buy on the bonding curve.
    pub fn parse_photon_pumpfun_buy_instruction(data: &[u8], accounts: &[Pubkey], metadata: EventMetadata) -> (r:
        Option<UnifiedEvent>)
        ensures
            pumpfun_buy_decoded(data@, accounts@, metadata, r),
    {
        if data.len() < 32 || accounts.len() < 17 {
            return None;
        }
        let amount = read_u64_le(data, 16)?;
        let max_sol_cost = read_u64_le(data, 8)?;
        let mut e = PhotonPumpFunTradeEvent::new(metadata);
        e.fee_recipient = accounts[1];
        e.mint = accounts[3];
        e.bonding_curve = accounts[4];
        e.associated_bonding_curve = accounts[5];
        e.associated_user = accounts[6];
        e.user = accounts[7];
        e.creator_vault = accounts[14];
        e.global_volume_accumulator = accounts[15];
        e.user_volume_accumulator = accounts[16];
        e.max_sol_cost = max_sol_cost;
        e.amount = amount;
        e.is_buy = true;
        Some(UnifiedEvent::PhotonPumpFunTrade(e))
    }

    /// Decodes a sell on the bonding curve.
    pub fn parse_photon_pumpfun_sell_instruction(data: &[u8], accounts: &[Pubkey], metadata: EventMetadata) -> (r:
        Option<UnifiedEvent>)
        ensures
            pumpfun_sell_decoded(data@, accounts@, metadata, r),
    {
        if data.len() < 32 || accounts.len() < 15 {
            return None;
        }
        let amount = read_u64_le(data, 8)?;
        let min_sol_output = read_u64_le(data, 16)?;
        let mut e = PumpFunTradeEvent::new(metadata);
        e.fee_recipient = accounts[1];
        e.mint = accounts[3];
        e.bonding_curve = accounts[4];
        e.associated_bonding_curve = accounts[5];
        e.associated_user = accounts[6];
        e.user = accounts[7];
        e.creator_vault = accounts[14];
        e.min_sol_output = min_sol_output;
        e.amount = amount;
        e.is_buy = false;
        Some(UnifiedEvent::PumpFunTrade(e))
    }

    /// Decodes a trade on a pool.
    pub fn parse_photon_pumpswap_trade_instruction(data: &[u8], accounts: &[Pubkey], metadata: EventMetadata) -> (r:
        Option<UnifiedEvent>)
        ensures
            pumpswap_trade_decoded(data@, accounts@, metadata, r),
    {
        if data.len() < 16 || accounts.len() < 21 {
            return None;
        }
        let user = accounts[1];
        let base_mint = accounts[3];
        let quote_mint = accounts[4];
        let input_token_account = accounts[5];
        let output_token_account = accounts[6];
        let is_buy = match user.associated_token_account(&base_mint) {
            Some(derived) => {
                proof {
                    Pubkey::lemma_equal_by_view();
                }
                derived.same(&output_token_account)
            },
            None => false,
        };
        let first = read_u64_le(data, 0)?;
        let second = read_u64_le(data, 8)?;
        let mut e = PhotonPumpSwapTradeEvent::new(metadata);
        e.is_buy = is_buy;
        e.pool = accounts[0];
        e.user = user;
        e.base_mint = base_mint;
        e.quote_mint = quote_mint;
        e.pool_base_token_account = accounts[7];
        e.pool_quote_token_account = accounts[8];
        e.protocol_fee_recipient = accounts[9];
        e.protocol_fee_recipient_token_account = accounts[10];
        e.coin_creator_vault_ata = account_or_default(accounts, 17);
        e.coin_creator_vault_authority = account_or_default(accounts, 18);
        if is_buy {
            e.max_quote_amount_in = first;
            e.base_amount_out = second;
            e.user_base_token_account = output_token_account;
            e.user_quote_token_account = input_token_account;
        } else {
            e.base_amount_in = first;
            e.min_quote_amount_out = second;
            e.user_base_token_account = input_token_account;
            e.user_quote_token_account = output_token_account;
            e.global_volume_accumulator = account_or_default(accounts, 19);
            e.user_volume_accumulator = account_or_default(accounts, 20);
        }
        Some(UnifiedEvent::PhotonPumpSwapTrade(e))
    }
}

} // verus!
