//! The decoders of the bonding curve program.

use vstd::prelude::*;
use vstd::utf8::{decode_utf8, valid_utf8};
use crate::engine::{
    pattern, GenericEventParseConfig, GenericEventParser, InnerDiscriminator, InnerInstructionDecoder,
    InnerPattern, InstructionDecoder, RuleView,
};
use crate::event::UnifiedEvent;
use crate::metadata::{EventMetadata, EventType, ProtocolType};
use crate::protocols::pumpfun::discriminators;
use crate::transaction::CompiledInstruction;
use crate::protocols::pumpfun::events::{PumpFunCreateTokenEvent, PumpFunTradeEvent};
use crate::pubkey::{base58_text, Pubkey};
use crate::text::{bool_str, bool_text, join4, joined4};
use crate::wire::{
    in_bounds, key_at, le_i64, le_u64, read_i64_le, read_pubkey, read_text, read_text_lossy,
    read_u64_le, text_bytes, text_end, text_fits, utf8_lossy_text,
};

verus! {

/// The bonding curve program.
pub const PUMPFUN_PROGRAM_ID: [u8; 32] = [
    1, 86, 224, 246, 147, 102, 90, 207,
    68, 219, 21, 104, 191, 23, 91, 170,
    81, 137, 203, 151, 245, 210, 255, 59,
    101, 93, 43, 182, 253, 109, 24, 176,
];

/// The rules of the bonding curve program, in the order of their registration.
pub open spec fn rules() -> Seq<RuleView> {
    seq![
        RuleView {
            program_id: Pubkey { bytes: PUMPFUN_PROGRAM_ID },
            protocol_type: ProtocolType::PumpFun,
            inner_instruction_discriminator: InnerPattern::Hex(discriminators::CREATE_TOKEN_EVENT@),
            instruction_discriminator: discriminators::CREATE_TOKEN_IX@,
            event_type: EventType::PumpFunCreateToken,
            inner_instruction_parser: Some(InnerInstructionDecoder::PumpFunCreateToken),
            instruction_parser: Some(InstructionDecoder::PumpFunCreateToken),
            requires_inner_instruction: false,
        },
        RuleView {
            program_id: Pubkey { bytes: PUMPFUN_PROGRAM_ID },
            protocol_type: ProtocolType::PumpFun,
            inner_instruction_discriminator: InnerPattern::Hex(discriminators::TRADE_EVENT@),
            instruction_discriminator: discriminators::BUY_IX@,
            event_type: EventType::PumpFunBuy,
            inner_instruction_parser: Some(InnerInstructionDecoder::PumpFunTrade),
            instruction_parser: Some(InstructionDecoder::PumpFunBuy),
            requires_inner_instruction: false,
        },
        RuleView {
            program_id: Pubkey { bytes: PUMPFUN_PROGRAM_ID },
            protocol_type: ProtocolType::PumpFun,
            inner_instruction_discriminator: InnerPattern::Hex(discriminators::TRADE_EVENT@),
            instruction_discriminator: discriminators::SELL_IX@,
            event_type: EventType::PumpFunSell,
            inner_instruction_parser: Some(InnerInstructionDecoder::PumpFunTrade),
            instruction_parser: Some(InstructionDecoder::PumpFunSell),
            requires_inner_instruction: false,
        },
    ]
}

/// The programs of the bonding curve program.
pub open spec fn program_ids() -> Seq<Pubkey> {
    seq![Pubkey { bytes: PUMPFUN_PROGRAM_ID }]
}

/// The rules of the bonding curve program.
pub fn configs() -> (v: Vec<GenericEventParseConfig>)
    ensures
        v@.len() == rules().len(),
        forall|i: int| 0 <= i < v@.len() ==> (#[trigger] v@[i])@ == rules()[i],
        forall|i: int| 0 <= i < v@.len() ==> (#[trigger] v@[i]).well_formed(),
{
    let mut v: Vec<GenericEventParseConfig> = Vec::new();
    v.push(
        GenericEventParseConfig {
            program_id: Pubkey { bytes: PUMPFUN_PROGRAM_ID },
            protocol_type: ProtocolType::PumpFun,
            inner_instruction_discriminator: InnerDiscriminator::hex(discriminators::CREATE_TOKEN_EVENT),
            instruction_discriminator: pattern(discriminators::CREATE_TOKEN_IX),
            event_type: EventType::PumpFunCreateToken,
            inner_instruction_parser: Some(InnerInstructionDecoder::PumpFunCreateToken),
            instruction_parser: Some(InstructionDecoder::PumpFunCreateToken),
            requires_inner_instruction: false,
        },
    );
    v.push(
        GenericEventParseConfig {
            program_id: Pubkey { bytes: PUMPFUN_PROGRAM_ID },
            protocol_type: ProtocolType::PumpFun,
            inner_instruction_discriminator: InnerDiscriminator::hex(discriminators::TRADE_EVENT),
            instruction_discriminator: pattern(discriminators::BUY_IX),
            event_type: EventType::PumpFunBuy,
            inner_instruction_parser: Some(InnerInstructionDecoder::PumpFunTrade),
            instruction_parser: Some(InstructionDecoder::PumpFunBuy),
            requires_inner_instruction: false,
        },
    );
    v.push(
        GenericEventParseConfig {
            program_id: Pubkey { bytes: PUMPFUN_PROGRAM_ID },
            protocol_type: ProtocolType::PumpFun,
            inner_instruction_discriminator: InnerDiscriminator::hex(discriminators::TRADE_EVENT),
            instruction_discriminator: pattern(discriminators::SELL_IX),
            event_type: EventType::PumpFunSell,
            inner_instruction_parser: Some(InnerInstructionDecoder::PumpFunTrade),
            instruction_parser: Some(InstructionDecoder::PumpFunSell),
            requires_inner_instruction: false,
        },
    );
    v
}

/// The table of the bonding curve program.
pub fn table() -> (t: GenericEventParser)
    ensures
        t.rules() == rules(),
        t.program_ids@ == program_ids(),
        t.well_formed(),
{
    let mut ids: Vec<Pubkey> = Vec::new();
    ids.push(Pubkey { bytes: PUMPFUN_PROGRAM_ID });
    let rules = configs();
    let t = GenericEventParser::new(ids, rules).unwrap();
    assert(t.rules() =~= self::rules());
    assert(t.program_ids@ =~= program_ids());
    t
}

/// The identity of a trade: signature, mint, user and direction.
pub open spec fn trade_identity(signature: Seq<char>, mint: Pubkey, user: Pubkey, is_buy: bool) -> Seq<
    char,
> {
    joined4(signature, base58_text(mint@), base58_text(user@), bool_text(is_buy))
}

/// The identity of a token creation: signature, name, symbol and mint.
pub open spec fn create_identity(
    signature: Seq<char>,
    name: Seq<char>,
    symbol: Seq<char>,
    mint: Pubkey,
) -> Seq<char> {
    joined4(signature, name, symbol, base58_text(mint@))
}

/// The fields that a buy instruction gives: the amount in bytes 0 to 8, the
/// highest cost in bytes 8 to 16, and nine accounts by their position.
pub open spec fn buy_record(data: Seq<u8>, accounts: Seq<Pubkey>, metadata: EventMetadata) -> PumpFunTradeEvent {
    PumpFunTradeEvent {
        fee_recipient: accounts[1],
        mint: accounts[2],
        bonding_curve: accounts[3],
        associated_bonding_curve: accounts[4],
        associated_user: accounts[5],
        user: accounts[6],
        creator_vault: accounts[9],
        global_volume_accumulator: accounts[12],
        user_volume_accumulator: accounts[13],
        max_sol_cost: le_u64(data, 8) as u64,
        amount: le_u64(data, 0) as u64,
        is_buy: true,
        ..PumpFunTradeEvent::blank(metadata)
    }
}

/// What the buy decoder returns: a record exactly where there are 16 bytes
/// and 14 accounts.
pub open spec fn buy_decoded(
    data: Seq<u8>,
    accounts: Seq<Pubkey>,
    metadata: EventMetadata,
    r: Option<UnifiedEvent>,
) -> bool {
    if data.len() >= 16 && accounts.len() >= 14 {
        &&& r matches Some(UnifiedEvent::PumpFunTrade(e))
        &&& e == buy_record(data, accounts, e.metadata)
        &&& e.metadata.is_renamed(metadata)
        &&& e.metadata.id@ == trade_identity(metadata.signature@, accounts[2], accounts[6], true)
    } else {
        r.is_none()
    }
}

/// The fields that a sell instruction gives: the amount in bytes 0 to 8, the
/// lowest output in bytes 8 to 16, and seven accounts by their position.
pub open spec fn sell_record(data: Seq<u8>, accounts: Seq<Pubkey>, metadata: EventMetadata) -> PumpFunTradeEvent {
    PumpFunTradeEvent {
        fee_recipient: accounts[1],
        mint: accounts[2],
        bonding_curve: accounts[3],
        associated_bonding_curve: accounts[4],
        associated_user: accounts[5],
        user: accounts[6],
        creator_vault: accounts[9],
        min_sol_output: le_u64(data, 8) as u64,
        amount: le_u64(data, 0) as u64,
        is_buy: false,
        ..PumpFunTradeEvent::blank(metadata)
    }
}

/// What the sell decoder returns: a record exactly where there are 16 bytes
/// and 11 accounts.
pub open spec fn sell_decoded(
    data: Seq<u8>,
    accounts: Seq<Pubkey>,
    metadata: EventMetadata,
    r: Option<UnifiedEvent>,
) -> bool {
    if data.len() >= 16 && accounts.len() >= 11 {
        &&& r matches Some(UnifiedEvent::PumpFunTrade(e))
        &&& e == sell_record(data, accounts, e.metadata)
        &&& e.metadata.is_renamed(metadata)
        &&& e.metadata.id@ == trade_identity(metadata.signature@, accounts[2], accounts[6], false)
    } else {
        r.is_none()
    }
}

/// What the decoder of a trade log returns: the logged fields under the
/// identity of the trade, exactly where the payload is a log record.
pub open spec fn trade_log_decoded(data: Seq<u8>, metadata: EventMetadata, r: Option<UnifiedEvent>) -> bool {
    if PumpFunTradeEvent::log_well_formed(data) {
        &&& r matches Some(UnifiedEvent::PumpFunTrade(e))
        &&& (PumpFunTradeEvent { metadata, ..e }).is_log_record(data, metadata)
        &&& e.metadata.is_renamed(metadata)
        &&& e.metadata.id@ == trade_identity(metadata.signature@, e.mint, e.user, e.is_buy)
    } else {
        r.is_none()
    }
}

/// Where the name, the symbol and the address of the metadata end in the
/// payload of a creation.
pub open spec fn name_end(data: Seq<u8>) -> int {
    text_end(data, 0)
}

pub open spec fn symbol_end(data: Seq<u8>) -> int {
    text_end(data, name_end(data))
}

pub open spec fn uri_end(data: Seq<u8>) -> int {
    text_end(data, symbol_end(data))
}

/// Whether the three texts of a creation lie inside the payload.
pub open spec fn create_texts_fit(data: Seq<u8>) -> bool {
    &&& text_fits(data, 0)
    &&& text_fits(data, name_end(data))
    &&& text_fits(data, symbol_end(data))
}

/// Whether the create decoder takes the instruction: 16 bytes, 11 accounts,
/// and the three texts inside the payload.
pub open spec fn create_accepts(data: Seq<u8>, accounts: Seq<Pubkey>) -> bool {
    &&& data.len() >= 16
    &&& accounts.len() >= 11
    &&& create_texts_fit(data)
}

/// What the create decoder returns. The three texts are read leniently; the
/// creator is the 32 bytes behind them, or the zero address where fewer
/// follow.
pub open spec fn create_decoded(
    data: Seq<u8>,
    accounts: Seq<Pubkey>,
    metadata: EventMetadata,
    r: Option<UnifiedEvent>,
) -> bool {
    if create_accepts(data, accounts) {
        &&& r matches Some(UnifiedEvent::PumpFunCreateToken(e))
        &&& e.name@ == utf8_lossy_text(text_bytes(data, 0))
        &&& e.symbol@ == utf8_lossy_text(text_bytes(data, name_end(data)))
        &&& e.uri@ == utf8_lossy_text(text_bytes(data, symbol_end(data)))
        &&& (if uri_end(data) + 32 <= data.len() {
            e.creator@ == key_at(data, uri_end(data))
        } else {
            e.creator == Pubkey::zero()
        })
        &&& e == (PumpFunCreateTokenEvent {
            creator: e.creator,
            mint: accounts[0],
            mint_authority: accounts[1],
            bonding_curve: accounts[2],
            associated_bonding_curve: accounts[3],
            user: accounts[7],
            ..PumpFunCreateTokenEvent::blank(e.metadata, e.name, e.symbol, e.uri)
        })
        &&& e.metadata.is_renamed(metadata)
        &&& e.metadata.id@ == create_identity(metadata.signature@, e.name@, e.symbol@, accounts[0])
    } else {
        r.is_none()
    }
}

/// Whether the payload is the log record of a creation: three texts in
/// UTF-8, four addresses and five numbers, and nothing behind them.
pub open spec fn create_log_well_formed(data: Seq<u8>) -> bool {
    &&& create_texts_fit(data)
    &&& valid_utf8(text_bytes(data, 0))
    &&& valid_utf8(text_bytes(data, name_end(data)))
    &&& valid_utf8(text_bytes(data, symbol_end(data)))
    &&& data.len() == uri_end(data) + 168
}

/// What the decoder of a creation log returns.
pub open spec fn create_log_decoded(data: Seq<u8>, metadata: EventMetadata, r: Option<UnifiedEvent>) -> bool {
    if create_log_well_formed(data) {
        let at = uri_end(data);
        &&& r matches Some(UnifiedEvent::PumpFunCreateToken(e))
        &&& e.name@ == decode_utf8(text_bytes(data, 0))
        &&& e.symbol@ == decode_utf8(text_bytes(data, name_end(data)))
        &&& e.uri@ == decode_utf8(text_bytes(data, symbol_end(data)))
        &&& e.mint@ == key_at(data, at)
        &&& e.bonding_curve@ == key_at(data, at + 32)
        &&& e.user@ == key_at(data, at + 64)
        &&& e.creator@ == key_at(data, at + 96)
        &&& e.timestamp == le_i64(data, at + 128)
        &&& e.virtual_token_reserves == le_u64(data, at + 136)
        &&& e.virtual_sol_reserves == le_u64(data, at + 144)
        &&& e.real_token_reserves == le_u64(data, at + 152)
        &&& e.token_total_supply == le_u64(data, at + 160)
        &&& e.mint_authority == Pubkey::zero()
        &&& e.associated_bonding_curve == Pubkey::zero()
        &&& e.metadata.is_renamed(metadata)
        &&& e.metadata.id@ == create_identity(metadata.signature@, e.name@, e.symbol@, e.mint)
    } else {
        r.is_none()
    }
}

/// The parser of the bonding curve program.
#[derive(Clone, Debug)]
pub struct PumpFunEventParser {
    inner: GenericEventParser,
}

impl Default for PumpFunEventParser {
    fn default() -> (p: PumpFunEventParser)
        ensures
            p.table().rules() == rules(),
            p.table().program_ids@ == program_ids(),
    {
        PumpFunEventParser::new()
    }
}

impl PumpFunEventParser {
    /// The table that the parser works on.
    pub closed spec fn table(self) -> GenericEventParser {
        self.inner
    }

    /// A parser with the rules of the program.
    pub fn new() -> (p: PumpFunEventParser)
        ensures
            p.table().rules() == rules(),
            p.table().program_ids@ == program_ids(),
            p.table().well_formed(),
    {
        PumpFunEventParser { inner: table() }
    }

    /// The table that the parser works on.
    pub fn inner(&self) -> (t: &GenericEventParser)
        ensures
            *t == self.table(),
    {
        &self.inner
    }

    /// The events of one inner instruction of a transaction.
    pub fn parse_events_from_inner_instruction(
        &self,
        inner_instruction: &CompiledInstruction,
        accounts: &[Pubkey],
        metadata: EventMetadata,
    ) -> (out: Vec<UnifiedEvent>)
        ensures
            self.table().inner_instruction_events(*inner_instruction, accounts@, metadata, out@),
    {
        self.inner.parse_events_from_inner_instruction(inner_instruction, accounts, metadata)
    }

    /// The events of one instruction of a transaction.
    pub fn parse_events_from_instruction(
        &self,
        instruction: &CompiledInstruction,
        accounts: &[Pubkey],
        metadata: EventMetadata,
    ) -> (out: Vec<UnifiedEvent>)
        ensures
            self.table().instruction_events(*instruction, accounts@, metadata, out@),
    {
        self.inner.parse_events_from_instruction(instruction, accounts, metadata)
    }

    /// Whether the parser takes instructions of this program.
    pub fn should_handle(&self, program_id: &Pubkey) -> (b: bool)
        ensures
            b == self.table().handles(*program_id),
    {
        self.inner.should_handle(program_id)
    }

    /// The programs whose instructions the parser takes.
    pub fn supported_program_ids(&self) -> (ids: Vec<Pubkey>)
        ensures
            ids@ == self.table().program_ids@,
    {
        self.inner.supported_program_ids()
    }

    /// Decodes the log record of a token creation.
    pub fn parse_create_token_inner_instruction(data: &[u8], metadata: EventMetadata) -> (r: Option<
        UnifiedEvent,
    >)
        ensures
            create_log_decoded(data@, metadata, r),
    {
        let (name, at1) = read_text(data, 0)?;
        let (symbol, at2) = read_text(data, at1)?;
        let (uri, at) = read_text(data, at2)?;
        if data.len() - at != 168 {
            return None;
        }
        let mint = read_pubkey(data, at)?;
        let id = join4(
            metadata.signature.as_str(),
            name.as_str(),
            symbol.as_str(),
            mint.base58().as_str(),
        );
        let mut metadata = metadata;
        metadata.set_id(id);
        let mut e = PumpFunCreateTokenEvent::new(metadata);
        e.name = name;
        e.symbol = symbol;
        e.uri = uri;
        e.mint = mint;
        e.bonding_curve = read_pubkey(data, at + 32)?;
        e.user = read_pubkey(data, at + 64)?;
        e.creator = read_pubkey(data, at + 96)?;
        e.timestamp = read_i64_le(data, at + 128)?;
        e.virtual_token_reserves = read_u64_le(data, at + 136)?;
        e.virtual_sol_reserves = read_u64_le(data, at + 144)?;
        e.real_token_reserves = read_u64_le(data, at + 152)?;
        e.token_total_supply = read_u64_le(data, at + 160)?;
        Some(UnifiedEvent::PumpFunCreateToken(e))
    }

    /// Decodes the log record of a trade.
    pub fn parse_trade_inner_instruction(data: &[u8], metadata: EventMetadata) -> (r: Option<UnifiedEvent>)
        ensures
            trade_log_decoded(data@, metadata, r),
    {
        let signature = metadata.signature.clone();
        let mut e = PumpFunTradeEvent::from_log(data, metadata)?;
        let id = join4(
            signature.as_str(),
            e.mint.base58().as_str(),
            e.user.base58().as_str(),
            bool_str(e.is_buy),
        );
        e.metadata.set_id(id);
        Some(UnifiedEvent::PumpFunTrade(e))
    }

    /// Decodes the instruction that creates a token.
    pub fn parse_create_token_instruction(data: &[u8], accounts: &[Pubkey], metadata: EventMetadata) -> (r:
        Option<UnifiedEvent>)
        ensures
            create_decoded(data@, accounts@, metadata, r),
    {
        if data.len() < 16 || accounts.len() < 11 {
            return None;
        }
        let (name, at1) = read_text_lossy(data, 0)?;
        let (symbol, at2) = read_text_lossy(data, at1)?;
        let (uri, at) = read_text_lossy(data, at2)?;
        let creator = match read_pubkey(data, at) {
            Some(p) => p,
            None => Pubkey::default(),
        };
        let id = join4(
            metadata.signature.as_str(),
            name.as_str(),
            symbol.as_str(),
            accounts[0].base58().as_str(),
        );
        let mut metadata = metadata;
        metadata.set_id(id);
        let mut e = PumpFunCreateTokenEvent::new(metadata);
        e.name = name;
        e.symbol = symbol;
        e.uri = uri;
        e.creator = creator;
        e.mint = accounts[0];
        e.mint_authority = accounts[1];
        e.bonding_curve = accounts[2];
        e.associated_bonding_curve = accounts[3];
        e.user = accounts[7];
        Some(UnifiedEvent::PumpFunCreateToken(e))
    }

    /// Decodes a buy instruction.
    pub fn parse_buy_instruction(data: &[u8], accounts: &[Pubkey], metadata: EventMetadata) -> (r: Option<
        UnifiedEvent,
    >)
        ensures
            buy_decoded(data@, accounts@, metadata, r),
    {
        if data.len() < 16 || accounts.len() < 14 {
            return None;
        }
        let amount = read_u64_le(data, 0)?;
        let max_sol_cost = read_u64_le(data, 8)?;
        let id = join4(
            metadata.signature.as_str(),
            accounts[2].base58().as_str(),
            accounts[6].base58().as_str(),
            bool_str(true),
        );
        let mut metadata = metadata;
        metadata.set_id(id);
        let mut e = PumpFunTradeEvent::new(metadata);
        e.fee_recipient = accounts[1];
        e.mint = accounts[2];
        e.bonding_curve = accounts[3];
        e.associated_bonding_curve = accounts[4];
        e.associated_user = accounts[5];
        e.user = accounts[6];
        e.creator_vault = accounts[9];
        e.global_volume_accumulator = accounts[12];
        e.user_volume_accumulator = accounts[13];
        e.max_sol_cost = max_sol_cost;
        e.amount = amount;
        e.is_buy = true;
        Some(UnifiedEvent::PumpFunTrade(e))
    }

    /// Decodes a sell instruction.
    pub fn parse_sell_instruction(data: &[u8], accounts: &[Pubkey], metadata: EventMetadata) -> (r: Option<
        UnifiedEvent,
    >)
        ensures
            sell_decoded(data@, accounts@, metadata, r),
    {
        if data.len() < 16 || accounts.len() < 11 {
            return None;
        }
        let amount = read_u64_le(data, 0)?;
        let min_sol_output = read_u64_le(data, 8)?;
        let id = join4(
            metadata.signature.as_str(),
            accounts[2].base58().as_str(),
            accounts[6].base58().as_str(),
            bool_str(false),
        );
        let mut metadata = metadata;
        metadata.set_id(id);
        let mut e = PumpFunTradeEvent::new(metadata);
        e.fee_recipient = accounts[1];
        e.mint = accounts[2];
        e.bonding_curve = accounts[3];
        e.associated_bonding_curve = accounts[4];
        e.associated_user = accounts[5];
        e.user = accounts[6];
        e.creator_vault = accounts[9];
        e.min_sol_output = min_sol_output;
        e.amount = amount;
        e.is_buy = false;
        Some(UnifiedEvent::PumpFunTrade(e))
    }
}

} // verus!
