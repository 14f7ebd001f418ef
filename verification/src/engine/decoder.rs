//! The decoders, by name: which function reads the payload of which rule.

use vstd::prelude::*;
use crate::event::UnifiedEvent;
use crate::metadata::EventMetadata;
use crate::protocols::axiom1::parser::AxiomEventParser;
use crate::protocols::axiom2::parser::Axiom2EventParser;
use crate::protocols::meteora_dammv2;
use crate::protocols::meteora_dbc;
use crate::protocols::photon::parser::PhotonEventParser;
use crate::protocols::prog6hb1v::parser::Prog6HB1VEventParser;
use crate::protocols::prog_f5tfv::parser::F5tfvEventParser;
use crate::protocols::pumpfun::parser::PumpFunEventParser;
use crate::pubkey::Pubkey;

verus! {

/// The decoders of instructions, by name.
#[derive(Clone, Copy, Debug, PartialEq, Eq, Structural, Hash)]
pub enum InstructionDecoder {
    PumpFunCreateToken,
    PumpFunBuy,
    PumpFunSell,
    AxiomPumpFunBuy,
    F5tfvPumpFunBuy,
    AxiomPumpSwapBuy,
    Prog6HB1VPumpSwapBuy,
    PhotonPumpFunBuy,
    PhotonPumpFunSell,
    PhotonPumpSwapTrade,
    MeteoraDBCSwap,
    MeteoraDAMMv2Swap,
}

/// The decoders of log records, by name.
#[derive(Clone, Copy, Debug, PartialEq, Eq, Structural, Hash)]
pub enum InnerInstructionDecoder {
    PumpFunCreateToken,
    PumpFunTrade,
    MeteoraDBCTrade,
    MeteoraDAMMv2Trade,
}

impl InstructionDecoder {
    /// What the decoder returns for a payload, an account list and an
    /// envelope.
    pub open spec fn decoded(
        self,
        data: Seq<u8>,
        accounts: Seq<Pubkey>,
        metadata: EventMetadata,
        r: Option<UnifiedEvent>,
    ) -> bool {
        match self {
            InstructionDecoder::PumpFunCreateToken => crate::protocols::pumpfun::parser::create_decoded(
                data,
                accounts,
                metadata,
                r,
            ),
            InstructionDecoder::PumpFunBuy => crate::protocols::pumpfun::parser::buy_decoded(
                data,
                accounts,
                metadata,
                r,
            ),
            InstructionDecoder::PumpFunSell => crate::protocols::pumpfun::parser::sell_decoded(
                data,
                accounts,
                metadata,
                r,
            ),
            InstructionDecoder::AxiomPumpFunBuy => crate::protocols::axiom1::parser::buy_decoded(
                data,
                accounts,
                metadata,
                r,
            ),
            InstructionDecoder::F5tfvPumpFunBuy => crate::protocols::prog_f5tfv::parser::buy_decoded(
                data,
                accounts,
                metadata,
                r,
            ),
            InstructionDecoder::AxiomPumpSwapBuy => crate::protocols::axiom2::parser::buy_decoded(
                data,
                accounts,
                metadata,
                r,
            ),
            InstructionDecoder::Prog6HB1VPumpSwapBuy => crate::protocols::prog6hb1v::parser::buy_decoded(
                data,
                accounts,
                metadata,
                r,
            ),
            InstructionDecoder::PhotonPumpFunBuy => crate::protocols::photon::parser::pumpfun_buy_decoded(
                data,
                accounts,
                metadata,
                r,
            ),
            InstructionDecoder::PhotonPumpFunSell => crate::protocols::photon::parser::pumpfun_sell_decoded(
                data,
                accounts,
                metadata,
                r,
            ),
            InstructionDecoder::PhotonPumpSwapTrade => crate::protocols::photon::parser::pumpswap_trade_decoded(
                data,
                accounts,
                metadata,
                r,
            ),
            InstructionDecoder::MeteoraDBCSwap => meteora_dbc::parser::swap_decoded(data, accounts, metadata, r),
            InstructionDecoder::MeteoraDAMMv2Swap => meteora_dammv2::parser::swap_decoded(
                data,
                accounts,
                metadata,
                r,
            ),
        }
    }

    /// The fewest payload bytes that the decoder takes.
    pub open spec fn min_data_len(self) -> int {
        match self {
            InstructionDecoder::PhotonPumpFunBuy | InstructionDecoder::PhotonPumpFunSell => 32,
            _ => 16,
        }
    }

    /// The fewest accounts that the decoder takes.
    pub open spec fn min_accounts(self) -> int {
        match self {
            InstructionDecoder::PumpFunCreateToken => 11,
            InstructionDecoder::PumpFunBuy => 14,
            InstructionDecoder::PumpFunSell => 11,
            InstructionDecoder::AxiomPumpFunBuy => 14,
            InstructionDecoder::F5tfvPumpFunBuy => 14,
            InstructionDecoder::AxiomPumpSwapBuy => 19,
            InstructionDecoder::Prog6HB1VPumpSwapBuy => 19,
            InstructionDecoder::PhotonPumpFunBuy => 17,
            InstructionDecoder::PhotonPumpFunSell => 15,
            InstructionDecoder::PhotonPumpSwapTrade => 21,
            InstructionDecoder::MeteoraDBCSwap => 15,
            InstructionDecoder::MeteoraDAMMv2Swap => 14,
        }
    }

    /// Runs the decoder.
    pub fn decode(&self, data: &[u8], accounts: &[Pubkey], metadata: EventMetadata) -> (r: Option<
        UnifiedEvent,
    >)
        ensures
            self.decoded(data@, accounts@, metadata, r),
    {
        match self {
            InstructionDecoder::PumpFunCreateToken => PumpFunEventParser::parse_create_token_instruction(
                data,
                accounts,
                metadata,
            ),
            InstructionDecoder::PumpFunBuy => PumpFunEventParser::parse_buy_instruction(
                data,
                accounts,
                metadata,
            ),
            InstructionDecoder::PumpFunSell => PumpFunEventParser::parse_sell_instruction(
                data,
                accounts,
                metadata,
            ),
            InstructionDecoder::AxiomPumpFunBuy => AxiomEventParser::parse_axiom_pumpfun_buy_instruction(
                data,
                accounts,
                metadata,
            ),
            InstructionDecoder::F5tfvPumpFunBuy => F5tfvEventParser::parse_prog_f5tfv_pumpfun_buy_instruction(
                data,
                accounts,
                metadata,
            ),
            InstructionDecoder::AxiomPumpSwapBuy => Axiom2EventParser::parse_axiom_pumpswap_buy_instruction(
                data,
                accounts,
                metadata,
            ),
            InstructionDecoder::Prog6HB1VPumpSwapBuy => Prog6HB1VEventParser::parse_prog6hb1v_pumpswap_buy_instruction(
                data,
                accounts,
                metadata,
            ),
            InstructionDecoder::PhotonPumpFunBuy => PhotonEventParser::parse_photon_pumpfun_buy_instruction(
                data,
                accounts,
                metadata,
            ),
            InstructionDecoder::PhotonPumpFunSell => PhotonEventParser::parse_photon_pumpfun_sell_instruction(
                data,
                accounts,
                metadata,
            ),
            InstructionDecoder::PhotonPumpSwapTrade => PhotonEventParser::parse_photon_pumpswap_trade_instruction(
                data,
                accounts,
                metadata,
            ),
            InstructionDecoder::MeteoraDBCSwap => meteora_dbc::parser::parse_swap_instruction(
                data,
                accounts,
                metadata,
            ),
            InstructionDecoder::MeteoraDAMMv2Swap => meteora_dammv2::parser::parse_swap_instruction(
                data,
                accounts,
                metadata,
            ),
        }
    }

    /// No decoder reads past its payload or its account list: with fewer bytes
    /// or fewer accounts than it takes, it returns no record.
    pub proof fn lemma_short_input_rejected(
        self,
        data: Seq<u8>,
        accounts: Seq<Pubkey>,
        metadata: EventMetadata,
        r: Option<UnifiedEvent>,
    )
        requires
            self.decoded(data, accounts, metadata, r),
            data.len() < self.min_data_len() || accounts.len() < self.min_accounts(),
        ensures
            r.is_none(),
    {
    }

    /// Decoding is determined by what is read: two runs on the same payload,
    /// the same accounts and envelopes that read the same both give no record,
    /// or give records that read the same, identity included.
    pub proof fn lemma_deterministic(
        self,
        data: Seq<u8>,
        accounts: Seq<Pubkey>,
        first: EventMetadata,
        second: EventMetadata,
        r1: Option<UnifiedEvent>,
        r2: Option<UnifiedEvent>,
    )
        requires
            first.same_content(second),
            self.decoded(data, accounts, first, r1),
            self.decoded(data, accounts, second, r2),
        ensures
            r1.is_some() == r2.is_some(),
            r1.is_some() ==> r1.unwrap().same_content(r2.unwrap()),
            r1.is_some() ==> r1.unwrap().metadata_of().id@ == r2.unwrap().metadata_of().id@,
    {
        Pubkey::lemma_equal_by_view();
        match self {
            InstructionDecoder::PumpFunCreateToken => {},
            InstructionDecoder::PumpFunBuy => {},
            InstructionDecoder::PumpFunSell => {},
            InstructionDecoder::AxiomPumpFunBuy => {},
            InstructionDecoder::F5tfvPumpFunBuy => {},
            InstructionDecoder::AxiomPumpSwapBuy => {},
            InstructionDecoder::Prog6HB1VPumpSwapBuy => {},
            InstructionDecoder::PhotonPumpFunBuy => {},
            InstructionDecoder::PhotonPumpFunSell => {},
            InstructionDecoder::PhotonPumpSwapTrade => {},
            InstructionDecoder::MeteoraDBCSwap => {},
            InstructionDecoder::MeteoraDAMMv2Swap => {},
        }
    }
}

impl InnerInstructionDecoder {
    /// What the decoder returns for a log payload and an envelope.
    pub open spec fn decoded(self, data: Seq<u8>, metadata: EventMetadata, r: Option<UnifiedEvent>) -> bool {
        match self {
            InnerInstructionDecoder::PumpFunCreateToken => crate::protocols::pumpfun::parser::create_log_decoded(
                data,
                metadata,
                r,
            ),
            InnerInstructionDecoder::PumpFunTrade => crate::protocols::pumpfun::parser::trade_log_decoded(
                data,
                metadata,
                r,
            ),
            InnerInstructionDecoder::MeteoraDBCTrade => meteora_dbc::parser::trade_log_decoded(data, metadata, r),
            InnerInstructionDecoder::MeteoraDAMMv2Trade => meteora_dammv2::parser::trade_log_decoded(
                data,
                metadata,
                r,
            ),
        }
    }

    /// Runs the decoder.
    pub fn decode(&self, data: &[u8], metadata: EventMetadata) -> (r: Option<UnifiedEvent>)
        ensures
            self.decoded(data@, metadata, r),
    {
        match self {
            InnerInstructionDecoder::PumpFunCreateToken => PumpFunEventParser::parse_create_token_inner_instruction(
                data,
                metadata,
            ),
            InnerInstructionDecoder::PumpFunTrade => PumpFunEventParser::parse_trade_inner_instruction(
                data,
                metadata,
            ),
            InnerInstructionDecoder::MeteoraDBCTrade => meteora_dbc::parser::parse_trade_inner_instruction(
                data,
                metadata,
            ),
            InnerInstructionDecoder::MeteoraDAMMv2Trade => meteora_dammv2::parser::parse_trade_inner_instruction(
                data,
                metadata,
            ),
        }
    }

    /// Whether the decoder reads the log record of the operation whose
    /// instruction `outer` reads.
    pub open spec fn belongs_to(self, outer: InstructionDecoder) -> bool {
        match self {
            InnerInstructionDecoder::PumpFunCreateToken => outer == InstructionDecoder::PumpFunCreateToken,
            InnerInstructionDecoder::PumpFunTrade => outer == InstructionDecoder::PumpFunBuy || outer
                == InstructionDecoder::PumpFunSell,
            InnerInstructionDecoder::MeteoraDBCTrade => outer == InstructionDecoder::MeteoraDBCSwap,
            InnerInstructionDecoder::MeteoraDAMMv2Trade => outer == InstructionDecoder::MeteoraDAMMv2Swap,
        }
    }

    /// The record of a log and the record of the instruction that it belongs
    /// to are of the same variant, so that the one can be merged into the
    /// other.
    pub proof fn lemma_same_kind_as_instruction(
        self,
        outer: InstructionDecoder,
        data: Seq<u8>,
        accounts: Seq<Pubkey>,
        payload: Seq<u8>,
        first: EventMetadata,
        second: EventMetadata,
        instruction: Option<UnifiedEvent>,
        log: Option<UnifiedEvent>,
    )
        requires
            self.belongs_to(outer),
            outer.decoded(data, accounts, first, instruction),
            self.decoded(payload, second, log),
            instruction.is_some(),
            log.is_some(),
        ensures
            instruction.unwrap().same_kind(log.unwrap()),
    {
    }

    /// The fewest payload bytes that the decoder takes.
    pub open spec fn min_data_len(self) -> int {
        match self {
            InnerInstructionDecoder::PumpFunCreateToken => 180,
            InnerInstructionDecoder::PumpFunTrade => 250,
            InnerInstructionDecoder::MeteoraDBCTrade => 154,
            InnerInstructionDecoder::MeteoraDAMMv2Trade => 122,
        }
    }

    /// No decoder of log records reads past its payload: with fewer bytes than
    /// it takes, it returns no record.
    pub proof fn lemma_short_input_rejected(self, data: Seq<u8>, metadata: EventMetadata, r: Option<UnifiedEvent>)
        requires
            self.decoded(data, metadata, r),
            data.len() < self.min_data_len(),
        ensures
            r.is_none(),
    {
    }

    /// Decoding a log record is determined by what is read.
    pub proof fn lemma_deterministic(
        self,
        data: Seq<u8>,
        first: EventMetadata,
        second: EventMetadata,
        r1: Option<UnifiedEvent>,
        r2: Option<UnifiedEvent>,
    )
        requires
            first.same_content(second),
            self.decoded(data, first, r1),
            self.decoded(data, second, r2),
        ensures
            r1.is_some() == r2.is_some(),
            r1.is_some() ==> r1.unwrap().same_content(r2.unwrap()),
            r1.is_some() ==> r1.unwrap().metadata_of().id@ == r2.unwrap().metadata_of().id@,
    {
        Pubkey::lemma_equal_by_view();
        match self {
            InnerInstructionDecoder::PumpFunCreateToken => {},
            InnerInstructionDecoder::PumpFunTrade => {},
            InnerInstructionDecoder::MeteoraDBCTrade => {},
            InnerInstructionDecoder::MeteoraDAMMv2Trade => {},
        }
    }
}

} // verus!
