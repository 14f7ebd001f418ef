//! The event record: one type for the records of every program.

use vstd::prelude::*;
use crate::metadata::{EventMetadata, EventType};
use crate::pubkey::Pubkey;
use crate::protocols::pumpfun::events::PumpFunCreateTokenEvent;
use crate::protocols::pumpfun::events::PumpFunTradeEvent;
use crate::protocols::axiom1::events::AxiomPumpFunTradeEvent;
use crate::protocols::prog_f5tfv::events::ProgF5tfvPumpFunTradeEvent;
use crate::protocols::axiom2::events::AxiomPumpSwapBuyEvent;
use crate::protocols::prog6hb1v::events::Prog6HB1VPumpSwapBuyEvent;
use crate::protocols::photon::events::PhotonPumpFunTradeEvent;
use crate::protocols::photon::events::PhotonPumpSwapTradeEvent;
use crate::protocols::meteora_dbc::events::MeteoraDBCSwapEvent;
use crate::protocols::meteora_dammv2::events::MeteoraDAMMv2SwapEvent;

verus! {

/// An event of any of the programs.
#[derive(Clone, Debug, PartialEq, Eq)]
pub enum UnifiedEvent {
    PumpFunCreateToken(PumpFunCreateTokenEvent),
    PumpFunTrade(PumpFunTradeEvent),
    AxiomPumpFunTrade(AxiomPumpFunTradeEvent),
    ProgF5tfvPumpFunTrade(ProgF5tfvPumpFunTradeEvent),
    AxiomPumpSwapBuy(AxiomPumpSwapBuyEvent),
    Prog6HB1VPumpSwapBuy(Prog6HB1VPumpSwapBuyEvent),
    PhotonPumpFunTrade(PhotonPumpFunTradeEvent),
    PhotonPumpSwapTrade(PhotonPumpSwapTradeEvent),
    MeteoraDBCSwap(MeteoraDBCSwapEvent),
    MeteoraDAMMv2Swap(MeteoraDAMMv2SwapEvent),
}

impl UnifiedEvent {
    /// The envelope of the record.
    pub open spec fn metadata_of(self) -> EventMetadata {
        match self {
            UnifiedEvent::PumpFunCreateToken(e) => e.metadata,
            UnifiedEvent::PumpFunTrade(e) => e.metadata,
            UnifiedEvent::AxiomPumpFunTrade(e) => e.metadata,
            UnifiedEvent::ProgF5tfvPumpFunTrade(e) => e.metadata,
            UnifiedEvent::AxiomPumpSwapBuy(e) => e.metadata,
            UnifiedEvent::Prog6HB1VPumpSwapBuy(e) => e.metadata,
            UnifiedEvent::PhotonPumpFunTrade(e) => e.metadata,
            UnifiedEvent::PhotonPumpSwapTrade(e) => e.metadata,
            UnifiedEvent::MeteoraDBCSwap(e) => e.metadata,
            UnifiedEvent::MeteoraDAMMv2Swap(e) => e.metadata,
        }
    }

    /// The record under another envelope.
    pub open spec fn with_metadata(self, metadata: EventMetadata) -> UnifiedEvent {
        match self {
            UnifiedEvent::PumpFunCreateToken(e) => UnifiedEvent::PumpFunCreateToken(PumpFunCreateTokenEvent { metadata, ..e }),
            UnifiedEvent::PumpFunTrade(e) => UnifiedEvent::PumpFunTrade(PumpFunTradeEvent { metadata, ..e }),
            UnifiedEvent::AxiomPumpFunTrade(e) => UnifiedEvent::AxiomPumpFunTrade(AxiomPumpFunTradeEvent { metadata, ..e }),
            UnifiedEvent::ProgF5tfvPumpFunTrade(e) => UnifiedEvent::ProgF5tfvPumpFunTrade(ProgF5tfvPumpFunTradeEvent { metadata, ..e }),
            UnifiedEvent::AxiomPumpSwapBuy(e) => UnifiedEvent::AxiomPumpSwapBuy(AxiomPumpSwapBuyEvent { metadata, ..e }),
            UnifiedEvent::Prog6HB1VPumpSwapBuy(e) => UnifiedEvent::Prog6HB1VPumpSwapBuy(Prog6HB1VPumpSwapBuyEvent { metadata, ..e }),
            UnifiedEvent::PhotonPumpFunTrade(e) => UnifiedEvent::PhotonPumpFunTrade(PhotonPumpFunTradeEvent { metadata, ..e }),
            UnifiedEvent::PhotonPumpSwapTrade(e) => UnifiedEvent::PhotonPumpSwapTrade(PhotonPumpSwapTradeEvent { metadata, ..e }),
            UnifiedEvent::MeteoraDBCSwap(e) => UnifiedEvent::MeteoraDBCSwap(MeteoraDBCSwapEvent { metadata, ..e }),
            UnifiedEvent::MeteoraDAMMv2Swap(e) => UnifiedEvent::MeteoraDAMMv2Swap(MeteoraDAMMv2SwapEvent { metadata, ..e }),
        }
    }

    /// The wallet that made the trade: the user, or for a swap the payer.
    pub open spec fn user_of(self) -> Pubkey {
        match self {
            UnifiedEvent::PumpFunCreateToken(e) => e.user,
            UnifiedEvent::PumpFunTrade(e) => e.user,
            UnifiedEvent::AxiomPumpFunTrade(e) => e.user,
            UnifiedEvent::ProgF5tfvPumpFunTrade(e) => e.user,
            UnifiedEvent::AxiomPumpSwapBuy(e) => e.user,
            UnifiedEvent::Prog6HB1VPumpSwapBuy(e) => e.user,
            UnifiedEvent::PhotonPumpFunTrade(e) => e.user,
            UnifiedEvent::PhotonPumpSwapTrade(e) => e.user,
            UnifiedEvent::MeteoraDBCSwap(e) => e.payer,
            UnifiedEvent::MeteoraDAMMv2Swap(e) => e.payer,
        }
    }

    /// Whether the two records are of the same variant.
    pub open spec fn same_kind(self, other: UnifiedEvent) -> bool {
        match (self, other) {
            (UnifiedEvent::PumpFunCreateToken(a), UnifiedEvent::PumpFunCreateToken(b)) => true,
            (UnifiedEvent::PumpFunTrade(a), UnifiedEvent::PumpFunTrade(b)) => true,
            (UnifiedEvent::AxiomPumpFunTrade(a), UnifiedEvent::AxiomPumpFunTrade(b)) => true,
            (UnifiedEvent::ProgF5tfvPumpFunTrade(a), UnifiedEvent::ProgF5tfvPumpFunTrade(b)) => true,
            (UnifiedEvent::AxiomPumpSwapBuy(a), UnifiedEvent::AxiomPumpSwapBuy(b)) => true,
            (UnifiedEvent::Prog6HB1VPumpSwapBuy(a), UnifiedEvent::Prog6HB1VPumpSwapBuy(b)) => true,
            (UnifiedEvent::PhotonPumpFunTrade(a), UnifiedEvent::PhotonPumpFunTrade(b)) => true,
            (UnifiedEvent::PhotonPumpSwapTrade(a), UnifiedEvent::PhotonPumpSwapTrade(b)) => true,
            (UnifiedEvent::MeteoraDBCSwap(a), UnifiedEvent::MeteoraDBCSwap(b)) => true,
            (UnifiedEvent::MeteoraDAMMv2Swap(a), UnifiedEvent::MeteoraDAMMv2Swap(b)) => true,
            _ => false,
        }
    }

    /// The record that has its logged fields from `log` and the others from
    /// `self`; `self` where the two are of different variants.
    pub open spec fn merged(self, other: UnifiedEvent) -> UnifiedEvent {
        match (self, other) {
            (UnifiedEvent::PumpFunCreateToken(a), UnifiedEvent::PumpFunCreateToken(b)) => UnifiedEvent::PumpFunCreateToken(a.merged(b)),
            (UnifiedEvent::PumpFunTrade(a), UnifiedEvent::PumpFunTrade(b)) => UnifiedEvent::PumpFunTrade(a.merged(b)),
            (UnifiedEvent::AxiomPumpFunTrade(a), UnifiedEvent::AxiomPumpFunTrade(b)) => UnifiedEvent::AxiomPumpFunTrade(a.merged(b)),
            (UnifiedEvent::ProgF5tfvPumpFunTrade(a), UnifiedEvent::ProgF5tfvPumpFunTrade(b)) => UnifiedEvent::ProgF5tfvPumpFunTrade(a.merged(b)),
            (UnifiedEvent::AxiomPumpSwapBuy(a), UnifiedEvent::AxiomPumpSwapBuy(b)) => UnifiedEvent::AxiomPumpSwapBuy(a.merged(b)),
            (UnifiedEvent::Prog6HB1VPumpSwapBuy(a), UnifiedEvent::Prog6HB1VPumpSwapBuy(b)) => UnifiedEvent::Prog6HB1VPumpSwapBuy(a.merged(b)),
            (UnifiedEvent::PhotonPumpFunTrade(a), UnifiedEvent::PhotonPumpFunTrade(b)) => UnifiedEvent::PhotonPumpFunTrade(a.merged(b)),
            (UnifiedEvent::PhotonPumpSwapTrade(a), UnifiedEvent::PhotonPumpSwapTrade(b)) => UnifiedEvent::PhotonPumpSwapTrade(a.merged(b)),
            (UnifiedEvent::MeteoraDBCSwap(a), UnifiedEvent::MeteoraDBCSwap(b)) => UnifiedEvent::MeteoraDBCSwap(a.merged(b)),
            (UnifiedEvent::MeteoraDAMMv2Swap(a), UnifiedEvent::MeteoraDAMMv2Swap(b)) => UnifiedEvent::MeteoraDAMMv2Swap(a.merged(b)),
            _ => self,
        }
    }

    /// Whether the two records are of one variant and agree in every field that
    /// the program logs.
    pub open spec fn log_fields_agree(self, other: UnifiedEvent) -> bool {
        match (self, other) {
            (UnifiedEvent::PumpFunCreateToken(a), UnifiedEvent::PumpFunCreateToken(b)) => a.log_fields_agree(b),
            (UnifiedEvent::PumpFunTrade(a), UnifiedEvent::PumpFunTrade(b)) => a.log_fields_agree(b),
            (UnifiedEvent::AxiomPumpFunTrade(a), UnifiedEvent::AxiomPumpFunTrade(b)) => a.log_fields_agree(b),
            (UnifiedEvent::ProgF5tfvPumpFunTrade(a), UnifiedEvent::ProgF5tfvPumpFunTrade(b)) => a.log_fields_agree(b),
            (UnifiedEvent::AxiomPumpSwapBuy(a), UnifiedEvent::AxiomPumpSwapBuy(b)) => a.log_fields_agree(b),
            (UnifiedEvent::Prog6HB1VPumpSwapBuy(a), UnifiedEvent::Prog6HB1VPumpSwapBuy(b)) => a.log_fields_agree(b),
            (UnifiedEvent::PhotonPumpFunTrade(a), UnifiedEvent::PhotonPumpFunTrade(b)) => a.log_fields_agree(b),
            (UnifiedEvent::PhotonPumpSwapTrade(a), UnifiedEvent::PhotonPumpSwapTrade(b)) => a.log_fields_agree(b),
            (UnifiedEvent::MeteoraDBCSwap(a), UnifiedEvent::MeteoraDBCSwap(b)) => a.log_fields_agree(b),
            (UnifiedEvent::MeteoraDAMMv2Swap(a), UnifiedEvent::MeteoraDAMMv2Swap(b)) => a.log_fields_agree(b),
            _ => false,
        }
    }

    /// Whether the two records are of one variant and agree in the envelope
    /// and in every field that the program does not log.
    pub open spec fn other_fields_agree(self, other: UnifiedEvent) -> bool {
        match (self, other) {
            (UnifiedEvent::PumpFunCreateToken(a), UnifiedEvent::PumpFunCreateToken(b)) => a.other_fields_agree(b),
            (UnifiedEvent::PumpFunTrade(a), UnifiedEvent::PumpFunTrade(b)) => a.other_fields_agree(b),
            (UnifiedEvent::AxiomPumpFunTrade(a), UnifiedEvent::AxiomPumpFunTrade(b)) => a.other_fields_agree(b),
            (UnifiedEvent::ProgF5tfvPumpFunTrade(a), UnifiedEvent::ProgF5tfvPumpFunTrade(b)) => a.other_fields_agree(b),
            (UnifiedEvent::AxiomPumpSwapBuy(a), UnifiedEvent::AxiomPumpSwapBuy(b)) => a.other_fields_agree(b),
            (UnifiedEvent::Prog6HB1VPumpSwapBuy(a), UnifiedEvent::Prog6HB1VPumpSwapBuy(b)) => a.other_fields_agree(b),
            (UnifiedEvent::PhotonPumpFunTrade(a), UnifiedEvent::PhotonPumpFunTrade(b)) => a.other_fields_agree(b),
            (UnifiedEvent::PhotonPumpSwapTrade(a), UnifiedEvent::PhotonPumpSwapTrade(b)) => a.other_fields_agree(b),
            (UnifiedEvent::MeteoraDBCSwap(a), UnifiedEvent::MeteoraDBCSwap(b)) => a.other_fields_agree(b),
            (UnifiedEvent::MeteoraDAMMv2Swap(a), UnifiedEvent::MeteoraDAMMv2Swap(b)) => a.other_fields_agree(b),
            _ => false,
        }
    }

    /// Whether the two records read the same, whatever memory holds their
    /// text.
    pub open spec fn same_content(self, other: UnifiedEvent) -> bool {
        match (self, other) {
            (UnifiedEvent::PumpFunCreateToken(a), UnifiedEvent::PumpFunCreateToken(b)) => a.same_content(b),
            (UnifiedEvent::PumpFunTrade(a), UnifiedEvent::PumpFunTrade(b)) => a.same_content(b),
            (UnifiedEvent::AxiomPumpFunTrade(a), UnifiedEvent::AxiomPumpFunTrade(b)) => a.same_content(b),
            (UnifiedEvent::ProgF5tfvPumpFunTrade(a), UnifiedEvent::ProgF5tfvPumpFunTrade(b)) => a.same_content(b),
            (UnifiedEvent::AxiomPumpSwapBuy(a), UnifiedEvent::AxiomPumpSwapBuy(b)) => a.same_content(b),
            (UnifiedEvent::Prog6HB1VPumpSwapBuy(a), UnifiedEvent::Prog6HB1VPumpSwapBuy(b)) => a.same_content(b),
            (UnifiedEvent::PhotonPumpFunTrade(a), UnifiedEvent::PhotonPumpFunTrade(b)) => a.same_content(b),
            (UnifiedEvent::PhotonPumpSwapTrade(a), UnifiedEvent::PhotonPumpSwapTrade(b)) => a.same_content(b),
            (UnifiedEvent::MeteoraDBCSwap(a), UnifiedEvent::MeteoraDBCSwap(b)) => a.same_content(b),
            (UnifiedEvent::MeteoraDAMMv2Swap(a), UnifiedEvent::MeteoraDAMMv2Swap(b)) => a.same_content(b),
            _ => false,
        }
    }

    pub fn metadata(&self) -> (m: &EventMetadata)
        ensures
            *m == self.metadata_of(),
    {
        match self {
            UnifiedEvent::PumpFunCreateToken(e) => &e.metadata,
            UnifiedEvent::PumpFunTrade(e) => &e.metadata,
            UnifiedEvent::AxiomPumpFunTrade(e) => &e.metadata,
            UnifiedEvent::ProgF5tfvPumpFunTrade(e) => &e.metadata,
            UnifiedEvent::AxiomPumpSwapBuy(e) => &e.metadata,
            UnifiedEvent::Prog6HB1VPumpSwapBuy(e) => &e.metadata,
            UnifiedEvent::PhotonPumpFunTrade(e) => &e.metadata,
            UnifiedEvent::PhotonPumpSwapTrade(e) => &e.metadata,
            UnifiedEvent::MeteoraDBCSwap(e) => &e.metadata,
            UnifiedEvent::MeteoraDAMMv2Swap(e) => &e.metadata,
        }
    }

    /// Puts another envelope round the same fields.
    pub fn set_metadata(self, metadata: EventMetadata) -> (r: UnifiedEvent)
        ensures
            r == self.with_metadata(metadata),
    {
        match self {
            UnifiedEvent::PumpFunCreateToken(e) => {
                let mut e = e;
                e.metadata = metadata;
                UnifiedEvent::PumpFunCreateToken(e)
            },
            UnifiedEvent::PumpFunTrade(e) => {
                let mut e = e;
                e.metadata = metadata;
                UnifiedEvent::PumpFunTrade(e)
            },
            UnifiedEvent::AxiomPumpFunTrade(e) => {
                let mut e = e;
                e.metadata = metadata;
                UnifiedEvent::AxiomPumpFunTrade(e)
            },
            UnifiedEvent::ProgF5tfvPumpFunTrade(e) => {
                let mut e = e;
                e.metadata = metadata;
                UnifiedEvent::ProgF5tfvPumpFunTrade(e)
            },
            UnifiedEvent::AxiomPumpSwapBuy(e) => {
                let mut e = e;
                e.metadata = metadata;
                UnifiedEvent::AxiomPumpSwapBuy(e)
            },
            UnifiedEvent::Prog6HB1VPumpSwapBuy(e) => {
                let mut e = e;
                e.metadata = metadata;
                UnifiedEvent::Prog6HB1VPumpSwapBuy(e)
            },
            UnifiedEvent::PhotonPumpFunTrade(e) => {
                let mut e = e;
                e.metadata = metadata;
                UnifiedEvent::PhotonPumpFunTrade(e)
            },
            UnifiedEvent::PhotonPumpSwapTrade(e) => {
                let mut e = e;
                e.metadata = metadata;
                UnifiedEvent::PhotonPumpSwapTrade(e)
            },
            UnifiedEvent::MeteoraDBCSwap(e) => {
                let mut e = e;
                e.metadata = metadata;
                UnifiedEvent::MeteoraDBCSwap(e)
            },
            UnifiedEvent::MeteoraDAMMv2Swap(e) => {
                let mut e = e;
                e.metadata = metadata;
                UnifiedEvent::MeteoraDAMMv2Swap(e)
            },
        }
    }

    pub fn event_type(&self) -> (t: EventType)
        ensures
            t == self.metadata_of().event_type,
    {
        self.metadata().event_type
    }

    /// The identity of the event.
    pub fn id(&self) -> (s: &str)
        ensures
            s@ == self.metadata_of().id@,
    {
        self.metadata().id.as_str()
    }

    pub fn signature(&self) -> (s: &str)
        ensures
            s@ == self.metadata_of().signature@,
    {
        self.metadata().signature.as_str()
    }

    pub fn slot(&self) -> (s: u64)
        ensures
            s == self.metadata_of().slot,
    {
        self.metadata().slot
    }

    pub fn index(&self) -> (s: &str)
        ensures
            s@ == self.metadata_of().index@,
    {
        self.metadata().index.as_str()
    }

    pub fn user(&self) -> (p: Pubkey)
        ensures
            p == self.user_of(),
    {
        match self {
            UnifiedEvent::PumpFunCreateToken(e) => e.user,
            UnifiedEvent::PumpFunTrade(e) => e.user,
            UnifiedEvent::AxiomPumpFunTrade(e) => e.user,
            UnifiedEvent::ProgF5tfvPumpFunTrade(e) => e.user,
            UnifiedEvent::AxiomPumpSwapBuy(e) => e.user,
            UnifiedEvent::Prog6HB1VPumpSwapBuy(e) => e.user,
            UnifiedEvent::PhotonPumpFunTrade(e) => e.user,
            UnifiedEvent::PhotonPumpSwapTrade(e) => e.user,
            UnifiedEvent::MeteoraDBCSwap(e) => e.payer,
            UnifiedEvent::MeteoraDAMMv2Swap(e) => e.payer,
        }
    }

    /// Takes over from `log` every field that the program logs, where `log`
    /// is of the same variant; else nothing changes.
    pub fn merge(&mut self, log: &UnifiedEvent)
        ensures
            *final(self) == old(self).merged(*log),
    {
        match self {
            UnifiedEvent::PumpFunCreateToken(a) => {
                if let UnifiedEvent::PumpFunCreateToken(b) = log {
                    a.merge(b);
                }
            },
            UnifiedEvent::PumpFunTrade(a) => {
                if let UnifiedEvent::PumpFunTrade(b) = log {
                    a.merge(b);
                }
            },
            UnifiedEvent::AxiomPumpFunTrade(a) => {
                if let UnifiedEvent::AxiomPumpFunTrade(b) = log {
                    a.merge(b);
                }
            },
            UnifiedEvent::ProgF5tfvPumpFunTrade(a) => {
                if let UnifiedEvent::ProgF5tfvPumpFunTrade(b) = log {
                    a.merge(b);
                }
            },
            UnifiedEvent::AxiomPumpSwapBuy(a) => {
                if let UnifiedEvent::AxiomPumpSwapBuy(b) = log {
                    a.merge(b);
                }
            },
            UnifiedEvent::Prog6HB1VPumpSwapBuy(a) => {
                if let UnifiedEvent::Prog6HB1VPumpSwapBuy(b) = log {
                    a.merge(b);
                }
            },
            UnifiedEvent::PhotonPumpFunTrade(a) => {
                if let UnifiedEvent::PhotonPumpFunTrade(b) = log {
                    a.merge(b);
                }
            },
            UnifiedEvent::PhotonPumpSwapTrade(a) => {
                if let UnifiedEvent::PhotonPumpSwapTrade(b) = log {
                    a.merge(b);
                }
            },
            UnifiedEvent::MeteoraDBCSwap(a) => {
                if let UnifiedEvent::MeteoraDBCSwap(b) = log {
                    a.merge(b);
                }
            },
            UnifiedEvent::MeteoraDAMMv2Swap(a) => {
                if let UnifiedEvent::MeteoraDAMMv2Swap(b) = log {
                    a.merge(b);
                }
            },
        }
    }

    /// Merging is complete: of two records of one variant, the merged record
    /// has every logged field from the log record and every other field,
    /// the envelope among them, from the instruction record.
    pub proof fn lemma_merge_complete(instruction: UnifiedEvent, log: UnifiedEvent)
        requires
            instruction.same_kind(log),
        ensures
            instruction.merged(log).same_kind(instruction),
            instruction.merged(log).log_fields_agree(log),
            instruction.merged(log).other_fields_agree(instruction),
    {
    }

    /// The logged fields and the others are all the fields there are: two
    /// records that agree in both are the same record.
    pub proof fn lemma_fields_cover(a: UnifiedEvent, b: UnifiedEvent)
        requires
            a.log_fields_agree(b),
            a.other_fields_agree(b),
        ensures
            a == b,
    {
    }

    /// Records of different variants are never merged.
    pub proof fn lemma_merge_other_kind(instruction: UnifiedEvent, log: UnifiedEvent)
        requires
            !instruction.same_kind(log),
        ensures
            instruction.merged(log) == instruction,
    {
    }
}

} // verus!
