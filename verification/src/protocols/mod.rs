//! One module for each program whose instructions are decoded, and the table
//! of the programs that a caller asks for.

pub mod axiom1;
pub mod axiom2;
pub mod meteora_dammv2;
pub mod meteora_dbc;
pub mod photon;
pub mod prog6hb1v;
pub mod prog_f5tfv;
pub mod pumpfun;

use vstd::prelude::*;
use crate::engine::{GenericEventParseConfig, GenericEventParser, RuleView};
use crate::pubkey::Pubkey;

verus! {

/// A program, or family of programs, whose events can be asked for.
#[derive(Clone, Copy, Debug, PartialEq, Eq, Structural, Hash)]
pub enum Protocol {
    PumpFun,
    Axiom,
    Axiom2,
    ProgF5tfv,
    Prog6HB1V,
    Photon,
    MeteoraDBC,
    MeteoraDAMMv2,
}

impl Protocol {
    /// The rules of the protocol, in the order of their registration.
    pub open spec fn rules(self) -> Seq<RuleView> {
        match self {
            Protocol::PumpFun => pumpfun::parser::rules(),
            Protocol::Axiom => axiom1::parser::rules(),
            Protocol::Axiom2 => axiom2::parser::rules(),
            Protocol::ProgF5tfv => prog_f5tfv::parser::rules(),
            Protocol::Prog6HB1V => prog6hb1v::parser::rules(),
            Protocol::Photon => photon::parser::rules(),
            Protocol::MeteoraDBC => meteora_dbc::parser::rules(),
            Protocol::MeteoraDAMMv2 => meteora_dammv2::parser::rules(),
        }
    }

    /// The programs of the protocol.
    pub open spec fn program_ids(self) -> Seq<Pubkey> {
        match self {
            Protocol::PumpFun => pumpfun::parser::program_ids(),
            Protocol::Axiom => axiom1::parser::program_ids(),
            Protocol::Axiom2 => axiom2::parser::program_ids(),
            Protocol::ProgF5tfv => prog_f5tfv::parser::program_ids(),
            Protocol::Prog6HB1V => prog6hb1v::parser::program_ids(),
            Protocol::Photon => photon::parser::program_ids(),
            Protocol::MeteoraDBC => meteora_dbc::parser::program_ids(),
            Protocol::MeteoraDAMMv2 => meteora_dammv2::parser::program_ids(),
        }
    }

    /// The table of the protocol.
    pub fn table(&self) -> (t: GenericEventParser)
        ensures
            t.rules() == self.rules(),
            t.program_ids@ == self.program_ids(),
            t.well_formed(),
    {
        match self {
            Protocol::PumpFun => pumpfun::parser::table(),
            Protocol::Axiom => axiom1::parser::table(),
            Protocol::Axiom2 => axiom2::parser::table(),
            Protocol::ProgF5tfv => prog_f5tfv::parser::table(),
            Protocol::Prog6HB1V => prog6hb1v::parser::table(),
            Protocol::Photon => photon::parser::table(),
            Protocol::MeteoraDBC => meteora_dbc::parser::table(),
            Protocol::MeteoraDAMMv2 => meteora_dammv2::parser::table(),
        }
    }
}

/// The rules of the protocols one after the other, in the order in which the
/// protocols are named.
pub open spec fn combined_rules(protocols: Seq<Protocol>) -> Seq<RuleView>
    decreases protocols.len(),
{
    if protocols.len() == 0 {
        Seq::empty()
    } else {
        combined_rules(protocols.drop_last()) + protocols.last().rules()
    }
}

/// The programs of the protocols one after the other.
pub open spec fn combined_program_ids(protocols: Seq<Protocol>) -> Seq<Pubkey>
    decreases protocols.len(),
{
    if protocols.len() == 0 {
        Seq::empty()
    } else {
        combined_program_ids(protocols.drop_last()) + protocols.last().program_ids()
    }
}

/// One table with the rules of all the protocols that are asked for.
pub fn table_for(protocols: &[Protocol]) -> (t: GenericEventParser)
    ensures
        t.rules() == combined_rules(protocols@),
        t.program_ids@ == combined_program_ids(protocols@),
        t.well_formed(),
{
    let mut all = GenericEventParser { program_ids: Vec::new(), configs: Vec::new() };
    assert(all.rules() =~= combined_rules(protocols@.take(0)));
    let mut i: usize = 0;
    while i < protocols.len()
        invariant
            i <= protocols@.len(),
            all.rules() == combined_rules(protocols@.take(i as int)),
            all.program_ids@ == combined_program_ids(protocols@.take(i as int)),
            all.well_formed(),
        decreases protocols@.len() - i,
    {
        let mut next = protocols[i].table();
        let ghost before = all;
        let ghost added = next;
        all.program_ids.append(&mut next.program_ids);
        all.configs.append(&mut next.configs);
        proof {
            assert(protocols@.take(i + 1).drop_last() =~= protocols@.take(i as int));
            assert(all.rules() =~= before.rules() + added.rules());
        }
        i += 1;
    }
    assert(protocols@.take(i as int) =~= protocols@);
    all
}

} // verus!
