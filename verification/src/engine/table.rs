//! The table of rules, and finding and running the rule that an instruction
//! or a log record falls under.

use vstd::prelude::*;
use crate::engine::rule::{is_prefix, GenericEventParseConfig, RuleView};
use crate::event::UnifiedEvent;
use crate::metadata::EventMetadata;
use crate::pubkey::Pubkey;
use crate::transaction::{
    keys_at, positions_valid, program_of, resolve_accounts, resolve_program, CompiledInstruction,
};

verus! {

/// The first position from `from` up to `to` at which `hits` holds.
pub open spec fn first_match(hits: spec_fn(int) -> bool, from: int, to: int) -> Option<int>
    decreases to - from,
{
    if from >= to {
        None
    } else if hits(from) {
        Some(from)
    } else {
        first_match(hits, from + 1, to)
    }
}

/// The first match is a match, nothing before it is one, and where there is
/// none, nothing is a match.
pub proof fn lemma_first_match(hits: spec_fn(int) -> bool, from: int, to: int)
    ensures
        match first_match(hits, from, to) {
            Some(i) => from <= i < to && hits(i) && forall|j: int| from <= j < i ==> !(#[trigger] hits(j)),
            None => forall|j: int| from <= j < to ==> !(#[trigger] hits(j)),
        },
    decreases to - from,
{
    if from < to && !hits(from) {
        lemma_first_match(hits, from + 1, to);
    }
}

/// A position in the table as a number of the model.
pub open spec fn position(at: Option<usize>) -> Option<int> {
    match at {
        Some(i) => Some(i as int),
        None => None,
    }
}

/// Why a table of rules is refused.
#[derive(Clone, Copy, Debug, PartialEq, Eq, Structural)]
pub enum ConfigError {
    /// The rule at this position has neither decoder.
    RuleWithoutDecoder(usize),
}

/// The rules of one or more programs, in the order of their registration.
#[derive(Clone, Debug, PartialEq, Eq)]
pub struct GenericEventParser {
    pub program_ids: Vec<Pubkey>,
    pub configs: Vec<GenericEventParseConfig>,
}

impl GenericEventParser {
    /// Every rule has a decoder.
    pub open spec fn well_formed(self) -> bool {
        forall|i: int| 0 <= i < self.configs@.len() ==> (#[trigger] self.configs@[i]).well_formed()
    }

    /// Whether the table takes instructions of this program.
    pub open spec fn handles(self, program_id: Pubkey) -> bool {
        self.program_ids@.contains(program_id)
    }

    /// The first rule that matches the instruction, if any does.
    pub open spec fn instruction_rule(self, program_id: Pubkey, data: Seq<u8>) -> Option<int> {
        first_match(
            |i: int| self.configs@[i].matches_instruction(program_id, data),
            0,
            self.configs@.len() as int,
        )
    }

    /// The first rule that matches the log record, if any does.
    pub open spec fn inner_instruction_rule(self, program_id: Pubkey, payload: Seq<u8>) -> Option<int> {
        first_match(
            |i: int| self.configs@[i].matches_inner_instruction(program_id, payload),
            0,
            self.configs@.len() as int,
        )
    }

    /// The rule under which a log record inside an instruction is read: the
    /// rule of the instruction where that matches the record too, else the
    /// first rule that matches.
    pub open spec fn inner_rule_under(self, outer: Option<int>, program_id: Pubkey, payload: Seq<u8>) -> Option<
        int,
    > {
        if outer.is_some() && 0 <= outer.unwrap() < self.configs@.len()
            && self.configs@[outer.unwrap()].matches_inner_instruction(program_id, payload) {
            outer
        } else {
            self.inner_instruction_rule(program_id, payload)
        }
    }

    /// What `match_instruction` returns.
    pub open spec fn instruction_matched(
        self,
        program_id: Pubkey,
        data: Seq<u8>,
        accounts: Seq<Pubkey>,
        metadata: EventMetadata,
        r: Option<UnifiedEvent>,
    ) -> bool {
        match self.instruction_rule(program_id, data) {
            None => r.is_none(),
            Some(i) => self.configs@[i].instruction_decoded(data, accounts, metadata, r),
        }
    }

    /// What is returned for a log record that is read under rule `rule`.
    pub open spec fn inner_instruction_read(
        self,
        rule: Option<int>,
        payload: Seq<u8>,
        metadata: EventMetadata,
        r: Option<UnifiedEvent>,
    ) -> bool {
        match rule {
            None => r.is_none(),
            Some(i) => self.configs@[i].inner_instruction_decoded(payload, metadata, r),
        }
    }

    /// What the rules hold, in their order.
    pub open spec fn rules(self) -> Seq<RuleView> {
        Seq::new(self.configs@.len(), |i: int| self.configs@[i]@)
    }

    /// What is returned for an instruction that names its program and its
    /// accounts by position: nothing where a position is not among the keys,
    /// else at most the one record that `match_instruction` gives.
    pub open spec fn instruction_events(
        self,
        instruction: CompiledInstruction,
        keys: Seq<Pubkey>,
        metadata: EventMetadata,
        out: Seq<UnifiedEvent>,
    ) -> bool {
        if program_of(instruction, keys).is_some() && positions_valid(instruction.accounts@, keys) {
            &&& out.len() <= 1
            &&& self.instruction_matched(
                program_of(instruction, keys).unwrap(),
                instruction.data@,
                keys_at(instruction.accounts@, keys),
                metadata,
                if out.len() == 1 {
                    Some(out[0])
                } else {
                    None
                },
            )
        } else {
            out.len() == 0
        }
    }

    /// What is returned for an inner instruction: nothing where the position
    /// of its program is not among the keys, else at most the one record that
    /// `match_inner_instruction` gives.
    pub open spec fn inner_instruction_events(
        self,
        inner_instruction: CompiledInstruction,
        keys: Seq<Pubkey>,
        metadata: EventMetadata,
        out: Seq<UnifiedEvent>,
    ) -> bool {
        match program_of(inner_instruction, keys) {
            Some(program_id) => {
                &&& out.len() <= 1
                &&& self.inner_instruction_read(
                    self.inner_instruction_rule(program_id, inner_instruction.data@),
                    inner_instruction.data@,
                    metadata,
                    if out.len() == 1 {
                        Some(out[0])
                    } else {
                        None
                    },
                )
            },
            None => out.len() == 0,
        }
    }

    /// A table of the given rules for the given programs; refused where a rule
    /// has neither decoder, with the position of the first such rule.
    pub fn new(program_ids: Vec<Pubkey>, configs: Vec<GenericEventParseConfig>) -> (r: Result<
        GenericEventParser,
        ConfigError,
    >)
        ensures
            match r {
                Ok(p) => p.program_ids == program_ids && p.configs == configs && p.well_formed(),
                Err(ConfigError::RuleWithoutDecoder(i)) => {
                    &&& 0 <= i < configs@.len()
                    &&& !configs@[i as int].well_formed()
                    &&& forall|j: int| 0 <= j < i ==> (#[trigger] configs@[j]).well_formed()
                },
            },
    {
        let mut i: usize = 0;
        while i < configs.len()
            invariant
                i <= configs@.len(),
                forall|j: int| 0 <= j < i ==> (#[trigger] configs@[j]).well_formed(),
            decreases configs@.len() - i,
        {
            if configs[i].inner_instruction_parser.is_none() && configs[i].instruction_parser.is_none() {
                return Err(ConfigError::RuleWithoutDecoder(i));
            }
            i += 1;
        }
        Ok(GenericEventParser { program_ids, configs })
    }

    /// Whether the table takes instructions of this program.
    pub fn should_handle(&self, program_id: &Pubkey) -> (b: bool)
        ensures
            b == self.handles(*program_id),
    {
        let mut i: usize = 0;
        while i < self.program_ids.len()
            invariant
                i <= self.program_ids@.len(),
                forall|j: int| 0 <= j < i ==> self.program_ids@[j] != *program_id,
            decreases self.program_ids@.len() - i,
        {
            if self.program_ids[i].same(program_id) {
                return true;
            }
            i += 1;
        }
        false
    }

    /// The programs whose instructions the table takes.
    pub fn supported_program_ids(&self) -> (ids: Vec<Pubkey>)
        ensures
            ids@ == self.program_ids@,
    {
        self.program_ids.clone()
    }

    /// The position of the first rule that matches the instruction.
    pub fn find_instruction_rule(&self, program_id: &Pubkey, data: &[u8]) -> (r: Option<usize>)
        ensures
            r.is_some() == self.instruction_rule(*program_id, data@).is_some(),
            r matches Some(i) ==> self.instruction_rule(*program_id, data@) == Some(i as int) && i
                < self.configs@.len(),
    {
        let ghost hits = |i: int| self.configs@[i].matches_instruction(*program_id, data@);
        let mut i: usize = 0;
        while i < self.configs.len()
            invariant
                i <= self.configs@.len(),
                hits == |i: int| self.configs@[i].matches_instruction(*program_id, data@),
                first_match(hits, 0, self.configs@.len() as int) == first_match(
                    hits,
                    i as int,
                    self.configs@.len() as int,
                ),
            decreases self.configs@.len() - i,
        {
            if self.configs[i].accepts_instruction(program_id, data) {
                return Some(i);
            }
            i += 1;
        }
        None
    }

    /// Finds the rule for an instruction of the given program and decodes the
    /// instruction under it. The rules are tried in the order of their
    /// registration and the first that matches decides. No record is returned
    /// where no rule matches, where the rule has no decoder for instructions,
    /// and where the decoder refuses the payload or the accounts.
    pub fn match_instruction(
        &self,
        program_id: &Pubkey,
        data: &[u8],
        accounts: &[Pubkey],
        metadata: EventMetadata,
    ) -> (r: Option<UnifiedEvent>)
        ensures
            self.instruction_matched(*program_id, data@, accounts@, metadata, r),
    {
        match self.find_instruction_rule(program_id, data) {
            None => None,
            Some(i) => {
                proof {
                    lemma_first_match(
                        |i: int| self.configs@[i].matches_instruction(*program_id, data@),
                        0,
                        self.configs@.len() as int,
                    );
                }
                self.configs[i].decode_instruction(data, accounts, metadata)
            },
        }
    }

    /// Reads a log record under the rule of the instruction that it stands in,
    /// where that rule matches it, else under the first rule that matches.
    /// Gives the position of the rule and what its decoder returned.
    pub fn match_inner_instruction_under(
        &self,
        outer: Option<usize>,
        program_id: &Pubkey,
        payload: &[u8],
        metadata: EventMetadata,
    ) -> (r: (Option<usize>, Option<UnifiedEvent>))
        ensures
            position(r.0) == self.inner_rule_under(position(outer), *program_id, payload@),
            r.0 matches Some(i) ==> i < self.configs@.len(),
            self.inner_instruction_read(position(r.0), payload@, metadata, r.1),
    {
        match outer {
            Some(k) => {
                if k < self.configs.len() {
                    match self.configs[k].accepts_inner_instruction(program_id, payload) {
                        Some(start) => {
                            let found = self.configs[k].decode_inner_instruction(payload, start, metadata);
                            return (Some(k), found);
                        },
                        None => {},
                    }
                }
            },
            None => {},
        }
        let ghost hits = |i: int| self.configs@[i].matches_inner_instruction(*program_id, payload@);
        let mut i: usize = 0;
        while i < self.configs.len()
            invariant
                i <= self.configs@.len(),
                self.inner_rule_under(position(outer), *program_id, payload@)
                    == self.inner_instruction_rule(*program_id, payload@),
                hits == |i: int| self.configs@[i].matches_inner_instruction(*program_id, payload@),
                first_match(hits, 0, self.configs@.len() as int) == first_match(
                    hits,
                    i as int,
                    self.configs@.len() as int,
                ),
            decreases self.configs@.len() - i,
        {
            match self.configs[i].accepts_inner_instruction(program_id, payload) {
                Some(start) => {
                    let found = self.configs[i].decode_inner_instruction(payload, start, metadata);
                    return (Some(i), found);
                },
                None => {},
            }
            i += 1;
        }
        (None, None)
    }

    /// Finds the rule for a log record of the given program and decodes the
    /// record under it: the first rule, in the order of registration, whose
    /// discriminator the payload begins with. No record is returned where no
    /// rule matches, where the rule has no decoder for log records, and where
    /// the decoder refuses the payload.
    pub fn match_inner_instruction(&self, program_id: &Pubkey, payload: &[u8], metadata: EventMetadata) -> (r:
        Option<UnifiedEvent>)
        ensures
            self.inner_instruction_read(
                self.inner_instruction_rule(*program_id, payload@),
                payload@,
                metadata,
                r,
            ),
    {
        let found = self.match_inner_instruction_under(None, program_id, payload, metadata);
        found.1
    }

    /// The events of one instruction of a transaction.
    pub fn parse_events_from_instruction(
        &self,
        instruction: &CompiledInstruction,
        accounts: &[Pubkey],
        metadata: EventMetadata,
    ) -> (out: Vec<UnifiedEvent>)
        ensures
            self.instruction_events(*instruction, accounts@, metadata, out@),
    {
        let mut out: Vec<UnifiedEvent> = Vec::new();
        let program_id = match resolve_program(instruction, accounts) {
            Some(p) => p,
            None => { return out; },
        };
        let resolved = match resolve_accounts(instruction.accounts.as_slice(), accounts) {
            Some(v) => v,
            None => { return out; },
        };
        match self.match_instruction(&program_id, instruction.data.as_slice(), resolved.as_slice(), metadata) {
            Some(e) => {
                out.push(e);
            },
            None => {},
        }
        out
    }

    /// The events of one inner instruction of a transaction.
    pub fn parse_events_from_inner_instruction(
        &self,
        inner_instruction: &CompiledInstruction,
        accounts: &[Pubkey],
        metadata: EventMetadata,
    ) -> (out: Vec<UnifiedEvent>)
        ensures
            self.inner_instruction_events(*inner_instruction, accounts@, metadata, out@),
    {
        let mut out: Vec<UnifiedEvent> = Vec::new();
        let program_id = match resolve_program(inner_instruction, accounts) {
            Some(p) => p,
            None => { return out; },
        };
        match self.match_inner_instruction(&program_id, inner_instruction.data.as_slice(), metadata) {
            Some(e) => {
                out.push(e);
            },
            None => {},
        }
        out
    }

    /// A payload that does not begin with the discriminator of any rule of
    /// its program gives no record, and one that does is decoded by the first
    /// such rule and no other.
    pub proof fn lemma_instruction_rule_is_first(self, program_id: Pubkey, data: Seq<u8>)
        ensures
            match self.instruction_rule(program_id, data) {
                Some(i) => {
                    &&& 0 <= i < self.configs@.len()
                    &&& self.configs@[i].program_id == program_id
                    &&& is_prefix(self.configs@[i].instruction_discriminator@, data)
                    &&& forall|j: int|
                        0 <= j < i ==> !(#[trigger] self.configs@[j]).matches_instruction(program_id, data)
                },
                None => forall|j: int|
                    0 <= j < self.configs@.len() ==> !(#[trigger] self.configs@[j]).matches_instruction(
                        program_id,
                        data,
                    ),
            },
    {
        let hits = |i: int| self.configs@[i].matches_instruction(program_id, data);
        lemma_first_match(hits, 0, self.configs@.len() as int);
        match self.instruction_rule(program_id, data) {
            Some(i) => {
                assert(hits(i));
                assert forall|j: int| 0 <= j < i implies !(#[trigger] self.configs@[j]).matches_instruction(
                    program_id,
                    data,
                ) by {
                    assert(!hits(j));
                }
            },
            None => {
                assert forall|j: int| 0 <= j < self.configs@.len() implies !(
                #[trigger] self.configs@[j]).matches_instruction(program_id, data) by {
                    assert(!hits(j));
                }
            },
        }
    }
}

} // verus!
