//! One rule of the table: a program, two discriminators and two decoders.

use vstd::prelude::*;
use crate::engine::decoder::{InnerInstructionDecoder, InstructionDecoder};
use crate::event::UnifiedEvent;
use crate::metadata::{EventMetadata, EventType, ProtocolType};
use crate::pubkey::Pubkey;
use crate::text::{hex_byte_count, hex_matches, hex_prefix_matches};

verus! {

/// Whether `data` begins with the bytes of `pattern`.
pub open spec fn is_prefix(pattern: Seq<u8>, data: Seq<u8>) -> bool {
    pattern.len() <= data.len() && data.subrange(0, pattern.len() as int) == pattern
}

/// A discriminator matches exactly the payloads that are at least as long and
/// hold the same byte at each of its positions.
pub proof fn lemma_prefix_is_exact(pattern: Seq<u8>, data: Seq<u8>)
    ensures
        is_prefix(pattern, data) <==> (pattern.len() <= data.len() && forall|i: int|
            0 <= i < pattern.len() ==> data[i] == pattern[i]),
{
    if pattern.len() <= data.len() {
        let head = data.subrange(0, pattern.len() as int);
        if forall|i: int| 0 <= i < pattern.len() ==> data[i] == pattern[i] {
            assert(head =~= pattern);
        }
        if head == pattern {
            assert forall|i: int| 0 <= i < pattern.len() implies data[i] == pattern[i] by {
                assert(head[i] == data[i]);
            }
        }
    }
}

/// Whether `data` begins with the bytes of `pattern`.
pub fn starts_with(data: &[u8], pattern: &[u8]) -> (b: bool)
    ensures
        b == is_prefix(pattern@, data@),
{
    if pattern.len() > data.len() {
        return false;
    }
    let mut i: usize = 0;
    while i < pattern.len()
        invariant
            i <= pattern@.len() <= data@.len(),
            forall|j: int| 0 <= j < i ==> data@[j] == pattern@[j],
        decreases pattern@.len() - i,
    {
        if data[i] != pattern[i] {
            proof {
                lemma_prefix_is_exact(pattern@, data@);
            }
            return false;
        }
        i += 1;
    }
    proof {
        lemma_prefix_is_exact(pattern@, data@);
    }
    true
}

/// What a discriminator of a log record holds.
pub enum InnerPattern {
    Bytes(Seq<u8>),
    Hex(Seq<char>),
}

/// What a rule holds.
pub struct RuleView {
    pub program_id: Pubkey,
    pub protocol_type: ProtocolType,
    pub inner_instruction_discriminator: InnerPattern,
    pub instruction_discriminator: Seq<u8>,
    pub event_type: EventType,
    pub inner_instruction_parser: Option<InnerInstructionDecoder>,
    pub instruction_parser: Option<InstructionDecoder>,
    pub requires_inner_instruction: bool,
}

/// The discriminator of a log record, in either of its two forms.
#[derive(Clone, Debug, PartialEq, Eq)]
pub enum InnerDiscriminator {
    /// The first bytes of the payload.
    Bytes(Vec<u8>),
    /// `0x` and the hexadecimal digits of the first bytes of the payload.
    Hex(String),
}

impl View for InnerDiscriminator {
    type V = InnerPattern;

    open spec fn view(&self) -> InnerPattern {
        match self {
            InnerDiscriminator::Bytes(b) => InnerPattern::Bytes(b@),
            InnerDiscriminator::Hex(s) => InnerPattern::Hex(s@),
        }
    }
}

impl InnerDiscriminator {
    /// The discriminator that every payload begins with.
    pub fn none() -> (d: InnerDiscriminator)
        ensures
            d@ == InnerPattern::Bytes(Seq::<u8>::empty()),
    {
        InnerDiscriminator::Bytes(Vec::new())
    }

    /// A discriminator in hexadecimal text.
    pub fn hex(text: &str) -> (d: InnerDiscriminator)
        ensures
            d@ == InnerPattern::Hex(text@),
    {
        InnerDiscriminator::Hex(String::from_str(text))
    }

    /// Whether the payload begins with the discriminator.
    pub open spec fn matches(self, payload: Seq<u8>) -> bool {
        match self {
            InnerDiscriminator::Bytes(b) => is_prefix(b@, payload),
            InnerDiscriminator::Hex(s) => hex_prefix_matches(s@, payload),
        }
    }

    /// The number of payload bytes that the discriminator takes up.
    pub open spec fn byte_count(self) -> int {
        match self {
            InnerDiscriminator::Bytes(b) => b@.len() as int,
            InnerDiscriminator::Hex(s) => hex_byte_count(s@),
        }
    }

    /// Tests the payload, and says where the discriminator ends in it.
    pub fn check(&self, payload: &[u8]) -> (r: Option<usize>)
        ensures
            r.is_some() == self.matches(payload@),
            r matches Some(n) ==> n == self.byte_count() && n <= payload@.len(),
    {
        match self {
            InnerDiscriminator::Bytes(b) => {
                if starts_with(payload, b.as_slice()) {
                    Some(b.len())
                } else {
                    None
                }
            },
            InnerDiscriminator::Hex(s) => {
                if hex_matches(s.as_str(), payload) {
                    Some((s.as_str().unicode_len() - 2) / 2)
                } else {
                    None
                }
            },
        }
    }
}

/// One rule of the table: which operation of which program it recognises,
/// and how the payload is decoded.
#[derive(Clone, Debug, PartialEq, Eq)]
pub struct GenericEventParseConfig {
    pub program_id: Pubkey,
    pub protocol_type: ProtocolType,
    pub inner_instruction_discriminator: InnerDiscriminator,
    pub instruction_discriminator: Vec<u8>,
    pub event_type: EventType,
    pub inner_instruction_parser: Option<InnerInstructionDecoder>,
    pub instruction_parser: Option<InstructionDecoder>,
    /// Whether the event counts only where the program has logged it.
    pub requires_inner_instruction: bool,
}

impl View for GenericEventParseConfig {
    type V = RuleView;

    open spec fn view(&self) -> RuleView {
        RuleView {
            program_id: self.program_id,
            protocol_type: self.protocol_type,
            inner_instruction_discriminator: self.inner_instruction_discriminator@,
            instruction_discriminator: self.instruction_discriminator@,
            event_type: self.event_type,
            inner_instruction_parser: self.inner_instruction_parser,
            instruction_parser: self.instruction_parser,
            requires_inner_instruction: self.requires_inner_instruction,
        }
    }
}

/// The bytes of a discriminator.
pub fn pattern<const N: usize>(bytes: [u8; N]) -> (v: Vec<u8>)
    ensures
        v@ == bytes@,
{
    let mut v: Vec<u8> = Vec::new();
    let mut i: usize = 0;
    while i < N
        invariant
            i <= N,
            v@ == bytes@.subrange(0, i as int),
        decreases N - i,
    {
        v.push(bytes[i]);
        assert(v@ =~= bytes@.subrange(0, i + 1));
        i += 1;
    }
    assert(v@ =~= bytes@);
    v
}

impl GenericEventParseConfig {
    /// A rule has at least one decoder.
    pub open spec fn well_formed(self) -> bool {
        self.inner_instruction_parser.is_some() || self.instruction_parser.is_some()
    }

    /// Whether the rule is for this program and the instruction data begins
    /// with its discriminator.
    pub open spec fn matches_instruction(self, program_id: Pubkey, data: Seq<u8>) -> bool {
        self.program_id == program_id && is_prefix(self.instruction_discriminator@, data)
    }

    /// Whether the rule is for this program and the log payload begins with
    /// its discriminator.
    pub open spec fn matches_inner_instruction(self, program_id: Pubkey, payload: Seq<u8>) -> bool {
        self.program_id == program_id && self.inner_instruction_discriminator.matches(payload)
    }

    /// The rule matches an instruction of its program exactly where the data
    /// is at least as long as the discriminator and holds the same byte at
    /// each of its positions.
    pub proof fn lemma_match_is_exact_prefix(self, data: Seq<u8>)
        ensures
            self.matches_instruction(self.program_id, data) <==> (self.instruction_discriminator@.len()
                <= data.len() && forall|i: int|
                0 <= i < self.instruction_discriminator@.len() ==> data[i]
                    == self.instruction_discriminator@[i]),
    {
        lemma_prefix_is_exact(self.instruction_discriminator@, data);
    }

    /// The envelope with the tags of the rule.
    pub open spec fn stamped(self, metadata: EventMetadata) -> EventMetadata {
        EventMetadata {
            protocol: self.protocol_type,
            event_type: self.event_type,
            program_id: self.program_id,
            ..metadata
        }
    }

    /// What the rule makes of an instruction that it matches: nothing where it
    /// has no decoder, else what the decoder returns for the data behind the
    /// discriminator.
    pub open spec fn instruction_decoded(
        self,
        data: Seq<u8>,
        accounts: Seq<Pubkey>,
        metadata: EventMetadata,
        r: Option<UnifiedEvent>,
    ) -> bool {
        match self.instruction_parser {
            None => r.is_none(),
            Some(d) => d.decoded(
                data.subrange(self.instruction_discriminator@.len() as int, data.len() as int),
                accounts,
                self.stamped(metadata),
                r,
            ),
        }
    }

    /// What the rule makes of a log record that it matches.
    pub open spec fn inner_instruction_decoded(
        self,
        payload: Seq<u8>,
        metadata: EventMetadata,
        r: Option<UnifiedEvent>,
    ) -> bool {
        match self.inner_instruction_parser {
            None => r.is_none(),
            Some(d) => d.decoded(
                payload.subrange(self.inner_instruction_discriminator.byte_count(), payload.len() as int),
                self.stamped(metadata),
                r,
            ),
        }
    }

    /// Whether the rule is for this program and the data begins with its
    /// discriminator.
    pub fn accepts_instruction(&self, program_id: &Pubkey, data: &[u8]) -> (b: bool)
        ensures
            b == self.matches_instruction(*program_id, data@),
    {
        self.program_id.same(program_id) && starts_with(data, self.instruction_discriminator.as_slice())
    }

    /// Decodes an instruction that the rule matches.
    pub(crate) fn decode_instruction(&self, data: &[u8], accounts: &[Pubkey], metadata: EventMetadata) -> (r:
        Option<UnifiedEvent>)
        requires
            is_prefix(self.instruction_discriminator@, data@),
        ensures
            self.instruction_decoded(data@, accounts@, metadata, r),
    {
        match self.instruction_parser {
            None => None,
            Some(d) => {
                let rest = vstd::slice::slice_subrange(
                    data,
                    self.instruction_discriminator.len(),
                    data.len(),
                );
                d.decode(
                    rest,
                    accounts,
                    metadata.with_rule(self.protocol_type, self.event_type, self.program_id),
                )
            },
        }
    }

    /// Whether the rule is for this program and the log payload begins with
    /// its discriminator; if so, where the discriminator ends.
    pub fn accepts_inner_instruction(&self, program_id: &Pubkey, payload: &[u8]) -> (r: Option<usize>)
        ensures
            r.is_some() == self.matches_inner_instruction(*program_id, payload@),
            r matches Some(n) ==> n == self.inner_instruction_discriminator.byte_count() && n
                <= payload@.len(),
    {
        if !self.program_id.same(program_id) {
            return None;
        }
        self.inner_instruction_discriminator.check(payload)
    }

    /// Decodes a log record that the rule matches.
    pub(crate) fn decode_inner_instruction(&self, payload: &[u8], start: usize, metadata: EventMetadata) -> (r:
        Option<UnifiedEvent>)
        requires
            start == self.inner_instruction_discriminator.byte_count(),
            start <= payload@.len(),
        ensures
            self.inner_instruction_decoded(payload@, metadata, r),
    {
        match self.inner_instruction_parser {
            None => None,
            Some(d) => {
                let rest = vstd::slice::slice_subrange(payload, start, payload.len());
                d.decode(rest, metadata.with_rule(self.protocol_type, self.event_type, self.program_id))
            },
        }
    }
}

} // verus!
