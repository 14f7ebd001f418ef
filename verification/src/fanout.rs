//! The fan-out: the events of a whole transaction, in the order of its
//! instructions.

use vstd::prelude::*;
use crate::engine::{position, GenericEventParser};
use crate::event::UnifiedEvent;
use crate::metadata::{EventMetadata, EventType, ProtocolType};
use crate::pubkey::Pubkey;
use crate::text::{decimal_text, index_string, nested_index_string, nested_index_text};
use crate::transaction::{
    keys_at, positions_valid, program_of, resolve_accounts, resolve_program, TransactionWithSlot,
};

verus! {

/// The event types that a caller wants to see.
#[derive(Clone, Debug, PartialEq, Eq)]
pub struct EventTypeFilter {
    pub allowed: Vec<EventType>,
}

impl EventTypeFilter {
    /// Whether the type is on the list.
    pub fn allows(&self, event_type: EventType) -> (b: bool)
        ensures
            b == self.allowed@.contains(event_type),
    {
        let mut i: usize = 0;
        while i < self.allowed.len()
            invariant
                i <= self.allowed@.len(),
                forall|j: int| 0 <= j < i ==> self.allowed@[j] != event_type,
            decreases self.allowed@.len() - i,
        {
            if self.allowed[i] == event_type {
                return true;
            }
            i += 1;
        }
        false
    }
}

/// The list of a filter, where there is one.
pub open spec fn listed(filter: Option<EventTypeFilter>) -> Option<Seq<EventType>> {
    match filter {
        Some(f) => Some(f.allowed@),
        None => None,
    }
}

/// Whether an event is let through: its wallet is the one asked for, where
/// one is, and its type is on the list, where there is a list.
pub open spec fn passes(e: UnifiedEvent, wallet: Option<Pubkey>, types: Option<Seq<EventType>>) -> bool {
    &&& wallet matches Some(w) ==> e.user_of() == w
    &&& types matches Some(list) ==> list.contains(e.metadata_of().event_type)
}

/// Whether an event is let through.
pub fn lets_through(e: &UnifiedEvent, wallet: &Option<Pubkey>, filter: &Option<EventTypeFilter>) -> (b: bool)
    ensures
        b == passes(*e, *wallet, listed(*filter)),
{
    let wallet_ok = match wallet {
        Some(w) => e.user().same(w),
        None => true,
    };
    let type_ok = match filter {
        Some(f) => f.allows(e.event_type()),
        None => true,
    };
    wallet_ok && type_ok
}

/// What happened to one inner instruction: the envelope it was read under,
/// the rule that matched it, and the record that the decoder gave.
pub struct InnerTrace {
    pub metadata: EventMetadata,
    pub rule: Option<int>,
    pub record: Option<UnifiedEvent>,
}

/// What happened to one instruction and to its inner instructions.
pub struct InstructionTrace {
    pub metadata: EventMetadata,
    pub rule: Option<int>,
    pub record: Option<UnifiedEvent>,
    pub inner: Seq<InnerTrace>,
}

/// Whether the envelope is the one of the transaction at the given position,
/// before a rule has put its tags on it.
pub open spec fn envelope_for(
    tx: TransactionWithSlot,
    received_ms: i64,
    index: Seq<char>,
    m: EventMetadata,
) -> bool {
    &&& m.id@ == tx.signature@
    &&& m.signature@ == tx.signature@
    &&& m.slot == tx.slot
    &&& m.block_time == tx.block_time
    &&& m.program_received_time_ms == received_ms
    &&& m.protocol == ProtocolType::Unknown
    &&& m.event_type == EventType::Unknown
    &&& m.program_id == Pubkey::zero()
    &&& m.index@ == index
}

/// Whether the log record goes into the record of its instruction: both are
/// there and were read under the same rule.
pub open spec fn joins(rule: Option<int>, it: InnerTrace) -> bool {
    it.record.is_some() && rule.is_some() && it.rule == rule
}

/// The record of the instruction after the log records that join it have
/// been merged into it, in their order.
pub open spec fn merged_over(record: UnifiedEvent, rule: Option<int>, inner: Seq<InnerTrace>) -> UnifiedEvent
    decreases inner.len(),
{
    if inner.len() == 0 {
        record
    } else {
        let before = merged_over(record, rule, inner.drop_last());
        if joins(rule, inner.last()) {
            before.merged(inner.last().record.unwrap())
        } else {
            before
        }
    }
}

/// Whether some log record joins the record of the instruction.
pub open spec fn joined_any(rule: Option<int>, inner: Seq<InnerTrace>) -> bool
    decreases inner.len(),
{
    inner.len() > 0 && (joins(rule, inner.last()) || joined_any(rule, inner.drop_last()))
}

/// The records of the inner instructions that stand for themselves and are
/// let through, in their order. A log record stands for itself where there
/// is no record of the instruction for it to join.
pub open spec fn standalone_kept(
    has_record: bool,
    rule: Option<int>,
    inner: Seq<InnerTrace>,
    wallet: Option<Pubkey>,
    types: Option<Seq<EventType>>,
) -> Seq<UnifiedEvent>
    decreases inner.len(),
{
    if inner.len() == 0 {
        Seq::empty()
    } else {
        let before = standalone_kept(has_record, rule, inner.drop_last(), wallet, types);
        let it = inner.last();
        if it.record.is_some() && !(has_record && joins(rule, it)) && passes(
            it.record.unwrap(),
            wallet,
            types,
        ) {
            before.push(it.record.unwrap())
        } else {
            before
        }
    }
}

/// Whether the rule asks for a log record.
pub open spec fn asks_for_log(parser: GenericEventParser, rule: Option<int>) -> bool {
    rule.is_some() && 0 <= rule.unwrap() < parser.configs@.len()
        && parser.configs@[rule.unwrap()].requires_inner_instruction
}

/// The merged record of the instruction, where there is one, it is not left
/// out for want of a log record, and it is let through.
pub open spec fn head_kept(
    parser: GenericEventParser,
    t: InstructionTrace,
    wallet: Option<Pubkey>,
    types: Option<Seq<EventType>>,
) -> Seq<UnifiedEvent> {
    if t.record.is_some() && (!asks_for_log(parser, t.rule) || joined_any(t.rule, t.inner)) && passes(
        merged_over(t.record.unwrap(), t.rule, t.inner),
        wallet,
        types,
    ) {
        seq![merged_over(t.record.unwrap(), t.rule, t.inner)]
    } else {
        Seq::empty()
    }
}

/// The events of one instruction: its merged record first, then the records
/// of its inner instructions that stand for themselves.
pub open spec fn instruction_output(
    parser: GenericEventParser,
    t: InstructionTrace,
    wallet: Option<Pubkey>,
    types: Option<Seq<EventType>>,
) -> Seq<UnifiedEvent> {
    head_kept(parser, t, wallet, types) + standalone_kept(t.record.is_some(), t.rule, t.inner, wallet, types)
}

/// Whether `it` says what the engine makes of the inner instruction: it is
/// read under the rule of its instruction where that gave a record and
/// matches, else under the first rule that matches.
pub open spec fn inner_traced(
    parser: GenericEventParser,
    tx: TransactionWithSlot,
    received_ms: i64,
    i: int,
    j: int,
    outer: Option<int>,
    it: InnerTrace,
) -> bool {
    let inner = tx.instructions@[i].inner_instructions@[j];
    &&& envelope_for(tx, received_ms, nested_index_text(i as nat, j as nat), it.metadata)
    &&& match program_of(inner, tx.account_keys@) {
        Some(program_id) => {
            &&& it.rule == parser.inner_rule_under(outer, program_id, inner.data@)
            &&& parser.inner_instruction_read(it.rule, inner.data@, it.metadata, it.record)
        },
        None => it.rule.is_none() && it.record.is_none(),
    }
}

/// Whether `t` says what the engine makes of instruction `i` of the
/// transaction and of each of its inner instructions.
pub open spec fn instruction_traced(
    parser: GenericEventParser,
    tx: TransactionWithSlot,
    received_ms: i64,
    i: int,
    t: InstructionTrace,
) -> bool {
    let ins = tx.instructions@[i];
    let keys = tx.account_keys@;
    &&& envelope_for(tx, received_ms, decimal_text(i as nat), t.metadata)
    &&& if program_of(ins.instruction, keys).is_some() && positions_valid(ins.instruction.accounts@, keys) {
        &&& t.rule == parser.instruction_rule(program_of(ins.instruction, keys).unwrap(), ins.instruction.data@)
        &&& parser.instruction_matched(
            program_of(ins.instruction, keys).unwrap(),
            ins.instruction.data@,
            keys_at(ins.instruction.accounts@, keys),
            t.metadata,
            t.record,
        )
    } else {
        t.rule.is_none() && t.record.is_none()
    }
    &&& t.inner.len() == ins.inner_instructions@.len()
    &&& forall|j: int|
        0 <= j < t.inner.len() ==> inner_traced(
            parser,
            tx,
            received_ms,
            i,
            j,
            if t.record.is_some() {
                t.rule
            } else {
                None
            },
            #[trigger] t.inner[j],
        )
}

/// The events of the instructions one after the other.
pub open spec fn outputs(
    parser: GenericEventParser,
    traces: Seq<InstructionTrace>,
    wallet: Option<Pubkey>,
    types: Option<Seq<EventType>>,
) -> Seq<UnifiedEvent>
    decreases traces.len(),
{
    if traces.len() == 0 {
        Seq::empty()
    } else {
        outputs(parser, traces.drop_last(), wallet, types) + instruction_output(
            parser,
            traces.last(),
            wallet,
            types,
        )
    }
}

/// Whether `out` holds the events of the transaction: for each instruction in
/// its order what the engine makes of it and of its inner instructions, the
/// log records merged into the record of their rule, and the filters applied
/// to what is left.
pub open spec fn transaction_events(
    parser: GenericEventParser,
    tx: TransactionWithSlot,
    received_ms: i64,
    wallet: Option<Pubkey>,
    types: Option<Seq<EventType>>,
    out: Seq<UnifiedEvent>,
) -> bool {
    exists|traces: Seq<InstructionTrace>|
        {
            &&& traces.len() == tx.instructions@.len()
            &&& forall|i: int|
                0 <= i < traces.len() ==> instruction_traced(parser, tx, received_ms, i, #[trigger] traces[i])
            &&& out == outputs(parser, traces, wallet, types)
        }
}

/// The envelope of the transaction at a position.
fn envelope(tx: &TransactionWithSlot, received_ms: i64, index: String) -> (m: EventMetadata)
    ensures
        envelope_for(*tx, received_ms, index@, m),
{
    EventMetadata::new(
        tx.signature.clone(),
        tx.slot,
        tx.block_time,
        received_ms,
        ProtocolType::Unknown,
        EventType::Unknown,
        Pubkey::default(),
        index,
    )
}

/// The record of a top-level instruction and the rule that gave it.
fn parse_top_level(
    parser: &GenericEventParser,
    tx: &TransactionWithSlot,
    received_ms: i64,
    i: usize,
) -> (r: (Option<usize>, Option<UnifiedEvent>, Ghost<EventMetadata>))
    requires
        i < tx.instructions@.len(),
    ensures
        envelope_for(*tx, received_ms, decimal_text(i as nat), r.2@),
        r.0 matches Some(k) ==> k < parser.configs@.len(),
        ({
            let ins = tx.instructions@[i as int];
            let keys = tx.account_keys@;
            if program_of(ins.instruction, keys).is_some() && positions_valid(ins.instruction.accounts@, keys) {
                &&& position(r.0) == parser.instruction_rule(
                    program_of(ins.instruction, keys).unwrap(),
                    ins.instruction.data@,
                )
                &&& parser.instruction_matched(
                    program_of(ins.instruction, keys).unwrap(),
                    ins.instruction.data@,
                    keys_at(ins.instruction.accounts@, keys),
                    r.2@,
                    r.1,
                )
            } else {
                r.0.is_none() && r.1.is_none()
            }
        }),
{
    let ins = &tx.instructions[i];
    let metadata = envelope(tx, received_ms, index_string(i));
    let ghost m = metadata;
    let program_id = match resolve_program(&ins.instruction, tx.account_keys.as_slice()) {
        Some(p) => p,
        None => { return (None, None, Ghost(m)); },
    };
    let accounts = match resolve_accounts(ins.instruction.accounts.as_slice(), tx.account_keys.as_slice()) {
        Some(v) => v,
        None => { return (None, None, Ghost(m)); },
    };
    match parser.find_instruction_rule(&program_id, ins.instruction.data.as_slice()) {
        None => (None, None, Ghost(m)),
        Some(k) => {
            proof {
                parser.lemma_instruction_rule_is_first(program_id, ins.instruction.data@);
            }
            let record = parser.configs[k].decode_instruction(
                ins.instruction.data.as_slice(),
                accounts.as_slice(),
                metadata,
            );
            (Some(k), record, Ghost(m))
        },
    }
}

/// The events of instruction `i` of the transaction, appended to `out`.
fn parse_instruction(
    parser: &GenericEventParser,
    tx: &TransactionWithSlot,
    received_ms: i64,
    i: usize,
    wallet: &Option<Pubkey>,
    filter: &Option<EventTypeFilter>,
    out: &mut Vec<UnifiedEvent>,
) -> (trace: Ghost<InstructionTrace>)
    requires
        i < tx.instructions@.len(),
    ensures
        instruction_traced(*parser, *tx, received_ms, i as int, trace@),
        final(out)@ == old(out)@ + instruction_output(*parser, trace@, *wallet, listed(*filter)),
{
    let top = parse_top_level(parser, tx, received_ms, i);
    let rule = top.0;
    let mut head = top.1;
    let ghost record = top.1;
    let ghost top_metadata = top.2@;
    let hint: Option<usize> = if head.is_some() {
        rule
    } else {
        None
    };
    let ins = &tx.instructions[i];
    let mut rest: Vec<UnifiedEvent> = Vec::new();
    let mut joined = false;
    let ghost mut inner: Seq<InnerTrace> = Seq::empty();
    let mut j: usize = 0;
    while j < ins.inner_instructions.len()
        invariant
            i < tx.instructions@.len(),
            *ins == tx.instructions@[i as int],
            j <= ins.inner_instructions@.len(),
            inner.len() == j,
            hint == (if record.is_some() {
                rule
            } else {
                None
            }),
            rule matches Some(k) ==> k < parser.configs@.len(),
            head.is_some() == record.is_some(),
            record.is_some() ==> head == Some(merged_over(record.unwrap(), position(rule), inner)),
            joined == (record.is_some() && joined_any(position(rule), inner)),
            rest@ == standalone_kept(record.is_some(), position(rule), inner, *wallet, listed(*filter)),
            forall|k: int|
                0 <= k < j ==> inner_traced(
                    *parser,
                    *tx,
                    received_ms,
                    i as int,
                    k,
                    position(hint),
                    #[trigger] inner[k],
                ),
        decreases ins.inner_instructions@.len() - j,
    {
        let metadata = envelope(tx, received_ms, nested_index_string(i, j));
        let ghost m = metadata;
        let found = match resolve_program(&ins.inner_instructions[j], tx.account_keys.as_slice()) {
            Some(program_id) => parser.match_inner_instruction_under(
                hint,
                &program_id,
                ins.inner_instructions[j].data.as_slice(),
                metadata,
            ),
            None => (None, None),
        };
        let ghost it = InnerTrace { metadata: m, rule: position(found.0), record: found.1 };
        let ghost before = inner;
        proof {
            inner = inner.push(it);
            assert(inner.drop_last() =~= before);
            assert(inner.last() == it);
        }
        let same_rule = match (found.0, rule) {
            (Some(a), Some(b)) => a == b,
            _ => false,
        };
        match found.1 {
            Some(log) => {
                if head.is_some() && same_rule {
                    match &mut head {
                        Some(h) => {
                            h.merge(&log);
                        },
                        None => {},
                    }
                    joined = true;
                } else {
                    if lets_through(&log, wallet, filter) {
                        rest.push(log);
                    }
                }
            },
            None => {},
        }
        j += 1;
    }
    let ghost t = InstructionTrace { metadata: top_metadata, rule: position(rule), record, inner };
    let asks = match rule {
        Some(k) => parser.configs[k].requires_inner_instruction,
        None => false,
    };
    let ghost start = out@;
    match head {
        Some(h) => {
            if (!asks || joined) && lets_through(&h, wallet, filter) {
                out.push(h);
            }
        },
        None => {},
    }
    proof {
        assert(out@ =~= start + head_kept(*parser, t, *wallet, listed(*filter)));
    }
    out.append(&mut rest);
    proof {
        assert(out@ =~= start + instruction_output(*parser, t, *wallet, listed(*filter)));
    }
    Ghost(t)
}

/// The events of a transaction, in the order of its instructions: for each
/// instruction its record, with the log records of the same rule merged into
/// it, and then the records of its inner instructions that stand for
/// themselves. A filter lets through what it names and nothing else. A
/// transaction in which nothing matches gives no event.
pub fn parse_transaction(
    parser: &GenericEventParser,
    tx: &TransactionWithSlot,
    program_received_time_ms: i64,
    bot_wallet: Option<Pubkey>,
    event_type_filter: Option<EventTypeFilter>,
) -> (out: Vec<UnifiedEvent>)
    ensures
        transaction_events(
            *parser,
            *tx,
            program_received_time_ms,
            bot_wallet,
            listed(event_type_filter),
            out@,
        ),
{
    let mut out: Vec<UnifiedEvent> = Vec::new();
    let ghost mut traces: Seq<InstructionTrace> = Seq::empty();
    let mut i: usize = 0;
    while i < tx.instructions.len()
        invariant
            i <= tx.instructions@.len(),
            traces.len() == i,
            forall|k: int|
                0 <= k < i ==> instruction_traced(
                    *parser,
                    *tx,
                    program_received_time_ms,
                    k,
                    #[trigger] traces[k],
                ),
            out@ == outputs(*parser, traces, bot_wallet, listed(event_type_filter)),
        decreases tx.instructions@.len() - i,
    {
        let trace = parse_instruction(
            parser,
            tx,
            program_received_time_ms,
            i,
            &bot_wallet,
            &event_type_filter,
            &mut out,
        );
        proof {
            let before = traces;
            traces = traces.push(trace@);
            assert(traces.drop_last() =~= before);
        }
        i += 1;
    }
    out
}

/// Whatever log records are merged into the record of an instruction, the
/// record keeps its variant, its envelope and every field that the program
/// does not log.
pub proof fn lemma_merged_keeps_instruction_fields(
    record: UnifiedEvent,
    rule: Option<int>,
    inner: Seq<InnerTrace>,
)
    ensures
        merged_over(record, rule, inner).same_kind(record),
        merged_over(record, rule, inner).other_fields_agree(record),
    decreases inner.len(),
{
    if inner.len() > 0 {
        lemma_merged_keeps_instruction_fields(record, rule, inner.drop_last());
        let before = merged_over(record, rule, inner.drop_last());
        if joins(rule, inner.last()) {
            let log = inner.last().record.unwrap();
            if before.same_kind(log) {
                UnifiedEvent::lemma_merge_complete(before, log);
            } else {
                UnifiedEvent::lemma_merge_other_kind(before, log);
            }
        }
    }
}

/// Where the last log record joins the record of its instruction and is of
/// the same variant, the merged record has every logged field from it.
pub proof fn lemma_merged_has_last_log(record: UnifiedEvent, rule: Option<int>, inner: Seq<InnerTrace>)
    requires
        inner.len() > 0,
        joins(rule, inner.last()),
        inner.last().record.unwrap().same_kind(record),
    ensures
        merged_over(record, rule, inner).log_fields_agree(inner.last().record.unwrap()),
{
    lemma_merged_keeps_instruction_fields(record, rule, inner.drop_last());
    UnifiedEvent::lemma_merge_complete(
        merged_over(record, rule, inner.drop_last()),
        inner.last().record.unwrap(),
    );
}

/// A transaction in which no instruction and no inner instruction gives a
/// record has no events.
pub proof fn lemma_no_records_no_events(
    parser: GenericEventParser,
    traces: Seq<InstructionTrace>,
    wallet: Option<Pubkey>,
    types: Option<Seq<EventType>>,
)
    requires
        forall|i: int| 0 <= i < traces.len() ==> (#[trigger] traces[i]).record.is_none(),
        forall|i: int, j: int|
            0 <= i < traces.len() && 0 <= j < traces[i].inner.len() ==> (
            #[trigger] traces[i].inner[j]).record.is_none(),
    ensures
        outputs(parser, traces, wallet, types).len() == 0,
    decreases traces.len(),
{
    if traces.len() > 0 {
        lemma_no_records_no_events(parser, traces.drop_last(), wallet, types);
        lemma_no_standalone(false, traces.last().rule, traces.last().inner, wallet, types);
    }
}

/// Inner instructions without records give no events.
pub proof fn lemma_no_standalone(
    has_record: bool,
    rule: Option<int>,
    inner: Seq<InnerTrace>,
    wallet: Option<Pubkey>,
    types: Option<Seq<EventType>>,
)
    requires
        forall|j: int| 0 <= j < inner.len() ==> (#[trigger] inner[j]).record.is_none(),
    ensures
        standalone_kept(has_record, rule, inner, wallet, types).len() == 0,
    decreases inner.len(),
{
    if inner.len() > 0 {
        lemma_no_standalone(has_record, rule, inner.drop_last(), wallet, types);
    }
}

} // verus!
