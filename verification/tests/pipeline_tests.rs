use solana_streamer::batch::EventBatchProcessor;
use solana_streamer::event::UnifiedEvent;
use solana_streamer::fanout::{lets_through, parse_transaction, EventTypeFilter};
use solana_streamer::metadata::{EventType, Timestamp};
use solana_streamer::protocols::meteora_dbc::events::MeteoraDBCSwapEvent;
use solana_streamer::protocols::pumpfun::discriminators::{BUY_IX, SELL_IX};
use solana_streamer::protocols::pumpfun::events::PumpFunTradeEvent;
use solana_streamer::protocols::pumpfun::parser::PUMPFUN_PROGRAM_ID;
use solana_streamer::protocols::axiom1::parser::AXIOM_1_PROGRAM_ID;
use solana_streamer::protocols::{table_for, Protocol};
use solana_streamer::pubkey::Pubkey;
use solana_streamer::stream::{
    BackpressureConfig, BatchConfig, Delivery, ProcessingMode, ShredStreamGrpc, StreamClientConfig,
};
use solana_streamer::subscription::{SubscriptionPhase, SubscriptionState};
use solana_streamer::text::{bool_str, index_string, join4, nested_index_string};
use solana_streamer::transaction::{CompiledInstruction, InstructionWithInner, TransactionWithSlot};

fn numbered(n: u64) -> UnifiedEvent {
    let mut e = PumpFunTradeEvent::default();
    e.amount = n;
    UnifiedEvent::PumpFunTrade(e)
}

fn amounts(events: &[UnifiedEvent]) -> Vec<u64> {
    events
        .iter()
        .map(|e| match e {
            UnifiedEvent::PumpFunTrade(t) => t.amount,
            UnifiedEvent::AxiomPumpFunTrade(t) => t.amount,
            _ => u64::MAX,
        })
        .collect()
}

#[test]
fn three_events_fill_a_batch_of_three() {
    let mut batch = EventBatchProcessor::new(3, 1_000);
    assert!(batch.add_event(numbered(1), 10).is_none());
    assert!(batch.poll_timeout(10).is_none());
    assert!(batch.add_event(numbered(2), 10).is_none());
    let flushed = batch.add_event(numbered(3), 11).unwrap();
    assert_eq!(amounts(&flushed), vec![1, 2, 3]);
    assert_eq!(batch.len(), 0);
    assert!(batch.poll_timeout(12).is_none());
    assert!(batch.flush().is_none());
    assert_eq!(batch.deadline(), None);
}

#[test]
fn one_event_is_handed_on_when_its_time_is_up() {
    let mut batch = EventBatchProcessor::new(100, 50);
    assert!(batch.add_event(numbered(1), 1_000).is_none());
    assert_eq!(batch.deadline(), Some(1_050));
    assert!(batch.poll_timeout(1_049).is_none());
    assert!(batch.poll_timeout(999).is_none());
    let flushed = batch.poll_timeout(1_060).unwrap();
    assert_eq!(amounts(&flushed), vec![1]);
    assert!(batch.poll_timeout(2_000).is_none());
    assert_eq!(batch.deadline(), None);
    assert!(batch.flush().is_none());
}

#[test]
fn the_time_runs_from_the_first_waiting_event() {
    let mut batch = EventBatchProcessor::new(10, 50);
    assert!(batch.add_event(numbered(1), 100).is_none());
    assert!(batch.add_event(numbered(2), 140).is_none());
    assert_eq!(batch.deadline(), Some(150));
    assert_eq!(amounts(&batch.poll_timeout(150).unwrap()), vec![1, 2]);
    assert!(batch.add_event(numbered(3), 170).is_none());
    assert_eq!(batch.deadline(), Some(220));
    let mut late = EventBatchProcessor::new(10, u64::MAX);
    assert!(late.add_event(numbered(1), 5).is_none());
    assert_eq!(late.deadline(), Some(u64::MAX));
}

#[test]
fn what_is_left_at_the_end_is_handed_on_once() {
    let mut batch = EventBatchProcessor::new(5, 50);
    assert!(batch.add_event(numbered(1), 0).is_none());
    assert!(batch.add_event(numbered(2), 0).is_none());
    assert_eq!(amounts(&batch.flush().unwrap()), vec![1, 2]);
    assert!(batch.flush().is_none());
    assert_eq!(batch.len(), 0);
}

#[test]
fn a_batch_size_of_zero_or_one_hands_on_every_event() {
    for size in [0, 1] {
        let mut batch = EventBatchProcessor::new(size, 50);
        assert_eq!(amounts(&batch.add_event(numbered(1), 0).unwrap()), vec![1]);
        assert_eq!(amounts(&batch.add_event(numbered(2), 0).unwrap()), vec![2]);
        assert_eq!(batch.len(), 0);
        let batches = batch.add_events(vec![numbered(3), numbered(4)], 0);
        assert_eq!(batches.len(), 2);
        assert_eq!(amounts(&batches[1]), vec![4]);
    }
}

#[test]
fn the_events_of_a_transaction_are_cut_into_batches_in_order() {
    let mut batch = EventBatchProcessor::new(3, 50);
    assert!(batch.add_events(vec![numbered(1), numbered(2)], 100).is_empty());
    assert_eq!(batch.deadline(), Some(150));
    let batches = batch.add_events((3..=8).map(numbered).collect(), 120);
    assert_eq!(batches.len(), 2);
    assert_eq!(amounts(&batches[0]), vec![1, 2, 3]);
    assert_eq!(amounts(&batches[1]), vec![4, 5, 6]);
    assert_eq!(batch.len(), 2);
    assert_eq!(batch.deadline(), Some(170));
    let batches = batch.add_events(vec![numbered(9)], 130);
    assert_eq!(batches.len(), 1);
    assert_eq!(amounts(&batches[0]), vec![7, 8, 9]);
    assert_eq!(batch.len(), 0);
    assert_eq!(batch.deadline(), None);
    assert!(batch.add_events(vec![], 140).is_empty());
    assert!(batch.add_events(vec![numbered(10)], 150).is_empty());
    assert!(batch.add_events(vec![numbered(11)], 160).is_empty());
    assert_eq!(batch.deadline(), Some(200));
    assert_eq!(amounts(&batch.flush().unwrap()), vec![10, 11]);
}

#[test]
fn a_subscription_goes_round() {
    let mut s = SubscriptionState::new();
    assert_eq!(s.phase, SubscriptionPhase::Idle);
    assert_eq!(s.stop(), None);
    let plan = s.subscribe();
    assert_eq!(plan.cancel, None);
    assert_eq!(plan.generation, 1);
    assert_eq!(s.phase, SubscriptionPhase::Starting);
    assert!(!s.may_deliver(1));
    assert!(!s.started(0));
    assert!(s.started(1));
    assert_eq!(s.phase, SubscriptionPhase::Running);
    assert!(s.may_deliver(1));
    assert!(!s.source_closed(0));
    assert!(s.source_closed(1));
    assert_eq!(s.phase, SubscriptionPhase::Stopping);
    assert!(s.may_deliver(1));
    assert_eq!(s.stop(), None);
    assert!(!s.stopped(2));
    assert!(s.stopped(1));
    assert_eq!(s.phase, SubscriptionPhase::Idle);
    assert!(!s.may_deliver(1));
    assert_eq!(SubscriptionState::default(), SubscriptionState::new());
}

#[test]
fn a_new_subscription_ends_the_one_before() {
    let mut s = SubscriptionState::new();
    let first = s.subscribe();
    assert!(s.started(first.generation));
    // stop, and subscribe right behind it
    assert_eq!(s.stop(), Some(first.generation));
    let second = s.subscribe();
    assert_eq!(second.cancel, Some(first.generation));
    assert_ne!(second.generation, first.generation);
    assert!(!s.may_deliver(first.generation));
    assert!(!s.stopped(first.generation));
    assert!(s.started(second.generation));
    assert!(s.may_deliver(second.generation));
    assert!(!s.may_deliver(first.generation));
    // subscribe while running
    let third = s.subscribe();
    assert_eq!(third.cancel, Some(second.generation));
    assert!(!s.may_deliver(second.generation));
    // the source cannot be reached
    assert!(s.start_failed(third.generation));
    assert_eq!(s.phase, SubscriptionPhase::Idle);
    assert!(!s.start_failed(third.generation));
    let mut last = SubscriptionState { phase: SubscriptionPhase::Running, generation: u64::MAX };
    let plan = last.subscribe();
    assert_eq!(plan.cancel, Some(u64::MAX));
    assert_eq!(plan.generation, 0);
}

fn config(batch: bool) -> StreamClientConfig {
    StreamClientConfig {
        backpressure: BackpressureConfig { channel_size: 1 },
        batch: BatchConfig { enabled: batch, batch_size: 3, batch_timeout_ms: 50 },
        enable_metrics: true,
    }
}

#[test]
fn the_mode_of_a_subscription() {
    let mut client = ShredStreamGrpc::new(config(true));
    let plan = client.shredstream_subscribe(true);
    assert_eq!(plan.mode, ProcessingMode::Batch);
    assert_eq!(plan.channel_size, 1);
    assert!(plan.start_metrics);
    assert_eq!(plan.start.cancel, None);
    let plan = client.shredstream_subscribe(false);
    assert_eq!(plan.mode, ProcessingMode::Batch);
    assert_eq!(plan.start.cancel, Some(1));
    assert_eq!(client.stop(), Some(2));
    assert_eq!(client.stop(), None);
    let mut client = ShredStreamGrpc::new(config(false));
    assert_eq!(client.stop(), None);
    assert_eq!(client.shredstream_subscribe(true).mode, ProcessingMode::TransactionPack);
    assert_eq!(client.shredstream_subscribe(false).mode, ProcessingMode::Immediate);
    let batch = client.batch_processor();
    assert_eq!(batch.len(), 0);
}

fn k(n: u8) -> Pubkey {
    Pubkey { bytes: [n; 32] }
}

fn payload(prefix: &[u8], a: u64, b: u64) -> Vec<u8> {
    let mut data = prefix.to_vec();
    data.extend_from_slice(&a.to_le_bytes());
    data.extend_from_slice(&b.to_le_bytes());
    data
}

fn trade_log(mint: u8, user: u8, is_buy: u8, sol: u64) -> Vec<u8> {
    let mut data = vec![0xe4, 0x45, 0xa5, 0x2e, 0x51, 0xcb, 0x9a, 0x1d, 0xbd, 0xdb, 0x7f, 0xd3, 0x4e, 0xe6, 0x61, 0xee];
    let mut body = vec![0u8; 250];
    body[..32].copy_from_slice(&[mint; 32]);
    body[32..40].copy_from_slice(&sol.to_le_bytes());
    body[48] = is_buy;
    body[49..81].copy_from_slice(&[user; 32]);
    data.extend(body);
    data
}

fn transaction() -> TransactionWithSlot {
    // keys 0..=13 are accounts, 14 is the bonding curve program, 15 the router
    let mut keys: Vec<Pubkey> = (1..=14).map(k).collect();
    keys.push(Pubkey { bytes: PUMPFUN_PROGRAM_ID });
    keys.push(Pubkey { bytes: AXIOM_1_PROGRAM_ID });
    let accounts: Vec<u8> = (0..14).collect();
    TransactionWithSlot {
        signature: "S1".to_string(),
        slot: 900,
        block_time: Some(Timestamp { seconds: 1_700_000_000, nanos: 5 }),
        account_keys: keys,
        instructions: vec![
            // a sell with its log and a log of another trade
            InstructionWithInner {
                instruction: CompiledInstruction {
                    program_id_index: 14,
                    accounts: accounts.clone(),
                    data: payload(&SELL_IX, 10, 20),
                },
                inner_instructions: vec![
                    CompiledInstruction { program_id_index: 3, accounts: vec![], data: vec![1, 2, 3] },
                    CompiledInstruction { program_id_index: 14, accounts: vec![], data: trade_log(3, 7, 0, 555) },
                ],
            },
            // something that nothing matches
            InstructionWithInner {
                instruction: CompiledInstruction { program_id_index: 2, accounts: vec![0], data: vec![9; 40] },
                inner_instructions: vec![],
            },
            // a routed buy that causes a trade on the bonding curve
            InstructionWithInner {
                instruction: CompiledInstruction {
                    program_id_index: 15,
                    accounts: accounts.clone(),
                    data: payload(&[0], 30, 40),
                },
                inner_instructions: vec![
                    CompiledInstruction { program_id_index: 14, accounts: vec![], data: trade_log(3, 7, 1, 777) },
                ],
            },
            // a buy without a log
            InstructionWithInner {
                instruction: CompiledInstruction {
                    program_id_index: 14,
                    accounts: accounts.clone(),
                    data: payload(&BUY_IX, 50, 60),
                },
                inner_instructions: vec![],
            },
        ],
    }
}

#[test]
fn the_events_of_a_transaction_come_in_the_order_of_its_instructions() {
    let table = table_for(&[Protocol::PumpFun, Protocol::Axiom]);
    let events = parse_transaction(&table, &transaction(), 123, None, None);
    let kinds: Vec<EventType> = events.iter().map(|e| e.event_type()).collect();
    assert_eq!(
        kinds,
        vec![EventType::PumpFunSell, EventType::AxiomPumpFunBuy, EventType::PumpFunBuy, EventType::PumpFunBuy]
    );
    let positions: Vec<&str> = events.iter().map(|e| e.index()).collect();
    assert_eq!(positions, vec!["0", "2", "2.0", "3"]);
    // the sell has the fields of its log and of its instruction
    match &events[0] {
        UnifiedEvent::PumpFunTrade(e) => {
            assert_eq!(e.sol_amount, 555);
            assert_eq!(e.amount, 10);
            assert_eq!(e.min_sol_output, 20);
            assert!(!e.is_buy);
            assert_eq!(e.mint, k(3));
            assert_eq!(e.bonding_curve, k(4));
            assert_eq!(e.metadata.slot, 900);
            assert_eq!(e.metadata.signature, "S1");
            assert_eq!(e.metadata.block_time, Some(Timestamp { seconds: 1_700_000_000, nanos: 5 }));
            assert_eq!(e.metadata.program_received_time_ms, 123);
        }
        other => panic!("unexpected event {:?}", other),
    }
    // the log under the router stands for itself
    match &events[2] {
        UnifiedEvent::PumpFunTrade(e) => {
            assert_eq!(e.sol_amount, 777);
            assert_eq!(e.amount, 0);
        }
        other => panic!("unexpected event {:?}", other),
    }
    assert_eq!(amounts(&events), vec![10, 40, 0, 50]);
}

#[test]
fn filters_apply_to_what_is_emitted() {
    let table = table_for(&[Protocol::PumpFun, Protocol::Axiom]);
    let only_sells = Some(EventTypeFilter { allowed: vec![EventType::PumpFunSell] });
    let events = parse_transaction(&table, &transaction(), 0, None, only_sells);
    assert_eq!(events.len(), 1);
    assert_eq!(events[0].event_type(), EventType::PumpFunSell);
    // the instructions name account 7 as the user, the logs name account 7 too
    let events = parse_transaction(&table, &transaction(), 0, Some(k(7)), None);
    assert_eq!(events.len(), 4);
    let events = parse_transaction(&table, &transaction(), 0, Some(k(8)), None);
    assert!(events.is_empty());
    let nothing = Some(EventTypeFilter { allowed: vec![] });
    assert!(parse_transaction(&table, &transaction(), 0, None, nothing).is_empty());
    let e = numbered(1);
    assert!(lets_through(&e, &None, &None));
    assert!(lets_through(&e, &Some(Pubkey::default()), &None));
    assert!(!lets_through(&e, &Some(k(1)), &None));
    assert!(!lets_through(&e, &None, &Some(EventTypeFilter { allowed: vec![EventType::PumpFunBuy] })));
    assert!(lets_through(&e, &None, &Some(EventTypeFilter { allowed: vec![EventType::Unknown] })));
    let swap = UnifiedEvent::MeteoraDBCSwap(MeteoraDBCSwapEvent { payer: k(5), ..MeteoraDBCSwapEvent::default() });
    assert!(lets_through(&swap, &Some(k(5)), &None));
}

#[test]
fn a_transaction_in_which_nothing_matches_has_no_events() {
    let table = table_for(&[Protocol::Photon, Protocol::MeteoraDBC]);
    assert!(parse_transaction(&table, &transaction(), 0, None, None).is_empty());
    let empty = TransactionWithSlot {
        signature: String::new(),
        slot: 0,
        block_time: None,
        account_keys: vec![],
        instructions: vec![],
    };
    assert!(parse_transaction(&table_for(&[Protocol::PumpFun]), &empty, 0, None, None).is_empty());
    assert!(parse_transaction(&table_for(&[]), &transaction(), 0, None, None).is_empty());
}

#[test]
fn the_modes_hand_over_the_same_events() {
    let table = table_for(&[Protocol::PumpFun, Protocol::Axiom]);
    let client = ShredStreamGrpc::new(config(true));
    let each = client.process_immediate(&table, &transaction(), 0, None, None);
    assert_eq!(each.len(), 4);
    match client.process_immediate_in_tx_pack(&table, &transaction(), 0, None, None, true) {
        Delivery::Pack(events) => assert_eq!(events, each),
        other => panic!("unexpected delivery {:?}", other),
    }
    match client.process_immediate_in_tx_pack(&table, &transaction(), 0, None, None, false) {
        Delivery::Each(events) => assert_eq!(events, each),
        other => panic!("unexpected delivery {:?}", other),
    }
    let mut batch = client.batch_processor();
    let batches = client.process_with_batch(&table, &transaction(), 0, None, None, &mut batch, 1_000);
    assert_eq!(batches.len(), 1);
    assert_eq!(batches[0], each[..3].to_vec());
    assert_eq!(batch.len(), 1);
    assert_eq!(batch.deadline(), Some(1_050));
    assert_eq!(batch.flush().unwrap(), each[3..].to_vec());
}

#[test]
fn positions_and_identities_as_text() {
    assert_eq!(index_string(0), "0");
    assert_eq!(index_string(9), "9");
    assert_eq!(index_string(10), "10");
    assert_eq!(index_string(1_234_567_890), "1234567890");
    assert_eq!(index_string(usize::MAX), usize::MAX.to_string());
    assert_eq!(nested_index_string(3, 1), "3.1");
    assert_eq!(nested_index_string(0, 0), "0.0");
    assert_eq!(nested_index_string(12, 340), "12.340");
    assert_eq!(join4("a", "bc", "", "d"), "a-bc--d");
    assert_eq!(bool_str(true), "true");
    assert_eq!(bool_str(false), "false");
}
