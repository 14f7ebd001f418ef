use solana_streamer::engine::{
    pattern, starts_with, ConfigError, GenericEventParseConfig, GenericEventParser, InnerDiscriminator,
    InnerInstructionDecoder, InstructionDecoder,
};
use solana_streamer::event::UnifiedEvent;
use solana_streamer::metadata::{EventMetadata, EventType, ProtocolType};
use solana_streamer::protocols::axiom1::parser::{AxiomEventParser, AXIOM_1_PROGRAM_ID, AXIOM_1_PROGRAM_VAR_1_ID};
use solana_streamer::protocols::axiom2::parser::Axiom2EventParser;
use solana_streamer::protocols::meteora_dbc;
use solana_streamer::protocols::photon::parser::{PhotonEventParser, PHOTON_PROGRAM_ID};
use solana_streamer::protocols::prog6hb1v::parser::Prog6HB1VEventParser;
use solana_streamer::protocols::prog_f5tfv::parser::F5tfvEventParser;
use solana_streamer::protocols::pumpfun::discriminators::{BUY_IX, SELL_IX, TRADE_EVENT};
use solana_streamer::protocols::pumpfun::parser::{PumpFunEventParser, PUMPFUN_PROGRAM_ID};
use solana_streamer::protocols::{table_for, Protocol};
use solana_streamer::pubkey::Pubkey;
use solana_streamer::text::hex_matches;
use solana_streamer::transaction::{resolve_accounts, resolve_program, CompiledInstruction};

fn pk(n: u8) -> Pubkey {
    Pubkey { bytes: [n; 32] }
}

fn pks(n: u8) -> Vec<Pubkey> {
    (0..n).map(|i| pk(i + 1)).collect()
}

fn base_meta() -> EventMetadata {
    EventMetadata::new(
        "tx".to_string(),
        1,
        None,
        2,
        ProtocolType::Unknown,
        EventType::Unknown,
        Pubkey::default(),
        "0".to_string(),
    )
}

fn sixteen(prefix: &[u8]) -> Vec<u8> {
    let mut data = prefix.to_vec();
    data.extend_from_slice(&100u64.to_le_bytes());
    data.extend_from_slice(&200u64.to_le_bytes());
    data
}

#[test]
fn buy_through_the_engine() {
    let parser = AxiomEventParser::new();
    let program = Pubkey { bytes: AXIOM_1_PROGRAM_ID };
    let accounts = pks(14);
    let event = parser.inner().match_instruction(&program, &sixteen(&[0]), &accounts, base_meta()).unwrap();
    match event {
        UnifiedEvent::AxiomPumpFunTrade(e) => {
            assert!(e.is_buy);
            assert_eq!(e.max_sol_cost, 101);
            assert_eq!(e.amount, 200);
            assert_eq!(e.metadata.protocol, ProtocolType::AxiomTrading1);
            assert_eq!(e.metadata.event_type, EventType::AxiomPumpFunBuy);
            assert_eq!(e.metadata.program_id, program);
            assert_eq!(e.metadata.id, "tx");
            assert_eq!(e.metadata.index, "0");
        }
        other => panic!("unexpected event {:?}", other),
    }
    assert!(parser.inner().match_instruction(&program, &sixteen(&[0]), &pks(13), base_meta()).is_none());
}

#[test]
fn a_discriminator_matches_exactly_its_prefix() {
    let parser = PumpFunEventParser::new();
    let program = Pubkey { bytes: PUMPFUN_PROGRAM_ID };
    let accounts = pks(14);
    assert!(parser.inner().match_instruction(&program, &sixteen(&BUY_IX), &accounts, base_meta()).is_some());
    for i in 0..8 {
        let mut data = sixteen(&BUY_IX);
        data[i] ^= 1;
        assert!(parser.inner().match_instruction(&program, &data, &accounts, base_meta()).is_none());
    }
    // shorter than the discriminator
    assert!(parser.inner().match_instruction(&program, &BUY_IX[..7], &accounts, base_meta()).is_none());
    // another program
    assert!(parser.inner().match_instruction(&pk(3), &sixteen(&BUY_IX), &accounts, base_meta()).is_none());
    assert_eq!(parser.inner().find_instruction_rule(&program, &sixteen(&BUY_IX)), Some(1));
    assert_eq!(parser.inner().find_instruction_rule(&program, &sixteen(&SELL_IX)), Some(2));
    assert_eq!(parser.inner().find_instruction_rule(&program, &[1, 2, 3]), None);
    assert!(starts_with(&[1, 2, 3], &[1, 2]));
    assert!(starts_with(&[1, 2, 3], &[]));
    assert!(!starts_with(&[1, 2, 3], &[1, 3]));
    assert!(!starts_with(&[1], &[1, 2]));
}

#[test]
fn the_first_registered_rule_decides() {
    let program = pk(50);
    let rule = |event_type, decoder| GenericEventParseConfig {
        program_id: program,
        protocol_type: ProtocolType::PumpFun,
        inner_instruction_discriminator: InnerDiscriminator::none(),
        instruction_discriminator: vec![7],
        event_type,
        inner_instruction_parser: None,
        instruction_parser: Some(decoder),
        requires_inner_instruction: false,
    };
    let table = GenericEventParser::new(
        vec![program],
        vec![
            rule(EventType::PumpFunSell, InstructionDecoder::PumpFunSell),
            rule(EventType::PumpFunBuy, InstructionDecoder::PumpFunBuy),
        ],
    )
    .unwrap();
    let event = table.match_instruction(&program, &sixteen(&[7]), &pks(14), base_meta()).unwrap();
    assert_eq!(event.event_type(), EventType::PumpFunSell);
    // the first rule refuses eleven accounts short; the second is not tried
    assert!(table.match_instruction(&program, &sixteen(&[7]), &pks(10), base_meta()).is_none());
}

#[test]
fn a_rule_without_decoder_is_refused() {
    let good = GenericEventParseConfig {
        program_id: pk(1),
        protocol_type: ProtocolType::PumpFun,
        inner_instruction_discriminator: InnerDiscriminator::none(),
        instruction_discriminator: pattern([1u8, 2]),
        event_type: EventType::PumpFunBuy,
        inner_instruction_parser: Some(InnerInstructionDecoder::PumpFunTrade),
        instruction_parser: None,
        requires_inner_instruction: false,
    };
    let bad = GenericEventParseConfig { inner_instruction_parser: None, ..good.clone() };
    assert_eq!(
        GenericEventParser::new(vec![pk(1)], vec![good.clone(), bad.clone(), bad]),
        Err(ConfigError::RuleWithoutDecoder(1))
    );
    let table = GenericEventParser::new(vec![pk(1)], vec![good.clone()]).unwrap();
    assert_eq!(table.configs, vec![good]);
    // the rule has no decoder for instructions
    assert!(table.match_instruction(&pk(1), &[1, 2, 3], &pks(20), base_meta()).is_none());
    assert!(GenericEventParser::new(vec![], vec![]).is_ok());
}

#[test]
fn hexadecimal_discriminators() {
    assert!(hex_matches("0x", &[]));
    assert!(hex_matches("0x", &[1, 2]));
    assert!(hex_matches("0x0a", &[10]));
    assert!(hex_matches("0x0aff", &[10, 255, 3]));
    assert!(!hex_matches("0x0aff", &[10]));
    assert!(!hex_matches("0x0AFF", &[10, 255]));
    assert!(!hex_matches("0x0a0", &[10, 0]));
    assert!(!hex_matches("0a", &[10]));
    assert!(!hex_matches("", &[10]));
    assert!(!hex_matches("0", &[10]));
    assert!(!hex_matches("1x0a", &[10]));
    assert!(!hex_matches("0x0b", &[10]));
    assert!(!hex_matches("0x1a", &[10]));
    let prefix = [0xe4, 0x45, 0xa5, 0x2e, 0x51, 0xcb, 0x9a, 0x1d, 0xbd, 0xdb, 0x7f, 0xd3, 0x4e, 0xe6, 0x61, 0xee];
    assert!(hex_matches(TRADE_EVENT, &prefix));
    assert_eq!(InnerDiscriminator::hex(TRADE_EVENT).check(&prefix), Some(16));
    assert_eq!(InnerDiscriminator::hex(TRADE_EVENT).check(&prefix[..15]), None);
    assert_eq!(InnerDiscriminator::none().check(&prefix), Some(0));
    assert_eq!(InnerDiscriminator::Bytes(vec![0xe4, 0x45]).check(&prefix), Some(2));
    assert_eq!(InnerDiscriminator::Bytes(vec![0xe4, 0x46]).check(&prefix), None);
}

fn pump_trade_log(is_buy: u8) -> Vec<u8> {
    let mut data = vec![0xe4, 0x45, 0xa5, 0x2e, 0x51, 0xcb, 0x9a, 0x1d, 0xbd, 0xdb, 0x7f, 0xd3, 0x4e, 0xe6, 0x61, 0xee];
    let mut body = vec![0u8; 250];
    body[48] = is_buy;
    body[0] = 9;
    data.extend(body);
    data
}

#[test]
fn log_records_through_the_engine() {
    let parser = PumpFunEventParser::new();
    let program = Pubkey { bytes: PUMPFUN_PROGRAM_ID };
    let event = parser.inner().match_inner_instruction(&program, &pump_trade_log(0), base_meta()).unwrap();
    // the buy rule is the first whose discriminator the payload begins with
    assert_eq!(event.event_type(), EventType::PumpFunBuy);
    match &event {
        UnifiedEvent::PumpFunTrade(e) => {
            assert!(!e.is_buy);
            assert_eq!(e.mint.bytes[0], 9);
            assert_eq!(e.metadata.protocol, ProtocolType::PumpFun);
        }
        other => panic!("unexpected event {:?}", other),
    }
    // under the sell rule where the instruction was a sell
    let (rule, under) =
        parser.inner().match_inner_instruction_under(Some(2), &program, &pump_trade_log(0), base_meta());
    assert_eq!(rule, Some(2));
    assert_eq!(under.unwrap().event_type(), EventType::PumpFunSell);
    // the creation rule does not match a trade; the first that matches is taken
    let (rule, under) =
        parser.inner().match_inner_instruction_under(Some(0), &program, &pump_trade_log(1), base_meta());
    assert_eq!(rule, Some(1));
    assert_eq!(under.unwrap().event_type(), EventType::PumpFunBuy);
    let (rule, under) =
        parser.inner().match_inner_instruction_under(Some(77), &program, &pump_trade_log(1), base_meta());
    assert_eq!(rule, Some(1));
    assert!(under.is_some());
    // another program, another payload, a damaged record
    assert!(parser.inner().match_inner_instruction(&pk(1), &pump_trade_log(0), base_meta()).is_none());
    assert!(parser.inner().match_inner_instruction(&program, &[1, 2, 3], base_meta()).is_none());
    assert!(parser.inner().match_inner_instruction(&program, &pump_trade_log(0)[..200], base_meta()).is_none());
    assert!(parser.inner().match_inner_instruction(&program, &pump_trade_log(3), base_meta()).is_none());
    // a router logs nothing that is decoded
    let photon = PhotonEventParser::new();
    let router = Pubkey { bytes: PHOTON_PROGRAM_ID };
    let (rule, found) = photon.inner().match_inner_instruction_under(None, &router, &pump_trade_log(1), base_meta());
    assert_eq!(rule, Some(0));
    assert!(found.is_none());
}

#[test]
fn parsers_know_their_programs() {
    let first = AxiomEventParser::new();
    assert!(first.should_handle(&Pubkey { bytes: AXIOM_1_PROGRAM_ID }));
    assert!(first.should_handle(&Pubkey { bytes: AXIOM_1_PROGRAM_VAR_1_ID }));
    assert!(!first.should_handle(&Pubkey { bytes: PUMPFUN_PROGRAM_ID }));
    assert_eq!(
        first.supported_program_ids(),
        vec![Pubkey { bytes: AXIOM_1_PROGRAM_ID }, Pubkey { bytes: AXIOM_1_PROGRAM_VAR_1_ID }]
    );
    assert_eq!(first.inner().configs.len(), 2);
    assert_eq!(PumpFunEventParser::new().inner().configs.len(), 3);
    assert_eq!(PhotonEventParser::new().inner().configs.len(), 3);
    assert_eq!(Axiom2EventParser::new().inner().configs.len(), 1);
    assert_eq!(F5tfvEventParser::new().inner().configs.len(), 1);
    assert_eq!(Prog6HB1VEventParser::new().inner().configs.len(), 1);
    assert_eq!(meteora_dbc::parser::configs().len(), 2);
    assert_eq!(PhotonEventParser::default().supported_program_ids(), vec![Pubkey { bytes: PHOTON_PROGRAM_ID }]);
    let photon = PhotonEventParser::new();
    let rule = &photon.inner().configs[2];
    assert_eq!(rule.instruction_discriminator, vec![44, 119, 175, 218, 199, 77, 196, 235]);
    assert_eq!(rule.event_type, EventType::PhotonPumpSwapTrade);
    assert_eq!(rule.instruction_parser, Some(InstructionDecoder::PhotonPumpSwapTrade));
    assert_eq!(rule.inner_instruction_parser, None);
    assert_eq!(rule.inner_instruction_discriminator, InnerDiscriminator::Bytes(vec![]));
    assert!(!rule.requires_inner_instruction);
    let dbc = meteora_dbc::parser::table();
    assert_eq!(dbc.configs[1].event_type, EventType::MeteoraDBCSwap2);
    assert_eq!(
        dbc.configs[1].inner_instruction_discriminator,
        InnerDiscriminator::Hex("0xe445a52e51cb9a1d1b3c15d58aaabb93".to_string())
    );
    assert_eq!(dbc.configs[1].inner_instruction_parser, Some(InnerInstructionDecoder::MeteoraDBCTrade));
}

#[test]
fn one_table_for_several_protocols() {
    let table = table_for(&[Protocol::Photon, Protocol::PumpFun, Protocol::MeteoraDAMMv2]);
    assert_eq!(table.configs.len(), 7);
    assert_eq!(table.program_ids.len(), 3);
    assert_eq!(table.configs[0].event_type, EventType::PhotonPumpFunBuy);
    assert_eq!(table.configs[3].event_type, EventType::PumpFunCreateToken);
    assert_eq!(table.configs[6].event_type, EventType::MeteoraDAMMv2Swap);
    assert!(table.should_handle(&Pubkey { bytes: PUMPFUN_PROGRAM_ID }));
    assert!(!table.should_handle(&Pubkey { bytes: AXIOM_1_PROGRAM_ID }));
    let none = table_for(&[]);
    assert!(none.configs.is_empty());
    assert!(none.program_ids.is_empty());
    for p in [
        Protocol::PumpFun,
        Protocol::Axiom,
        Protocol::Axiom2,
        Protocol::ProgF5tfv,
        Protocol::Prog6HB1V,
        Protocol::Photon,
        Protocol::MeteoraDBC,
        Protocol::MeteoraDAMMv2,
    ] {
        assert_eq!(p.table(), table_for(&[p]));
    }
}

#[test]
fn positions_are_resolved_against_the_keys() {
    let keys = pks(5);
    let ins = CompiledInstruction { program_id_index: 4, accounts: vec![2, 0, 2], data: vec![] };
    assert_eq!(resolve_program(&ins, &keys), Some(pk(5)));
    assert_eq!(resolve_accounts(&ins.accounts, &keys), Some(vec![pk(3), pk(1), pk(3)]));
    assert_eq!(resolve_accounts(&[0, 5], &keys), None);
    assert_eq!(resolve_accounts(&[], &keys), Some(vec![]));
    let out = CompiledInstruction { program_id_index: 5, accounts: vec![], data: vec![] };
    assert_eq!(resolve_program(&out, &keys), None);
}

#[test]
fn events_of_one_instruction() {
    let parser = PumpFunEventParser::new();
    let mut keys = pks(20);
    keys[19] = Pubkey { bytes: PUMPFUN_PROGRAM_ID };
    let ins = CompiledInstruction {
        program_id_index: 19,
        accounts: (0..14).collect(),
        data: sixteen(&SELL_IX),
    };
    let events = parser.parse_events_from_instruction(&ins, &keys, base_meta());
    assert_eq!(events.len(), 1);
    assert_eq!(events[0].event_type(), EventType::PumpFunSell);
    assert_eq!(events[0].user(), keys[6]);
    let bad_account = CompiledInstruction { accounts: vec![0, 1, 2, 3, 4, 5, 6, 7, 8, 9, 10, 11, 12, 20], ..ins.clone() };
    assert!(parser.parse_events_from_instruction(&bad_account, &keys, base_meta()).is_empty());
    let bad_program = CompiledInstruction { program_id_index: 20, ..ins.clone() };
    assert!(parser.parse_events_from_instruction(&bad_program, &keys, base_meta()).is_empty());
    let other_program = CompiledInstruction { program_id_index: 0, ..ins.clone() };
    assert!(parser.parse_events_from_instruction(&other_program, &keys, base_meta()).is_empty());
    let log = CompiledInstruction { program_id_index: 19, accounts: vec![], data: pump_trade_log(1) };
    let events = parser.parse_events_from_inner_instruction(&log, &keys, base_meta());
    assert_eq!(events.len(), 1);
    assert_eq!(events[0].event_type(), EventType::PumpFunBuy);
    let log = CompiledInstruction { program_id_index: 200, accounts: vec![], data: pump_trade_log(1) };
    assert!(parser.parse_events_from_inner_instruction(&log, &keys, base_meta()).is_empty());
}
