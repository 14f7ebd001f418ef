use solana_streamer::engine::InnerInstructionDecoder;
use solana_streamer::event::UnifiedEvent;
use solana_streamer::metadata::{EventMetadata, EventType, ProtocolType};
use solana_streamer::protocols::meteora_dammv2;
use solana_streamer::protocols::meteora_dammv2::events::MeteoraDAMMv2SwapEvent;
use solana_streamer::protocols::meteora_dbc;
use solana_streamer::protocols::meteora_dbc::events::MeteoraDBCSwapEvent;
use solana_streamer::protocols::meteora_dbc::types::{read_direction, TradeDirection};
use solana_streamer::protocols::pumpfun::events::{PumpFunCreateTokenEvent, PumpFunTradeEvent};
use solana_streamer::protocols::pumpfun::parser::PumpFunEventParser;
use solana_streamer::pubkey::Pubkey;

fn log_key(n: u8) -> Pubkey {
    let mut bytes = [n; 32];
    bytes[5] = 200;
    Pubkey { bytes }
}

fn log_meta() -> EventMetadata {
    EventMetadata::new(
        "sig".to_string(),
        7,
        None,
        5,
        ProtocolType::PumpFun,
        EventType::PumpFunBuy,
        log_key(1),
        "2.1".to_string(),
    )
}

fn put<T: borsh::BorshSerialize>(out: &mut Vec<u8>, value: &T) {
    out.extend(borsh::to_vec(value).unwrap());
}

fn text58(p: &Pubkey) -> String {
    solana_sdk::pubkey::Pubkey::new_from_array(p.bytes).to_string()
}

fn trade_log(is_buy: u8, track: u8) -> Vec<u8> {
    let mut out = Vec::new();
    put(&mut out, &log_key(10).bytes);
    put(&mut out, &11u64);
    put(&mut out, &12u64);
    out.push(is_buy);
    put(&mut out, &log_key(13).bytes);
    put(&mut out, &-14i64);
    put(&mut out, &15u64);
    put(&mut out, &16u64);
    put(&mut out, &17u64);
    put(&mut out, &18u64);
    put(&mut out, &log_key(19).bytes);
    put(&mut out, &20u64);
    put(&mut out, &21u64);
    put(&mut out, &log_key(22).bytes);
    put(&mut out, &23u64);
    put(&mut out, &24u64);
    out.push(track);
    put(&mut out, &25u64);
    put(&mut out, &26u64);
    put(&mut out, &u64::MAX);
    put(&mut out, &i64::MIN);
    out
}

#[test]
fn trade_log_is_read_field_by_field() {
    let data = trade_log(1, 0);
    assert_eq!(data.len(), 250);
    let e = PumpFunTradeEvent::from_log(&data, log_meta()).unwrap();
    assert_eq!(e.mint, log_key(10));
    assert_eq!(e.sol_amount, 11);
    assert_eq!(e.token_amount, 12);
    assert!(e.is_buy);
    assert_eq!(e.user, log_key(13));
    assert_eq!(e.timestamp, -14);
    assert_eq!(e.virtual_sol_reserves, 15);
    assert_eq!(e.virtual_token_reserves, 16);
    assert_eq!(e.real_sol_reserves, 17);
    assert_eq!(e.real_token_reserves, 18);
    assert_eq!(e.fee_recipient, log_key(19));
    assert_eq!(e.fee_basis_points, 20);
    assert_eq!(e.fee, 21);
    assert_eq!(e.creator, log_key(22));
    assert_eq!(e.creator_fee_basis_points, 23);
    assert_eq!(e.creator_fee, 24);
    assert!(!e.track_volume);
    assert_eq!(e.total_unclaimed_tokens, 25);
    assert_eq!(e.total_claimed_tokens, 26);
    assert_eq!(e.current_sol_volume, u64::MAX);
    assert_eq!(e.last_update_timestamp, i64::MIN);
    assert_eq!(e.max_sol_cost, 0);
    assert_eq!(e.bonding_curve, Pubkey::default());
    assert_eq!(e.metadata, log_meta());
}

#[test]
fn trade_log_of_wrong_length_or_with_a_bad_flag_is_refused() {
    let data = trade_log(1, 1);
    assert!(PumpFunTradeEvent::from_log(&data[..249], log_meta()).is_none());
    let mut longer = data.clone();
    longer.push(0);
    assert!(PumpFunTradeEvent::from_log(&longer, log_meta()).is_none());
    assert!(PumpFunTradeEvent::from_log(&trade_log(2, 0), log_meta()).is_none());
    assert!(PumpFunTradeEvent::from_log(&trade_log(0, 255), log_meta()).is_none());
    assert!(PumpFunTradeEvent::from_log(&[], log_meta()).is_none());
    assert!(PumpFunTradeEvent::from_log(&data, log_meta()).is_some());
}

#[test]
fn trade_log_decoder_names_the_trade() {
    let data = trade_log(0, 1);
    match PumpFunEventParser::parse_trade_inner_instruction(&data, log_meta()).unwrap() {
        UnifiedEvent::PumpFunTrade(e) => {
            assert!(!e.is_buy);
            assert!(e.track_volume);
            assert_eq!(
                e.metadata.id,
                format!("sig-{}-{}-false", text58(&log_key(10)), text58(&log_key(13)))
            );
            assert_eq!(e.metadata.signature, "sig");
            assert_eq!(e.metadata.index, "2.1");
            assert_eq!(e.metadata.event_type, EventType::PumpFunBuy);
        }
        other => panic!("unexpected event {:?}", other),
    }
    assert!(PumpFunEventParser::parse_trade_inner_instruction(&data[1..], log_meta()).is_none());
}

fn create_log(name: &str, symbol: &str, uri: &[u8]) -> Vec<u8> {
    let mut out = Vec::new();
    put(&mut out, &name.to_string());
    put(&mut out, &symbol.to_string());
    put(&mut out, &uri.to_vec());
    put(&mut out, &log_key(1).bytes);
    put(&mut out, &log_key(2).bytes);
    put(&mut out, &log_key(3).bytes);
    put(&mut out, &log_key(4).bytes);
    put(&mut out, &1_700_000_000i64);
    put(&mut out, &6u64);
    put(&mut out, &7u64);
    put(&mut out, &8u64);
    put(&mut out, &9u64);
    out
}

#[test]
fn creation_log_is_read_field_by_field() {
    let data = create_log("Cat \u{1F408}", "CAT", b"ipfs://cat");
    match PumpFunEventParser::parse_create_token_inner_instruction(&data, log_meta()).unwrap() {
        UnifiedEvent::PumpFunCreateToken(e) => {
            let expected = PumpFunCreateTokenEvent {
                metadata: e.metadata.clone(),
                name: "Cat \u{1F408}".to_string(),
                symbol: "CAT".to_string(),
                uri: "ipfs://cat".to_string(),
                mint: log_key(1),
                bonding_curve: log_key(2),
                user: log_key(3),
                creator: log_key(4),
                timestamp: 1_700_000_000,
                virtual_token_reserves: 6,
                virtual_sol_reserves: 7,
                real_token_reserves: 8,
                token_total_supply: 9,
                mint_authority: Pubkey::default(),
                associated_bonding_curve: Pubkey::default(),
            };
            assert_eq!(e, expected);
            assert_eq!(e.metadata.id, format!("sig-Cat \u{1F408}-CAT-{}", text58(&log_key(1))));
            assert_eq!(e.metadata.slot, 7);
        }
        other => panic!("unexpected event {:?}", other),
    }
}

#[test]
fn creation_log_must_be_utf8_and_end_where_its_fields_end() {
    let good = create_log("a", "b", b"c");
    assert!(PumpFunEventParser::parse_create_token_inner_instruction(&good, log_meta()).is_some());
    assert!(PumpFunEventParser::parse_create_token_inner_instruction(&good[..good.len() - 1], log_meta()).is_none());
    let mut longer = good.clone();
    longer.push(0);
    assert!(PumpFunEventParser::parse_create_token_inner_instruction(&longer, log_meta()).is_none());
    let bad = create_log("a", "b", &[0xc3, 0x28]);
    assert!(PumpFunEventParser::parse_create_token_inner_instruction(&bad, log_meta()).is_none());
    assert!(PumpFunEventParser::parse_create_token_inner_instruction(&[9, 0, 0, 0, b'x'], log_meta()).is_none());
    assert!(PumpFunEventParser::parse_create_token_inner_instruction(&[], log_meta()).is_none());
}

fn dbc_log(direction: u8) -> Vec<u8> {
    let mut out = Vec::new();
    put(&mut out, &log_key(1).bytes);
    put(&mut out, &log_key(2).bytes);
    out.push(direction);
    put(&mut out, &3u8);
    put(&mut out, &4u64);
    put(&mut out, &5u64);
    put(&mut out, &6u64);
    put(&mut out, &7u64);
    put(&mut out, &((1u128 << 100) + 8));
    put(&mut out, &9u64);
    put(&mut out, &10u64);
    put(&mut out, &11u64);
    put(&mut out, &12u64);
    put(&mut out, &13u64);
    out
}

#[test]
fn dbc_log_is_read_field_by_field() {
    let data = dbc_log(1);
    assert_eq!(data.len(), 154);
    match meteora_dbc::parser::parse_trade_inner_instruction(&data, log_meta()).unwrap() {
        UnifiedEvent::MeteoraDBCSwap(e) => {
            let expected = MeteoraDBCSwapEvent {
                metadata: log_meta(),
                pool: log_key(1),
                config: log_key(2),
                trade_direction: TradeDirection::Buy,
                has_referral: 3,
                param_amount_in: 4,
                param_minimum_amount_out: 5,
                actual_input_amount: 6,
                output_amount: 7,
                next_sqrt_price: (1u128 << 100) + 8,
                trading_fee: 9,
                protocol_fee: 10,
                referral_fee: 11,
                amount_in: 12,
                current_timestamp: 13,
                ..MeteoraDBCSwapEvent::default()
            };
            assert_eq!(e, expected);
        }
        other => panic!("unexpected event {:?}", other),
    }
    assert!(meteora_dbc::parser::parse_trade_inner_instruction(&dbc_log(2), log_meta()).is_none());
    assert!(meteora_dbc::parser::parse_trade_inner_instruction(&data[..153], log_meta()).is_none());
}

#[test]
fn dammv2_log_is_read_field_by_field() {
    let mut data = Vec::new();
    put(&mut data, &log_key(1).bytes);
    data.push(0);
    put(&mut data, &3u8);
    put(&mut data, &4u64);
    put(&mut data, &5u64);
    put(&mut data, &6u64);
    put(&mut data, &u128::MAX);
    put(&mut data, &8u64);
    put(&mut data, &9u64);
    put(&mut data, &10u64);
    put(&mut data, &11u64);
    put(&mut data, &12u64);
    put(&mut data, &13u64);
    match meteora_dammv2::parser::parse_trade_inner_instruction(&data, log_meta()).unwrap() {
        UnifiedEvent::MeteoraDAMMv2Swap(e) => {
            let expected = MeteoraDAMMv2SwapEvent {
                metadata: log_meta(),
                pool: log_key(1),
                trade_direction: TradeDirection::Sell,
                has_referral: 3,
                param_amount_in: 4,
                param_minimum_amount_out: 5,
                output_amount: 6,
                next_sqrt_price: u128::MAX,
                lp_fee: 8,
                protocol_fee: 9,
                partner_fee: 10,
                referral_fee: 11,
                amount_in: 12,
                current_timestamp: 13,
                ..MeteoraDAMMv2SwapEvent::default()
            };
            assert_eq!(e, expected);
        }
        other => panic!("unexpected event {:?}", other),
    }
    data[32] = 7;
    assert!(meteora_dammv2::parser::parse_trade_inner_instruction(&data, log_meta()).is_none());
}

#[test]
fn direction_bytes() {
    assert_eq!(read_direction(&[0, 1, 2], 0), Some(TradeDirection::Sell));
    assert_eq!(read_direction(&[0, 1, 2], 1), Some(TradeDirection::Buy));
    assert_eq!(read_direction(&[0, 1, 2], 2), None);
    assert_eq!(read_direction(&[0, 1, 2], 3), None);
    assert_eq!(TradeDirection::default(), TradeDirection::Sell);
}

#[test]
fn log_decoders_repeat_themselves() {
    let trade = trade_log(1, 1);
    let create = create_log("n", "s", b"u");
    let dbc = dbc_log(0);
    for (decoder, data) in [
        (InnerInstructionDecoder::PumpFunTrade, &trade),
        (InnerInstructionDecoder::PumpFunCreateToken, &create),
        (InnerInstructionDecoder::MeteoraDBCTrade, &dbc),
    ] {
        let a = decoder.decode(data, log_meta()).unwrap();
        let b = decoder.decode(data, log_meta()).unwrap();
        assert_eq!(a.id(), b.id());
        assert_eq!(a, b);
    }
}

#[test]
fn merging_takes_the_logged_fields_and_keeps_the_others() {
    let accounts: Vec<Pubkey> = (1..=14).map(log_key).collect();
    let mut data = 500u64.to_le_bytes().to_vec();
    data.extend_from_slice(&900u64.to_le_bytes());
    let mut merged = PumpFunEventParser::parse_buy_instruction(&data, &accounts, log_meta()).unwrap();
    let before = merged.clone();
    let log = PumpFunEventParser::parse_trade_inner_instruction(&trade_log(1, 1), log_meta()).unwrap();
    merged.merge(&log);
    match (merged, before, log) {
        (UnifiedEvent::PumpFunTrade(m), UnifiedEvent::PumpFunTrade(i), UnifiedEvent::PumpFunTrade(l)) => {
            // from the log
            assert_eq!(m.mint, l.mint);
            assert_eq!(m.sol_amount, 11);
            assert_eq!(m.token_amount, 12);
            assert_eq!(m.user, l.user);
            assert_eq!(m.timestamp, -14);
            assert_eq!(m.fee_recipient, l.fee_recipient);
            assert_eq!(m.creator, l.creator);
            assert_eq!(m.creator_fee, 24);
            assert!(m.track_volume);
            assert_eq!(m.current_sol_volume, u64::MAX);
            assert_eq!(m.last_update_timestamp, i64::MIN);
            // from the instruction
            assert_eq!(m.metadata, i.metadata);
            assert_eq!(m.amount, 500);
            assert_eq!(m.max_sol_cost, 900);
            assert_eq!(m.bonding_curve, i.bonding_curve);
            assert_eq!(m.associated_bonding_curve, i.associated_bonding_curve);
            assert_eq!(m.associated_user, i.associated_user);
            assert_eq!(m.creator_vault, i.creator_vault);
            assert_eq!(m.global_volume_accumulator, i.global_volume_accumulator);
            assert_eq!(m.user_volume_accumulator, i.user_volume_accumulator);
            // the whole record is the log record with the other fields of the instruction
            let expected = PumpFunTradeEvent {
                metadata: i.metadata.clone(),
                max_sol_cost: i.max_sol_cost,
                min_sol_output: i.min_sol_output,
                amount: i.amount,
                is_bot: i.is_bot,
                is_dev_create_token_trade: i.is_dev_create_token_trade,
                global: i.global,
                bonding_curve: i.bonding_curve,
                associated_bonding_curve: i.associated_bonding_curve,
                associated_user: i.associated_user,
                system_program: i.system_program,
                token_program: i.token_program,
                creator_vault: i.creator_vault,
                event_authority: i.event_authority,
                program: i.program,
                global_volume_accumulator: i.global_volume_accumulator,
                user_volume_accumulator: i.user_volume_accumulator,
                fee_config: i.fee_config,
                fee_program: i.fee_program,
                ..l.clone()
            };
            assert_eq!(m, expected);
        }
        other => panic!("unexpected events {:?}", other),
    }
}

#[test]
fn records_of_different_kinds_are_not_merged() {
    let mut instruction = UnifiedEvent::PumpFunTrade(PumpFunTradeEvent::default());
    let before = instruction.clone();
    let log = UnifiedEvent::MeteoraDBCSwap(MeteoraDBCSwapEvent::default());
    instruction.merge(&log);
    assert_eq!(instruction, before);
}

#[test]
fn an_event_answers_for_its_envelope() {
    let event = PumpFunEventParser::parse_trade_inner_instruction(&trade_log(1, 1), log_meta()).unwrap();
    assert_eq!(event.event_type(), EventType::PumpFunBuy);
    assert_eq!(event.signature(), "sig");
    assert_eq!(event.slot(), 7);
    assert_eq!(event.index(), "2.1");
    assert_eq!(event.user(), log_key(13));
    assert_eq!(event.metadata().program_id, log_key(1));
    let mut other = log_meta();
    other.set_id("another".to_string());
    let renamed = event.clone().set_metadata(other.clone());
    assert_eq!(renamed.id(), "another");
    assert_eq!(renamed.metadata(), &other);
    assert_eq!(renamed.user(), event.user());
    let stamped = log_meta().with_rule(ProtocolType::PhotonProtocol, EventType::PhotonPumpFunSell, log_key(9));
    assert_eq!(stamped.protocol, ProtocolType::PhotonProtocol);
    assert_eq!(stamped.event_type, EventType::PhotonPumpFunSell);
    assert_eq!(stamped.program_id, log_key(9));
    assert_eq!(stamped.id, "sig");
    assert_eq!(EventMetadata::default().id, "");
    assert_eq!(EventMetadata::default().block_time, None);
}
