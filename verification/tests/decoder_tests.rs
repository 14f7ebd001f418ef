use std::str::FromStr;

use solana_streamer::engine::InstructionDecoder;
use solana_streamer::event::UnifiedEvent;
use solana_streamer::metadata::{EventMetadata, EventType, ProtocolType};
use solana_streamer::protocols::axiom1::parser::AxiomEventParser;
use solana_streamer::protocols::axiom2::parser::Axiom2EventParser;
use solana_streamer::protocols::meteora_dammv2;
use solana_streamer::protocols::meteora_dbc;
use solana_streamer::protocols::meteora_dbc::types::TradeDirection;
use solana_streamer::protocols::photon::parser::PhotonEventParser;
use solana_streamer::protocols::prog6hb1v::parser::Prog6HB1VEventParser;
use solana_streamer::protocols::prog_f5tfv::parser::F5tfvEventParser;
use solana_streamer::protocols::pumpfun::parser::PumpFunEventParser;
use solana_streamer::pubkey::Pubkey;

fn key(n: u8) -> Pubkey {
    let mut bytes = [0u8; 32];
    bytes[0] = n;
    bytes[31] = n.wrapping_mul(7).wrapping_add(1);
    Pubkey { bytes }
}

fn keys(n: u8) -> Vec<Pubkey> {
    (0..n).map(|i| key(i + 1)).collect()
}

fn meta() -> EventMetadata {
    EventMetadata::new(
        "5signature".to_string(),
        42,
        None,
        1_000,
        ProtocolType::Unknown,
        EventType::Unknown,
        Pubkey::default(),
        "0".to_string(),
    )
}

fn two_numbers(a: u64, b: u64) -> Vec<u8> {
    let mut data = a.to_le_bytes().to_vec();
    data.extend_from_slice(&b.to_le_bytes());
    data
}

fn base58(p: &Pubkey) -> String {
    solana_sdk::pubkey::Pubkey::new_from_array(p.bytes).to_string()
}

fn ata(wallet: &Pubkey, mint: &Pubkey) -> Pubkey {
    let found = spl_associated_token_account::get_associated_token_address(
        &solana_sdk::pubkey::Pubkey::new_from_array(wallet.bytes),
        &solana_sdk::pubkey::Pubkey::new_from_array(mint.bytes),
    );
    Pubkey { bytes: found.to_bytes() }
}

#[test]
fn axiom_buy_reads_cost_then_amount() {
    let accounts = keys(14);
    let data = two_numbers(5_000, 77);
    let event = AxiomEventParser::parse_axiom_pumpfun_buy_instruction(&data, &accounts, meta()).unwrap();
    match event {
        UnifiedEvent::AxiomPumpFunTrade(e) => {
            assert!(e.is_buy);
            assert_eq!(e.amount, 77);
            assert_eq!(e.max_sol_cost, 5_001);
            assert_eq!(e.fee_recipient, accounts[1]);
            assert_eq!(e.mint, accounts[2]);
            assert_eq!(e.bonding_curve, accounts[3]);
            assert_eq!(e.associated_bonding_curve, accounts[4]);
            assert_eq!(e.associated_user, accounts[5]);
            assert_eq!(e.user, accounts[6]);
            assert_eq!(e.creator_vault, accounts[9]);
            assert_eq!(e.global_volume_accumulator, accounts[12]);
            assert_eq!(e.user_volume_accumulator, accounts[13]);
            assert_eq!(e.sol_amount, 0);
            assert_eq!(e.creator, Pubkey::default());
            assert_eq!(e.metadata, meta());
        }
        other => panic!("unexpected event {:?}", other),
    }
}

#[test]
fn axiom_buy_with_thirteen_accounts_gives_nothing() {
    let data = two_numbers(5_000, 77);
    assert!(AxiomEventParser::parse_axiom_pumpfun_buy_instruction(&data, &keys(13), meta()).is_none());
    assert!(AxiomEventParser::parse_axiom_pumpfun_buy_instruction(&data[..15], &keys(14), meta()).is_none());
    assert!(AxiomEventParser::parse_axiom_pumpfun_buy_instruction(&[], &[], meta()).is_none());
}

#[test]
fn axiom_buy_refuses_a_cost_that_cannot_be_raised() {
    let data = two_numbers(u64::MAX, 1);
    assert!(AxiomEventParser::parse_axiom_pumpfun_buy_instruction(&data, &keys(14), meta()).is_none());
    let data = two_numbers(u64::MAX - 1, 1);
    let event = AxiomEventParser::parse_axiom_pumpfun_buy_instruction(&data, &keys(14), meta()).unwrap();
    match event {
        UnifiedEvent::AxiomPumpFunTrade(e) => assert_eq!(e.max_sol_cost, u64::MAX),
        other => panic!("unexpected event {:?}", other),
    }
}

#[test]
fn f5tfv_buy_reads_like_axiom() {
    let accounts = keys(20);
    let data = two_numbers(9, 10);
    match F5tfvEventParser::parse_prog_f5tfv_pumpfun_buy_instruction(&data, &accounts, meta()).unwrap() {
        UnifiedEvent::ProgF5tfvPumpFunTrade(e) => {
            assert_eq!(e.max_sol_cost, 10);
            assert_eq!(e.amount, 10);
            assert!(e.is_buy);
            assert_eq!(e.user, accounts[6]);
        }
        other => panic!("unexpected event {:?}", other),
    }
    assert!(F5tfvEventParser::parse_prog_f5tfv_pumpfun_buy_instruction(&data, &keys(13), meta()).is_none());
    assert!(F5tfvEventParser::parse_prog_f5tfv_trade_inner_instruction(&data, meta()).is_none());
}

#[test]
fn pumpfun_buy_sets_identity_and_fields() {
    let accounts = keys(14);
    let data = two_numbers(123, 456);
    match PumpFunEventParser::parse_buy_instruction(&data, &accounts, meta()).unwrap() {
        UnifiedEvent::PumpFunTrade(e) => {
            assert_eq!(e.amount, 123);
            assert_eq!(e.max_sol_cost, 456);
            assert_eq!(e.min_sol_output, 0);
            assert!(e.is_buy);
            assert_eq!(e.mint, accounts[2]);
            assert_eq!(e.user, accounts[6]);
            assert_eq!(e.user_volume_accumulator, accounts[13]);
            assert_eq!(
                e.metadata.id,
                format!("5signature-{}-{}-true", base58(&accounts[2]), base58(&accounts[6]))
            );
            assert_eq!(e.metadata.signature, "5signature");
            assert_eq!(e.metadata.slot, 42);
        }
        other => panic!("unexpected event {:?}", other),
    }
    assert!(PumpFunEventParser::parse_buy_instruction(&data, &keys(13), meta()).is_none());
    assert!(PumpFunEventParser::parse_buy_instruction(&data[..15], &accounts, meta()).is_none());
}

#[test]
fn pumpfun_sell_sets_identity_and_fields() {
    let accounts = keys(11);
    let data = two_numbers(123, 456);
    match PumpFunEventParser::parse_sell_instruction(&data, &accounts, meta()).unwrap() {
        UnifiedEvent::PumpFunTrade(e) => {
            assert_eq!(e.amount, 123);
            assert_eq!(e.min_sol_output, 456);
            assert_eq!(e.max_sol_cost, 0);
            assert!(!e.is_buy);
            assert_eq!(e.creator_vault, accounts[9]);
            assert_eq!(e.global_volume_accumulator, Pubkey::default());
            assert_eq!(
                e.metadata.id,
                format!("5signature-{}-{}-false", base58(&accounts[2]), base58(&accounts[6]))
            );
        }
        other => panic!("unexpected event {:?}", other),
    }
    assert!(PumpFunEventParser::parse_sell_instruction(&data, &keys(10), meta()).is_none());
}

fn text(s: &str) -> Vec<u8> {
    let mut out = (s.len() as u32).to_le_bytes().to_vec();
    out.extend_from_slice(s.as_bytes());
    out
}

#[test]
fn pumpfun_create_reads_three_texts_and_the_creator() {
    let accounts = keys(11);
    let creator = key(99);
    let mut data = text("Doge Coin");
    data.extend(text("DOGE"));
    data.extend(text("https://example.org/doge.json"));
    data.extend_from_slice(&creator.bytes);
    match PumpFunEventParser::parse_create_token_instruction(&data, &accounts, meta()).unwrap() {
        UnifiedEvent::PumpFunCreateToken(e) => {
            assert_eq!(e.name, "Doge Coin");
            assert_eq!(e.symbol, "DOGE");
            assert_eq!(e.uri, "https://example.org/doge.json");
            assert_eq!(e.creator, creator);
            assert_eq!(e.mint, accounts[0]);
            assert_eq!(e.mint_authority, accounts[1]);
            assert_eq!(e.bonding_curve, accounts[2]);
            assert_eq!(e.associated_bonding_curve, accounts[3]);
            assert_eq!(e.user, accounts[7]);
            assert_eq!(e.token_total_supply, 0);
            assert_eq!(e.metadata.id, format!("5signature-Doge Coin-DOGE-{}", base58(&accounts[0])));
        }
        other => panic!("unexpected event {:?}", other),
    }
}

#[test]
fn pumpfun_create_without_creator_bytes_gives_the_zero_address() {
    let mut data = text("Name");
    data.extend(text("SYM"));
    data.extend(text("u"));
    data.extend_from_slice(&[1, 2, 3]);
    match PumpFunEventParser::parse_create_token_instruction(&data, &keys(11), meta()).unwrap() {
        UnifiedEvent::PumpFunCreateToken(e) => {
            assert_eq!(e.creator, Pubkey::default());
            assert_eq!(e.uri, "u");
        }
        other => panic!("unexpected event {:?}", other),
    }
}

#[test]
fn pumpfun_create_replaces_what_is_not_utf8() {
    let mut data = vec![2, 0, 0, 0, 0xff, b'a'];
    data.extend(text("SYM"));
    data.extend(text("uri"));
    match PumpFunEventParser::parse_create_token_instruction(&data, &keys(11), meta()).unwrap() {
        UnifiedEvent::PumpFunCreateToken(e) => {
            assert_eq!(e.name, "\u{fffd}a");
            assert_eq!(e.symbol, "SYM");
        }
        other => panic!("unexpected event {:?}", other),
    }
}

#[test]
fn pumpfun_create_refuses_texts_that_run_past_the_end() {
    let accounts = keys(11);
    // the name claims 200 bytes
    let mut data = vec![200, 0, 0, 0];
    data.extend_from_slice(&[b'x'; 20]);
    assert!(PumpFunEventParser::parse_create_token_instruction(&data, &accounts, meta()).is_none());
    // the symbol claims more than is left
    let mut data = text("Name");
    data.extend_from_slice(&[50, 0, 0, 0]);
    data.extend_from_slice(&[b'y'; 12]);
    assert!(PumpFunEventParser::parse_create_token_instruction(&data, &accounts, meta()).is_none());
    // the length of the symbol is cut off
    let mut data = text("A name of some length");
    data.extend_from_slice(&[1, 0]);
    assert!(PumpFunEventParser::parse_create_token_instruction(&data, &accounts, meta()).is_none());
    // the address of the metadata claims more than is left
    let mut data = text("Name");
    data.extend(text("SYM"));
    data.extend_from_slice(&[0xff, 0xff, 0xff, 0xff]);
    data.extend_from_slice(&[b'z'; 8]);
    assert!(PumpFunEventParser::parse_create_token_instruction(&data, &accounts, meta()).is_none());
    // too few bytes, too few accounts
    assert!(PumpFunEventParser::parse_create_token_instruction(&text("abc"), &accounts, meta()).is_none());
    let mut data = text("Name");
    data.extend(text("SYM"));
    data.extend(text("uri"));
    assert!(PumpFunEventParser::parse_create_token_instruction(&data, &keys(10), meta()).is_none());
}

#[test]
fn photon_pumpfun_buy_and_sell() {
    let accounts = keys(17);
    let mut data = two_numbers(1, 2);
    data.extend(two_numbers(3, 4));
    match PhotonEventParser::parse_photon_pumpfun_buy_instruction(&data, &accounts, meta()).unwrap() {
        UnifiedEvent::PhotonPumpFunTrade(e) => {
            assert_eq!(e.max_sol_cost, 2);
            assert_eq!(e.amount, 3);
            assert!(e.is_buy);
            assert_eq!(e.fee_recipient, accounts[1]);
            assert_eq!(e.mint, accounts[3]);
            assert_eq!(e.user, accounts[7]);
            assert_eq!(e.creator_vault, accounts[14]);
            assert_eq!(e.global_volume_accumulator, accounts[15]);
            assert_eq!(e.user_volume_accumulator, accounts[16]);
        }
        other => panic!("unexpected event {:?}", other),
    }
    match PhotonEventParser::parse_photon_pumpfun_sell_instruction(&data, &accounts, meta()).unwrap() {
        UnifiedEvent::PumpFunTrade(e) => {
            assert_eq!(e.amount, 2);
            assert_eq!(e.min_sol_output, 3);
            assert!(!e.is_buy);
            assert_eq!(e.mint, accounts[3]);
            assert_eq!(e.creator_vault, accounts[14]);
            assert_eq!(e.metadata, meta());
        }
        other => panic!("unexpected event {:?}", other),
    }
    assert!(PhotonEventParser::parse_photon_pumpfun_buy_instruction(&data, &keys(16), meta()).is_none());
    assert!(PhotonEventParser::parse_photon_pumpfun_buy_instruction(&data[..31], &accounts, meta()).is_none());
    assert!(PhotonEventParser::parse_photon_pumpfun_sell_instruction(&data, &keys(14), meta()).is_none());
    assert!(PhotonEventParser::parse_photon_pumpfun_sell_instruction(&data, &keys(15), meta()).is_some());
    assert!(PhotonEventParser::parse_pumpfun_trade_inner_instruction(&data, meta()).is_none());
    assert!(PhotonEventParser::parse_pumpswap_inner_instruction(&data, meta()).is_none());
}

#[test]
fn photon_pool_trade_is_a_buy_when_the_user_receives_the_base_token() {
    let mut accounts = keys(21);
    accounts[6] = ata(&accounts[1], &accounts[3]);
    let data = two_numbers(1_000, 25);
    match PhotonEventParser::parse_photon_pumpswap_trade_instruction(&data, &accounts, meta()).unwrap() {
        UnifiedEvent::PhotonPumpSwapTrade(e) => {
            assert!(e.is_buy);
            assert_eq!(e.max_quote_amount_in, 1_000);
            assert_eq!(e.base_amount_out, 25);
            assert_eq!(e.base_amount_in, 0);
            assert_eq!(e.min_quote_amount_out, 0);
            assert_eq!(e.pool, accounts[0]);
            assert_eq!(e.user, accounts[1]);
            assert_eq!(e.base_mint, accounts[3]);
            assert_eq!(e.quote_mint, accounts[4]);
            assert_eq!(e.user_base_token_account, accounts[6]);
            assert_eq!(e.user_quote_token_account, accounts[5]);
            assert_eq!(e.pool_base_token_account, accounts[7]);
            assert_eq!(e.pool_quote_token_account, accounts[8]);
            assert_eq!(e.protocol_fee_recipient, accounts[9]);
            assert_eq!(e.protocol_fee_recipient_token_account, accounts[10]);
            assert_eq!(e.coin_creator_vault_ata, accounts[17]);
            assert_eq!(e.coin_creator_vault_authority, accounts[18]);
            assert_eq!(e.global_volume_accumulator, Pubkey::default());
            assert_eq!(e.user_volume_accumulator, Pubkey::default());
        }
        other => panic!("unexpected event {:?}", other),
    }
}

#[test]
fn photon_pool_trade_is_a_sell_otherwise() {
    let mut accounts = keys(21);
    // the associated account is the one that pays, not the one that receives
    accounts[5] = ata(&accounts[1], &accounts[3]);
    let data = two_numbers(1_000, 25);
    match PhotonEventParser::parse_photon_pumpswap_trade_instruction(&data, &accounts, meta()).unwrap() {
        UnifiedEvent::PhotonPumpSwapTrade(e) => {
            assert!(!e.is_buy);
            assert_eq!(e.base_amount_in, 1_000);
            assert_eq!(e.min_quote_amount_out, 25);
            assert_eq!(e.max_quote_amount_in, 0);
            assert_eq!(e.base_amount_out, 0);
            assert_eq!(e.user_base_token_account, accounts[5]);
            assert_eq!(e.user_quote_token_account, accounts[6]);
            assert_eq!(e.global_volume_accumulator, accounts[19]);
            assert_eq!(e.user_volume_accumulator, accounts[20]);
        }
        other => panic!("unexpected event {:?}", other),
    }
    assert!(PhotonEventParser::parse_photon_pumpswap_trade_instruction(&data, &keys(20), meta()).is_none());
    assert!(PhotonEventParser::parse_photon_pumpswap_trade_instruction(&data[..15], &accounts, meta()).is_none());
}

#[test]
fn pool_buy_of_the_second_axiom_program() {
    let accounts = keys(19);
    let data = two_numbers(600, 7);
    match Axiom2EventParser::parse_axiom_pumpswap_buy_instruction(&data, &accounts, meta()).unwrap() {
        UnifiedEvent::AxiomPumpSwapBuy(e) => {
            assert_eq!(e.max_quote_amount_in, 600);
            assert_eq!(e.base_amount_out, 7);
            assert_eq!(e.pool, accounts[0]);
            assert_eq!(e.user, accounts[1]);
            assert_eq!(e.base_mint, accounts[3]);
            assert_eq!(e.quote_mint, accounts[4]);
            assert_eq!(e.user_base_token_account, accounts[5]);
            assert_eq!(e.user_quote_token_account, accounts[6]);
            assert_eq!(e.coin_creator_vault_ata, accounts[17]);
            assert_eq!(e.coin_creator_vault_authority, accounts[18]);
            assert_eq!(e.global_volume_accumulator, Pubkey::default());
            assert_eq!(e.user_volume_accumulator, Pubkey::default());
        }
        other => panic!("unexpected event {:?}", other),
    }
    let accounts = keys(21);
    match Axiom2EventParser::parse_axiom_pumpswap_buy_instruction(&data, &accounts, meta()).unwrap() {
        UnifiedEvent::AxiomPumpSwapBuy(e) => {
            assert_eq!(e.global_volume_accumulator, accounts[19]);
            assert_eq!(e.user_volume_accumulator, accounts[20]);
        }
        other => panic!("unexpected event {:?}", other),
    }
    assert!(Axiom2EventParser::parse_axiom_pumpswap_buy_instruction(&data, &keys(18), meta()).is_none());
    assert!(Axiom2EventParser::parse_axiom_trade_inner_instruction(&data, meta()).is_none());
}

#[test]
fn pool_buy_of_program_6hb1v() {
    let accounts = keys(20);
    let data = two_numbers(600, 7);
    match Prog6HB1VEventParser::parse_prog6hb1v_pumpswap_buy_instruction(&data, &accounts, meta()).unwrap() {
        UnifiedEvent::Prog6HB1VPumpSwapBuy(e) => {
            assert_eq!(e.max_quote_amount_in, 600);
            assert_eq!(e.base_amount_out, 7);
            assert_eq!(e.global_volume_accumulator, accounts[19]);
            assert_eq!(e.user_volume_accumulator, Pubkey::default());
            assert_eq!(e.protocol_fee_recipient, accounts[9]);
        }
        other => panic!("unexpected event {:?}", other),
    }
    assert!(Prog6HB1VEventParser::parse_prog6hb1v_pumpswap_buy_instruction(&data[..8], &accounts, meta()).is_none());
    assert!(Prog6HB1VEventParser::parse_prog6hb1v_trade_inner_instruction(&data, meta()).is_none());
}

#[test]
fn dbc_swap_direction_follows_the_receiving_account() {
    let mut accounts = keys(15);
    let data = two_numbers(10, 9);
    match meteora_dbc::parser::parse_swap_instruction(&data, &accounts, meta()).unwrap() {
        UnifiedEvent::MeteoraDBCSwap(e) => {
            assert_eq!(e.trade_direction, TradeDirection::Sell);
            assert_eq!(e.amount_in, 10);
            assert_eq!(e.param_amount_in, 10);
            assert_eq!(e.param_minimum_amount_out, 9);
            assert_eq!(e.pool, accounts[0]);
            assert_eq!(e.config, accounts[1]);
            assert_eq!(e.input_token_account, accounts[3]);
            assert_eq!(e.output_token_account, accounts[4]);
            assert_eq!(e.base_vault, accounts[5]);
            assert_eq!(e.quote_vault, accounts[6]);
            assert_eq!(e.base_mint, accounts[7]);
            assert_eq!(e.quote_mint, accounts[8]);
            assert_eq!(e.payer, accounts[9]);
            assert_eq!(e.token_base_program, accounts[10]);
            assert_eq!(e.token_quote_program, accounts[11]);
            assert!(e.remaining_accounts.is_empty());
        }
        other => panic!("unexpected event {:?}", other),
    }
    accounts[4] = ata(&accounts[9], &accounts[7]);
    match meteora_dbc::parser::parse_swap_instruction(&data, &accounts, meta()).unwrap() {
        UnifiedEvent::MeteoraDBCSwap(e) => assert_eq!(e.trade_direction, TradeDirection::Buy),
        other => panic!("unexpected event {:?}", other),
    }
    assert!(meteora_dbc::parser::parse_swap_instruction(&data, &keys(14), meta()).is_none());
    assert!(meteora_dbc::parser::parse_swap_instruction(&data[..15], &accounts, meta()).is_none());
}

#[test]
fn dammv2_swap_direction_follows_the_receiving_account() {
    let mut accounts = keys(14);
    let data = two_numbers(10, 9);
    match meteora_dammv2::parser::parse_swap_instruction(&data, &accounts, meta()).unwrap() {
        UnifiedEvent::MeteoraDAMMv2Swap(e) => {
            assert_eq!(e.trade_direction, TradeDirection::Sell);
            assert_eq!(e.pool, accounts[1]);
            assert_eq!(e.input_token_account, accounts[2]);
            assert_eq!(e.output_token_account, accounts[3]);
            assert_eq!(e.token_a_vault, accounts[4]);
            assert_eq!(e.token_b_vault, accounts[5]);
            assert_eq!(e.token_a_mint, accounts[6]);
            assert_eq!(e.token_b_mint, accounts[7]);
            assert_eq!(e.payer, accounts[8]);
            assert_eq!(e.token_a_program, accounts[9]);
            assert_eq!(e.token_b_program, accounts[10]);
            assert_eq!(e.amount_in, 10);
            assert_eq!(e.param_minimum_amount_out, 9);
        }
        other => panic!("unexpected event {:?}", other),
    }
    accounts[3] = ata(&accounts[8], &accounts[6]);
    match meteora_dammv2::parser::parse_swap_instruction(&data, &accounts, meta()).unwrap() {
        UnifiedEvent::MeteoraDAMMv2Swap(e) => assert_eq!(e.trade_direction, TradeDirection::Buy),
        other => panic!("unexpected event {:?}", other),
    }
    assert!(meteora_dammv2::parser::parse_swap_instruction(&data, &keys(13), meta()).is_none());
}

#[test]
fn decoding_twice_gives_the_same_identity() {
    let accounts = keys(21);
    let mut data = two_numbers(1, 2);
    data.extend(two_numbers(3, 4));
    let all = [
        InstructionDecoder::PumpFunBuy,
        InstructionDecoder::PumpFunSell,
        InstructionDecoder::AxiomPumpFunBuy,
        InstructionDecoder::F5tfvPumpFunBuy,
        InstructionDecoder::AxiomPumpSwapBuy,
        InstructionDecoder::Prog6HB1VPumpSwapBuy,
        InstructionDecoder::PhotonPumpFunBuy,
        InstructionDecoder::PhotonPumpFunSell,
        InstructionDecoder::PhotonPumpSwapTrade,
        InstructionDecoder::MeteoraDBCSwap,
        InstructionDecoder::MeteoraDAMMv2Swap,
    ];
    for decoder in all {
        let first = decoder.decode(&data, &accounts, meta()).unwrap();
        let second = decoder.decode(&data, &accounts, meta()).unwrap();
        assert_eq!(first.id(), second.id());
        assert_eq!(first, second);
    }
}

#[test]
fn every_decoder_refuses_short_input() {
    let all = [
        (InstructionDecoder::PumpFunCreateToken, 16, 11),
        (InstructionDecoder::PumpFunBuy, 16, 14),
        (InstructionDecoder::PumpFunSell, 16, 11),
        (InstructionDecoder::AxiomPumpFunBuy, 16, 14),
        (InstructionDecoder::F5tfvPumpFunBuy, 16, 14),
        (InstructionDecoder::AxiomPumpSwapBuy, 16, 19),
        (InstructionDecoder::Prog6HB1VPumpSwapBuy, 16, 19),
        (InstructionDecoder::PhotonPumpFunBuy, 32, 17),
        (InstructionDecoder::PhotonPumpFunSell, 32, 15),
        (InstructionDecoder::PhotonPumpSwapTrade, 16, 21),
        (InstructionDecoder::MeteoraDBCSwap, 16, 15),
        (InstructionDecoder::MeteoraDAMMv2Swap, 16, 14),
    ];
    for (decoder, bytes, accounts) in all {
        let data = vec![0u8; bytes];
        for len in 0..bytes {
            assert!(decoder.decode(&data[..len], &keys(accounts), meta()).is_none());
        }
        for n in 0..accounts {
            assert!(decoder.decode(&data, &keys(n as u8), meta()).is_none());
        }
        assert!(decoder.decode(&data, &keys(accounts as u8), meta()).is_some());
    }
}

#[test]
fn program_ids_are_the_published_addresses() {
    let known = [
        (solana_streamer::protocols::pumpfun::parser::PUMPFUN_PROGRAM_ID, "6EF8rrecthR5Dkzon8Nwu78hRvfCKubJ14M5uBEwF6P"),
        (solana_streamer::protocols::photon::parser::PHOTON_PROGRAM_ID, "BSfD6SHZigAfDWSjzD5Q41jw8LmKwtmjskPH9XW1mrRW"),
        (solana_streamer::protocols::axiom1::parser::AXIOM_1_PROGRAM_ID, "AxiomfHaWDemCFBLBayqnEnNwE6b7B2Qz3UmzMpgbMG6"),
        (solana_streamer::protocols::axiom1::parser::AXIOM_1_PROGRAM_VAR_1_ID, "F5tfvbLog9VdGUPqBDTT8rgXvTTcq7e5UiGnupL1zvBq"),
        (solana_streamer::protocols::prog_f5tfv::parser::PROGF5TFV_PROGRAM_ID, "F5tfvbLog9VdGUPqBDTT8rgXvTTcq7e5UiGnupL1zvBq"),
        (solana_streamer::protocols::axiom2::parser::AXIOM_2_PROGRAM_ID, "AxiomxSitiyXyPjKgJ9XSrdhsydtZsskZTEDam3PxKcC"),
        (solana_streamer::protocols::prog6hb1v::parser::PROG6HB1V_PROGRAM_ID, "6HB1VBBS8LrdQiR9MZcXV5VdpKFb7vjTMZuQQEQEPioC"),
        (solana_streamer::protocols::meteora_dbc::parser::METEORA_DBC_PROGRAM_ID, "dbcij3LWUppWqq96dh6gJWwBifmcGfLSB5D4DuSMaqN"),
        (solana_streamer::protocols::meteora_dammv2::parser::METEORA_DAMM_V2_PROGRAM_ID, "cpamdpZCGKUy5JxQXB4dcpGPiikHawvSWAd6mEn1sGG"),
    ];
    for (bytes, text) in known {
        assert_eq!(solana_sdk::pubkey::Pubkey::from_str(text).unwrap().to_bytes(), bytes);
    }
}
