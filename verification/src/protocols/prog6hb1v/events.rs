//! The record of program 6HB1V.

use vstd::prelude::*;
use crate::metadata::EventMetadata;
use crate::pubkey::Pubkey;

verus! {

/// A pool buy routed through program 6HB1V.
#[derive(Clone, Debug, PartialEq, Eq)]
pub struct Prog6HB1VPumpSwapBuyEvent {
    pub metadata: EventMetadata,
    pub timestamp: i64,
    pub base_amount_out: u64,
    pub max_quote_amount_in: u64,
    pub user_base_token_reserves: u64,
    pub user_quote_token_reserves: u64,
    pub pool_base_token_reserves: u64,
    pub pool_quote_token_reserves: u64,
    pub quote_amount_in: u64,
    pub lp_fee_basis_points: u64,
    pub lp_fee: u64,
    pub protocol_fee_basis_points: u64,
    pub protocol_fee: u64,
    pub quote_amount_in_with_lp_fee: u64,
    pub user_quote_amount_in: u64,
    pub pool: Pubkey,
    pub user: Pubkey,
    pub user_base_token_account: Pubkey,
    pub user_quote_token_account: Pubkey,
    pub protocol_fee_recipient: Pubkey,
    pub protocol_fee_recipient_token_account: Pubkey,
    pub coin_creator: Pubkey,
    pub coin_creator_fee_basis_points: u64,
    pub coin_creator_fee: u64,
    pub track_volume: bool,
    pub total_unclaimed_tokens: u64,
    pub total_claimed_tokens: u64,
    pub current_sol_volume: u64,
    pub last_update_timestamp: i64,
    pub base_mint: Pubkey,
    pub quote_mint: Pubkey,
    pub pool_base_token_account: Pubkey,
    pub pool_quote_token_account: Pubkey,
    pub coin_creator_vault_ata: Pubkey,
    pub coin_creator_vault_authority: Pubkey,
    pub base_token_program: Pubkey,
    pub quote_token_program: Pubkey,
    pub global_volume_accumulator: Pubkey,
    pub user_volume_accumulator: Pubkey,
}

impl Prog6HB1VPumpSwapBuyEvent {
    /// The record in which no field is set: every number is zero, every
    /// flag `false` and every address the zero address.
    pub open spec fn blank(metadata: EventMetadata) -> Prog6HB1VPumpSwapBuyEvent {
        Prog6HB1VPumpSwapBuyEvent {
            metadata,
            timestamp: 0,
            base_amount_out: 0,
            max_quote_amount_in: 0,
            user_base_token_reserves: 0,
            user_quote_token_reserves: 0,
            pool_base_token_reserves: 0,
            pool_quote_token_reserves: 0,
            quote_amount_in: 0,
            lp_fee_basis_points: 0,
            lp_fee: 0,
            protocol_fee_basis_points: 0,
            protocol_fee: 0,
            quote_amount_in_with_lp_fee: 0,
            user_quote_amount_in: 0,
            pool: Pubkey::zero(),
            user: Pubkey::zero(),
            user_base_token_account: Pubkey::zero(),
            user_quote_token_account: Pubkey::zero(),
            protocol_fee_recipient: Pubkey::zero(),
            protocol_fee_recipient_token_account: Pubkey::zero(),
            coin_creator: Pubkey::zero(),
            coin_creator_fee_basis_points: 0,
            coin_creator_fee: 0,
            track_volume: false,
            total_unclaimed_tokens: 0,
            total_claimed_tokens: 0,
            current_sol_volume: 0,
            last_update_timestamp: 0,
            base_mint: Pubkey::zero(),
            quote_mint: Pubkey::zero(),
            pool_base_token_account: Pubkey::zero(),
            pool_quote_token_account: Pubkey::zero(),
            coin_creator_vault_ata: Pubkey::zero(),
            coin_creator_vault_authority: Pubkey::zero(),
            base_token_program: Pubkey::zero(),
            quote_token_program: Pubkey::zero(),
            global_volume_accumulator: Pubkey::zero(),
            user_volume_accumulator: Pubkey::zero(),
        }
    }

    /// A record under `metadata` with no field set.
    pub fn new(metadata: EventMetadata) -> (r: Prog6HB1VPumpSwapBuyEvent)
        ensures
            r == Prog6HB1VPumpSwapBuyEvent::blank(metadata),
    {
        Prog6HB1VPumpSwapBuyEvent {
            metadata,
            timestamp: 0,
            base_amount_out: 0,
            max_quote_amount_in: 0,
            user_base_token_reserves: 0,
            user_quote_token_reserves: 0,
            pool_base_token_reserves: 0,
            pool_quote_token_reserves: 0,
            quote_amount_in: 0,
            lp_fee_basis_points: 0,
            lp_fee: 0,
            protocol_fee_basis_points: 0,
            protocol_fee: 0,
            quote_amount_in_with_lp_fee: 0,
            user_quote_amount_in: 0,
            pool: Pubkey::default(),
            user: Pubkey::default(),
            user_base_token_account: Pubkey::default(),
            user_quote_token_account: Pubkey::default(),
            protocol_fee_recipient: Pubkey::default(),
            protocol_fee_recipient_token_account: Pubkey::default(),
            coin_creator: Pubkey::default(),
            coin_creator_fee_basis_points: 0,
            coin_creator_fee: 0,
            track_volume: false,
            total_unclaimed_tokens: 0,
            total_claimed_tokens: 0,
            current_sol_volume: 0,
            last_update_timestamp: 0,
            base_mint: Pubkey::default(),
            quote_mint: Pubkey::default(),
            pool_base_token_account: Pubkey::default(),
            pool_quote_token_account: Pubkey::default(),
            coin_creator_vault_ata: Pubkey::default(),
            coin_creator_vault_authority: Pubkey::default(),
            base_token_program: Pubkey::default(),
            quote_token_program: Pubkey::default(),
            global_volume_accumulator: Pubkey::default(),
            user_volume_accumulator: Pubkey::default(),
        }
    }

    /// The record that has its logged fields from `log` and the others from
    /// `self`.
    pub open spec fn merged(self, log: Prog6HB1VPumpSwapBuyEvent) -> Prog6HB1VPumpSwapBuyEvent {
        Prog6HB1VPumpSwapBuyEvent {
            timestamp: log.timestamp,
            base_amount_out: log.base_amount_out,
            max_quote_amount_in: log.max_quote_amount_in,
            user_base_token_reserves: log.user_base_token_reserves,
            user_quote_token_reserves: log.user_quote_token_reserves,
            pool_base_token_reserves: log.pool_base_token_reserves,
            pool_quote_token_reserves: log.pool_quote_token_reserves,
            quote_amount_in: log.quote_amount_in,
            lp_fee_basis_points: log.lp_fee_basis_points,
            lp_fee: log.lp_fee,
            protocol_fee_basis_points: log.protocol_fee_basis_points,
            protocol_fee: log.protocol_fee,
            quote_amount_in_with_lp_fee: log.quote_amount_in_with_lp_fee,
            user_quote_amount_in: log.user_quote_amount_in,
            pool: log.pool,
            user: log.user,
            user_base_token_account: log.user_base_token_account,
            user_quote_token_account: log.user_quote_token_account,
            protocol_fee_recipient: log.protocol_fee_recipient,
            protocol_fee_recipient_token_account: log.protocol_fee_recipient_token_account,
            coin_creator: log.coin_creator,
            coin_creator_fee_basis_points: log.coin_creator_fee_basis_points,
            coin_creator_fee: log.coin_creator_fee,
            track_volume: log.track_volume,
            total_unclaimed_tokens: log.total_unclaimed_tokens,
            total_claimed_tokens: log.total_claimed_tokens,
            current_sol_volume: log.current_sol_volume,
            last_update_timestamp: log.last_update_timestamp,
            ..self
        }
    }

    /// Takes over every field that the program logs from `log`.
    pub fn merge(&mut self, log: &Prog6HB1VPumpSwapBuyEvent)
        ensures
            *final(self) == old(self).merged(*log),
    {
        self.timestamp = log.timestamp;
        self.base_amount_out = log.base_amount_out;
        self.max_quote_amount_in = log.max_quote_amount_in;
        self.user_base_token_reserves = log.user_base_token_reserves;
        self.user_quote_token_reserves = log.user_quote_token_reserves;
        self.pool_base_token_reserves = log.pool_base_token_reserves;
        self.pool_quote_token_reserves = log.pool_quote_token_reserves;
        self.quote_amount_in = log.quote_amount_in;
        self.lp_fee_basis_points = log.lp_fee_basis_points;
        self.lp_fee = log.lp_fee;
        self.protocol_fee_basis_points = log.protocol_fee_basis_points;
        self.protocol_fee = log.protocol_fee;
        self.quote_amount_in_with_lp_fee = log.quote_amount_in_with_lp_fee;
        self.user_quote_amount_in = log.user_quote_amount_in;
        self.pool = log.pool;
        self.user = log.user;
        self.user_base_token_account = log.user_base_token_account;
        self.user_quote_token_account = log.user_quote_token_account;
        self.protocol_fee_recipient = log.protocol_fee_recipient;
        self.protocol_fee_recipient_token_account = log.protocol_fee_recipient_token_account;
        self.coin_creator = log.coin_creator;
        self.coin_creator_fee_basis_points = log.coin_creator_fee_basis_points;
        self.coin_creator_fee = log.coin_creator_fee;
        self.track_volume = log.track_volume;
        self.total_unclaimed_tokens = log.total_unclaimed_tokens;
        self.total_claimed_tokens = log.total_claimed_tokens;
        self.current_sol_volume = log.current_sol_volume;
        self.last_update_timestamp = log.last_update_timestamp;
    }

    /// Whether the two records agree in every field that the program logs.
    pub open spec fn log_fields_agree(self, other: Prog6HB1VPumpSwapBuyEvent) -> bool {
        &&& self.timestamp == other.timestamp
        &&& self.base_amount_out == other.base_amount_out
        &&& self.max_quote_amount_in == other.max_quote_amount_in
        &&& self.user_base_token_reserves == other.user_base_token_reserves
        &&& self.user_quote_token_reserves == other.user_quote_token_reserves
        &&& self.pool_base_token_reserves == other.pool_base_token_reserves
        &&& self.pool_quote_token_reserves == other.pool_quote_token_reserves
        &&& self.quote_amount_in == other.quote_amount_in
        &&& self.lp_fee_basis_points == other.lp_fee_basis_points
        &&& self.lp_fee == other.lp_fee
        &&& self.protocol_fee_basis_points == other.protocol_fee_basis_points
        &&& self.protocol_fee == other.protocol_fee
        &&& self.quote_amount_in_with_lp_fee == other.quote_amount_in_with_lp_fee
        &&& self.user_quote_amount_in == other.user_quote_amount_in
        &&& self.pool == other.pool
        &&& self.user == other.user
        &&& self.user_base_token_account == other.user_base_token_account
        &&& self.user_quote_token_account == other.user_quote_token_account
        &&& self.protocol_fee_recipient == other.protocol_fee_recipient
        &&& self.protocol_fee_recipient_token_account == other.protocol_fee_recipient_token_account
        &&& self.coin_creator == other.coin_creator
        &&& self.coin_creator_fee_basis_points == other.coin_creator_fee_basis_points
        &&& self.coin_creator_fee == other.coin_creator_fee
        &&& self.track_volume == other.track_volume
        &&& self.total_unclaimed_tokens == other.total_unclaimed_tokens
        &&& self.total_claimed_tokens == other.total_claimed_tokens
        &&& self.current_sol_volume == other.current_sol_volume
        &&& self.last_update_timestamp == other.last_update_timestamp
    }

    /// Whether the two records agree in the envelope and in every field that
    /// the program does not log.
    pub open spec fn other_fields_agree(self, other: Prog6HB1VPumpSwapBuyEvent) -> bool {
        &&& self.metadata == other.metadata
        &&& self.base_mint == other.base_mint
        &&& self.quote_mint == other.quote_mint
        &&& self.pool_base_token_account == other.pool_base_token_account
        &&& self.pool_quote_token_account == other.pool_quote_token_account
        &&& self.coin_creator_vault_ata == other.coin_creator_vault_ata
        &&& self.coin_creator_vault_authority == other.coin_creator_vault_authority
        &&& self.base_token_program == other.base_token_program
        &&& self.quote_token_program == other.quote_token_program
        &&& self.global_volume_accumulator == other.global_volume_accumulator
        &&& self.user_volume_accumulator == other.user_volume_accumulator
    }

    /// Whether the two records read the same, whatever memory holds their
    /// text.
    pub open spec fn same_content(self, other: Prog6HB1VPumpSwapBuyEvent) -> bool {
        &&& self.metadata.same_content(other.metadata)
        &&& self.timestamp == other.timestamp
        &&& self.base_amount_out == other.base_amount_out
        &&& self.max_quote_amount_in == other.max_quote_amount_in
        &&& self.user_base_token_reserves == other.user_base_token_reserves
        &&& self.user_quote_token_reserves == other.user_quote_token_reserves
        &&& self.pool_base_token_reserves == other.pool_base_token_reserves
        &&& self.pool_quote_token_reserves == other.pool_quote_token_reserves
        &&& self.quote_amount_in == other.quote_amount_in
        &&& self.lp_fee_basis_points == other.lp_fee_basis_points
        &&& self.lp_fee == other.lp_fee
        &&& self.protocol_fee_basis_points == other.protocol_fee_basis_points
        &&& self.protocol_fee == other.protocol_fee
        &&& self.quote_amount_in_with_lp_fee == other.quote_amount_in_with_lp_fee
        &&& self.user_quote_amount_in == other.user_quote_amount_in
        &&& self.pool == other.pool
        &&& self.user == other.user
        &&& self.user_base_token_account == other.user_base_token_account
        &&& self.user_quote_token_account == other.user_quote_token_account
        &&& self.protocol_fee_recipient == other.protocol_fee_recipient
        &&& self.protocol_fee_recipient_token_account == other.protocol_fee_recipient_token_account
        &&& self.coin_creator == other.coin_creator
        &&& self.coin_creator_fee_basis_points == other.coin_creator_fee_basis_points
        &&& self.coin_creator_fee == other.coin_creator_fee
        &&& self.track_volume == other.track_volume
        &&& self.total_unclaimed_tokens == other.total_unclaimed_tokens
        &&& self.total_claimed_tokens == other.total_claimed_tokens
        &&& self.current_sol_volume == other.current_sol_volume
        &&& self.last_update_timestamp == other.last_update_timestamp
        &&& self.base_mint == other.base_mint
        &&& self.quote_mint == other.quote_mint
        &&& self.pool_base_token_account == other.pool_base_token_account
        &&& self.pool_quote_token_account == other.pool_quote_token_account
        &&& self.coin_creator_vault_ata == other.coin_creator_vault_ata
        &&& self.coin_creator_vault_authority == other.coin_creator_vault_authority
        &&& self.base_token_program == other.base_token_program
        &&& self.quote_token_program == other.quote_token_program
        &&& self.global_volume_accumulator == other.global_volume_accumulator
        &&& self.user_volume_accumulator == other.user_volume_accumulator
    }

    /// A merged record has every logged field from the log record and every
    /// other field from the instruction record.
    pub proof fn lemma_merge_complete(instruction: Prog6HB1VPumpSwapBuyEvent, log: Prog6HB1VPumpSwapBuyEvent)
        ensures
            instruction.merged(log).log_fields_agree(log),
            instruction.merged(log).other_fields_agree(instruction),
    {
    }

    /// The logged fields and the others are all the fields there are.
    pub proof fn lemma_fields_cover(a: Prog6HB1VPumpSwapBuyEvent, b: Prog6HB1VPumpSwapBuyEvent)
        requires
            a.log_fields_agree(b),
            a.other_fields_agree(b),
        ensures
            a == b,
    {
    }
}

impl Default for Prog6HB1VPumpSwapBuyEvent {
    fn default() -> (r: Prog6HB1VPumpSwapBuyEvent)
        ensures
            r == Prog6HB1VPumpSwapBuyEvent::blank(r.metadata),
            r.metadata.is_blank(),
    {
        Prog6HB1VPumpSwapBuyEvent::new(EventMetadata::default())
    }
}

} // verus!
