//! The decisions of the streaming pipeline: how a subscription is started,
//! and what is handed to the caller for each transaction that comes in.

use vstd::prelude::*;
use crate::batch::{batched, EventBatchProcessor};
use crate::engine::GenericEventParser;
use crate::event::UnifiedEvent;
use crate::fanout::{listed, parse_transaction, transaction_events, EventTypeFilter};
use crate::pubkey::Pubkey;
use crate::subscription::{StartPlan, SubscriptionState};
use crate::transaction::TransactionWithSlot;

verus! {

/// How much may wait between the receiving and the processing task.
#[derive(Clone, Copy, Debug, PartialEq, Eq, Structural)]
pub struct BackpressureConfig {
    pub channel_size: usize,
}

/// Whether and how events are batched.
#[derive(Clone, Copy, Debug, PartialEq, Eq, Structural)]
pub struct BatchConfig {
    pub enabled: bool,
    pub batch_size: usize,
    pub batch_timeout_ms: u64,
}

/// The options of a stream client.
#[derive(Clone, Copy, Debug, PartialEq, Eq, Structural)]
pub struct StreamClientConfig {
    pub backpressure: BackpressureConfig,
    pub batch: BatchConfig,
    pub enable_metrics: bool,
}

/// How the events of a subscription reach the caller.
#[derive(Clone, Copy, Debug, PartialEq, Eq, Structural, Hash)]
pub enum ProcessingMode {
    /// Collected into batches.
    Batch,
    /// All events of a transaction in one call.
    TransactionPack,
    /// One call for each event.
    Immediate,
}

/// The mode of a subscription: batches where batching is on, else packs
/// where the caller takes them, else single events.
pub open spec fn mode_for(batch_enabled: bool, has_tx_pack_callback: bool) -> ProcessingMode {
    if batch_enabled {
        ProcessingMode::Batch
    } else if has_tx_pack_callback {
        ProcessingMode::TransactionPack
    } else {
        ProcessingMode::Immediate
    }
}

/// What is to be done for a subscribe request.
#[derive(Clone, Copy, Debug, PartialEq, Eq, Structural)]
pub struct SubscribePlan {
    pub start: StartPlan,
    pub start_metrics: bool,
    pub channel_size: usize,
    pub mode: ProcessingMode,
}

/// What is handed to the caller for one transaction outside batch mode.
#[derive(Debug)]
pub enum Delivery {
    /// The events in one call.
    Pack(Vec<UnifiedEvent>),
    /// The events in one call each, in their order.
    Each(Vec<UnifiedEvent>),
}

impl Delivery {
    /// The events that are handed over, in their order.
    pub open spec fn events(self) -> Seq<UnifiedEvent> {
        match self {
            Delivery::Pack(v) => v@,
            Delivery::Each(v) => v@,
        }
    }
}

/// A stream client: its options and the handle of its one subscription.
#[derive(Clone, Copy, Debug)]
pub struct ShredStreamGrpc {
    pub config: StreamClientConfig,
    pub subscription: SubscriptionState,
}

impl ShredStreamGrpc {
    /// A client with no subscription.
    pub fn new(config: StreamClientConfig) -> (c: ShredStreamGrpc)
        ensures
            c.config == config,
            c.subscription.live().is_none(),
    {
        ShredStreamGrpc { config, subscription: SubscriptionState::new() }
    }

    /// A subscribe request. The subscription that is alive, if one is, has to
    /// be ended first; then the channel is made with the configured size and
    /// the tasks are started in the mode that the options and the callbacks
    /// of the caller give.
    pub fn shredstream_subscribe(&mut self, has_tx_pack_callback: bool) -> (plan: SubscribePlan)
        ensures
            final(self).config == old(self).config,
            final(self).subscription == old(self).subscription.after_subscribe(),
            plan.start.cancel == old(self).subscription.live(),
            plan.start.generation == final(self).subscription.generation,
            plan.start_metrics == old(self).config.enable_metrics,
            plan.channel_size == old(self).config.backpressure.channel_size,
            plan.mode == mode_for(old(self).config.batch.enabled, has_tx_pack_callback),
    {
        let start = self.subscription.subscribe();
        let mode = if self.config.batch.enabled {
            ProcessingMode::Batch
        } else if has_tx_pack_callback {
            ProcessingMode::TransactionPack
        } else {
            ProcessingMode::Immediate
        };
        SubscribePlan {
            start,
            start_metrics: self.config.enable_metrics,
            channel_size: self.config.backpressure.channel_size,
            mode,
        }
    }

    /// A stop request: the subscription whose tasks are to be cancelled, if
    /// one is starting or running.
    pub fn stop(&mut self) -> (cancel: Option<u64>)
        ensures
            final(self).config == old(self).config,
            final(self).subscription == old(self).subscription.after_stop(),
            cancel.is_some() == (old(self).subscription.after_stop() != old(self).subscription),
            cancel matches Some(g) ==> g == old(self).subscription.generation,
    {
        self.subscription.stop()
    }

    /// The buffer of a subscription in batch mode.
    pub fn batch_processor(&self) -> (p: EventBatchProcessor)
        ensures
            p.well_formed(),
            p.pending().len() == 0,
            p.size() == self.config.batch.batch_size,
            p.timeout() == self.config.batch.batch_timeout_ms,
    {
        EventBatchProcessor::new(self.config.batch.batch_size, self.config.batch.batch_timeout_ms)
    }

    /// Batch mode: the events of the transaction go into the buffer, and the
    /// batches that they fill are returned for the caller.
    pub fn process_with_batch(
        &self,
        parser: &GenericEventParser,
        transaction_with_slot: &TransactionWithSlot,
        program_received_time_ms: i64,
        bot_wallet: Option<Pubkey>,
        event_type_filter: Option<EventTypeFilter>,
        batch_processor: &mut EventBatchProcessor,
        now_ms: u64,
    ) -> (batches: Vec<Vec<UnifiedEvent>>)
        requires
            old(batch_processor).well_formed(),
        ensures
            final(batch_processor).well_formed(),
            exists|events: Seq<UnifiedEvent>|
                {
                    &&& transaction_events(
                        *parser,
                        *transaction_with_slot,
                        program_received_time_ms,
                        bot_wallet,
                        listed(event_type_filter),
                        events,
                    )
                    &&& #[trigger] batched(*old(batch_processor), events, now_ms, *final(batch_processor), batches@)
                },
    {
        let events = parse_transaction(
            parser,
            transaction_with_slot,
            program_received_time_ms,
            bot_wallet,
            event_type_filter,
        );
        batch_processor.add_events(events, now_ms)
    }

    /// Immediate mode: the events of the transaction, for one call each.
    pub fn process_immediate(
        &self,
        parser: &GenericEventParser,
        transaction_with_slot: &TransactionWithSlot,
        program_received_time_ms: i64,
        bot_wallet: Option<Pubkey>,
        event_type_filter: Option<EventTypeFilter>,
    ) -> (events: Vec<UnifiedEvent>)
        ensures
            transaction_events(
                *parser,
                *transaction_with_slot,
                program_received_time_ms,
                bot_wallet,
                listed(event_type_filter),
                events@,
            ),
    {
        parse_transaction(
            parser,
            transaction_with_slot,
            program_received_time_ms,
            bot_wallet,
            event_type_filter,
        )
    }

    /// Outside batch mode: the events of the transaction as one pack where
    /// the caller takes packs, else for one call each.
    pub fn process_immediate_in_tx_pack(
        &self,
        parser: &GenericEventParser,
        transaction_with_slot: &TransactionWithSlot,
        program_received_time_ms: i64,
        bot_wallet: Option<Pubkey>,
        event_type_filter: Option<EventTypeFilter>,
        has_tx_pack_callback: bool,
    ) -> (delivery: Delivery)
        ensures
            delivery is Pack == has_tx_pack_callback,
            transaction_events(
                *parser,
                *transaction_with_slot,
                program_received_time_ms,
                bot_wallet,
                listed(event_type_filter),
                delivery.events(),
            ),
    {
        let events = self.process_immediate(
            parser,
            transaction_with_slot,
            program_received_time_ms,
            bot_wallet,
            event_type_filter,
        );
        if has_tx_pack_callback {
            Delivery::Pack(events)
        } else {
            Delivery::Each(events)
        }
    }
}

} // verus!
