//! The replaceable delivery channels, one per kind of event, that the
//! callbacks forward their records into.
use tokio::sync::mpsc::UnboundedSender;
use vstd::prelude::*;

use crate::events::{OrderInfo, TradeInfo, TransactionInfo};

verus! {

#[verifier::external_type_specification]
#[verifier::external_body]
#[verifier::reject_recursive_types(T)]
pub struct ExUnboundedSender<T>(UnboundedSender<T>);

/// Relies on tokio's `UnboundedSender::send`: it never waits, and when the
/// receiving half is gone it gives the message back inside its error.
#[verifier::external_body]
fn send_event<T>(tx: &UnboundedSender<T>, message: T) -> (r: Option<T>)
    ensures
        r is Some ==> r->Some_0 == message,
{
    match tx.send(message) {
        Ok(()) => None,
        Err(e) => Some(e.0),
    }
}

/// What became of an event handed to a sink slot.
#[derive(Debug, Clone, Copy, PartialEq, Eq, Structural)]
pub enum Delivery {
    /// The channel took the event.
    Sent,
    /// No sink is registered for this kind of event; the event was dropped.
    NoSink,
    /// The receiving half of the sink is gone; the event was dropped.
    Closed,
}

/// Forwards an event to the sink in a slot, if there is one.
fn deliver<T>(slot: &Option<UnboundedSender<T>>, event: T) -> (r: Delivery)
    ensures
        slot is None <==> r == Delivery::NoSink,
{
    match slot {
        None => Delivery::NoSink,
        Some(tx) => match send_event(tx, event) {
            None => Delivery::Sent,
            Some(_) => Delivery::Closed,
        },
    }
}

/// One sink slot for each kind of event. A slot holds at most one sender;
/// registering a new one drops the one it replaces.
#[verifier::reject_recursive_types(F)]
pub struct EventSinks<F> {
    pub order: Option<UnboundedSender<OrderInfo<F>>>,
    pub trade: Option<UnboundedSender<TradeInfo<F>>>,
    pub transaction_reply: Option<UnboundedSender<TransactionInfo<F>>>,
}

impl<F> EventSinks<F> {
    /// Slots with no sink registered.
    pub fn new() -> (r: EventSinks<F>)
        ensures
            r.order is None,
            r.trade is None,
            r.transaction_reply is None,
    {
        EventSinks { order: None, trade: None, transaction_reply: None }
    }

    /// Registers (or, with `None`, removes) the sink for orders.
    pub fn set_order_sink(&mut self, sink: Option<UnboundedSender<OrderInfo<F>>>)
        ensures
            final(self).order == sink,
            final(self).trade == old(self).trade,
            final(self).transaction_reply == old(self).transaction_reply,
    {
        self.order = sink;
    }

    /// Registers (or, with `None`, removes) the sink for trades.
    pub fn set_trade_sink(&mut self, sink: Option<UnboundedSender<TradeInfo<F>>>)
        ensures
            final(self).trade == sink,
            final(self).order == old(self).order,
            final(self).transaction_reply == old(self).transaction_reply,
    {
        self.trade = sink;
    }

    /// Registers (or, with `None`, removes) the sink for transaction replies.
    pub fn set_transaction_reply_sink(
        &mut self,
        sink: Option<UnboundedSender<TransactionInfo<F>>>,
    )
        ensures
            final(self).transaction_reply == sink,
            final(self).order == old(self).order,
            final(self).trade == old(self).trade,
    {
        self.transaction_reply = sink;
    }

    /// Forwards an order to its sink; without a sink the order is dropped.
    pub fn deliver_order(&self, info: OrderInfo<F>) -> (r: Delivery)
        ensures
            self.order is None <==> r == Delivery::NoSink,
    {
        deliver(&self.order, info)
    }

    /// Forwards a trade to its sink; without a sink the trade is dropped.
    pub fn deliver_trade(&self, info: TradeInfo<F>) -> (r: Delivery)
        ensures
            self.trade is None <==> r == Delivery::NoSink,
    {
        deliver(&self.trade, info)
    }

    /// Forwards a transaction reply to its sink; without a sink the reply is dropped.
    pub fn deliver_transaction_reply(&self, info: TransactionInfo<F>) -> (r: Delivery)
        ensures
            self.transaction_reply is None <==> r == Delivery::NoSink,
    {
        deliver(&self.transaction_reply, info)
    }
}

} // verus!
