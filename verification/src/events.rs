//! The events the pair publishes, recorded in order in an event log.
use vstd::prelude::*;

verus! {

/// One event of the pair, generic over how an address is represented.
#[derive(Clone, Debug)]
pub enum PairEvent<A> {
    /// Topics `("swap", sender)`; data `(amount_a_in, amount_b_in, amount_a_out,
    /// amount_b_out, fee_bps, to)`.
    Swap {
        sender: A,
        amount_a_in: i128,
        amount_b_in: i128,
        amount_a_out: i128,
        amount_b_out: i128,
        fee_bps: u32,
        to: A,
    },
    /// Topics `("mint", sender)`; data `(amount_a, amount_b)`.
    Mint { sender: A, amount_a: i128, amount_b: i128 },
    /// Topics `("burn", sender)`; data `(amount_a, amount_b, to)`.
    Burn { sender: A, amount_a: i128, amount_b: i128, to: A },
    /// Topics `("sync",)`; data `(reserve_a, reserve_b)`.
    Sync { reserve_a: i128, reserve_b: i128 },
    /// Topics `("flash_loan", receiver)`; data `(amount_a, amount_b, fee_a, fee_b)`.
    FlashLoan { receiver: A, amount_a: i128, amount_b: i128, fee_a: i128, fee_b: i128 },
}

impl<A> PairEvent<A> {
    /// The name of the event's first topic.
    pub open spec fn spec_topic_name(&self) -> Seq<char> {
        match self {
            PairEvent::Swap { .. } => "swap"@,
            PairEvent::Mint { .. } => "mint"@,
            PairEvent::Burn { .. } => "burn"@,
            PairEvent::Sync { .. } => "sync"@,
            PairEvent::FlashLoan { .. } => "flash_loan"@,
        }
    }

    /// The name of the event's first topic, the symbol it is published under.
    pub fn topic_name(&self) -> (name: &'static str)
        ensures
            name@ == self.spec_topic_name(),
    {
        match self {
            PairEvent::Swap { .. } => "swap",
            PairEvent::Mint { .. } => "mint",
            PairEvent::Burn { .. } => "burn",
            PairEvent::Sync { .. } => "sync",
            PairEvent::FlashLoan { .. } => "flash_loan",
        }
    }
}

/// Emitters of the pair's events. Each appends exactly one event to the log and
/// leaves the events before it as they were.
pub struct PairEvents;

impl PairEvents {
    /// Emits a `swap` event after a successful token swap, with the dynamic fee
    /// `fee_bps` that applied to it.
    pub fn swap<A>(
        events: &mut Vec<PairEvent<A>>,
        sender: A,
        amount_a_in: i128,
        amount_b_in: i128,
        amount_a_out: i128,
        amount_b_out: i128,
        fee_bps: u32,
        to: A,
    )
        ensures
            final(events)@ == old(events)@.push(
                PairEvent::Swap {
                    sender,
                    amount_a_in,
                    amount_b_in,
                    amount_a_out,
                    amount_b_out,
                    fee_bps,
                    to,
                },
            ),
    {
        events.push(
            PairEvent::Swap { sender, amount_a_in, amount_b_in, amount_a_out, amount_b_out, fee_bps, to },
        );
    }

    /// Emits a `mint` event after liquidity is added.
    pub fn mint<A>(events: &mut Vec<PairEvent<A>>, sender: A, amount_a: i128, amount_b: i128)
        ensures
            final(events)@ == old(events)@.push(PairEvent::Mint { sender, amount_a, amount_b }),
    {
        events.push(PairEvent::Mint { sender, amount_a, amount_b });
    }

    /// Emits a `burn` event after liquidity is removed and paid out to `to`.
    pub fn burn<A>(events: &mut Vec<PairEvent<A>>, sender: A, amount_a: i128, amount_b: i128, to: A)
        ensures
            final(events)@ == old(events)@.push(PairEvent::Burn { sender, amount_a, amount_b, to }),
    {
        events.push(PairEvent::Burn { sender, amount_a, amount_b, to });
    }

    /// Emits a `sync` event carrying the pair's reserves.
    pub fn sync<A>(events: &mut Vec<PairEvent<A>>, reserve_a: i128, reserve_b: i128)
        ensures
            final(events)@ == old(events)@.push(PairEvent::Sync { reserve_a, reserve_b }),
    {
        events.push(PairEvent::Sync { reserve_a, reserve_b });
    }

    /// Emits a `flash_loan` event after a successful flash loan. The event carries the
    /// amounts lent and the fees paid; the rate `fee_bps` the fees were computed at is
    /// not part of it.
    pub fn flash_loan<A>(
        events: &mut Vec<PairEvent<A>>,
        receiver: A,
        amount_a: i128,
        amount_b: i128,
        fee_a: i128,
        fee_b: i128,
        fee_bps: u32,
    )
        ensures
            final(events)@ == old(events)@.push(
                PairEvent::FlashLoan { receiver, amount_a, amount_b, fee_a, fee_b },
            ),
    {
        events.push(PairEvent::FlashLoan { receiver, amount_a, amount_b, fee_a, fee_b });
    }
}

} // verus!
