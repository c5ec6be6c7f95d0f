//! A simulated bus transport: it records every transaction, answers reads
//! from a queue of prepared bytes, and can be limited to a byte budget after
//! which it fails mid-frame. It implements the same capability the hardware
//! transport does, so driver behavior can be exercised without a device.

use vstd::prelude::*;

use crate::bus::{I2cBus, Transaction};

verus! {

/// One recorded bus transaction: the device address and the bytes that
/// crossed the bus.
#[derive(PartialEq, Eq, Debug)]
pub enum BusEvent {
    /// Bytes written to the device.
    Write(u8, Vec<u8>),
    /// Bytes delivered by the device.
    Read(u8, Vec<u8>),
}

impl BusEvent {
    /// The transaction this record stands for.
    pub open spec fn txn(self) -> Transaction {
        match self {
            BusEvent::Write(a, d) => Transaction::Write(a, d@),
            BusEvent::Read(a, d) => Transaction::Read(a, d@),
        }
    }
}

/// The transactions that a sequence of recorded events stands for.
pub open spec fn txns_of(events: Seq<BusEvent>) -> Seq<Transaction> {
    events.map_values(|e: BusEvent| e.txn())
}

proof fn lemma_txns_of_push(events: Seq<BusEvent>, e: BusEvent)
    ensures
        txns_of(events.push(e)) == txns_of(events).push(e.txn()),
{
    assert(txns_of(events.push(e)) =~= txns_of(events).push(e.txn()));
}

/// Error of the simulated bus.
#[derive(Clone, Copy, PartialEq, Eq, Structural, Debug)]
pub struct SimError;

/// A simulated two-wire bus.
pub struct SimBus {
    /// Every transaction performed, oldest first.
    pub events: Vec<BusEvent>,
    /// Bytes still allowed across the bus before it fails; `None` means the
    /// bus never fails.
    pub budget: Option<usize>,
    /// Bytes that upcoming reads deliver, consumed front first; an empty
    /// queue delivers zero.
    pub responses: Vec<u8>,
}

impl SimBus {
    /// A bus with no failure programmed and no read bytes queued.
    pub fn new() -> (s: SimBus)
        ensures
            s.log() == Seq::<Transaction>::empty(),
            s.events@ == Seq::<BusEvent>::empty(),
            s.budget is None,
            s.responses@ == Seq::<u8>::empty(),
    {
        let s = SimBus { events: Vec::new(), budget: None, responses: Vec::new() };
        proof {
            assert(s.log() =~= Seq::<Transaction>::empty());
        }
        s
    }

    /// A bus that lets `budget` more bytes across and then fails mid-frame.
    pub fn with_budget(budget: usize) -> (s: SimBus)
        ensures
            s.log() == Seq::<Transaction>::empty(),
            s.events@ == Seq::<BusEvent>::empty(),
            s.budget == Some(budget),
            s.responses@ == Seq::<u8>::empty(),
    {
        let s = SimBus { events: Vec::new(), budget: Some(budget), responses: Vec::new() };
        proof {
            assert(s.log() =~= Seq::<Transaction>::empty());
        }
        s
    }

    /// Queue the byte that the next read delivers.
    pub fn push_response(&mut self, b: u8)
        ensures
            final(self).events == old(self).events,
            final(self).budget == old(self).budget,
            final(self).responses@ == old(self).responses@.push(b),
    {
        self.responses.push(b);
    }
}

impl I2cBus for SimBus {
    type Error = SimError;

    /// The recorded transactions.
    open spec fn log(&self) -> Seq<Transaction> {
        txns_of(self.events@)
    }

    fn write(&mut self, addr: u8, bytes: &Vec<u8>) -> (r: Result<(), SimError>) {
        let n = bytes.len();
        let allowed: usize = match self.budget {
            None => n,
            Some(m) => if m < n {
                m
            } else {
                n
            },
        };
        let mut data: Vec<u8> = Vec::new();
        let mut i: usize = 0;
        while i < allowed
            invariant
                i <= allowed,
                allowed <= bytes@.len(),
                data@ == bytes@.subrange(0, i as int),
            decreases allowed - i,
        {
            data.push(bytes[i]);
            i = i + 1;
            proof {
                assert(data@ =~= bytes@.subrange(0, i as int));
            }
        }
        match self.budget {
            Some(m) => {
                self.budget = Some(m - allowed);
            },
            None => {},
        }
        let ghost ev = BusEvent::Write(addr, data);
        let ghost pre = self.events@;
        self.events.push(BusEvent::Write(addr, data));
        proof {
            lemma_txns_of_push(pre, ev);
        }
        if allowed == n {
            proof {
                assert(data@ =~= bytes@);
            }
            Ok(())
        } else {
            proof {
                assert(0 <= allowed < bytes@.len() && self.log() == old(self).log().push(
                    Transaction::Write(addr, bytes@.subrange(0, allowed as int)),
                ));
            }
            Err(SimError)
        }
    }

    fn read_byte(&mut self, addr: u8) -> (r: Result<u8, SimError>) {
        let can: bool = match self.budget {
            None => true,
            Some(m) => m >= 1,
        };
        if can {
            match self.budget {
                Some(m) => {
                    self.budget = Some(m - 1);
                },
                None => {},
            }
            let b: u8 = if self.responses.len() > 0 {
                self.responses.remove(0)
            } else {
                0
            };
            let mut data: Vec<u8> = Vec::new();
            data.push(b);
            proof {
                assert(data@ =~= seq![b]);
            }
            let ghost ev = BusEvent::Read(addr, data);
            let ghost pre = self.events@;
            self.events.push(BusEvent::Read(addr, data));
            proof {
                lemma_txns_of_push(pre, ev);
            }
            Ok(b)
        } else {
            let data: Vec<u8> = Vec::new();
            proof {
                assert(data@ =~= Seq::<u8>::empty());
            }
            let ghost ev = BusEvent::Read(addr, data);
            let ghost pre = self.events@;
            self.events.push(BusEvent::Read(addr, data));
            proof {
                lemma_txns_of_push(pre, ev);
            }
            Err(SimError)
        }
    }
}

} // verus!
