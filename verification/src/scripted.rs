//! A bus that plays back prepared replies and keeps a record of every
//! transaction made on it, for trying a driver without a chip.

use crate::transport::{Exchange, Transport};
use vstd::prelude::*;
use vstd::slice::slice_to_vec;

verus! {

/// Why a scripted bus failed a transaction.
#[derive(Clone, Copy, Debug, PartialEq, Eq)]
pub enum BusFault {
    /// The script says that this transaction fails.
    Scripted,
    /// The reply in the script is not as long as the read that was asked.
    LengthMismatch,
    /// The script holds no further entry.
    Exhausted,
}

/// One transaction as a scripted bus recorded it.
#[derive(Debug)]
pub struct Recorded {
    /// The address spoken to.
    pub address: u8,
    /// The bytes sent.
    pub written: Vec<u8>,
    /// `None` for a plain write, else how many bytes were asked back.
    pub requested: Option<usize>,
    /// The bytes handed back, or why the transaction failed.
    pub reply: Result<Vec<u8>, BusFault>,
}

impl Recorded {
    /// The transaction this record stands for.
    pub open spec fn exchange(self) -> Exchange<BusFault> {
        Exchange {
            address: self.address,
            written: self.written@,
            requested: match self.requested {
                Some(n) => Some(n as nat),
                None => None,
            },
            reply: match self.reply {
                Ok(bytes) => Ok(bytes@),
                Err(fault) => Err(fault),
            },
        }
    }
}

/// A bus with a script: entry by entry, `Some` holds the bytes that the
/// next transaction hands back and `None` makes it fail.
#[derive(Debug)]
pub struct ScriptedBus {
    /// The replies, in the order in which they are played.
    pub script: Vec<Option<Vec<u8>>>,
    /// How many entries of the script have been played.
    pub position: usize,
    /// The transactions made so far, oldest first.
    pub record: Vec<Recorded>,
}

impl ScriptedBus {
    /// The transactions of a record.
    pub open spec fn exchanges(record: Seq<Recorded>) -> Seq<Exchange<BusFault>> {
        Seq::new(record.len(), |i: int| record[i].exchange())
    }

    /// What the next entry of the script makes of a transaction: its bytes,
    /// or the fault that a failing or missing entry gives.
    pub open spec fn next_entry(self) -> Result<Seq<u8>, BusFault> {
        if self.position >= self.script.len() {
            Err(BusFault::Exhausted)
        } else {
            match self.script[self.position as int] {
                Some(bytes) => Ok(bytes@),
                None => Err(BusFault::Scripted),
            }
        }
    }

    /// How many entries have been played after one more transaction: one
    /// more, unless the script has run out.
    pub open spec fn played_after(self) -> int {
        if self.position < self.script.len() {
            self.position + 1
        } else {
            self.position as int
        }
    }

    /// What a read of `requested` bytes gets from the next entry: its
    /// bytes if they are as many as were asked, else a fault.
    pub open spec fn next_reply(self, requested: nat) -> Result<Seq<u8>, BusFault> {
        match self.next_entry() {
            Ok(bytes) => if bytes.len() == requested {
                Ok(bytes)
            } else {
                Err(BusFault::LengthMismatch)
            },
            Err(fault) => Err(fault),
        }
    }

    /// What the next entry gives to a transaction: to a plain write no
    /// bytes, to a read what `next_reply` says.
    pub open spec fn answer(self, requested: Option<nat>) -> Result<Seq<u8>, BusFault> {
        match requested {
            Some(n) => self.next_reply(n),
            None => match self.next_entry() {
                Ok(_) => Ok(Seq::empty()),
                Err(fault) => Err(fault),
            },
        }
    }

    /// The transactions made on this bus, oldest first.
    pub open spec fn log(&self) -> Seq<Exchange<BusFault>> {
        ScriptedBus::exchanges(self.record@)
    }

    /// A bus that will play `script`, with nothing recorded yet.
    pub fn new(script: Vec<Option<Vec<u8>>>) -> (bus: ScriptedBus)
        ensures
            bus.script == script,
            bus.position == 0,
            bus.log() == Seq::<Exchange<BusFault>>::empty(),
    {
        let bus = ScriptedBus { script, position: 0, record: Vec::new() };
        assert(bus.log() =~= Seq::<Exchange<BusFault>>::empty());
        bus
    }

    /// How many transactions were made.
    pub fn transactions(&self) -> (count: usize)
        ensures
            count == self.log().len(),
    {
        self.record.len()
    }

    /// Plays the next entry of the script, if there is one.
    fn play(&mut self) -> (entry: Result<Vec<u8>, BusFault>)
        ensures
            final(self).script == old(self).script,
            final(self).record == old(self).record,
            final(self).position == old(self).played_after(),
            match entry {
                Ok(bytes) => old(self).next_entry() == Ok::<Seq<u8>, BusFault>(bytes@),
                Err(fault) => old(self).next_entry() == Err::<Seq<u8>, BusFault>(fault),
            },
    {
        if self.position >= self.script.len() {
            return Err(BusFault::Exhausted);
        }
        let entry = match &self.script[self.position] {
            Some(bytes) => Ok(slice_to_vec(bytes.as_slice())),
            None => Err(BusFault::Scripted),
        };
        self.position = self.position + 1;
        entry
    }
}

impl Transport for ScriptedBus {
    type Error = BusFault;

    /// A transaction plays one entry of the script, is answered by it and
    /// is entered into the record.
    open spec fn admits(&self, after: &Self, exchange: Exchange<BusFault>) -> bool {
        &&& after.script == self.script
        &&& after.position == self.played_after()
        &&& after.log() == self.log().push(exchange)
        &&& exchange.reply == self.answer(exchange.requested)
    }

    /// Plays one entry: the write succeeds if the entry holds a reply,
    /// whatever its bytes.
    fn write(&mut self, address: u8, bytes: &[u8]) -> (outcome: Result<(), BusFault>) {
        let reply = match self.play() {
            Ok(_) => Ok(Vec::new()),
            Err(fault) => Err(fault),
        };
        let outcome = match &reply {
            Ok(_) => Ok(()),
            Err(fault) => Err(*fault),
        };
        self.record.push(Recorded { address, written: slice_to_vec(bytes), requested: None, reply });
        assert(self.log() =~= old(self).log().push(self.record@.last().exchange()));
        outcome
    }

    /// Plays one entry: the read succeeds if the entry holds as many bytes
    /// as `buffer` takes, and then `buffer` holds them; else `buffer` stays
    /// as it was.
    fn write_read(&mut self, address: u8, bytes: &[u8], buffer: &mut [u8]) -> (outcome: Result<
        (),
        BusFault,
    >)
        ensures
            outcome is Err ==> final(buffer)@ == old(buffer)@,
    {
        let requested = buffer.len();
        let reply = match self.play() {
            Ok(entry) => {
                if entry.len() == requested {
                    Ok(entry)
                } else {
                    Err(BusFault::LengthMismatch)
                }
            },
            Err(fault) => Err(fault),
        };
        let outcome = match &reply {
            Ok(entry) => {
                let mut i: usize = 0;
                while i < requested
                    invariant
                        i <= requested,
                        requested == entry@.len(),
                        buffer@.len() == requested,
                        forall|j: int| 0 <= j < i ==> buffer@[j] == entry@[j],
                    decreases requested - i,
                {
                    buffer[i] = entry[i];
                    i = i + 1;
                }
                assert(buffer@ =~= entry@);
                Ok(())
            },
            Err(fault) => Err(*fault),
        };
        self.record.push(
            Recorded { address, written: slice_to_vec(bytes), requested: Some(requested), reply },
        );
        assert(self.log() =~= old(self).log().push(self.record@.last().exchange()));
        outcome
    }
}

} // verus!
