//! The sensor driver: identity check, mode selection, register dump and
//! the reading of the three channel counts.

use crate::counts::{decode_counts, LedCounter};
use crate::error::Error;
use crate::registers::{OperationModes, RegisterMap, DEVICE_ADDRESS, DEVICE_ID, REGISTER_COUNT};
use crate::transport::{one_more, read_exchange, write_exchange, Exchange, Transport};
use vstd::prelude::*;

verus! {

/// The transaction `x` was a plain write of `written` to the sensor.
pub open spec fn write_to_sensor<E>(x: Exchange<E>, written: Seq<u8>) -> bool {
    &&& x.address == DEVICE_ADDRESS
    &&& x.written == written
    &&& x.requested is None
    &&& x.reply matches Ok(bytes) ==> bytes.len() == 0
}

/// The transaction `x` wrote `written` to the sensor and asked `requested`
/// bytes back; if it succeeded, that many bytes came.
pub open spec fn read_from_sensor<E>(x: Exchange<E>, written: Seq<u8>, requested: nat) -> bool {
    &&& x.address == DEVICE_ADDRESS
    &&& x.written == written
    &&& x.requested == Some(requested)
    &&& x.reply matches Ok(bytes) ==> bytes.len() == requested
}

/// What the read of one register gives for the reply of its transaction:
/// the byte that came, or the bus's error.
pub open spec fn register_outcome<E>(reply: Result<Seq<u8>, E>) -> Result<u8, Error<E>> {
    match reply {
        Ok(bytes) => Ok(bytes[0]),
        Err(e) => Err(Error::I2C(e)),
    }
}

/// What the identity check makes of a read of the identity register: the
/// identity byte if that is what came, `WrongDeviceId` for any other byte,
/// and a failed read as it is.
pub open spec fn identity_verdict<E>(read: Result<u8, Error<E>>) -> Result<u8, Error<E>> {
    match read {
        Ok(id) => if id == DEVICE_ID {
            Ok(id)
        } else {
            Err(Error::WrongDeviceId)
        },
        Err(e) => Err(e),
    }
}

/// Whether `count` registers from `start` on all lie inside the register
/// map.
pub open spec fn window_in_map(start: u8, count: u8) -> bool {
    count >= 1 && start + count <= REGISTER_COUNT
}

/// Judges what a read of the identity register gave.
pub fn judge_identity<E>(read: Result<u8, Error<E>>) -> (result: Result<u8, Error<E>>)
    ensures
        result == identity_verdict(read),
{
    match read {
        Ok(id) => {
            if id == DEVICE_ID {
                Ok(id)
            } else {
                Err(Error::WrongDeviceId)
            }
        },
        Err(e) => Err(e),
    }
}

/// The identity check succeeds on exactly one reply, the identity byte of
/// an ISL29125, and then gives that byte. Every other byte gives
/// `WrongDeviceId`. A failed transaction gives the bus's error, never
/// `WrongDeviceId`.
pub proof fn lemma_identity_check<E>(reply: Result<Seq<u8>, E>)
    ensures
        identity_verdict(register_outcome(reply)) is Ok <==> (reply matches Ok(bytes)
            && bytes[0] == DEVICE_ID),
        identity_verdict(register_outcome(reply)) is Ok ==> identity_verdict(
            register_outcome(reply),
        ) == Ok::<u8, Error<E>>(DEVICE_ID),
        (reply matches Ok(bytes) && bytes[0] != DEVICE_ID) ==> identity_verdict(
            register_outcome(reply),
        ) == Err::<u8, Error<E>>(Error::WrongDeviceId),
        reply matches Err(e) ==> identity_verdict(register_outcome(reply)) == Err::<u8, Error<E>>(
            Error::I2C(e),
        ),
{
}

/// A driver for one ISL29125 on the bus `i2c`, which it owns.
pub struct Isl29125<I2C: Transport> {
    /// The bus the sensor is on.
    pub i2c: I2C,
    /// The counts of the last sample that was read.
    pub led_counts: LedCounter,
    /// Every transaction this driver has asked of its bus, oldest first.
    pub log: Ghost<Seq<Exchange<I2C::Error>>>,
}

impl<I2C: Transport> Isl29125<I2C> {
    /// Every transaction this driver has asked of its bus, oldest first,
    /// each with what was handed to the bus and what the bus gave back.
    pub open spec fn log(&self) -> Seq<Exchange<I2C::Error>> {
        self.log@
    }

    /// The last transaction this driver asked of its bus.
    pub open spec fn last_exchange(&self) -> Exchange<I2C::Error> {
        self.log().last()
    }

    /// Enters one transaction with the sensor into the log.
    fn note(&mut self, Ghost(exchange): Ghost<Exchange<I2C::Error>>)
        ensures
            final(self).i2c == old(self).i2c,
            final(self).led_counts == old(self).led_counts,
            final(self).log() == old(self).log().push(exchange),
    {
        self.log = Ghost(self.log@.push(exchange));
    }

    /// Takes the bus and makes a driver with no channel read yet. Nothing
    /// is sent.
    pub fn new(i2c: I2C) -> (driver: Self)
        ensures
            driver.i2c == i2c,
            driver.led_counts == LedCounter::unset(),
            driver.log() == Seq::<Exchange<I2C::Error>>::empty(),
    {
        Isl29125 { i2c, led_counts: LedCounter::new(), log: Ghost(Seq::empty()) }
    }

    /// Reads the identity register and holds it against the identity of an
    /// ISL29125, in one transaction.
    pub fn verify_device_id(&mut self) -> (result: Result<u8, Error<I2C::Error>>)
        ensures
            final(self).led_counts == old(self).led_counts,
            one_more(old(self).log(), final(self).log()),
            old(self).i2c.admits(&final(self).i2c, final(self).last_exchange()),
            read_from_sensor(final(self).last_exchange(), seq![RegisterMap::DEVICE_ID], 1),
            result == identity_verdict(register_outcome(final(self).last_exchange().reply)),
            result matches Ok(id) ==> id == DEVICE_ID,
    {
        let id = self.read_register(RegisterMap::DEVICE_ID);
        judge_identity(id)
    }

    /// Selects the sampling mode with one write of the mode's command. The
    /// driver keeps no record of the mode.
    pub fn set_operating_mode(&mut self, mode: OperationModes) -> (result: Result<
        (),
        Error<I2C::Error>,
    >)
        ensures
            final(self).led_counts == old(self).led_counts,
            one_more(old(self).log(), final(self).log()),
            old(self).i2c.admits(&final(self).i2c, final(self).last_exchange()),
            write_to_sensor(final(self).last_exchange(), mode.command()),
            match final(self).last_exchange().reply {
                Ok(_) => result is Ok,
                Err(e) => result == Err::<(), Error<I2C::Error>>(Error::I2C(e)),
            },
    {
        let command: [u8; 2] = [RegisterMap::CONFIGURATION1, mode.bits()];
        assert(command@ =~= mode.command());
        let outcome = self.i2c.write(DEVICE_ADDRESS, &command);
        self.note(Ghost(write_exchange(DEVICE_ADDRESS, command@, outcome)));
        match outcome {
            Ok(_) => Ok(()),
            Err(e) => Err(Error::I2C(e)),
        }
    }

    /// Reads `count` registers in a row, from `start` on, in one
    /// transaction. A window that is empty or reaches past the last
    /// register is refused and nothing is sent.
    pub fn read_registers(&mut self, start: u8, count: u8) -> (result: Result<
        Vec<u8>,
        Error<I2C::Error>,
    >)
        ensures
            final(self).led_counts == old(self).led_counts,
            !window_in_map(start, count) ==> {
                &&& result matches Err(Error::InvalidInputData)
                &&& final(self).i2c == old(self).i2c
                &&& final(self).log() == old(self).log()
            },
            window_in_map(start, count) ==> {
                &&& one_more(old(self).log(), final(self).log())
                &&& old(self).i2c.admits(&final(self).i2c, final(self).last_exchange())
                &&& read_from_sensor(final(self).last_exchange(), seq![start], count as nat)
                &&& match final(self).last_exchange().reply {
                    Ok(bytes) => result matches Ok(values) && values@ == bytes,
                    Err(e) => result == Err::<Vec<u8>, Error<I2C::Error>>(Error::I2C(e)),
                }
            },
    {
        if count == 0 || count > REGISTER_COUNT || start > REGISTER_COUNT - count {
            return Err(Error::InvalidInputData);
        }
        let mut values: Vec<u8> = Vec::new();
        let mut filled: u8 = 0;
        while filled < count
            invariant
                filled <= count,
                values@.len() == filled,
            decreases count - filled,
        {
            values.push(0);
            filled = filled + 1;
        }
        let request: [u8; 1] = [start];
        assert(request@ =~= seq![start]);
        let outcome = self.i2c.write_read(DEVICE_ADDRESS, &request, values.as_mut_slice());
        self.note(Ghost(read_exchange(DEVICE_ADDRESS, request@, count as nat, outcome, values@)));
        match outcome {
            Ok(_) => Ok(values),
            Err(e) => Err(Error::I2C(e)),
        }
    }

    /// Reads the three channel counts in one transaction of six bytes,
    /// from the green low byte on. If the bus fails, the counts held stay
    /// as they were; if it succeeds, all three are replaced.
    pub fn read_led_counters(&mut self) -> (result: Result<(), Error<I2C::Error>>)
        ensures
            one_more(old(self).log(), final(self).log()),
            old(self).i2c.admits(&final(self).i2c, final(self).last_exchange()),
            read_from_sensor(final(self).last_exchange(), seq![RegisterMap::GREEN_DATA_LOW_BYTE], 6),
            match final(self).last_exchange().reply {
                Ok(bytes) => {
                    &&& result is Ok
                    &&& final(self).led_counts == decode_counts(bytes)
                    &&& final(self).led_counts.complete()
                },
                Err(e) => {
                    &&& result == Err::<(), Error<I2C::Error>>(Error::I2C(e))
                    &&& final(self).led_counts == old(self).led_counts
                },
            },
    {
        let mut data: [u8; 6] = [0, 0, 0, 0, 0, 0];
        let request: [u8; 1] = [RegisterMap::GREEN_DATA_LOW_BYTE];
        assert(request@ =~= seq![RegisterMap::GREEN_DATA_LOW_BYTE]);
        let outcome = self.i2c.write_read(DEVICE_ADDRESS, &request, &mut data);
        self.note(Ghost(read_exchange(DEVICE_ADDRESS, request@, 6, outcome, data@)));
        match outcome {
            Ok(_) => {
                self.set_count_values(data);
                Ok(())
            },
            Err(e) => Err(Error::I2C(e)),
        }
    }

    /// Replaces all three counts by those that one six-byte sample holds.
    /// Nothing is sent.
    pub fn set_count_values(&mut self, values: [u8; 6])
        ensures
            final(self).led_counts == decode_counts(values@),
            final(self).led_counts.complete(),
            final(self).i2c == old(self).i2c,
            final(self).log() == old(self).log(),
    {
        self.led_counts = LedCounter::decode(values);
    }

    /// Reads one register in one transaction.
    pub fn read_register(&mut self, register: u8) -> (result: Result<u8, Error<I2C::Error>>)
        ensures
            final(self).led_counts == old(self).led_counts,
            one_more(old(self).log(), final(self).log()),
            old(self).i2c.admits(&final(self).i2c, final(self).last_exchange()),
            read_from_sensor(final(self).last_exchange(), seq![register], 1),
            result == register_outcome(final(self).last_exchange().reply),
    {
        let mut data: [u8; 1] = [0];
        let request: [u8; 1] = [register];
        assert(request@ =~= seq![register]);
        let outcome = self.i2c.write_read(DEVICE_ADDRESS, &request, &mut data);
        self.note(Ghost(read_exchange(DEVICE_ADDRESS, request@, 1, outcome, data@)));
        match outcome {
            Ok(_) => Ok(data[0]),
            Err(e) => Err(Error::I2C(e)),
        }
    }
}

} // verus!
