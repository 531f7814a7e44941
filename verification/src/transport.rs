//! The bus capability the driver is written against.

use vstd::prelude::*;

verus! {

/// One transaction on the bus, as the contracts speak of it.
pub ghost struct Exchange<E> {
    /// The 7-bit address of the chip spoken to.
    pub address: u8,
    /// The bytes sent.
    pub written: Seq<u8>,
    /// `None` for a plain write; for a write followed by a read, how many
    /// bytes were asked back.
    pub requested: Option<nat>,
    /// The bytes that came back, or the error the bus gave.
    pub reply: Result<Seq<u8>, E>,
}

/// `after` is `before` and one transaction more.
pub open spec fn one_more<E>(before: Seq<Exchange<E>>, after: Seq<Exchange<E>>) -> bool {
    after.len() == before.len() + 1 && after.drop_last() =~= before
}

/// The record of a plain write.
pub open spec fn write_exchange<E>(address: u8, written: Seq<u8>, outcome: Result<(), E>) -> Exchange<
    E,
> {
    Exchange {
        address,
        written,
        requested: None,
        reply: match outcome {
            Ok(_) => Ok(Seq::empty()),
            Err(e) => Err(e),
        },
    }
}

/// The record of a write followed by a read of `requested` bytes, where
/// `read` is what the buffer held afterwards.
pub open spec fn read_exchange<E>(
    address: u8,
    written: Seq<u8>,
    requested: nat,
    outcome: Result<(), E>,
    read: Seq<u8>,
) -> Exchange<E> {
    Exchange {
        address,
        written,
        requested: Some(requested),
        reply: match outcome {
            Ok(_) => Ok(read),
            Err(e) => Err(e),
        },
    }
}

/// An addressed two-wire bus: a plain write, and a write followed by a read
/// in one transaction.
///
/// A bus may say what its transactions can be, by `admits`. One that says
/// nothing keeps the default, which admits every transaction: then the
/// contracts below ask nothing of it but what every slice does.
pub trait Transport: Sized {
    /// What the bus reports when a transaction fails.
    type Error;

    /// Whether one transaction can take the bus from `self` to `after` and
    /// go as `exchange` records.
    open spec fn admits(&self, after: &Self, exchange: Exchange<Self::Error>) -> bool {
        true
    }

    /// Sends `bytes` to the chip at `address`.
    fn write(&mut self, address: u8, bytes: &[u8]) -> (outcome: Result<(), Self::Error>)
        ensures
            old(self).admits(final(self), write_exchange(address, bytes@, outcome)),
    ;

    /// Sends `bytes` to the chip at `address`, then fills `buffer` with what
    /// the chip answers, all in one transaction. `buffer`, a slice, is as
    /// long afterwards as before.
    fn write_read(&mut self, address: u8, bytes: &[u8], buffer: &mut [u8]) -> (outcome: Result<
        (),
        Self::Error,
    >)
        ensures
            final(buffer)@.len() == old(buffer)@.len(),
            old(self).admits(
                final(self),
                read_exchange(address, bytes@, old(buffer)@.len(), outcome, final(buffer)@),
            ),
    ;
}

} // verus!
