//! The serial link to the host, as the machine sees it: a duplex stream of
//! bytes. What the machine writes queues up in `outgoing`; what the host has
//! sent waits in `incoming`.

use crate::vmerror::VMError;
use std::collections::VecDeque;
use vstd::prelude::*;

verus! {

/// What has gone out over a link and what waits to come in.
pub struct Link {
    pub tx: Seq<u8>,
    pub rx: Seq<u8>,
}

/// The machine's end of the serial link.
pub struct ProtocolSerial {
    pub outgoing: Vec<u8>,
    pub incoming: VecDeque<u8>,
}

impl View for ProtocolSerial {
    type V = Link;

    open spec fn view(&self) -> Link {
        Link { tx: self.outgoing@, rx: self.incoming@ }
    }
}

impl ProtocolSerial {
    /// A link over which nothing has passed yet.
    pub fn new() -> (r: ProtocolSerial)
        ensures
            r@.tx == Seq::<u8>::empty(),
            r@.rx == Seq::<u8>::empty(),
    {
        ProtocolSerial { outgoing: Vec::new(), incoming: VecDeque::new() }
    }

    /// Queues one byte for the host.
    pub fn write(&mut self, data: u8) -> (r: Result<(), VMError>)
        ensures
            r == Ok::<(), VMError>(()),
            final(self)@ == (Link { tx: old(self)@.tx.push(data), rx: old(self)@.rx }),
    {
        self.outgoing.push(data);
        Ok(())
    }

    /// Waits until everything written has left, which in a queue it has.
    pub fn flush(&mut self) -> (r: Result<(), VMError>)
        ensures
            r == Ok::<(), VMError>(()),
            final(self)@ == old(self)@,
    {
        Ok(())
    }

    /// Takes the next byte that the host has sent, if there is one.
    pub fn read(&mut self) -> (r: Result<u8, VMError>)
        ensures
            old(self)@.rx.len() == 0 ==> r == Err::<u8, VMError>(VMError::NonBlockError)
                && final(self)@ == old(self)@,
            old(self)@.rx.len() > 0 ==> r == Ok::<u8, VMError>(old(self)@.rx[0]) && final(self)@
                == (Link { tx: old(self)@.tx, rx: old(self)@.rx.drop_first() }),
    {
        match self.incoming.pop_front() {
            Some(byte) => {
                proof {
                    assert(self.incoming@ =~= old(self).incoming@.drop_first());
                }
                Ok(byte)
            },
            None => Err(VMError::NonBlockError),
        }
    }

    /// Hands over a byte that has arrived from the host.
    pub fn receive(&mut self, byte: u8)
        ensures
            final(self)@ == (Link { tx: old(self)@.tx, rx: old(self)@.rx.push(byte) }),
    {
        self.incoming.push_back(byte);
    }
}

} // verus!
