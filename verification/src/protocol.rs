//! The command channel to the host: commands, their frames, and the dialog
//! that carries them over the serial link.

use crate::memory::word_bytes;
use crate::serial::{Link, ProtocolSerial};
use crate::vmerror::VMError;
use vstd::prelude::*;

verus! {

/// Goes before a payload byte that would else be taken for a mark.
pub const ESCAPE_CHAR: u8 = 0x5c;

/// Ends every frame.
pub const FRAME_END: u8 = 0xff;

/// What the machine sends to ask whether the host is listening.
pub const READY: u8 = 0xaa;

/// What the host sends to say that it is.
pub const READY_ACK: u8 = 0x55;

/// What the machine asks of the host.
pub enum Command {
    /// Asks for the byte at an offset into the remote region.
    ReadMemory(u32),
    /// Stores a byte at an offset into the remote region.
    WriteMemory(u32, u8),
}

/// The bytes as they travel inside a frame: an escape character goes before
/// each byte that is itself an escape character or a frame end.
pub open spec fn escaped(data: Seq<u8>) -> Seq<u8>
    decreases data.len(),
{
    if data.len() == 0 {
        Seq::<u8>::empty()
    } else if data.last() == ESCAPE_CHAR || data.last() == FRAME_END {
        escaped(data.drop_last()).push(ESCAPE_CHAR).push(data.last())
    } else {
        escaped(data.drop_last()).push(data.last())
    }
}

/// The handshake: a ready byte goes out for each byte that comes in, up to
/// and including the first acknowledgment. A link that runs dry first fails.
pub open spec fn ensure_ready_spec(link: Link) -> (Link, Result<(), VMError>)
    decreases link.rx.len(),
{
    if link.rx.len() == 0 {
        (Link { tx: link.tx.push(READY), rx: link.rx }, Err(VMError::NonBlockError))
    } else if link.rx[0] == READY_ACK {
        (Link { tx: link.tx.push(READY), rx: link.rx.drop_first() }, Ok(()))
    } else {
        ensure_ready_spec(Link { tx: link.tx.push(READY), rx: link.rx.drop_first() })
    }
}

/// Reading a frame off the front of `rx`: `data` is what was read so far and
/// `escape` says that the byte before was an escape character. The result is
/// what is left of `rx` and the payload, or a failure where `rx` ends before
/// the frame does.
pub open spec fn receive_spec(rx: Seq<u8>, escape: bool, data: Seq<u8>) -> (
    Seq<u8>,
    Result<Seq<u8>, VMError>,
)
    decreases rx.len(),
{
    if rx.len() == 0 {
        (rx, Err(VMError::NonBlockError))
    } else if !escape && rx[0] == ESCAPE_CHAR {
        receive_spec(rx.drop_first(), true, data)
    } else if !escape && rx[0] == FRAME_END {
        (rx.drop_first(), Ok(data))
    } else {
        receive_spec(rx.drop_first(), false, data.push(rx[0]))
    }
}

/// Whether a result holds the bytes, or the failure, that a model of it names.
pub open spec fn same_bytes(r: Result<Vec<u8>, VMError>, s: Result<Seq<u8>, VMError>) -> bool {
    match r {
        Ok(v) => s == Ok::<Seq<u8>, VMError>(v@),
        Err(e) => s == Err::<Seq<u8>, VMError>(e),
    }
}

impl Command {
    /// The byte that says which command it is.
    pub open spec fn head_spec(self) -> u8 {
        match self {
            Command::ReadMemory(..) => 1,
            Command::WriteMemory(..) => 2,
        }
    }

    /// The payload: the offset, least significant byte first, and for a
    /// write the value after it.
    pub open spec fn data_spec(self) -> Seq<u8> {
        match self {
            Command::ReadMemory(address) => word_bytes(address),
            Command::WriteMemory(address, value) => word_bytes(address).push(value),
        }
    }

    /// The command as it travels: its head, its escaped payload, a frame end.
    pub open spec fn frame(self) -> Seq<u8> {
        seq![self.head_spec()] + escaped(self.data_spec()).push(FRAME_END)
    }

    /// The whole dialog of one command: the handshake, then the frame.
    pub open spec fn send_spec(self, link: Link) -> (Link, Result<(), VMError>) {
        let (ready, r) = ensure_ready_spec(link);
        match r {
            Err(e) => (ready, Err(e)),
            Ok(_) => (Link { tx: ready.tx + self.frame(), rx: ready.rx }, Ok(())),
        }
    }

    /// The byte that says which command it is.
    pub fn head(&self) -> (r: u8)
        ensures
            r == self.head_spec(),
    {
        match self {
            Command::ReadMemory(..) => 1,
            Command::WriteMemory(..) => 2,
        }
    }

    /// The payload of the command.
    pub fn data(&self) -> (r: Vec<u8>)
        ensures
            r@ == self.data_spec(),
    {
        let address: u32 = match self {
            Command::ReadMemory(address) => *address,
            Command::WriteMemory(address, _) => *address,
        };
        let mut data: Vec<u8> = Vec::new();
        data.push((address % 0x100) as u8);
        data.push((address / 0x100 % 0x100) as u8);
        data.push((address / 0x1_0000 % 0x100) as u8);
        data.push((address / 0x100_0000) as u8);
        match self {
            Command::ReadMemory(_) => {},
            Command::WriteMemory(_, value) => {
                data.push(*value);
            },
        }
        proof {
            assert(data@ =~= self.data_spec());
        }
        data
    }

    /// Sends the command: the handshake, then the frame.
    pub fn send(&self, serial: &mut ProtocolSerial) -> (r: Result<(), VMError>)
        ensures
            (final(serial)@, r) == self.send_spec(old(serial)@),
    {
        ensure_ready(serial)?;
        let ghost ready = serial@;
        serial.write(self.head())?;
        let data = self.data();
        let mut i: usize = 0;
        while i < data.len()
            invariant
                i <= data.len(),
                data@ == self.data_spec(),
                serial@.rx == ready.rx,
                serial@.tx == ready.tx + seq![self.head_spec()] + escaped(data@.take(i as int)),
            decreases data.len() - i,
        {
            let byte = data[i];
            if byte == ESCAPE_CHAR || byte == FRAME_END {
                serial.write(ESCAPE_CHAR)?;
            }
            serial.write(byte)?;
            proof {
                assert(data@.take(i + 1).drop_last() =~= data@.take(i as int));
                assert(serial@.tx =~= ready.tx + seq![self.head_spec()] + escaped(
                    data@.take(i + 1),
                ));
            }
            i += 1;
        }
        serial.write(FRAME_END)?;
        serial.flush()?;
        proof {
            assert(data@.take(i as int) =~= data@);
            assert(serial@.tx =~= ready.tx + self.frame());
        }
        Ok(())
    }
}

/// Asks the host whether it listens until it says so.
pub fn ensure_ready(serial: &mut ProtocolSerial) -> (r: Result<(), VMError>)
    ensures
        (final(serial)@, r) == ensure_ready_spec(old(serial)@),
{
    loop
        invariant
            ensure_ready_spec(serial@) == ensure_ready_spec(old(serial)@),
        decreases serial@.rx.len(),
    {
        serial.write(READY)?;
        serial.flush()?;
        match serial.read() {
            Err(e) => {
                return Err(e);
            },
            Ok(byte) => {
                if byte == READY_ACK {
                    return Ok(());
                }
            },
        }
    }
}

/// Receives one frame and gives its payload.
pub fn receive_data(serial: &mut ProtocolSerial) -> (r: Result<Vec<u8>, VMError>)
    ensures
        final(serial)@.tx == old(serial)@.tx,
        final(serial)@.rx == receive_spec(old(serial)@.rx, false, Seq::<u8>::empty()).0,
        same_bytes(r, receive_spec(old(serial)@.rx, false, Seq::<u8>::empty()).1),
{
    let mut data: Vec<u8> = Vec::new();
    let mut escape = false;
    loop
        invariant
            serial@.tx == old(serial)@.tx,
            receive_spec(serial@.rx, escape, data@) == receive_spec(
                old(serial)@.rx,
                false,
                Seq::<u8>::empty(),
            ),
        decreases serial@.rx.len(),
    {
        let byte = match serial.read() {
            Err(e) => {
                return Err(e);
            },
            Ok(byte) => byte,
        };
        if !escape && byte == ESCAPE_CHAR {
            escape = true;
        } else if !escape && byte == FRAME_END {
            return Ok(data);
        } else {
            escape = false;
            data.push(byte);
        }
    }
}

/// One byte as it travels inside a frame.
pub open spec fn escaped_byte(byte: u8) -> Seq<u8> {
    if byte == ESCAPE_CHAR || byte == FRAME_END {
        seq![ESCAPE_CHAR, byte]
    } else {
        seq![byte]
    }
}

proof fn lemma_escaped_front(byte: u8, data: Seq<u8>)
    ensures
        escaped(seq![byte] + data) == escaped_byte(byte) + escaped(data),
    decreases data.len(),
{
    let whole = seq![byte] + data;
    if data.len() == 0 {
        assert(whole.drop_last() =~= Seq::<u8>::empty());
        assert(escaped(whole.drop_last()) =~= Seq::<u8>::empty());
        assert(escaped(whole) =~= escaped_byte(byte) + escaped(data));
    } else {
        assert(whole.drop_last() =~= seq![byte] + data.drop_last());
        assert(whole.last() == data.last());
        lemma_escaped_front(byte, data.drop_last());
        assert(escaped(whole) =~= escaped_byte(byte) + escaped(data));
    }
}

proof fn lemma_receive_escaped(data: Seq<u8>, tail: Seq<u8>, read: Seq<u8>)
    ensures
        receive_spec(escaped(data) + tail, false, read) == receive_spec(tail, false, read + data),
    decreases data.len(),
{
    if data.len() == 0 {
        assert(escaped(data) + tail =~= tail);
        assert(read + data =~= read);
    } else {
        let byte = data[0];
        let rest = data.drop_first();
        assert(data =~= seq![byte] + rest);
        lemma_escaped_front(byte, rest);
        lemma_receive_escaped(rest, tail, read.push(byte));
        assert(read.push(byte) + rest =~= read + data);
        let wire = escaped(data) + tail;
        if byte == ESCAPE_CHAR || byte == FRAME_END {
            assert(wire =~= seq![ESCAPE_CHAR, byte] + (escaped(rest) + tail));
            assert(wire.drop_first() =~= seq![byte] + (escaped(rest) + tail));
            assert(wire.drop_first().drop_first() =~= escaped(rest) + tail);
            assert(wire[0] == ESCAPE_CHAR);
            assert(wire.drop_first()[0] == byte);
            assert(receive_spec(wire, false, read) == receive_spec(wire.drop_first(), true, read));
            assert(receive_spec(wire.drop_first(), true, read) == receive_spec(
                wire.drop_first().drop_first(),
                false,
                read.push(byte),
            ));
        } else {
            assert(wire =~= seq![byte] + (escaped(rest) + tail));
            assert(wire.drop_first() =~= escaped(rest) + tail);
            assert(wire[0] == byte);
            assert(receive_spec(wire, false, read) == receive_spec(
                wire.drop_first(),
                false,
                read.push(byte),
            ));
        }
    }
}

/// What is framed is what is received: a payload that is escaped and closed
/// by a frame end is read back as it was, and what follows the frame is
/// left on the link.
pub proof fn law_frame_round_trip(data: Seq<u8>, rest: Seq<u8>)
    ensures
        receive_spec(escaped(data).push(FRAME_END) + rest, false, Seq::<u8>::empty()) == (
            rest,
            Ok::<Seq<u8>, VMError>(data),
        ),
{
    let tail = seq![FRAME_END] + rest;
    lemma_receive_escaped(data, tail, Seq::<u8>::empty());
    assert(escaped(data).push(FRAME_END) + rest =~= escaped(data) + tail);
    assert(Seq::<u8>::empty() + data =~= data);
    assert(tail.drop_first() =~= rest);
}

} // verus!
