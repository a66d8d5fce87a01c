//! The machine's memory: a local array for the low addresses and, above it, a
//! region that the host holds and serves over the serial link.

use crate::machine::{Machine, State};
use crate::protocol::{receive_data, receive_spec, Command};
use crate::serial::Link;
use crate::vmerror::VMError;
use vstd::prelude::*;

verus! {

/// How many bytes the machine holds itself.
pub const INTERNAL_SIZE: usize = 1024 * 100;

/// How many bytes the host holds for it.
pub const EXTERNAL_SIZE: usize = 1024 * 1024;

/// The local memory.
pub struct Memory {
    pub data: [u8; INTERNAL_SIZE],
}

impl Default for Memory {
    fn default() -> (r: Memory)
        ensures
            r.data@ == Seq::new(INTERNAL_SIZE as nat, |i: int| 0u8),
    {
        let memory = Memory { data: [0u8; INTERNAL_SIZE] };
        proof {
            assert(memory.data@ =~= Seq::new(INTERNAL_SIZE as nat, |i: int| 0u8));
        }
        memory
    }
}

impl Memory {
    /// The number of addresses that memory answers to.
    pub fn size(&self) -> (r: usize)
        ensures
            r == INTERNAL_SIZE + EXTERNAL_SIZE,
    {
        INTERNAL_SIZE + EXTERNAL_SIZE
    }
}

/// Reading the byte at an address. A local address gives the byte held
/// there. A remote one takes a read command to the host and the first byte of
/// the frame that answers it. An address beyond both fails.
pub open spec fn read_byte_spec(s: State, address: u32) -> (State, Result<u8, VMError>) {
    if address >= INTERNAL_SIZE + EXTERNAL_SIZE {
        (s, Err(VMError::BusError))
    } else if address < INTERNAL_SIZE {
        (s, Ok(s.mem[address as int]))
    } else {
        let (sent, r) = Command::ReadMemory((address - INTERNAL_SIZE) as u32).send_spec(s.link);
        match r {
            Err(e) => (State { link: sent, ..s }, Err(e)),
            Ok(_) => {
                let (rest, answer) = receive_spec(sent.rx, false, Seq::<u8>::empty());
                (
                    State { link: Link { tx: sent.tx, rx: rest }, ..s },
                    match answer {
                        Err(e) => Err(e),
                        Ok(data) => if data.len() == 0 {
                            Err(VMError::BusError)
                        } else {
                            Ok(data[0])
                        },
                    },
                )
            },
        }
    }
}

/// Writing a byte at an address. A local address takes the byte. A remote
/// one takes a write command to the host. An address beyond both fails.
pub open spec fn write_byte_spec(s: State, address: u32, value: u8) -> (
    State,
    Result<(), VMError>,
) {
    if address >= INTERNAL_SIZE + EXTERNAL_SIZE {
        (s, Err(VMError::BusError))
    } else if address < INTERNAL_SIZE {
        (State { mem: s.mem.update(address as int, value), ..s }, Ok(()))
    } else {
        let (sent, r) = Command::WriteMemory((address - INTERNAL_SIZE) as u32, value).send_spec(
            s.link,
        );
        (State { link: sent, ..s }, r)
    }
}

/// Reading `count` bytes from `address` upwards, one after the other, each
/// address taken modulo 2^32. The first failure ends it; the bytes read up
/// to there are in the result.
pub open spec fn read_bytes_spec(s: State, address: u32, count: nat) -> (
    State,
    Seq<u8>,
    Result<(), VMError>,
)
    decreases count,
{
    if count == 0 {
        (s, Seq::<u8>::empty(), Ok(()))
    } else {
        let (s1, bytes, r1) = read_bytes_spec(s, address, (count - 1) as nat);
        match r1 {
            Err(e) => (s1, bytes, Err(e)),
            Ok(_) => {
                let (s2, r2) = read_byte_spec(s1, address.wrapping_add((count - 1) as u32));
                match r2 {
                    Err(e) => (s2, bytes, Err(e)),
                    Ok(byte) => (s2, bytes.push(byte), Ok(())),
                }
            },
        }
    }
}

/// Writing the bytes from `address` upwards, one after the other, each
/// address taken modulo 2^32. The first failure ends it.
pub open spec fn write_bytes_spec(s: State, address: u32, bytes: Seq<u8>) -> (
    State,
    Result<(), VMError>,
)
    decreases bytes.len(),
{
    if bytes.len() == 0 {
        (s, Ok(()))
    } else {
        let (s1, r1) = write_bytes_spec(s, address, bytes.drop_last());
        match r1 {
            Err(e) => (s1, Err(e)),
            Ok(_) => write_byte_spec(
                s1,
                address.wrapping_add((bytes.len() - 1) as u32),
                bytes.last(),
            ),
        }
    }
}

/// The halfword made of two bytes, least significant first.
pub open spec fn halfword_of(bytes: Seq<u8>) -> u16 {
    (bytes[0] + bytes[1] * 0x100) as u16
}

/// The word made of four bytes, least significant first.
pub open spec fn word_of(bytes: Seq<u8>) -> u32 {
    (bytes[0] + bytes[1] * 0x100 + bytes[2] * 0x1_0000 + bytes[3] * 0x100_0000) as u32
}

/// The two bytes of a halfword, least significant first.
pub open spec fn halfword_bytes(halfword: u16) -> Seq<u8> {
    seq![(halfword % 0x100) as u8, (halfword / 0x100) as u8]
}

/// The four bytes of a word, least significant first.
pub open spec fn word_bytes(word: u32) -> Seq<u8> {
    seq![
        (word % 0x100) as u8,
        (word / 0x100 % 0x100) as u8,
        (word / 0x1_0000 % 0x100) as u8,
        (word / 0x100_0000) as u8,
    ]
}

/// Reading a halfword: two bytes, the lower address first.
pub open spec fn read_halfword_spec(s: State, address: u32) -> (State, Result<u16, VMError>) {
    let (s1, bytes, r) = read_bytes_spec(s, address, 2);
    match r {
        Err(e) => (s1, Err(e)),
        Ok(_) => (s1, Ok(halfword_of(bytes))),
    }
}

/// Reading a word: four bytes, the lowest address first.
pub open spec fn read_word_spec(s: State, address: u32) -> (State, Result<u32, VMError>) {
    let (s1, bytes, r) = read_bytes_spec(s, address, 4);
    match r {
        Err(e) => (s1, Err(e)),
        Ok(_) => (s1, Ok(word_of(bytes))),
    }
}

/// Writing a halfword: two bytes, the lower address first.
pub open spec fn write_halfword_spec(s: State, address: u32, halfword: u16) -> (
    State,
    Result<(), VMError>,
) {
    write_bytes_spec(s, address, halfword_bytes(halfword))
}

/// Writing a word: four bytes, the lowest address first.
pub open spec fn write_word_spec(s: State, address: u32, word: u32) -> (
    State,
    Result<(), VMError>,
) {
    write_bytes_spec(s, address, word_bytes(word))
}

impl Machine {
    /// Reads the byte at an address.
    pub fn read_memory(&mut self, address: u32) -> (r: Result<u8, VMError>)
        ensures
            (final(self)@, r) == read_byte_spec(old(self)@, address),
    {
        let place = address as usize;
        if place >= self.memory.size() {
            Err(VMError::BusError)
        } else if place < INTERNAL_SIZE {
            Ok(self.memory.data[place])
        } else {
            Command::ReadMemory((place - INTERNAL_SIZE) as u32).send(&mut self.serial)?;
            let data = receive_data(&mut self.serial)?;
            if data.len() == 0 {
                Err(VMError::BusError)
            } else {
                Ok(data[0])
            }
        }
    }

    /// Reads bytes from `address` upwards into `buf`, as many as it holds.
    pub fn read_memory_n(&mut self, address: u32, buf: &mut [u8]) -> (r: Result<(), VMError>)
        requires
            old(buf)@.len() <= u32::MAX,
        ensures
            final(buf)@.len() == old(buf)@.len(),
            (final(self)@, r) == (
                read_bytes_spec(old(self)@, address, old(buf)@.len()).0,
                read_bytes_spec(old(self)@, address, old(buf)@.len()).2,
            ),
            final(buf)@.take(read_bytes_spec(old(self)@, address, old(buf)@.len()).1.len() as int)
                == read_bytes_spec(old(self)@, address, old(buf)@.len()).1,
    {
        let mut i: usize = 0;
        while i < buf.len()
            invariant
                i <= buf@.len() == old(buf)@.len() <= u32::MAX,
                read_bytes_spec(old(self)@, address, i as nat) == (
                    self@,
                    buf@.take(i as int),
                    Ok::<(), VMError>(()),
                ),
            decreases buf@.len() - i,
        {
            let ghost before = buf@;
            match self.read_memory(address.wrapping_add(i as u32)) {
                Err(e) => {
                    proof {
                        lemma_read_bytes_fails(old(self)@, address, i as nat + 1, old(buf)@.len());
                    }
                    return Err(e);
                },
                Ok(byte) => {
                    buf[i] = byte;
                    proof {
                        assert(buf@.take(i + 1) =~= before.take(i as int).push(byte));
                    }
                },
            }
            i += 1;
        }
        proof {
            assert(buf@.take(i as int) =~= buf@);
        }
        Ok(())
    }

    /// Reads a halfword, little endian.
    pub fn read_memory_halfword(&mut self, address: u32) -> (r: Result<u16, VMError>)
        ensures
            (final(self)@, r) == read_halfword_spec(old(self)@, address),
    {
        let mut bytes: [u8; 2] = [0u8; 2];
        self.read_memory_n(address, &mut bytes)?;
        proof {
            lemma_read_bytes_len(old(self)@, address, 2);
            assert(bytes@.take(2) =~= bytes@);
        }
        Ok(bytes[0] as u16 + bytes[1] as u16 * 0x100)
    }

    /// Reads a word, little endian.
    pub fn read_memory_word(&mut self, address: u32) -> (r: Result<u32, VMError>)
        ensures
            (final(self)@, r) == read_word_spec(old(self)@, address),
    {
        let mut bytes: [u8; 4] = [0u8; 4];
        self.read_memory_n(address, &mut bytes)?;
        proof {
            lemma_read_bytes_len(old(self)@, address, 4);
            assert(bytes@.take(4) =~= bytes@);
        }
        Ok(
            bytes[0] as u32 + bytes[1] as u32 * 0x100 + bytes[2] as u32 * 0x1_0000 + bytes[3] as u32
                * 0x100_0000,
        )
    }

    /// Writes a byte at an address.
    pub fn write_memory(&mut self, address: u32, bit: u8) -> (r: Result<(), VMError>)
        ensures
            (final(self)@, r) == write_byte_spec(old(self)@, address, bit),
    {
        let place = address as usize;
        if place >= self.memory.size() {
            return Err(VMError::BusError);
        }
        if place < INTERNAL_SIZE {
            self.memory.data[place] = bit;
            Ok(())
        } else {
            Command::WriteMemory((place - INTERNAL_SIZE) as u32, bit).send(&mut self.serial)
        }
    }

    /// Writes the bytes of `buf` from `address` upwards.
    pub fn write_memory_n(&mut self, address: u32, buf: &[u8]) -> (r: Result<(), VMError>)
        requires
            buf@.len() <= u32::MAX,
        ensures
            (final(self)@, r) == write_bytes_spec(old(self)@, address, buf@),
    {
        let mut i: usize = 0;
        while i < buf.len()
            invariant
                i <= buf@.len() <= u32::MAX,
                write_bytes_spec(old(self)@, address, buf@.take(i as int)) == (
                    self@,
                    Ok::<(), VMError>(()),
                ),
            decreases buf@.len() - i,
        {
            proof {
                assert(buf@.take(i + 1).drop_last() =~= buf@.take(i as int));
            }
            match self.write_memory(address.wrapping_add(i as u32), buf[i]) {
                Err(e) => {
                    proof {
                        lemma_write_bytes_fails(old(self)@, address, buf@, i as int + 1);
                    }
                    return Err(e);
                },
                Ok(_) => {},
            }
            i += 1;
        }
        proof {
            assert(buf@.take(i as int) =~= buf@);
        }
        Ok(())
    }

    /// Writes a halfword, little endian.
    pub fn write_memory_halfword(&mut self, address: u32, halfword: u16) -> (r: Result<
        (),
        VMError,
    >)
        ensures
            (final(self)@, r) == write_halfword_spec(old(self)@, address, halfword),
    {
        let bytes: [u8; 2] = [(halfword % 0x100) as u8, (halfword / 0x100) as u8];
        proof {
            assert(bytes@ =~= halfword_bytes(halfword));
        }
        self.write_memory_n(address, bytes.as_slice())
    }

    /// Writes a word, little endian.
    pub fn write_memory_word(&mut self, address: u32, word: u32) -> (r: Result<(), VMError>)
        ensures
            (final(self)@, r) == write_word_spec(old(self)@, address, word),
    {
        let bytes: [u8; 4] = [
            (word % 0x100) as u8,
            (word / 0x100 % 0x100) as u8,
            (word / 0x1_0000 % 0x100) as u8,
            (word / 0x100_0000) as u8,
        ];
        proof {
            assert(bytes@ =~= word_bytes(word));
        }
        self.write_memory_n(address, bytes.as_slice())
    }
}

/// Reading that succeeds gives as many bytes as were asked for.
proof fn lemma_read_bytes_len(s: State, address: u32, count: nat)
    ensures
        read_bytes_spec(s, address, count).1.len() <= count,
        read_bytes_spec(s, address, count).2 is Ok ==> read_bytes_spec(s, address, count).1.len()
            == count,
    decreases count,
{
    if count > 0 {
        lemma_read_bytes_len(s, address, (count - 1) as nat);
    }
}

/// Once reading has failed after `n` bytes, asking for more changes nothing.
proof fn lemma_read_bytes_fails(s: State, address: u32, n: nat, count: nat)
    requires
        n <= count,
        read_bytes_spec(s, address, n).2 is Err,
    ensures
        read_bytes_spec(s, address, count) == read_bytes_spec(s, address, n),
    decreases count,
{
    if n < count {
        lemma_read_bytes_fails(s, address, n, (count - 1) as nat);
    }
}

/// Once writing has failed within the first `n` bytes, the rest changes nothing.
proof fn lemma_write_bytes_fails(s: State, address: u32, bytes: Seq<u8>, n: int)
    requires
        0 <= n <= bytes.len(),
        write_bytes_spec(s, address, bytes.take(n)).1 is Err,
    ensures
        write_bytes_spec(s, address, bytes) == write_bytes_spec(s, address, bytes.take(n)),
    decreases bytes.len(),
{
    if n < bytes.len() {
        assert(bytes.drop_last().take(n) =~= bytes.take(n));
        lemma_write_bytes_fails(s, address, bytes.drop_last(), n);
    } else {
        assert(bytes.take(n) =~= bytes);
    }
}

} // verus!
