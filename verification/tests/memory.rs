use arm_vm::machine::Machine;
use arm_vm::memory::{Memory, EXTERNAL_SIZE, INTERNAL_SIZE};
use arm_vm::vmerror::VMError;

fn feed(m: &mut Machine, bytes: &[u8]) {
    for b in bytes {
        m.serial.receive(*b);
    }
}

#[test]
fn memory_size_is_local_plus_remote() {
    let memory = Memory::default();
    assert_eq!(memory.size(), 1024 * 100 + 1024 * 1024);
    assert_eq!(INTERNAL_SIZE, 102400);
    assert_eq!(EXTERNAL_SIZE, 1048576);
    assert!(memory.data.iter().all(|b| *b == 0));
}

#[test]
fn local_byte_round_trip() {
    let mut m = Machine::default();
    for (address, value) in [(0u32, 0x12u8), (1, 0xff), (0x100, 0x5c), (102399, 0xab)] {
        assert_eq!(m.write_memory(address, value), Ok(()));
        assert_eq!(m.read_memory(address), Ok(value));
    }
    assert_eq!(m.read_memory(2), Ok(0));
    assert!(m.serial.outgoing.is_empty());
}

#[test]
fn addresses_beyond_memory_are_bus_errors() {
    let mut m = Machine::default();
    let end = (INTERNAL_SIZE + EXTERNAL_SIZE) as u32;
    assert_eq!(m.read_memory(end), Err(VMError::BusError));
    assert_eq!(m.write_memory(end, 1), Err(VMError::BusError));
    assert_eq!(m.read_memory(0xffff_ffff), Err(VMError::BusError));
    assert_eq!(m.write_memory(0xffff_ffff, 1), Err(VMError::BusError));
    assert_eq!(m.read_memory_word(0xffff_fffe), Err(VMError::BusError));
    assert_eq!(m.write_memory_word(end, 1), Err(VMError::BusError));
    assert!(m.serial.outgoing.is_empty());
}

#[test]
fn words_and_halfwords_are_little_endian() {
    let mut m = Machine::default();
    assert_eq!(m.write_memory_word(0x100, 0xdead_beef), Ok(()));
    assert_eq!(m.read_memory(0x100), Ok(0xef));
    assert_eq!(m.read_memory(0x101), Ok(0xbe));
    assert_eq!(m.read_memory(0x102), Ok(0xad));
    assert_eq!(m.read_memory(0x103), Ok(0xde));
    assert_eq!(m.read_memory_word(0x100), Ok(0xdead_beef));
    assert_eq!(m.read_memory_halfword(0x100), Ok(0xbeef));
    assert_eq!(m.read_memory_halfword(0x102), Ok(0xdead));
    assert_eq!(m.write_memory_halfword(0x200, 0x1234), Ok(()));
    assert_eq!(m.read_memory(0x200), Ok(0x34));
    assert_eq!(m.read_memory(0x201), Ok(0x12));
}

#[test]
fn unaligned_accesses_are_defined() {
    let mut m = Machine::default();
    assert_eq!(m.write_memory_word(0x101, 0x0403_0201), Ok(()));
    assert_eq!(m.read_memory_word(0x101), Ok(0x0403_0201));
    assert_eq!(m.read_memory_word(0x100), Ok(0x0302_0100));
    assert_eq!(m.read_memory_halfword(0x103), Ok(0x0403));
}

#[test]
fn byte_runs_read_and_write() {
    let mut m = Machine::default();
    assert_eq!(m.write_memory_n(0x10, &[1, 2, 3, 4, 5]), Ok(()));
    let mut buf = [0u8; 5];
    assert_eq!(m.read_memory_n(0x10, &mut buf), Ok(()));
    assert_eq!(buf, [1, 2, 3, 4, 5]);
    let mut none = [0u8; 0];
    assert_eq!(m.read_memory_n(0xffff_ffff, &mut none), Ok(()));
    assert_eq!(m.write_memory_n(0xffff_ffff, &[]), Ok(()));
}

#[test]
fn byte_run_stops_at_the_first_failure() {
    let mut m = Machine::default();
    let end = (INTERNAL_SIZE + EXTERNAL_SIZE) as u32;
    feed(&mut m, &[0x55, 0x11, 0xff]);
    let mut buf = [9u8; 3];
    assert_eq!(m.read_memory_n(end - 1, &mut buf), Err(VMError::BusError));
    assert_eq!(buf, [0x11, 9, 9]);
}

#[test]
fn remote_read_is_a_framed_dialog() {
    let mut m = Machine::default();
    feed(&mut m, &[0x55, 0x42, 0xff]);
    assert_eq!(m.read_memory(INTERNAL_SIZE as u32 + 5), Ok(0x42));
    assert_eq!(m.serial.outgoing, vec![0xaa, 1, 5, 0, 0, 0, 0xff]);
    assert!(m.serial.incoming.is_empty());
}

#[test]
fn remote_read_escapes_offset_and_unescapes_answer() {
    let mut m = Machine::default();
    feed(&mut m, &[0x00, 0x55, 0x5c, 0xff, 0xff]);
    assert_eq!(m.read_memory(INTERNAL_SIZE as u32 + 0x00ff_5c), Ok(0xff));
    assert_eq!(
        m.serial.outgoing,
        vec![0xaa, 0xaa, 1, 0x5c, 0x5c, 0x5c, 0xff, 0, 0, 0xff]
    );
    assert!(m.serial.incoming.is_empty());
}

#[test]
fn remote_read_takes_the_first_byte_of_the_answer() {
    let mut m = Machine::default();
    feed(&mut m, &[0x55, 0x07, 0x08, 0xff, 0x99]);
    assert_eq!(m.read_memory(INTERNAL_SIZE as u32), Ok(0x07));
    assert_eq!(m.serial.incoming, [0x99]);
}

#[test]
fn remote_read_without_host_does_not_block() {
    let mut m = Machine::default();
    assert_eq!(m.read_memory(INTERNAL_SIZE as u32), Err(VMError::NonBlockError));
    assert_eq!(m.serial.outgoing, vec![0xaa]);
    let mut m = Machine::default();
    feed(&mut m, &[0x55, 0x01]);
    assert_eq!(m.read_memory(INTERNAL_SIZE as u32), Err(VMError::NonBlockError));
    assert_eq!(m.serial.outgoing, vec![0xaa, 1, 0, 0, 0, 0, 0xff]);
}

#[test]
fn empty_answer_is_a_bus_error() {
    let mut m = Machine::default();
    feed(&mut m, &[0x55, 0xff]);
    assert_eq!(m.read_memory(INTERNAL_SIZE as u32), Err(VMError::BusError));
}

#[test]
fn remote_write_is_a_framed_command() {
    let mut m = Machine::default();
    feed(&mut m, &[0x55]);
    assert_eq!(m.write_memory(INTERNAL_SIZE as u32 + 0x0102_03, 0x7f), Ok(()));
    assert_eq!(m.serial.outgoing, vec![0xaa, 2, 0x03, 0x02, 0x01, 0, 0x7f, 0xff]);
    let mut m = Machine::default();
    feed(&mut m, &[0x55]);
    assert_eq!(m.write_memory(INTERNAL_SIZE as u32, 0xff), Ok(()));
    assert_eq!(m.serial.outgoing, vec![0xaa, 2, 0, 0, 0, 0, 0x5c, 0xff, 0xff]);
    let mut m = Machine::default();
    assert_eq!(m.write_memory(INTERNAL_SIZE as u32, 1), Err(VMError::NonBlockError));
}

#[test]
fn last_remote_address_is_served() {
    let mut m = Machine::default();
    feed(&mut m, &[0x55, 0x33, 0xff]);
    assert_eq!(m.read_memory((INTERNAL_SIZE + EXTERNAL_SIZE) as u32 - 1), Ok(0x33));
    assert_eq!(
        m.serial.outgoing,
        vec![0xaa, 1, 0x5c, 0xff, 0x5c, 0xff, 0x0f, 0, 0xff]
    );
}

#[test]
fn word_across_the_boundary_routes_each_byte() {
    let mut m = Machine::default();
    let base = INTERNAL_SIZE as u32 - 2;
    assert_eq!(m.write_memory(base, 0x11), Ok(()));
    assert_eq!(m.write_memory(base + 1, 0x22), Ok(()));
    feed(&mut m, &[0x55, 0x33, 0xff, 0x55, 0x44, 0xff]);
    assert_eq!(m.read_memory_word(base), Ok(0x4433_2211));
    assert_eq!(
        m.serial.outgoing,
        vec![0xaa, 1, 0, 0, 0, 0, 0xff, 0xaa, 1, 1, 0, 0, 0, 0xff]
    );
}
