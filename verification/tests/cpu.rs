use arm_vm::cpu::{CPSRegister, InstrSet, APSR_MASK, CPU, RESET_CPSR};
use arm_vm::machine::Machine;

#[test]
fn reset_status_is_supervisor_arm_little_endian() {
    let cpsr = CPSRegister::default();
    assert_eq!(cpsr.0, 0x1d3);
    assert_eq!(cpsr.0, RESET_CPSR);
    assert_eq!(cpsr.m(), 0b10011);
    assert!(cpsr.a());
    assert!(cpsr.i());
    assert!(cpsr.f());
    assert!(!cpsr.t());
    assert!(!cpsr.j());
    assert!(!cpsr.e());
    let cpu = CPU::default();
    assert_eq!(cpu.regs, [0u32; 16]);
    assert_eq!(cpu.cpsr.0, 0x1d3);
    assert_eq!(cpu.spsr.0, 0);
}

#[test]
fn status_bits_sit_where_the_layout_says() {
    let mut cpsr = CPSRegister(0);
    cpsr.set_n(true);
    assert_eq!(cpsr.0, 1 << 31);
    cpsr.set_z(true);
    assert_eq!(cpsr.0, 0b11 << 30);
    cpsr.set_c(true);
    cpsr.set_v(true);
    cpsr.set_q(true);
    assert_eq!(cpsr.0, 0b11111 << 27);
    cpsr.set_n(false);
    assert_eq!(cpsr.0, 0b01111 << 27);
    assert!(!cpsr.n());
    assert!(cpsr.z() && cpsr.c() && cpsr.v() && cpsr.q());
    let mut cpsr = CPSRegister(0);
    cpsr.set_j(true);
    assert_eq!(cpsr.0, 1 << 24);
    cpsr.set_ge(0b1010);
    assert_eq!(cpsr.0, (1 << 24) | (0b1010 << 16));
    assert_eq!(cpsr.ge(), 0b1010);
    cpsr.set_ge(0xffff_fff5);
    assert_eq!(cpsr.ge(), 0b0101);
    assert_eq!(cpsr.0, (1 << 24) | (0b0101 << 16));
    let mut cpsr = CPSRegister(0);
    cpsr.set_e(true);
    cpsr.set_a(true);
    cpsr.set_i(true);
    cpsr.set_f(true);
    cpsr.set_t(true);
    cpsr.set_m(0b11111);
    assert_eq!(cpsr.0, 0x3ff);
    assert!(cpsr.e() && cpsr.a() && cpsr.i() && cpsr.f() && cpsr.t());
    assert_eq!(cpsr.m(), 31);
}

#[test]
fn it_state_is_split_over_the_status_word() {
    let mut cpsr = CPSRegister(0);
    cpsr.set_it(0b1010_0111);
    assert_eq!(cpsr.it_low(), 0b11);
    assert_eq!(cpsr.it_high(), 0b101001);
    assert_eq!(cpsr.0, (0b11 << 25) | (0b101001 << 10));
    assert_eq!(cpsr.it(), 0b1010_0111);
    for value in [0u8, 1, 0x08, 0x80, 0xff, 0x5a] {
        let mut cpsr = CPSRegister(0xffff_ffff);
        cpsr.set_it(value);
        assert_eq!(cpsr.it(), value);
        assert_eq!(cpsr.0 | 0x0600_fc00, 0xffff_ffff);
    }
}

#[test]
fn views_over_the_status_word() {
    let mut cpu = CPU::default();
    cpu.cpsr.0 = 0xffff_ffff;
    let apsr = cpu.apsr();
    assert_eq!(apsr.0, 0xf80f_0000);
    assert_eq!(apsr.0, APSR_MASK);
    assert!(apsr.n() && apsr.z() && apsr.c() && apsr.v() && apsr.q());
    assert_eq!(apsr.ge(), 0xf);
    assert_eq!(cpu.it_state().0, 0xff);
    assert_eq!(cpu.iset_state().0, 3);
    assert!(cpu.iset_state().j() && cpu.iset_state().t());
    cpu.cpsr.0 = 0;
    assert_eq!(cpu.apsr().0, 0);
    assert_eq!(cpu.iset_state().0, 0);
    cpu.cpsr.0 = 1 << 5;
    assert_eq!(cpu.iset_state().0, 1);
    cpu.cpsr.0 = 1 << 24;
    assert_eq!(cpu.iset_state().0, 2);
}

#[test]
fn writers_reach_the_status_word() {
    let mut cpu = CPU::default();
    cpu.cpsr.0 = 0;
    {
        let mut apsr = cpu.apsr_mut();
        apsr.set_n(true);
        apsr.set_z(true);
        apsr.set_c(true);
        apsr.set_v(true);
        apsr.set_q(true);
        apsr.set_ge(0b1001);
    }
    assert_eq!(cpu.cpsr.0, 0xf809_0000);
    cpu.it_state_mut().set_value(0x08);
    assert_eq!(cpu.cpsr.it(), 0x08);
    assert_eq!(cpu.cpsr.0, 0xf809_0000 | (0b10 << 10));
    cpu.iset_state_mut().set_value(0b01);
    assert!(cpu.cpsr.t());
    assert!(!cpu.cpsr.j());
    cpu.iset_state_mut().set_value(0b10);
    assert!(!cpu.cpsr.t());
    assert!(cpu.cpsr.j());
}

#[test]
fn instruction_set_selection() {
    let mut m = Machine::default();
    assert_eq!(m.current_instr_set(), InstrSet::Arm);
    m.select_instr_set(InstrSet::Thumb);
    assert_eq!(m.current_instr_set(), InstrSet::Thumb);
    assert_eq!(m.cpu.cpsr.0, 0x1d3 | (1 << 5));
    m.select_instr_set(InstrSet::Jazelle);
    assert_eq!(m.current_instr_set(), InstrSet::Jazelle);
    m.select_instr_set(InstrSet::ThumbEE);
    assert_eq!(m.current_instr_set(), InstrSet::ThumbEE);
    m.select_instr_set(InstrSet::Arm);
    assert_eq!(m.current_instr_set(), InstrSet::Arm);
    assert_eq!(m.cpu.cpsr.0, 0x1d3);
}

#[test]
fn in_it_block_looks_at_the_mask() {
    let mut m = Machine::default();
    assert!(!m.in_it_block());
    m.cpu.cpsr.set_it(0x08);
    assert!(m.in_it_block());
    m.cpu.cpsr.set_it(0xf0);
    assert!(!m.in_it_block());
    m.cpu.cpsr.set_it(0x01);
    assert!(m.in_it_block());
}
