use uart16550::{InterruptTypes, Register, RegisterFile, Uart16550IO, IER};

#[test]
fn write_then_read_round_trips() {
    for k in 0..8usize {
        let mut region: RegisterFile<u8> = RegisterFile::new(8);
        let reg: IER<u8> = IER::new(k);
        reg.write(&mut region, InterruptTypes::zero().enable_rda().enable_ms());
        let v = reg.read(&region);
        assert!(v.rda_enabled());
        assert!(v.ms_enabled());
        assert!(!v.thre_enabled());
        assert!(!v.rls_enabled());
    }
}

#[test]
fn write_then_read_round_trips_on_wide_cells() {
    let mut region: RegisterFile<u32> = RegisterFile::new(8);
    let reg: IER<u32> = IER::new(1);
    let v = InterruptTypes::zero().enable_rda().enable_ms();
    reg.write(&mut region, v);
    assert_eq!(region.read_at(1), 0x09u32);
    assert_eq!(reg.read(&region), v);
}

#[test]
fn write_touches_only_its_offset() {
    let mut region: RegisterFile<u8> = RegisterFile::new(8);
    let reg: IER<u8> = IER::new(1);
    reg.write(&mut region, InterruptTypes::zero().enable_thre().enable_rls());
    for k in 0..8usize {
        assert_eq!(region.read_at(k), if k == 1 { 0x06 } else { 0 });
    }
}

#[test]
fn divisor_write_reads_back_raw() {
    let mut region: RegisterFile<u32> = RegisterFile::new(8);
    let reg: IER<u32> = IER::new(1);
    reg.write_divisor(&mut region, 0x1234_5678u32);
    assert_eq!(region.read_at(1), 0x1234_5678u32);
    assert_eq!(region.read_at(0), 0);
    // Read as settings, only the low byte counts.
    let v = reg.read(&region);
    assert_eq!(v.ms_enabled(), true);
    assert_eq!(v.rls_enabled(), false);
    assert_eq!(v.thre_enabled(), false);
    assert_eq!(v.rda_enabled(), false);
}

#[test]
fn divisor_write_replaces_settings() {
    let mut region: RegisterFile<u8> = RegisterFile::new(8);
    let reg: IER<u8> = IER::new(1);
    reg.write(&mut region, InterruptTypes::zero().enable_rda());
    reg.write_divisor(&mut region, 0x80u8);
    assert_eq!(region.read_at(1), 0x80u8);
    assert!(!reg.read(&region).rda_enabled());
}

#[test]
fn register_widths_carry_a_byte() {
    assert_eq!(<u8 as Register>::from_byte(0xab), 0xabu8);
    assert_eq!(<u16 as Register>::from_byte(0xab), 0x00abu16);
    assert_eq!(<u32 as Register>::from_byte(0xab), 0x0000_00abu32);
    assert_eq!(0xabu8.val(), 0xab);
    assert_eq!(0x12abu16.val(), 0xab);
    assert_eq!(0x1234_56abu32.val(), 0xab);
}

#[test]
fn new_region_cells_start_at_zero() {
    let region: RegisterFile<u16> = RegisterFile::new(4);
    for k in 0..4usize {
        assert_eq!(region.read_at(k), 0u16);
    }
}

#[test]
fn view_is_a_copyable_handle() {
    let mut region: RegisterFile<u8> = RegisterFile::new(8);
    let reg: IER<u8> = IER::new(2);
    let copy = reg;
    reg.write(&mut region, InterruptTypes::zero().enable_rls());
    assert!(copy.read(&region).rls_enabled());
}
