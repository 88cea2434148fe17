use crazyvm::memory::{Ram, Rom};
use crazyvm::registers::{Register, Registers};

#[test]
fn ram_write() {
    let mut ram = Ram::new(1024);

    ram.write(69, 0).unwrap();
    ram.write(11, 1).unwrap();

    ram.write_many(&[4, 5], 2).unwrap();
    let mut expected = [0u32; 1024];
    expected[0] = 69;
    expected[1] = 11;
    expected[2] = 4;
    expected[3] = 5;

    assert_eq!(*ram.get_data(), expected)
}

#[test]
#[should_panic]
fn raw_write_fail() {
    let mut ram = Ram::new(1024);
    ram.write(0, 1024).unwrap();
}

#[test]
#[should_panic]
fn raw_write_many_fail() {
    let mut ram = Ram::new(1024);
    ram.write_many(&[0, 1], 1024).unwrap();
}

#[test]
fn raw_read_fail() {
    let mut ram = Ram::new(1024);
    ram.write_many(&[0, 1], 0).unwrap();

    let single_read = ram.read(0).unwrap();
    let multiple_read = ram.read_many(0, 2).unwrap();

    assert_eq!(single_read, 0);
    assert_eq!(multiple_read, &[0, 1]);
}

#[test]
fn register_write() {
    let mut registers = Registers::new();

    registers.set(Register::A, 1);

    assert_eq!(registers.get(Register::A), 1);
}

#[test]
fn rom_read() {
    let rom = Rom::new(Vec::from(&[1, 2, 3, 4][..]));
    let single_read = rom.read(0).unwrap();
    let multiple_read = rom.read_many(1, 3).unwrap();
    assert_eq!(single_read, 1);
    assert_eq!(multiple_read, &[2, 3, 4]);
}

#[test]
fn ram_out_of_bounds_reports_index() {
    let mut ram = Ram::new(8);
    assert!(matches!(ram.read(8), Err(e) if e.0 == 8));
    assert!(matches!(ram.write(7, 9), Err(e) if e.0 == 9));
    assert!(matches!(ram.read_many(2, 100), Err(e) if e.0 == 8));
    assert_eq!(ram.max_size(), 8);
}

#[test]
fn rom_out_of_bounds_reports_index() {
    let rom = Rom::new(vec![1, 2]);
    assert_eq!(rom.size(), 2);
    assert!(matches!(rom.read(2), Err(e) if e.0 == 2));
    assert!(matches!(rom.read_many(0, 3), Err(e) if e.0 == 2));
}
