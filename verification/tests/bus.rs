use m68k_decode::ram::AddressBus;
use m68k_decode::ram::AddressSpace;
use m68k_decode::ram::Mode;
use m68k_decode::ram::PagedMem;
use m68k_decode::ram::Segment;

fn sd() -> AddressSpace {
    AddressSpace(Mode::Supervisor, Segment::Data)
}

#[test]
fn unwritten_memory_reads_the_initializer_pattern() {
    let mem = PagedMem::new(0x01020304);
    assert_eq!(0x01, mem.read_byte(sd(), 0));
    assert_eq!(0x02, mem.read_byte(sd(), 1));
    assert_eq!(0x03, mem.read_byte(sd(), 2));
    assert_eq!(0x04, mem.read_byte(sd(), 3));
    assert_eq!(0x01, mem.read_byte(sd(), 4));
    assert_eq!(0x0102, mem.read_word(sd(), 0));
    assert_eq!(0x0203, mem.read_word(sd(), 1));
    assert_eq!(0x01020304, mem.read_long(sd(), 0));
    assert_eq!(0x02030401, mem.read_long(sd(), 1));
}

#[test]
fn writes_come_back_big_endian() {
    let mut mem = PagedMem::new(0);
    mem.write_long(sd(), 0x1000, 0xdeadbeef);
    assert_eq!(0xde, mem.read_byte(sd(), 0x1000));
    assert_eq!(0xad, mem.read_byte(sd(), 0x1001));
    assert_eq!(0xbe, mem.read_byte(sd(), 0x1002));
    assert_eq!(0xef, mem.read_byte(sd(), 0x1003));
    assert_eq!(0xdead, mem.read_word(sd(), 0x1000));
    assert_eq!(0xdeadbeef, mem.read_long(sd(), 0x1000));
    mem.write_word(sd(), 0x1002, 0x1234);
    assert_eq!(0xdead1234, mem.read_long(sd(), 0x1000));
    mem.write_byte(sd(), 0x1000, 0xffff_ff77);
    assert_eq!(0x77, mem.read_byte(sd(), 0x1000));
}

#[test]
fn addresses_are_masked_to_the_external_bus() {
    let mut mem = PagedMem::new(0);
    mem.write_byte(sd(), 0x0100_0042, 0xaa);
    assert_eq!(0xaa, mem.read_byte(sd(), 0x42));
    mem.write_word(sd(), 0x00ff_ffff, 0xbbcc);
    assert_eq!(0xbb, mem.read_byte(sd(), 0x00ff_ffff));
    assert_eq!(0xcc, mem.read_byte(sd(), 0));
}

#[test]
fn writes_touch_only_their_addresses() {
    let mut mem = PagedMem::new(0x11111111);
    mem.write_byte(sd(), 0x2000, 0x55);
    assert_eq!(0x11, mem.read_byte(sd(), 0x1fff));
    assert_eq!(0x55, mem.read_byte(sd(), 0x2000));
    assert_eq!(0x11, mem.read_byte(sd(), 0x2001));
    assert_eq!(0x11, mem.read_byte(sd(), 0x20ff));
    assert_eq!(0x11, mem.read_byte(sd(), 0x2100));
}

#[test]
fn copy_from_duplicates_the_whole_bus() {
    let mut a = PagedMem::new(0);
    a.write_long(sd(), 0, 0x00ff0000);
    a.write_long(sd(), 4, 0x00001000);
    let mut b = PagedMem::new(0x77777777);
    b.copy_from(&a);
    assert_eq!(0x00ff0000, b.read_long(sd(), 0));
    assert_eq!(0x00001000, b.read_long(sd(), 4));
    assert_eq!(0, b.read_byte(sd(), 0x9999));
    b.write_byte(sd(), 0, 0x12);
    assert_eq!(0x00, a.read_byte(sd(), 0));
}
