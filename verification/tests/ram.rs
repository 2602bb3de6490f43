use m68k_decode::ram::AddressSpace;
use m68k_decode::ram::Mode;
use m68k_decode::ram::Segment;
use m68k_decode::ram::ADDRBUS_MASK;

#[test]
fn function_codes_follow_the_canonical_numbering() {
    assert_eq!(1, AddressSpace(Mode::User, Segment::Data).fc());
    assert_eq!(2, AddressSpace(Mode::User, Segment::Program).fc());
    assert_eq!(5, AddressSpace(Mode::Supervisor, Segment::Data).fc());
    assert_eq!(6, AddressSpace(Mode::Supervisor, Segment::Program).fc());
}

#[test]
fn from_flags_selects_mode_and_segment() {
    assert_eq!(AddressSpace(Mode::Supervisor, Segment::Data), AddressSpace::from_flags(true, true));
    assert_eq!(
        AddressSpace(Mode::Supervisor, Segment::Program),
        AddressSpace::from_flags(true, false)
    );
    assert_eq!(AddressSpace(Mode::User, Segment::Data), AddressSpace::from_flags(false, true));
    assert_eq!(AddressSpace(Mode::User, Segment::Program), AddressSpace::from_flags(false, false));
}

#[test]
fn from_musashi_decodes_the_four_codes() {
    assert_eq!(AddressSpace(Mode::User, Segment::Data), AddressSpace::from_musashi(1));
    assert_eq!(AddressSpace(Mode::User, Segment::Program), AddressSpace::from_musashi(2));
    assert_eq!(AddressSpace(Mode::Supervisor, Segment::Data), AddressSpace::from_musashi(5));
    assert_eq!(AddressSpace(Mode::Supervisor, Segment::Program), AddressSpace::from_musashi(6));
}

#[test]
fn fc_round_trips_through_from_musashi() {
    for space in [
        AddressSpace(Mode::User, Segment::Data),
        AddressSpace(Mode::User, Segment::Program),
        AddressSpace(Mode::Supervisor, Segment::Data),
        AddressSpace(Mode::Supervisor, Segment::Program),
    ] {
        assert_eq!(space, AddressSpace::from_musashi(space.fc()));
    }
}

#[test]
fn address_bus_mask_is_24_bits() {
    assert_eq!(0x00ff_ffff, ADDRBUS_MASK);
}
