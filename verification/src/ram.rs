//! Address spaces, function codes, the memory bus interface, and the
//! page-sparse RAM supplied for testing.

use vstd::arithmetic::div_mod::lemma_add_mod_noop;
use vstd::prelude::*;

verus! {

/// The M68000 has a 24-bit external address bus, so (2^24 bytes =) 16 MB of
/// addressable space.
pub const ADDRBUS_MASK: u32 = 0x00ff_ffff;

/// Privilege mode of a bus access.
#[derive(Copy, Clone, Debug, Hash, Eq, PartialEq, Structural)]
pub enum Mode {
    User,
    Supervisor,
}

/// Segment of a bus access: an instruction fetch or an operand access.
#[derive(Copy, Clone, Debug, Hash, Eq, PartialEq, Structural)]
pub enum Segment {
    Program,
    Data,
}

/// Tag carried by every bus access: privilege mode paired with segment.
#[derive(Copy, Clone, Debug, Hash, Eq, PartialEq, Structural)]
pub struct AddressSpace(pub Mode, pub Segment);

/// Function code emitted on the FC pins for each address space, in the
/// canonical numbering: 001 user data, 010 user program, 101 supervisor data,
/// 110 supervisor program.
pub open spec fn spec_fc(s: AddressSpace) -> u32 {
    match (s.0, s.1) {
        (Mode::User, Segment::Data) => 1,
        (Mode::User, Segment::Program) => 2,
        (Mode::Supervisor, Segment::Data) => 5,
        (Mode::Supervisor, Segment::Program) => 6,
    }
}

/// The address space a function code denotes; function codes outside the four
/// canonical values denote none.
pub open spec fn spec_space_of_fc(value: u32) -> Option<AddressSpace> {
    if value & 0b111 == 0b001 {
        Some(AddressSpace(Mode::User, Segment::Data))
    } else if value & 0b111 == 0b010 {
        Some(AddressSpace(Mode::User, Segment::Program))
    } else if value & 0b111 == 0b101 {
        Some(AddressSpace(Mode::Supervisor, Segment::Data))
    } else if value & 0b111 == 0b110 {
        Some(AddressSpace(Mode::Supervisor, Segment::Program))
    } else {
        None
    }
}

impl AddressSpace {
    /// The 3-bit function code of this address space.
    pub fn fc(self) -> (r: u32)
        ensures
            r == spec_fc(self),
            1 <= r <= 6,
    {
        match (self.0, self.1) {
            (Mode::User, Segment::Data) => 1,
            (Mode::User, Segment::Program) => 2,
            (Mode::Supervisor, Segment::Data) => 5,
            (Mode::Supervisor, Segment::Program) => 6,
        }
    }

    /// The address space selected by the supervisor flag and by whether the
    /// access touches data (as opposed to fetching an instruction).
    pub fn from_flags(s_flag: bool, fc_is_data: bool) -> (r: Self)
        ensures
            r.0 == (if s_flag {
                Mode::Supervisor
            } else {
                Mode::User
            }),
            r.1 == (if fc_is_data {
                Segment::Data
            } else {
                Segment::Program
            }),
    {
        match (s_flag, fc_is_data) {
            (true, true) => AddressSpace(Mode::Supervisor, Segment::Data),
            (true, false) => AddressSpace(Mode::Supervisor, Segment::Program),
            (false, true) => AddressSpace(Mode::User, Segment::Data),
            (false, false) => AddressSpace(Mode::User, Segment::Program),
        }
    }

    /// The address space denoted by a raw function-code value. Only the four
    /// canonical codes are meaningful; anything else is a host programming
    /// error, so it is excluded here rather than handled.
    pub fn from_musashi(value: u32) -> (r: Self)
        requires
            spec_space_of_fc(value) is Some,
        ensures
            Some(r) == spec_space_of_fc(value),
    {
        if value & 0b111 == 0b001 {
            AddressSpace(Mode::User, Segment::Data)
        } else if value & 0b111 == 0b010 {
            AddressSpace(Mode::User, Segment::Program)
        } else if value & 0b111 == 0b101 {
            AddressSpace(Mode::Supervisor, Segment::Data)
        } else {
            AddressSpace(Mode::Supervisor, Segment::Program)
        }
    }
}

/// Decoding a function code undoes encoding one: the two maps are mutually
/// inverse over the four canonical codes.
pub proof fn lemma_fc_round_trip(s: AddressSpace, value: u32)
    ensures
        spec_space_of_fc(spec_fc(s)) == Some(s),
        spec_space_of_fc(value) is Some ==> spec_fc(spec_space_of_fc(value)->Some_0) == value
            & 0b111,
{
    assert(1u32 & 0b111 == 1) by (bit_vector);
    assert(2u32 & 0b111 == 2) by (bit_vector);
    assert(5u32 & 0b111 == 5) by (bit_vector);
    assert(6u32 & 0b111 == 6) by (bit_vector);
}

/// A 24-bit address made from an unbounded one by wrapping, as the external
/// address bus does.
pub open spec fn wrap24(address: int) -> u32 {
    (address % 0x0100_0000) as u32
}

/// Abstract memory port of the processor. Reads and writes are tagged with an
/// address space, addresses are masked to the 24-bit external bus, and words
/// and longs are big-endian. Odd word or long addresses are not rejected here:
/// address-error detection is the processor's own responsibility.
///
/// An implementation is modelled by `bus_byte`, its byte content at each
/// 24-bit address; the method contracts pin every access to that model, so
/// identical histories of calls give identical results.
pub trait AddressBus {
    /// The byte the bus holds at a masked (24-bit) address.
    spec fn bus_byte(&self, address: u32) -> u8;

    /// Replace this bus's whole content with a deep copy of another's.
    fn copy_from(&mut self, other: &Self)
        ensures
            forall|a: u32| final(self).bus_byte(a) == other.bus_byte(a),
    ;

    fn read_byte(&self, address_space: AddressSpace, address: u32) -> (r: u32)
        ensures
            r == self.bus_byte(wrap24(address as int)) as u32,
    ;

    fn read_word(&self, address_space: AddressSpace, address: u32) -> (r: u32)
        ensures
            r == self.bus_byte(wrap24(address as int)) as u32 * 0x100 + self.bus_byte(
                wrap24(address as int + 1),
            ) as u32,
    ;

    fn read_long(&self, address_space: AddressSpace, address: u32) -> (r: u32)
        ensures
            r == self.bus_byte(wrap24(address as int)) as u32 * 0x100_0000 + self.bus_byte(
                wrap24(address as int + 1),
            ) as u32 * 0x1_0000 + self.bus_byte(wrap24(address as int + 2)) as u32 * 0x100
                + self.bus_byte(wrap24(address as int + 3)) as u32,
    ;

    fn write_byte(&mut self, address_space: AddressSpace, address: u32, value: u32)
        ensures
            final(self).bus_byte(wrap24(address as int)) == (value & 0xff) as u8,
            forall|a: u32|
                a != wrap24(address as int) ==> final(self).bus_byte(a) == old(self).bus_byte(a),
    ;

    fn write_word(&mut self, address_space: AddressSpace, address: u32, value: u32)
        ensures
            final(self).bus_byte(wrap24(address as int)) == ((value >> 8) & 0xff) as u8,
            final(self).bus_byte(wrap24(address as int + 1)) == (value & 0xff) as u8,
            forall|a: u32|
                a != wrap24(address as int) && a != wrap24(address as int + 1) ==> final(self)
                    .bus_byte(a) == old(self).bus_byte(a),
    ;

    fn write_long(&mut self, address_space: AddressSpace, address: u32, value: u32)
        ensures
            final(self).bus_byte(wrap24(address as int)) == ((value >> 24) & 0xff) as u8,
            final(self).bus_byte(wrap24(address as int + 1)) == ((value >> 16) & 0xff) as u8,
            final(self).bus_byte(wrap24(address as int + 2)) == ((value >> 8) & 0xff) as u8,
            final(self).bus_byte(wrap24(address as int + 3)) == (value & 0xff) as u8,
            forall|a: u32|
                a != wrap24(address as int) && a != wrap24(address as int + 1) && a != wrap24(
                    address as int + 2,
                ) && a != wrap24(address as int + 3) ==> final(self).bus_byte(a) == old(self)
                    .bus_byte(a),
    ;
}

/// Bytes per allocated page of the page-sparse RAM.
pub const PAGE_SIZE: u32 = 256;

/// The byte an unwritten address reads: the matching byte of the 32-bit
/// initialization pattern, repeated across memory.
pub open spec fn spec_init_byte(initializer: u32, address: int) -> u8 {
    if address % 4 == 0 {
        ((initializer >> 24) & 0xff) as u8
    } else if address % 4 == 1 {
        ((initializer >> 16) & 0xff) as u8
    } else if address % 4 == 2 {
        ((initializer >> 8) & 0xff) as u8
    } else {
        (initializer & 0xff) as u8
    }
}

/// A page-sparse RAM over the 16 MB address space: pages spring into being
/// on the first write, and unwritten memory reads a repeating 32-bit
/// initialization pattern.
pub struct PagedMem {
    pub initializer: u32,
    pub pages: Vec<Option<Vec<u8>>>,
}

/// Masking to the external bus width is taking the address modulo 16 MB.
proof fn lemma_mask_is_mod24(x: u32)
    by (bit_vector)
    ensures
        x & 0x00ff_ffff == x % 0x0100_0000,
{
}

/// Wrapped addresses a small step apart stay distinct.
proof fn lemma_wrap24_shift(a: int, k: int)
    requires
        0 <= a,
        0 < k < 0x0100_0000,
    ensures
        wrap24(a + k) != wrap24(a),
        wrap24(a + k) == (wrap24(a) + k) % 0x0100_0000,
{
    let m = 0x0100_0000int;
    lemma_add_mod_noop(a, k, m);
    assert(k % m == k);
}

impl PagedMem {
    /// RAM whose every byte initially reads the given repeating pattern.
    pub fn new(initializer: u32) -> (r: Self)
        ensures
            forall|a: u32| r.bus_byte(a) == spec_init_byte(initializer, a as int),
            r.initializer == initializer,
    {
        let mut pages: Vec<Option<Vec<u8>>> = Vec::new();
        while pages.len() < 0x10000
            invariant
                forall|i: int| 0 <= i < pages@.len() ==> pages@[i] is None,
            decreases 0x10000 - pages@.len(),
        {
            pages.push(None);
        }
        PagedMem { initializer, pages }
    }

    /// The byte read at a masked address.
    fn byte_at(&self, address: u32) -> (r: u8)
        requires
            address <= 0x00ff_ffff,
        ensures
            r == self.bus_byte(address),
    {
        let page = (address / PAGE_SIZE) as usize;
        let offset = (address % PAGE_SIZE) as usize;
        if page < self.pages.len() {
            match &self.pages[page] {
                Some(data) => {
                    if offset < data.len() {
                        return data[offset];
                    }
                },
                None => {},
            }
        }
        match address % 4 {
            0 => ((self.initializer >> 24u32) & 0xff) as u8,
            1 => ((self.initializer >> 16u32) & 0xff) as u8,
            2 => ((self.initializer >> 8u32) & 0xff) as u8,
            _ => (self.initializer & 0xff) as u8,
        }
    }

    /// Store a byte at a masked address, allocating its page on first use.
    fn set_byte(&mut self, address: u32, value: u8)
        requires
            address <= 0x00ff_ffff,
        ensures
            final(self).bus_byte(address) == value,
            forall|a: u32| a != address ==> final(self).bus_byte(a) == old(self).bus_byte(a),
            final(self).initializer == old(self).initializer,
    {
        proof {
            vstd::arithmetic::div_mod::lemma_fundamental_div_mod(address as int, 256);
        }
        let page = (address / PAGE_SIZE) as usize;
        let offset = (address % PAGE_SIZE) as usize;
        let base = (address / PAGE_SIZE) * PAGE_SIZE;
        let ghost old_self = *self;
        let mut data: Vec<u8> = Vec::new();
        let mut k: u32 = 0;
        while k < PAGE_SIZE
            invariant
                k <= PAGE_SIZE,
                data@.len() == k,
                base == (address as int / PAGE_SIZE as int) * PAGE_SIZE as int,
                base + 255 <= 0x00ff_ffff,
                address <= 0x00ff_ffff,
                *self == old_self,
                forall|i: int| 0 <= i < k ==> data@[i] == old_self.bus_byte((base + i) as u32),
            decreases PAGE_SIZE - k,
        {
            data.push(self.byte_at(base + k));
            k = k + 1;
        }
        data.set(offset, value);
        while self.pages.len() <= page
            invariant
                self.initializer == old_self.initializer,
                forall|a: u32| self.bus_byte(a) == old_self.bus_byte(a),
                self.pages@.len() >= old_self.pages@.len(),
            decreases page + 1 - self.pages@.len(),
        {
            let ghost before = *self;
            self.pages.push(None);
            proof {
                assert forall|a: u32| self.bus_byte(a) == before.bus_byte(a) by {}
            }
        }
        let ghost grown = *self;
        self.pages.set(page, Some(data));
        proof {
            assert(final(self).bus_byte(address) == value) by {
                vstd::arithmetic::div_mod::lemma_fundamental_div_mod(address as int, 256);
            }
            assert forall|a: u32| a != address implies self.bus_byte(a) == old_self.bus_byte(
                a,
            ) by {
                vstd::arithmetic::div_mod::lemma_fundamental_div_mod(a as int, 256);
                vstd::arithmetic::div_mod::lemma_fundamental_div_mod(address as int, 256);
                let ap = a as int / 256;
                if ap == page {
                    assert(self.bus_byte(a) == data@[a as int % 256]);
                    assert(a as int % 256 != address as int % 256);
                    assert(a == (base + a as int % 256) as u32);
                } else {
                    assert(self.bus_byte(a) == grown.bus_byte(a));
                }
            }
        }
    }
}


impl PagedMem {
    /// The masked address one byte past a masked address, wrapping at the
    /// top of the 16 MB space.
    fn next24(a: u32) -> (r: u32)
        requires
            a <= 0x00ff_ffff,
        ensures
            r == wrap24(a as int + 1),
            r <= 0x00ff_ffff,
    {
        proof {
            lemma_mask_is_mod24((a + 1) as u32);
        }
        (a + 1) & ADDRBUS_MASK
    }
}

impl AddressBus for PagedMem {
    open spec fn bus_byte(&self, address: u32) -> u8 {
        let page = address as int / PAGE_SIZE as int;
        let offset = address as int % PAGE_SIZE as int;
        if 0 <= page < self.pages@.len() && self.pages@[page] is Some && offset
            < self.pages@[page]->Some_0@.len() {
            self.pages@[page]->Some_0@[offset]
        } else {
            spec_init_byte(self.initializer, address as int)
        }
    }

    fn copy_from(&mut self, other: &Self) {
        let mut pages: Vec<Option<Vec<u8>>> = Vec::new();
        let mut i: usize = 0;
        while i < other.pages.len()
            invariant
                i <= other.pages@.len(),
                pages@.len() == i,
                forall|p: int| #![auto] 0 <= p < i ==> pages@[p] is Some == (other.pages@[p]
                    is Some) && (pages@[p] is Some ==> pages@[p]->Some_0@ == other.pages@[
                    p
                ]->Some_0@),
            decreases other.pages@.len() - i,
        {
            match &other.pages[i] {
                Some(data) => {
                    let mut copy: Vec<u8> = Vec::new();
                    let mut k: usize = 0;
                    while k < data.len()
                        invariant
                            k <= data@.len(),
                            copy@ == data@.take(k as int),
                        decreases data@.len() - k,
                    {
                        copy.push(data[k]);
                        proof {
                            assert(copy@ =~= data@.take(k as int + 1));
                        }
                        k = k + 1;
                    }
                    proof {
                        assert(copy@ =~= data@);
                    }
                    pages.push(Some(copy));
                },
                None => {
                    pages.push(None);
                },
            }
            i = i + 1;
        }
        self.pages = pages;
        self.initializer = other.initializer;
    }

    fn read_byte(&self, address_space: AddressSpace, address: u32) -> (r: u32) {
        proof {
            lemma_mask_is_mod24(address);
        }
        self.byte_at(address & ADDRBUS_MASK) as u32
    }

    fn read_word(&self, address_space: AddressSpace, address: u32) -> (r: u32) {
        proof {
            lemma_mask_is_mod24(address);
            lemma_wrap24_shift(address as int, 1);
        }
        let a0 = address & ADDRBUS_MASK;
        let a1 = Self::next24(a0);
        (self.byte_at(a0) as u32) * 0x100 + self.byte_at(a1) as u32
    }

    fn read_long(&self, address_space: AddressSpace, address: u32) -> (r: u32) {
        proof {
            lemma_mask_is_mod24(address);
            lemma_wrap24_shift(address as int, 1);
            lemma_wrap24_shift(address as int, 2);
            lemma_wrap24_shift(address as int, 3);
            lemma_wrap24_shift(address as int + 1, 1);
            lemma_wrap24_shift(address as int + 1, 2);
            lemma_wrap24_shift(address as int + 2, 1);
        }
        let a0 = address & ADDRBUS_MASK;
        let a1 = Self::next24(a0);
        let a2 = Self::next24(a1);
        let a3 = Self::next24(a2);
        (self.byte_at(a0) as u32) * 0x100_0000 + (self.byte_at(a1) as u32) * 0x1_0000 + (
        self.byte_at(a2) as u32) * 0x100 + self.byte_at(a3) as u32
    }

    fn write_byte(&mut self, address_space: AddressSpace, address: u32, value: u32) {
        proof {
            lemma_mask_is_mod24(address);
        }
        self.set_byte(address & ADDRBUS_MASK, (value & 0xff) as u8);
    }

    fn write_word(&mut self, address_space: AddressSpace, address: u32, value: u32) {
        proof {
            lemma_mask_is_mod24(address);
            lemma_wrap24_shift(address as int, 1);
        }
        let a0 = address & ADDRBUS_MASK;
        let a1 = Self::next24(a0);
        self.set_byte(a0, ((value >> 8u32) & 0xff) as u8);
        self.set_byte(a1, (value & 0xff) as u8);
    }

    fn write_long(&mut self, address_space: AddressSpace, address: u32, value: u32) {
        proof {
            lemma_mask_is_mod24(address);
            lemma_wrap24_shift(address as int, 1);
            lemma_wrap24_shift(address as int, 2);
            lemma_wrap24_shift(address as int, 3);
            lemma_wrap24_shift(address as int + 1, 1);
            lemma_wrap24_shift(address as int + 1, 2);
            lemma_wrap24_shift(address as int + 2, 1);
        }
        let a0 = address & ADDRBUS_MASK;
        let a1 = Self::next24(a0);
        let a2 = Self::next24(a1);
        let a3 = Self::next24(a2);
        self.set_byte(a0, ((value >> 24u32) & 0xff) as u8);
        self.set_byte(a1, ((value >> 16u32) & 0xff) as u8);
        self.set_byte(a2, ((value >> 8u32) & 0xff) as u8);
        self.set_byte(a3, (value & 0xff) as u8);
    }
}

} // verus!
