//! The addressable memory of an 8-bit microprocessor with a 16-bit address
//! bus: a flat, byte-granular store covering the full address span, with
//! byte and range access and the stack-page predicate used by the CPU core.

use vstd::prelude::*;
use vstd::slice::slice_subrange;

verus! {

/// Lowest valid address value.
pub const MEMORY_ADDRESS_LO: u16 = 0x0000;

/// Highest valid address value.
pub const MEMORY_ADDRESS_HI: u16 = 0xFFFF;

/// First address of the hardware stack page.
pub const STACK_ADDRESS_LO: u16 = 0x0100;

/// Last address of the hardware stack page.
pub const STACK_ADDRESS_HI: u16 = 0x01FF;

/// Low byte of the interrupt vector at the top of memory.
pub const IRQ_INTERRUPT_VECTOR_LO: u16 = 0xFFFE;

/// High byte of the interrupt vector at the top of memory.
pub const IRQ_INTERRUPT_VECTOR_HI: u16 = 0xFFFF;

/// Number of byte slots: the full span from `MEMORY_ADDRESS_LO` through
/// `MEMORY_ADDRESS_HI`, one slot per address value.
pub const MEMORY_SIZE: usize = 0x10000;

/// A value identifying one byte slot in memory. Every `u16` value is a
/// valid address: the address range and the memory span coincide.
#[derive(Clone, Copy, PartialEq, Eq, Structural, Debug)]
pub struct Address(pub u16);

/// A distance between two addresses: the length of a contiguous range of
/// slots beginning at some `Address`.
#[derive(Clone, Copy, PartialEq, Eq, Structural, Debug)]
pub struct AddressDiff(pub i32);

impl Address {
    /// The address as an unsigned offset from `MEMORY_ADDRESS_LO`, usable
    /// as an index into the byte store.
    pub fn to_usize(self) -> (offset: usize)
        ensures
            offset == self.0 as usize,
    {
        self.0 as usize
    }
}

/// The full addressable byte space of the machine: one byte slot per
/// address value, held in a single exclusively owned buffer.
pub struct Memory {
    bytes: Vec<u8>,
}

impl View for Memory {
    type V = Seq<u8>;

    closed spec fn view(&self) -> Seq<u8> {
        self.bytes@
    }
}

impl Memory {
    /// The instance covers the whole address span: exactly one slot for
    /// each of the `MEMORY_SIZE` address values. Constructors establish
    /// this and every mutating operation preserves it.
    pub open spec fn wf(&self) -> bool {
        self@.len() == MEMORY_SIZE
    }

    /// A fresh instance with every slot set to zero.
    pub fn new() -> (memory: Memory)
        ensures
            memory.wf(),
            forall|i: int| 0 <= i < MEMORY_SIZE ==> memory@[i] == 0u8,
    {
        let mut bytes: Vec<u8> = Vec::new();
        while bytes.len() < MEMORY_SIZE
            invariant
                bytes@.len() <= MEMORY_SIZE,
                forall|i: int| 0 <= i < bytes@.len() ==> bytes@[i] == 0u8,
            decreases MEMORY_SIZE - bytes@.len(),
        {
            bytes.push(0u8);
        }
        Memory { bytes }
    }

    /// The byte stored at `address`. No side effects.
    pub fn get_byte(&self, address: Address) -> (value: u8)
        requires
            self.wf(),
        ensures
            value == self@[address.0 as int],
    {
        self.bytes[address.to_usize()]
    }

    /// An exclusive, temporary handle to the slot at `address`, for
    /// in-place read-modify-write by the caller. The slot ends up holding
    /// whatever the caller leaves in the handle; every other slot is
    /// unchanged.
    pub fn get_byte_mut_ref(&mut self, address: Address) -> (byte: &mut u8)
        requires
            old(self).wf(),
        ensures
            *byte == old(self)@[address.0 as int],
            final(self)@ == old(self)@.update(address.0 as int, *final(byte)),
            final(self).wf(),
    {
        &mut self.bytes[address.to_usize()]
    }

    /// A read-only view of the `diff.0` contiguous bytes beginning at
    /// `start`, in address order. The range must fit in the memory span.
    pub fn get_slice(&self, start: Address, diff: AddressDiff) -> (slice: &[u8])
        requires
            self.wf(),
            0 <= diff.0,
            start.0 + diff.0 <= MEMORY_SIZE,
        ensures
            slice@ == self@.subrange(start.0 as int, start.0 + diff.0),
    {
        let lo = start.to_usize();
        let hi = lo + (diff.0 as usize);
        slice_subrange(self.bytes.as_slice(), lo, hi)
    }

    /// Overwrites the slot at `address` with `value` and returns the
    /// previous value at that slot; every other slot is unchanged.
    pub fn set_byte(&mut self, address: Address, value: u8) -> (previous: u8)
        requires
            old(self).wf(),
        ensures
            previous == old(self)@[address.0 as int],
            final(self)@ == old(self)@.update(address.0 as int, value),
            final(self).wf(),
    {
        let old_value = self.get_byte(address);
        self.bytes[address.to_usize()] = value;
        old_value
    }

    /// Overwrites `values.len()` contiguous slots beginning at `start`, in
    /// address order, with the contents of `values`. The range must fit in
    /// the memory span; every slot outside it is unchanged.
    pub fn set_bytes(&mut self, start: Address, values: &[u8])
        requires
            old(self).wf(),
            start.0 + values@.len() <= MEMORY_SIZE,
        ensures
            final(self).wf(),
            forall|k: int| 0 <= k < values@.len()
                ==> final(self)@[start.0 + k] == values@[k],
            forall|k: int|
                0 <= k < MEMORY_SIZE && !(start.0 <= k < start.0 + values@.len())
                ==> final(self)@[k] == old(self)@[k],
            final(self)@.subrange(start.0 as int, start.0 + values@.len()) == values@,
    {
        let lo = start.to_usize();
        let ghost orig: Seq<u8> = self@;
        // The highest slot is written first: a range that ran past the top
        // of memory would fault at the very first write, before any byte
        // of the store has changed.
        let mut i: usize = values.len();
        while i > 0
            invariant
                i <= values@.len(),
                lo == start.0 as usize,
                start.0 + values@.len() <= MEMORY_SIZE,
                self@.len() == MEMORY_SIZE,
                orig.len() == MEMORY_SIZE,
                forall|k: int| i <= k < values@.len() ==> self@[start.0 + k] == values@[k],
                forall|k: int|
                    0 <= k < MEMORY_SIZE && !(start.0 + i <= k < start.0 + values@.len())
                    ==> self@[k] == orig[k],
            decreases i,
        {
            i = i - 1;
            self.bytes[lo + i] = values[i];
        }
        proof {
            assert(self@.subrange(start.0 as int, start.0 + values@.len()) =~= values@);
        }
    }

    /// True iff `address` lies in the inclusive stack page
    /// `[STACK_ADDRESS_LO, STACK_ADDRESS_HI]`. A property of the constant
    /// range, independent of any instance.
    pub fn is_stack_address(address: Address) -> (in_stack: bool)
        ensures
            in_stack == (STACK_ADDRESS_LO <= address.0 <= STACK_ADDRESS_HI),
    {
        STACK_ADDRESS_LO <= address.0 && address.0 <= STACK_ADDRESS_HI
    }
}

/// Writing a byte and then reading the same address yields the byte just
/// written: `set_byte` leaves the view updated at the address, and
/// `get_byte` returns exactly the view at the address.
pub proof fn lemma_write_read_round_trip(memory: Memory, address: Address, value: u8)
    requires
        memory.wf(),
    ensures
        memory@.update(address.0 as int, value)[address.0 as int] == value,
{
}

/// Writing a range and then reading the same range yields the values just
/// written: from what `set_bytes` ensures of the slots it touched, the
/// range that `get_slice` returns is exactly the written sequence. (That
/// every slot outside the range keeps its old byte stands in the ensures
/// of `set_bytes` itself.)
pub proof fn lemma_range_write_read_round_trip(after: Memory, start: Address, values: Seq<u8>)
    requires
        after.wf(),
        start.0 + values.len() <= MEMORY_SIZE,
        forall|k: int| 0 <= k < values.len() ==> after@[start.0 + k] == values[k],
    ensures
        after@.subrange(start.0 as int, start.0 + values.len()) == values,
{
    assert(after@.subrange(start.0 as int, start.0 + values.len()) =~= values);
}

} // verus!
