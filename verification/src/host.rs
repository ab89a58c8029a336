//! The host runtime that an environment borrows for the duration of one guest
//! call.
//!
//! The virtual machine that owns guest linear memory and the ledger that owns
//! the weight budget are collaborators of this crate, not part of it. Their
//! obligations are captured by the [`HostRuntime`] trait: a bounds-checked copy
//! out of guest memory, a bounds-checked copy into it, and a weight debit that
//! either succeeds in full or leaves the budget untouched. [`InMemoryHost`]
//! implements the trait over a plain byte vector and a counter, and proves
//! every obligation; it backs the test suite and any dispatch layer that runs
//! guests against host-local memory.

use vstd::assert_seqs_equal;
use vstd::prelude::*;

use crate::error::DispatchError;

verus! {

/// The weight (gas) unit debited from a call's budget.
pub type Weight = u64;

/// Whether a debit of `amount` fits into the remaining budget `gas`.
pub open spec fn can_charge(gas: Weight, amount: Weight) -> bool {
    amount <= gas
}

/// The budget after an attempted debit: reduced on success, untouched on
/// failure.
pub open spec fn gas_after_charge(gas: Weight, amount: Weight) -> Weight {
    if can_charge(gas, amount) {
        (gas - amount) as Weight
    } else {
        gas
    }
}

/// `m` with the range starting at `at` overwritten by `data`; everything
/// outside that range, and the overall length, are unchanged.
pub open spec fn splice_bytes(m: Seq<u8>, at: int, data: Seq<u8>) -> Seq<u8> {
    Seq::new(m.len(), |i: int| if at <= i < at + data.len() { data[i - at] } else { m[i] })
}

/// Exclusive access to guest linear memory and to the weight ledger during a
/// single guest call.
///
/// An implementation decides where the bytes live and how the ledger is kept;
/// the contracts pin down what every environment operation may rely on: reads
/// and writes are bounds-checked against `mem()` and move exactly the bytes
/// they name, and a debit that does not fit fails without touching the budget.
pub trait HostRuntime: Sized {
    /// The current contents of guest linear memory.
    spec fn mem(&self) -> Seq<u8>;

    /// The weight budget still available to the current call.
    spec fn gas_left(&self) -> Weight;

    /// Debit `amount` from the remaining budget. No partial debit: on failure
    /// the budget is exactly as before.
    fn charge_gas(&mut self, amount: Weight) -> (r: Result<(), DispatchError>)
        ensures
            final(self).mem() == old(self).mem(),
            final(self).gas_left() == gas_after_charge(old(self).gas_left(), amount),
            r is Ok <==> can_charge(old(self).gas_left(), amount),
            r matches Err(e) ==> e == DispatchError::InsufficientWeight,
    ;

    /// Bounds-checked copy of `len` bytes of guest memory starting at `ptr`.
    fn read_memory(&self, ptr: u32, len: u32) -> (r: Result<Vec<u8>, DispatchError>)
        ensures
            r is Ok <==> ptr + len <= self.mem().len(),
            r matches Ok(v) ==> v@ == self.mem().subrange(ptr as int, ptr as int + len as int),
            r matches Err(e) ==> e == DispatchError::MemoryAccessFault,
    ;

    /// Bounds-checked copy of `count` bytes of guest memory starting at
    /// `ptr` into the front of a caller-supplied buffer, in place: no fresh
    /// allocation, the buffer keeps its length, and the bytes past `count`
    /// keep their values. On failure the buffer is untouched.
    fn read_memory_into(&self, ptr: u32, count: usize, buffer: &mut Vec<u8>) -> (r: Result<
        (),
        DispatchError,
    >)
        requires
            count <= old(buffer)@.len(),
        ensures
            final(buffer)@.len() == old(buffer)@.len(),
            r is Ok <==> ptr + count <= self.mem().len(),
            r is Ok ==> final(buffer)@ == self.mem().subrange(ptr as int, ptr as int + count)
                + old(buffer)@.subrange(count as int, old(buffer)@.len() as int),
            r is Err ==> final(buffer)@ == old(buffer)@,
            r matches Err(e) ==> e == DispatchError::MemoryAccessFault,
    ;

    /// Bounds-checked copy of `data` into guest memory starting at `ptr`. On
    /// failure guest memory is untouched; the budget is never involved.
    fn write_memory(&mut self, ptr: u32, data: &[u8]) -> (r: Result<(), DispatchError>)
        ensures
            final(self).gas_left() == old(self).gas_left(),
            r is Ok <==> ptr + data@.len() <= old(self).mem().len(),
            r is Ok ==> final(self).mem() == splice_bytes(old(self).mem(), ptr as int, data@),
            r is Err ==> final(self).mem() == old(self).mem(),
            r matches Err(e) ==> e == DispatchError::MemoryAccessFault,
    ;
}

/// A host runtime whose guest memory is a byte vector held in this process.
pub struct InMemoryHost {
    memory: Vec<u8>,
    gas_left: Weight,
}

impl InMemoryHost {
    /// A host whose guest memory holds exactly `memory` and whose call budget
    /// is `gas_left`.
    pub fn new(memory: Vec<u8>, gas_left: Weight) -> (h: InMemoryHost)
        ensures
            h.mem() == memory@,
            h.gas_left() == gas_left,
    {
        InMemoryHost { memory, gas_left }
    }

    /// The weight budget still available.
    pub fn remaining_gas(&self) -> (g: Weight)
        ensures
            g == self.gas_left(),
    {
        self.gas_left
    }

    /// Hands the guest memory back, ending the host's custody of it.
    pub fn into_memory(self) -> (m: Vec<u8>)
        ensures
            m@ == self.mem(),
    {
        self.memory
    }
}

impl HostRuntime for InMemoryHost {
    closed spec fn mem(&self) -> Seq<u8> {
        self.memory@
    }

    closed spec fn gas_left(&self) -> Weight {
        self.gas_left
    }

    fn charge_gas(&mut self, amount: Weight) -> (r: Result<(), DispatchError>) {
        if amount <= self.gas_left {
            self.gas_left = self.gas_left - amount;
            Ok(())
        } else {
            Err(DispatchError::InsufficientWeight)
        }
    }

    fn read_memory(&self, ptr: u32, len: u32) -> (r: Result<Vec<u8>, DispatchError>) {
        if len as usize <= self.memory.len() && ptr as usize <= self.memory.len() - len as usize {
            let start: usize = ptr as usize;
            let end: usize = start + len as usize;
            let part: &[u8] = vstd::slice::slice_subrange(self.memory.as_slice(), start, end);
            Ok(vstd::slice::slice_to_vec(part))
        } else {
            Err(DispatchError::MemoryAccessFault)
        }
    }

    fn read_memory_into(&self, ptr: u32, count: usize, buffer: &mut Vec<u8>) -> (r: Result<
        (),
        DispatchError,
    >) {
        if count <= self.memory.len() && ptr as usize <= self.memory.len() - count {
            let start: usize = ptr as usize;
            let mut i: usize = 0;
            while i < count
                invariant
                    count <= old(buffer)@.len(),
                    start + count <= self.memory@.len(),
                    self.memory@.len() <= usize::MAX,
                    i <= count,
                    buffer@.len() == old(buffer)@.len(),
                    forall|j: int| 0 <= j < i ==> buffer@[j] == self.memory@[start + j],
                    forall|j: int| i <= j < buffer@.len() ==> buffer@[j] == old(buffer)@[j],
                decreases count - i,
            {
                let b: u8 = self.memory[start + i];
                buffer[i] = b;
                i = i + 1;
            }
            proof {
                assert_seqs_equal!(
                    buffer@ == self.memory@.subrange(ptr as int, ptr as int + count)
                        + old(buffer)@.subrange(count as int, old(buffer)@.len() as int)
                );
            }
            Ok(())
        } else {
            Err(DispatchError::MemoryAccessFault)
        }
    }

    fn write_memory(&mut self, ptr: u32, data: &[u8]) -> (r: Result<(), DispatchError>) {
        if data.len() <= self.memory.len() && ptr as usize <= self.memory.len() - data.len() {
            let start: usize = ptr as usize;
            let mut i: usize = 0;
            while i < data.len()
                invariant
                    start + data@.len() <= self.memory@.len(),
                    self.memory@.len() <= usize::MAX,
                    i <= data@.len(),
                    self.memory@.len() == old(self).memory@.len(),
                    self.gas_left == old(self).gas_left,
                    forall|j: int|
                        0 <= j < self.memory@.len() && !(start <= j < start + i)
                            ==> self.memory@[j] == old(self).memory@[j],
                    forall|j: int|
                        start <= j < start + i ==> self.memory@[j] == data@[j - start],
                decreases data@.len() - i,
            {
                let b: u8 = *vstd::slice::slice_index_get(data, i);
                self.memory[start + i] = b;
                i = i + 1;
            }
            proof {
                assert_seqs_equal!(
                    self.memory@ == splice_bytes(old(self).memory@, ptr as int, data@)
                );
            }
            Ok(())
        } else {
            Err(DispatchError::MemoryAccessFault)
        }
    }
}

/// Sequential weight charges accumulate. If a first debit fits the budget it
/// leaves `gas0 - first` behind; if a second debit then exceeds what is left,
/// it fails and the first debit is not reversed.
pub proof fn lemma_charges_accumulate(gas0: Weight, first: Weight, second: Weight)
    requires
        can_charge(gas0, first),
        !can_charge(gas_after_charge(gas0, first), second),
    ensures
        gas_after_charge(gas0, first) == gas0 - first,
        gas_after_charge(gas_after_charge(gas0, first), second) == gas0 - first,
{
}

} // verus!
