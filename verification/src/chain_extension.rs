//! The environment a handler receives for one guest trap, and the contract a
//! host author implements to handle it.
//!
//! The dispatch layer builds an [`Environment`] in its initial mode from the
//! four raw trap arguments and hands it to the chain extension together with
//! the operation identifier. The handler moves the environment into exactly
//! one terminal mode, reads, charges and writes as that mode permits, and
//! returns a [`RetVal`] or an error.

use core::marker::PhantomData;
use vstd::assert_seqs_equal;
use vstd::prelude::*;

use crate::codec::FixedDecode;
use crate::error::DispatchError;
use crate::host::{HostRuntime, Weight, can_charge, gas_after_charge, splice_bytes};
use crate::state;

verus! {

/// The four raw 32-bit values a guest passed to the host trap. Their meaning
/// is assigned only by the access mode of the environment carrying them; the
/// values themselves never change after construction.
#[derive(Clone, Copy, Debug, PartialEq, Eq, Structural)]
pub struct CallArguments {
    /// Input pointer, or a plain integer, by mode.
    pub input_ptr: u32,
    /// Input length, or a plain integer, by mode.
    pub input_len: u32,
    /// Output pointer, or a plain integer, by mode.
    pub output_ptr: u32,
    /// Pointer to the declared output capacity, or a plain integer, by mode.
    pub output_len_ptr: u32,
}

/// The payload of an environment, bundled so a mode transition moves it as
/// one value.
struct Inner<H: HostRuntime> {
    /// The host runtime, held exclusively for the lifetime of the call.
    runtime: H,
    /// The raw trap arguments.
    args: CallArguments,
}

/// Grants a chain extension access to its parameters and to the execution
/// environment of the calling guest.
///
/// The mode parameter `S` decides which accessors exist; it is carried only
/// in the type. An environment is built once per guest trap, moved through at
/// most one mode transition, and discarded when the handler returns.
pub struct Environment<H: HostRuntime, S: state::State> {
    /// The actual data of this type.
    inner: Inner<H>,
    /// `S` is used only in the type system, never as a value.
    phantom: PhantomData<S>,
}

/// Functions available in every mode.
impl<H: HostRuntime, S: state::State> Environment<H, S> {
    /// The raw trap arguments.
    pub closed spec fn args(&self) -> CallArguments {
        self.inner.args
    }

    /// The host runtime as the environment currently holds it.
    pub closed spec fn runtime(&self) -> H {
        self.inner.runtime
    }

    /// The current contents of guest memory.
    pub open spec fn mem(&self) -> Seq<u8> {
        self.runtime().mem()
    }

    /// The weight budget still available to the call.
    pub open spec fn gas_left(&self) -> Weight {
        self.runtime().gas_left()
    }

    /// Charge `amount` of weight from the call's overall limit.
    ///
    /// Handlers must charge for a memory operation before performing it; that
    /// ordering is a caller obligation this type cannot check. On failure no
    /// partial debit occurs, and the handler should abort and pass the error
    /// through.
    pub fn charge_weight(&mut self, amount: Weight) -> (r: Result<(), DispatchError>)
        ensures
            final(self).args() == old(self).args(),
            final(self).mem() == old(self).mem(),
            final(self).gas_left() == gas_after_charge(old(self).gas_left(), amount),
            r is Ok <==> can_charge(old(self).gas_left(), amount),
            r matches Err(e) ==> e == DispatchError::InsufficientWeight,
    {
        self.inner.runtime.charge_gas(amount)
    }

    /// Grants access to the execution environment of the current guest call.
    pub fn ext(&mut self) -> (r: &mut H)
        ensures
            *r == old(self).runtime(),
            final(self).args() == old(self).args(),
            final(self).runtime() == *final(r),
    {
        &mut self.inner.runtime
    }

    /// Hands the host runtime back, ending the environment's custody of it.
    /// The dispatch layer uses this to observe the effects of a handler after
    /// it returned.
    pub fn into_runtime(self) -> (h: H)
        ensures
            h == self.runtime(),
    {
        self.inner.runtime
    }
}

/// Functions available only in the initial mode: construction, and the choice
/// of how the arguments are to be consumed.
impl<H: HostRuntime> Environment<H, state::Init> {
    /// A fresh environment for one guest trap, in the initial mode, holding
    /// the host runtime and the four raw arguments.
    pub fn new(
        runtime: H,
        input_ptr: u32,
        input_len: u32,
        output_ptr: u32,
        output_len_ptr: u32,
    ) -> (env: Environment<H, state::Init>)
        ensures
            env.runtime() == runtime,
            env.args() == (CallArguments { input_ptr, input_len, output_ptr, output_len_ptr }),
    {
        Environment {
            inner: Inner {
                runtime,
                args: CallArguments { input_ptr, input_len, output_ptr, output_len_ptr },
            },
            phantom: PhantomData,
        }
    }

    /// Use all arguments as integer values.
    ///
    /// The resulting mode exposes exactly `val0`..`val3` beside the
    /// universal operations; no buffer accessor exists on it.
    pub fn only_in(self) -> (env: Environment<H, state::OnlyIn>)
        ensures
            env.runtime() == self.runtime(),
            env.args() == self.args(),
    {
        Environment { inner: self.inner, phantom: PhantomData }
    }

    /// Use the input arguments as integers and the output arguments as
    /// pointers to a buffer.
    ///
    /// The resulting mode exposes exactly `val0`, `val1` and `write` beside
    /// the universal operations; `val2`, `val3` and the buffer-input
    /// accessors do not exist on it.
    pub fn prim_in_buf_out(self) -> (env: Environment<H, state::PrimInBufOut>)
        ensures
            env.runtime() == self.runtime(),
            env.args() == self.args(),
    {
        Environment { inner: self.inner, phantom: PhantomData }
    }

    /// Use the input and output arguments as pointers to buffers.
    ///
    /// The resulting mode exposes exactly `in_len`, `read`, `read_into`,
    /// `read_as` and `write` beside the universal operations; no argument
    /// may be read as a plain integer in it.
    pub fn buf_in_buf_out(self) -> (env: Environment<H, state::BufInBufOut>)
        ensures
            env.runtime() == self.runtime(),
            env.args() == self.args(),
    {
        Environment { inner: self.inner, phantom: PhantomData }
    }
}

/// Functions that read the input arguments as integers.
impl<H: HostRuntime, S: state::PrimIn> Environment<H, S> {
    /// The first raw argument, verbatim.
    pub fn val0(&self) -> (v: u32)
        ensures
            v == self.args().input_ptr,
    {
        self.inner.args.input_ptr
    }

    /// The second raw argument, verbatim.
    pub fn val1(&self) -> (v: u32)
        ensures
            v == self.args().input_len,
    {
        self.inner.args.input_len
    }
}

/// Functions that treat the input arguments as a pointer to a buffer.
impl<H: HostRuntime, S: state::BufIn> Environment<H, S> {
    /// The number of input bytes actually read by a `read` bounded by
    /// `max_len`: the declared input length, clamped to `max_len`.
    pub open spec fn clamped_input_len(&self, max_len: int) -> int {
        if max_len < self.args().input_len {
            max_len
        } else {
            self.args().input_len as int
        }
    }

    /// The declared input length, as passed in by the guest.
    ///
    /// A handler uses this value to size the dynamic part of its weight
    /// charge before reading the input.
    pub fn in_len(&self) -> (len: u32)
        ensures
            len == self.args().input_len,
    {
        self.inner.args.input_len
    }

    /// Reads the lesser of `max_len` and the declared input length in bytes
    /// from guest memory, starting at the declared input pointer.
    ///
    /// This charges no weight. The caller must charge an appropriate amount,
    /// sized by `max_len` or by `in_len`, before reading.
    pub fn read(&self, max_len: u32) -> (r: Result<Vec<u8>, DispatchError>)
        ensures
            r is Ok <==> self.args().input_ptr + self.clamped_input_len(max_len as int)
                <= self.mem().len(),
            r matches Ok(v) ==> v@ == self.mem().subrange(
                self.args().input_ptr as int,
                self.args().input_ptr + self.clamped_input_len(max_len as int),
            ),
            r matches Ok(v) ==> v@.len() == self.clamped_input_len(max_len as int),
            r matches Err(e) ==> e == DispatchError::MemoryAccessFault,
    {
        let len: u32 = if max_len < self.inner.args.input_len {
            max_len
        } else {
            self.inner.args.input_len
        };
        self.inner.runtime.read_memory(self.inner.args.input_ptr, len)
    }

    /// Reads the lesser of `buffer.len()` and the declared input length in
    /// bytes from guest memory, filling the caller-supplied buffer in place
    /// and shrinking it to the copied length. Apart from reusing an existing
    /// allocation this is equivalent to `read`.
    pub fn read_into(&self, buffer: &mut Vec<u8>) -> (r: Result<(), DispatchError>)
        ensures
            r is Ok <==> self.args().input_ptr + self.clamped_input_len(old(buffer)@.len() as int)
                <= self.mem().len(),
            r is Ok ==> final(buffer)@ == self.mem().subrange(
                self.args().input_ptr as int,
                self.args().input_ptr + self.clamped_input_len(old(buffer)@.len() as int),
            ),
            r is Err ==> final(buffer)@ == old(buffer)@,
            r matches Err(e) ==> e == DispatchError::MemoryAccessFault,
    {
        let len: usize = if buffer.len() < self.inner.args.input_len as usize {
            buffer.len()
        } else {
            self.inner.args.input_len as usize
        };
        match self.inner.runtime.read_memory_into(self.inner.args.input_ptr, len, buffer) {
            Ok(u) => {
                buffer.truncate(len);
                proof {
                    assert_seqs_equal!(
                        buffer@ == self.mem().subrange(
                            self.args().input_ptr as int,
                            self.args().input_ptr + self.clamped_input_len(
                                old(buffer)@.len() as int,
                            ),
                        )
                    );
                }
                Ok(u)
            },
            Err(e) => Err(e),
        }
    }

    /// Reads exactly the declared input length in bytes from guest memory and
    /// decodes them into a fixed-size typed value.
    ///
    /// This is intended for types whose encoded size is bounded and known, so
    /// that the cost of the read is already folded into a charge sized for
    /// the type.
    pub fn read_as<T: FixedDecode>(&mut self) -> (r: Result<T, DispatchError>)
        ensures
            *final(self) == *old(self),
            old(self).args().input_ptr + old(self).args().input_len <= old(self).mem().len()
                ==> {
                    let input = old(self).mem().subrange(
                        old(self).args().input_ptr as int,
                        old(self).args().input_ptr + old(self).args().input_len,
                    );
                    &&& (r is Ok <==> T::spec_decode(input) is Some)
                    &&& (r matches Ok(v) ==> T::spec_decode(input) == Some(v))
                    &&& (r matches Err(e) ==> e == DispatchError::DecodeFailure)
                },
            old(self).args().input_ptr + old(self).args().input_len > old(self).mem().len()
                ==> (r matches Err(e) && e == DispatchError::MemoryAccessFault),
    {
        match self.inner.runtime.read_memory(self.inner.args.input_ptr, self.inner.args.input_len)
        {
            Ok(bytes) => T::decode(bytes.as_slice()),
            Err(e) => Err(e),
        }
    }
}

/// Functions that read the output arguments as integers.
impl<H: HostRuntime, S: state::PrimOut> Environment<H, S> {
    /// The third raw argument, verbatim.
    pub fn val2(&self) -> (v: u32)
        ensures
            v == self.args().output_ptr,
    {
        self.inner.args.output_ptr
    }

    /// The fourth raw argument, verbatim.
    pub fn val3(&self) -> (v: u32)
        ensures
            v == self.args().output_len_ptr,
    {
        self.inner.args.output_len_ptr
    }
}

/// The weight a `write` debits for copying `len` bytes: the per-byte weight
/// times the byte count, saturating at the largest weight; nothing when no
/// per-byte weight was supplied.
pub open spec fn write_charge(weight_per_byte: Option<Weight>, len: nat) -> Weight {
    match weight_per_byte {
        Some(w) => if w * len > u64::MAX {
            u64::MAX as Weight
        } else {
            (w * len) as Weight
        },
        None => 0,
    }
}

/// `a * b`, saturating at the largest weight.
fn saturating_mul(a: u64, b: u64) -> (r: u64)
    ensures
        r == if a * b > u64::MAX {
            u64::MAX as int
        } else {
            a * b
        },
{
    match a.checked_mul(b) {
        Some(v) => v,
        None => u64::MAX,
    }
}

/// Functions that treat the output arguments as a pointer to a buffer.
impl<H: HostRuntime, S: state::BufOut> Environment<H, S> {
    /// Whether a write under `allow_skip` is skipped outright: the guest
    /// supplied the reserved sentinel value as the output pointer to declare
    /// that it does not need the result.
    pub open spec fn skips_output(&self, allow_skip: bool) -> bool {
        allow_skip && self.args().output_ptr == u32::MAX
    }

    /// Whether the declared output capacity can be read at all: the four
    /// bytes it occupies lie inside guest memory.
    pub open spec fn out_capacity_readable(&self) -> bool {
        self.args().output_len_ptr + 4 <= self.mem().len()
    }

    /// The output capacity the guest declared, read from guest memory at the
    /// fourth raw argument.
    pub open spec fn out_capacity(&self) -> u32 {
        vstd::bytes::spec_u32_from_le_bytes(
            self.mem().subrange(
                self.args().output_len_ptr as int,
                self.args().output_len_ptr + 4,
            ),
        )
    }

    /// Guest memory after a completed write of `data`: the bytes themselves
    /// at the output pointer, then the written length at the capacity
    /// pointer.
    pub open spec fn output_written(&self, data: Seq<u8>) -> Seq<u8> {
        splice_bytes(
            splice_bytes(self.mem(), self.args().output_ptr as int, data),
            self.args().output_len_ptr as int,
            vstd::bytes::spec_u32_to_le_bytes(data.len() as u32),
        )
    }

    /// Write `buffer` to the guest-supplied output buffer, recording the
    /// written length at the guest-supplied capacity pointer.
    ///
    /// If `allow_skip` is set and the guest supplied the reserved sentinel
    /// value as the output pointer, the write is skipped entirely and no
    /// weight is charged. Otherwise the write fails with
    /// `OutputBufferTooSmall` when the guest-declared capacity is smaller
    /// than `buffer`, with guest memory untouched. When the copy does happen
    /// and `weight_per_byte` was supplied, a charge of `weight_per_byte`
    /// times the buffer length is debited immediately before the copy — never
    /// on a skip or a capacity failure.
    pub fn write(
        &mut self,
        buffer: &[u8],
        allow_skip: bool,
        weight_per_byte: Option<Weight>,
    ) -> (r: Result<(), DispatchError>)
        ensures
            final(self).args() == old(self).args(),
            old(self).skips_output(allow_skip) ==> r is Ok
                && final(self).mem() == old(self).mem()
                && final(self).gas_left() == old(self).gas_left(),
            !old(self).skips_output(allow_skip) && !old(self).out_capacity_readable() ==> (
            r matches Err(e) && e == DispatchError::MemoryAccessFault)
                && final(self).mem() == old(self).mem()
                && final(self).gas_left() == old(self).gas_left(),
            !old(self).skips_output(allow_skip) && old(self).out_capacity_readable()
                && old(self).out_capacity() < buffer@.len() ==> (
            r matches Err(e) && e == DispatchError::OutputBufferTooSmall)
                && final(self).mem() == old(self).mem()
                && final(self).gas_left() == old(self).gas_left(),
            !old(self).skips_output(allow_skip) && old(self).out_capacity_readable()
                && buffer@.len() <= old(self).out_capacity()
                && !can_charge(old(self).gas_left(), write_charge(weight_per_byte, buffer@.len()))
                ==> (r matches Err(e) && e == DispatchError::InsufficientWeight)
                && final(self).mem() == old(self).mem()
                && final(self).gas_left() == old(self).gas_left(),
            !old(self).skips_output(allow_skip) && old(self).out_capacity_readable()
                && buffer@.len() <= old(self).out_capacity()
                && can_charge(old(self).gas_left(), write_charge(weight_per_byte, buffer@.len()))
                && old(self).args().output_ptr + buffer@.len() > old(self).mem().len() ==> (
            r matches Err(e) && e == DispatchError::MemoryAccessFault)
                && final(self).mem() == old(self).mem()
                && final(self).gas_left() == old(self).gas_left() - write_charge(
                weight_per_byte,
                buffer@.len(),
            ),
            !old(self).skips_output(allow_skip) && old(self).out_capacity_readable()
                && buffer@.len() <= old(self).out_capacity()
                && can_charge(old(self).gas_left(), write_charge(weight_per_byte, buffer@.len()))
                && old(self).args().output_ptr + buffer@.len() <= old(self).mem().len() ==> r is Ok
                && final(self).mem() == old(self).output_written(buffer@)
                && final(self).gas_left() == old(self).gas_left() - write_charge(
                weight_per_byte,
                buffer@.len(),
            ),
    {
        if allow_skip && self.inner.args.output_ptr == u32::MAX {
            return Ok(());
        }
        let cap_bytes: Vec<u8> = match self.inner.runtime.read_memory(
            self.inner.args.output_len_ptr,
            4,
        ) {
            Ok(v) => v,
            Err(e) => {
                return Err(e);
            },
        };
        let cap: u32 = vstd::bytes::u32_from_le_bytes(cap_bytes.as_slice());
        if (cap as usize) < buffer.len() {
            return Err(DispatchError::OutputBufferTooSmall);
        }
        if let Some(w) = weight_per_byte {
            let amount: u64 = saturating_mul(w, buffer.len() as u64);
            match self.inner.runtime.charge_gas(amount) {
                Ok(u) => u,
                Err(e) => {
                    return Err(e);
                },
            };
        }
        match self.inner.runtime.write_memory(self.inner.args.output_ptr, buffer) {
            Ok(u) => u,
            Err(e) => {
                return Err(e);
            },
        };
        let len_bytes: Vec<u8> = vstd::bytes::u32_to_le_bytes(buffer.len() as u32);
        match self.inner.runtime.write_memory(self.inner.args.output_len_ptr, len_bytes.as_slice())
        {
            Ok(u) => Ok(u),
            Err(e) => Err(e),
        }
    }
}

/// Determines the exit behaviour and return value of a chain extension.
#[derive(Debug, PartialEq, Eq)]
pub enum RetVal {
    /// The chain extension returns the supplied value to its calling guest,
    /// which resumes execution normally.
    Converging(u32),
    /// Control does not return to the calling guest: its execution ends now,
    /// `data` becomes the call's result buffer, and `flags` carries
    /// host-defined status bits.
    Diverging {
        /// Host-defined status bits handed back with the result buffer.
        flags: u32,
        /// The result buffer of the terminated call.
        data: Vec<u8>,
    },
}

/// The contract a host author implements to extend the set of operations
/// callable by a guest.
///
/// `call` is the single entry point: it receives the operation identifier and
/// an environment in the initial mode, and decides everything else. `enabled`
/// is a static gate; while it answers `false`, the dispatch layer never
/// invokes `call` and fails the operation with `ExtensionsDisabled` instead
/// (see [`dispatch_call`]).
pub trait ChainExtension<H: HostRuntime> {
    /// Whether this extension is switched on, as the contracts see it.
    spec fn enabled_spec() -> bool;

    /// Whether this extension is switched on.
    fn enabled() -> (r: bool)
        ensures
            r == Self::enabled_spec(),
    ;

    /// Handle the operation `func_id` within `env`. On `Err` the guest call
    /// is aborted and the error passed through; otherwise the returned value
    /// decides how the guest resumes.
    fn call(func_id: u32, env: Environment<H, state::Init>) -> Result<RetVal, DispatchError>;
}

/// The implementation that indicates that no chain extension is available.
///
/// Its gate is closed, so `call` is never reached through [`dispatch_call`];
/// were it ever invoked regardless, it fails deterministically rather than
/// standing as unreachable code.
impl<H: HostRuntime> ChainExtension<H> for () {
    open spec fn enabled_spec() -> bool {
        false
    }

    fn enabled() -> (r: bool) {
        false
    }

    fn call(func_id: u32, env: Environment<H, state::Init>) -> (r: Result<RetVal, DispatchError>)
        ensures
            r matches Err(e) && e == DispatchError::ExtensionsDisabled,
    {
        Err(DispatchError::ExtensionsDisabled)
    }
}

/// Route one guest trap to the chain extension `X`, honouring its gate: while
/// `X` is disabled its handler is never invoked, and the caller observes
/// `ExtensionsDisabled` instead; while it is enabled, the arguments are
/// handed on verbatim and the result is the handler's own verdict.
pub fn dispatch_call<H: HostRuntime, X: ChainExtension<H>>(
    func_id: u32,
    env: Environment<H, state::Init>,
) -> (r: Result<RetVal, DispatchError>)
    ensures
        !X::enabled_spec() ==> (r matches Err(e) && e == DispatchError::ExtensionsDisabled),
        X::enabled_spec() ==> call_ensures(X::call, (func_id, env), r),
{
    if X::enabled() {
        X::call(func_id, env)
    } else {
        Err(DispatchError::ExtensionsDisabled)
    }
}

} // verus!
