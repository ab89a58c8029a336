//! A typestate-governed boundary between a metered virtual machine guest and
//! host-provided operations.
//!
//! A guest invokes a single generic host trap with four raw 32-bit arguments
//! whose meaning depends on the operation it asked for. This crate lets a
//! host-side handler declare, through a one-shot mode transition, how those
//! four integers are to be interpreted — as plain integers or as pointer and
//! length pairs into guest memory — before any memory access happens, and ties
//! every memory operation to an explicit, caller-controlled weight charge.

mod chain_extension;
mod codec;
mod error;
mod host;
pub mod state;

pub use chain_extension::{
    CallArguments,
    ChainExtension,
    Environment,
    RetVal,
    dispatch_call,
    write_charge,
};
pub use codec::FixedDecode;
pub use state::Init as InitState;
pub use error::DispatchError;
pub use host::{HostRuntime, InMemoryHost, Weight};
pub use host::{can_charge, gas_after_charge, lemma_charges_accumulate, splice_bytes};
