//! Host-side execution sandbox for contract modules compiled to wasm, plus the
//! guest-side runtime shim such contracts are linked against.
//!
//! The host loads a gzip-compressed module, checks that it declares no implicit
//! start routine, instantiates it, and drives its `handle`/`query` entry points
//! through a pointer-validated memory-marshaling protocol built on 12-byte
//! `Region` headers living in guest linear memory.

pub mod engine;
pub mod errors;
pub mod exports;
pub mod externals;
pub mod instance;
pub mod interpreter;
pub mod memory;
pub mod operations;
pub mod region;
pub mod startcheck;
pub mod storage;
pub mod traits;

pub use crate::engine::{deflate_wasm, parse_wasm, start_engine, start_engine_from_wasm_binary};
pub use crate::engine::Engine;
pub use crate::errors::{StdError, Wasm2EngineError};
pub use crate::exports::{do_handle, do_query, make_dependencies};
pub use crate::externals::HostFunctions;
pub use crate::instance::{Wasm2Instance, Wasm2Operation};
pub use crate::operations::{handle, HandleMsg, HandleResponse};
pub use crate::region::Region;
