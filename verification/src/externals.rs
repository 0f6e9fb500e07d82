//! The index-based host-function call table: the numeric index the
//! interpreter supplies at call time is decoded once into a closed tag and
//! dispatched by pattern match, so the wire-level numbering lives in exactly
//! one place. Unknown indices fail with `NonExistentImportFunction`.

use vstd::prelude::*;

use crate::errors::Wasm2EngineError;
use crate::instance::Wasm2Instance;
use crate::memory::GuestMem;
use crate::traits::{Api, Querier, Storage};

verus! {

/// The closed set of host functions a guest can import, plus `Unknown` for
/// every unassigned index.
#[derive(Clone, Copy, Debug, PartialEq, Eq, Structural)]
pub enum HostFunctions {
    ReadDbIndex,
    WriteDbIndex,
    RemoveDbIndex,
    CanonicalizeAddressIndex,
    HumanizeAddressIndex,
    QueryChainIndex,
    DebugPrintIndex,
    Unknown,
}

impl HostFunctions {
    /// The wire-level index of each host function. `Unknown` carries the
    /// first index with no assigned function.
    pub open spec fn index_spec(self) -> usize {
        match self {
            HostFunctions::ReadDbIndex => 0,
            HostFunctions::WriteDbIndex => 1,
            HostFunctions::RemoveDbIndex => 2,
            HostFunctions::CanonicalizeAddressIndex => 3,
            HostFunctions::HumanizeAddressIndex => 4,
            HostFunctions::QueryChainIndex => 6,
            HostFunctions::DebugPrintIndex => 254,
            HostFunctions::Unknown => 255,
        }
    }

    /// The host function assigned to a wire-level index.
    pub open spec fn from_index_spec(v: usize) -> HostFunctions {
        if v == 0 {
            HostFunctions::ReadDbIndex
        } else if v == 1 {
            HostFunctions::WriteDbIndex
        } else if v == 2 {
            HostFunctions::RemoveDbIndex
        } else if v == 3 {
            HostFunctions::CanonicalizeAddressIndex
        } else if v == 4 {
            HostFunctions::HumanizeAddressIndex
        } else if v == 6 {
            HostFunctions::QueryChainIndex
        } else if v == 254 {
            HostFunctions::DebugPrintIndex
        } else {
            HostFunctions::Unknown
        }
    }
}

impl From<usize> for HostFunctions {
    fn from(v: usize) -> (r: HostFunctions) {
        match v {
            0 => HostFunctions::ReadDbIndex,
            1 => HostFunctions::WriteDbIndex,
            2 => HostFunctions::RemoveDbIndex,
            3 => HostFunctions::CanonicalizeAddressIndex,
            4 => HostFunctions::HumanizeAddressIndex,
            6 => HostFunctions::QueryChainIndex,
            254 => HostFunctions::DebugPrintIndex,
            _ => HostFunctions::Unknown,
        }
    }
}

impl vstd::std_specs::convert::FromSpecImpl<usize> for HostFunctions {
    open spec fn obeys_from_spec() -> bool {
        true
    }

    open spec fn from_spec(v: usize) -> HostFunctions {
        HostFunctions::from_index_spec(v)
    }
}

impl From<HostFunctions> for usize {
    fn from(f: HostFunctions) -> (r: usize) {
        match f {
            HostFunctions::ReadDbIndex => 0,
            HostFunctions::WriteDbIndex => 1,
            HostFunctions::RemoveDbIndex => 2,
            HostFunctions::CanonicalizeAddressIndex => 3,
            HostFunctions::HumanizeAddressIndex => 4,
            HostFunctions::QueryChainIndex => 6,
            HostFunctions::DebugPrintIndex => 254,
            HostFunctions::Unknown => 255,
        }
    }
}

impl vstd::std_specs::convert::FromSpecImpl<HostFunctions> for usize {
    open spec fn obeys_from_spec() -> bool {
        true
    }

    open spec fn from_spec(f: HostFunctions) -> usize {
        f.index_spec()
    }
}

/// How many Region-pointer arguments each assigned index consumes.
pub open spec fn args_needed(index: usize) -> int {
    match HostFunctions::from_index_spec(index) {
        HostFunctions::ReadDbIndex => 1,
        HostFunctions::WriteDbIndex => 2,
        HostFunctions::RemoveDbIndex => 1,
        HostFunctions::CanonicalizeAddressIndex => 2,
        HostFunctions::HumanizeAddressIndex => 2,
        HostFunctions::QueryChainIndex => 1,
        HostFunctions::DebugPrintIndex => 1,
        HostFunctions::Unknown => 0,
    }
}

impl<M: GuestMem, S: Storage, A: Api, Q: Querier> Wasm2Instance<M, S, A, Q> {
    /// The dispatch surface the interpreter calls whenever guest code invokes
    /// an imported host function: decodes the numeric index, checks the
    /// argument count (a short argument list is host misbehavior and changes
    /// nothing), and hands the Region-pointer arguments to the one function
    /// that owns the index. Each arm's full guarantee is that function's
    /// `_post` predicate.
    pub fn invoke_index(&mut self, index: usize, args: &Vec<i32>) -> (r: Result<
        Option<i32>,
        Wasm2EngineError,
    >)
        ensures
            HostFunctions::from_index_spec(index) is Unknown ==> r == Err::<Option<i32>, _>(
                Wasm2EngineError::NonExistentImportFunction,
            ) && *final(self) == *old(self),
            !(HostFunctions::from_index_spec(index) is Unknown) && args@.len() < args_needed(index)
                ==> r == Err::<Option<i32>, _>(Wasm2EngineError::HostMisbehavior) && *final(self)
                == *old(self),
            index == 0 && args@.len() >= 1 ==> Self::read_db_post(
                *old(self),
                *final(self),
                args@[0],
                r,
            ),
            index == 1 && args@.len() >= 2 ==> Self::write_db_post(
                *old(self),
                *final(self),
                args@[0],
                args@[1],
                r,
            ),
            index == 2 && args@.len() >= 1 ==> Self::remove_db_post(
                *old(self),
                *final(self),
                args@[0],
                r,
            ),
            index == 3 && args@.len() >= 2 ==> Self::canonicalize_address_post(
                *old(self),
                *final(self),
                args@[0],
                args@[1],
                r,
            ),
            index == 4 && args@.len() >= 2 ==> Self::humanize_address_post(
                *old(self),
                *final(self),
                args@[0],
                args@[1],
                r,
            ),
            index == 6 && args@.len() >= 1 ==> Self::query_chain_post(
                *old(self),
                *final(self),
                args@[0],
                r,
            ),
            index == 254 && args@.len() >= 1 ==> Self::debug_print_post(*old(self), args@[0], r)
                && *final(self) == *old(self),
    {
        match HostFunctions::from(index) {
            HostFunctions::ReadDbIndex => {
                if args.len() < 1 {
                    return Err(Wasm2EngineError::HostMisbehavior);
                }
                self.read_db_index(args[0])
            },
            HostFunctions::WriteDbIndex => {
                if args.len() < 2 {
                    return Err(Wasm2EngineError::HostMisbehavior);
                }
                self.write_db_index(args[0], args[1])
            },
            HostFunctions::RemoveDbIndex => {
                if args.len() < 1 {
                    return Err(Wasm2EngineError::HostMisbehavior);
                }
                self.remove_db_index(args[0])
            },
            HostFunctions::CanonicalizeAddressIndex => {
                if args.len() < 2 {
                    return Err(Wasm2EngineError::HostMisbehavior);
                }
                self.canonicalize_address_index(args[0], args[1])
            },
            HostFunctions::HumanizeAddressIndex => {
                if args.len() < 2 {
                    return Err(Wasm2EngineError::HostMisbehavior);
                }
                self.humanize_address_index(args[0], args[1])
            },
            HostFunctions::QueryChainIndex => {
                if args.len() < 1 {
                    return Err(Wasm2EngineError::HostMisbehavior);
                }
                self.query_chain_index(args[0])
            },
            HostFunctions::DebugPrintIndex => {
                if args.len() < 1 {
                    return Err(Wasm2EngineError::HostMisbehavior);
                }
                self.debug_print_index(args[0])
            },
            HostFunctions::Unknown => Err(Wasm2EngineError::NonExistentImportFunction),
        }
    }
}

} // verus!
