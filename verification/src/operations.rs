//! The top-level handle operation: load a compressed module, marshal the
//! environment and message into guest memory, invoke the guest's `handle`
//! entry point, and extract its result. At this boundary every engine error
//! collapses into the generic top-level error.

use vstd::prelude::*;

use vstd::slice::slice_to_vec;
use vstd::string::StringSliceAdditionalSpecFns;

use crate::engine::{gunzip_of, start_engine_from_wasm_binary};
use crate::errors::{serde_error_to_stderr, wasm2_error_to_stderr, StdError};
use crate::instance::Wasm2Operation;
use crate::startcheck::module_has_start;
use crate::traits::{Api, Extern, Querier, Storage};

verus! {

#[verifier::external_type_specification]
#[verifier::external_body]
pub struct ExEnv(cosmwasm_std::Env);

/// Relies on serde_json_wasm::to_vec on the environment record: JSON
/// serialization of an interpreter-opaque value.
#[verifier::external_body]
fn serialize_env(env: &cosmwasm_std::Env) -> (r: Result<Vec<u8>, serde_json_wasm::ser::Error>) {
    serde_json_wasm::to_vec(env)
}

/// The message handed to the guest's `handle` entry point.
#[derive(Clone, Debug, PartialEq, Eq, Structural)]
pub enum HandleMsg {
    DoNothing {},
}

/// The JSON bytes of a message, exactly as the guest's deserializer expects
/// them.
pub open spec fn handle_msg_json(m: HandleMsg) -> Seq<u8> {
    match m {
        HandleMsg::DoNothing {  } => "{\"do_nothing\":{}}".spec_bytes(),
    }
}

impl HandleMsg {
    /// Serializes the message.
    pub fn to_json_bytes(&self) -> (r: Vec<u8>)
        ensures
            r@ == handle_msg_json(*self),
    {
        match self {
            HandleMsg::DoNothing {  } => slice_to_vec("{\"do_nothing\":{}}".as_bytes()),
        }
    }
}

/// The response handed back to the caller after a successful `handle`
/// invocation, carrying the guest's extracted result bytes.
#[derive(Clone, Debug)]
pub struct HandleResponse {
    pub data: Option<Vec<u8>>,
}

impl Default for HandleResponse {
    fn default() -> (r: Self)
        ensures
            r.data is None,
    {
        HandleResponse { data: None }
    }
}

/// One whole `handle` call: start the engine on the compressed module under
/// the Handle permission mode, write the serialized environment and message
/// into guest memory, invoke `handle`, and extract the Region its return
/// value points at. A corrupt module stream, a module with a start routine,
/// and every marshaling failure are errors; success answers the guest's
/// result bytes. (Success itself cannot be promised: the guest decides it.)
pub fn handle<S: Storage, A: Api, Q: Querier>(
    data: &[u8],
    deps: Extern<S, A, Q>,
    env: &cosmwasm_std::Env,
) -> (r: Result<HandleResponse, StdError>)
    ensures
        gunzip_of(data@) is None ==> r is Err,
        (gunzip_of(data@) matches Some(w) && module_has_start(w) != Some(false)) ==> r is Err,
        r is Ok ==> r->Ok_0.data is Some,
{
    let mut engine = match start_engine_from_wasm_binary(data, deps, Wasm2Operation::Handle) {
        Ok(e) => e,
        Err(e) => {
            return Err(e);
        },
    };
    let env_bytes = match serialize_env(env) {
        Ok(b) => b,
        Err(e) => {
            return Err(serde_error_to_stderr(&e));
        },
    };
    let msg = HandleMsg::DoNothing {  };
    let msg_bytes = msg.to_json_bytes();
    let env_ptr = match engine.write_to_memory(env_bytes.as_slice()) {
        Ok(p) => p,
        Err(e) => {
            return Err(wasm2_error_to_stderr(e));
        },
    };
    let msg_ptr = match engine.write_to_memory(msg_bytes.as_slice()) {
        Ok(p) => p,
        Err(e) => {
            return Err(wasm2_error_to_stderr(e));
        },
    };
    let res_vec_ptr = match engine.handle(env_ptr, msg_ptr) {
        Ok(p) => p,
        Err(e) => {
            return Err(wasm2_error_to_stderr(e));
        },
    };
    let res_vec = match engine.extract_vector(res_vec_ptr) {
        Ok(v) => v,
        Err(e) => {
            return Err(wasm2_error_to_stderr(e));
        },
    };
    Ok(HandleResponse { data: Some(res_vec) })
}

} // verus!
