//! The closed error taxonomy shared by all layers of the sandbox, and the
//! conversions that collapse it into the generic top-level error callers see.

use vstd::prelude::*;

verus! {

/// Every way a host-function call or a guest-memory access can fail.
///
/// A failure is converted to exactly one of these kinds at the point of
/// detection; none of them is ever retried.
#[derive(Clone, Copy, Debug, PartialEq, Eq, Structural)]
pub enum Wasm2EngineError {
    HostMisbehavior,
    OutOfGas,
    Panic,
    EncryptionError,
    DecryptionError,
    SerializationError,
    DeserializationError,
    Base32Error,
    MemoryAllocationError,
    MemoryReadError,
    MemoryWriteError,
    /// The contract attempted to write to storage during a query.
    UnauthorizedWrite,
    NonExistentImportFunction,
}

/// The generic top-level error: at the outermost boundary every engine error
/// collapses into a single "call failed" message and the kind is discarded.
#[derive(Debug)]
pub enum StdError {
    GenericErr { msg: String },
}

impl Wasm2EngineError {
    /// The name of the kind, as rendered into the top-level error message.
    pub open spec fn describe_spec(self) -> Seq<char> {
        match self {
            Wasm2EngineError::HostMisbehavior => "HostMisbehavior"@,
            Wasm2EngineError::OutOfGas => "OutOfGas"@,
            Wasm2EngineError::Panic => "Panic"@,
            Wasm2EngineError::EncryptionError => "EncryptionError"@,
            Wasm2EngineError::DecryptionError => "DecryptionError"@,
            Wasm2EngineError::SerializationError => "SerializationError"@,
            Wasm2EngineError::DeserializationError => "DeserializationError"@,
            Wasm2EngineError::Base32Error => "Base32Error"@,
            Wasm2EngineError::MemoryAllocationError => "MemoryAllocationError"@,
            Wasm2EngineError::MemoryReadError => "MemoryReadError"@,
            Wasm2EngineError::MemoryWriteError => "MemoryWriteError"@,
            Wasm2EngineError::UnauthorizedWrite => "UnauthorizedWrite"@,
            Wasm2EngineError::NonExistentImportFunction => "NonExistentImportFunction"@,
        }
    }

    /// Renders the kind's name.
    pub fn describe(&self) -> (r: String)
        ensures
            r@ == self.describe_spec(),
    {
        match self {
            Wasm2EngineError::HostMisbehavior => "HostMisbehavior".to_owned(),
            Wasm2EngineError::OutOfGas => "OutOfGas".to_owned(),
            Wasm2EngineError::Panic => "Panic".to_owned(),
            Wasm2EngineError::EncryptionError => "EncryptionError".to_owned(),
            Wasm2EngineError::DecryptionError => "DecryptionError".to_owned(),
            Wasm2EngineError::SerializationError => "SerializationError".to_owned(),
            Wasm2EngineError::DeserializationError => "DeserializationError".to_owned(),
            Wasm2EngineError::Base32Error => "Base32Error".to_owned(),
            Wasm2EngineError::MemoryAllocationError => "MemoryAllocationError".to_owned(),
            Wasm2EngineError::MemoryReadError => "MemoryReadError".to_owned(),
            Wasm2EngineError::MemoryWriteError => "MemoryWriteError".to_owned(),
            Wasm2EngineError::UnauthorizedWrite => "UnauthorizedWrite".to_owned(),
            Wasm2EngineError::NonExistentImportFunction => "NonExistentImportFunction".to_owned(),
        }
    }
}

#[verifier::external_type_specification]
#[verifier::external_body]
pub struct ExSerError(serde_json_wasm::ser::Error);

/// Relies on the serializer error's Display rendering for the diagnostic
/// message text.
#[verifier::external_body]
fn serde_error_string(err: &serde_json_wasm::ser::Error) -> (r: String) {
    err.to_string()
}

/// Collapses a serializer error into the generic top-level error.
pub fn serde_error_to_stderr(err: &serde_json_wasm::ser::Error) -> (r: StdError)
    ensures
        r is GenericErr,
{
    StdError::GenericErr { msg: serde_error_string(err) }
}

/// Maps any interpreter error — a trap, a link failure, a bad return shape —
/// to the Panic kind; the interpreter's own diagnostic is deliberately
/// discarded here, as callers only learn "guest call failed".
pub fn wasmi_error_to_wasm2_error(_err: &wasmi::Error) -> (r: Wasm2EngineError)
    ensures
        r is Panic,
{
    Wasm2EngineError::Panic
}

/// Collapses an engine error into the generic top-level error, keeping only
/// the kind's name as the human-readable message.
pub fn wasm2_error_to_stderr(err: Wasm2EngineError) -> (r: StdError)
    ensures
        r matches StdError::GenericErr { msg } && msg@ == err.describe_spec(),
{
    StdError::GenericErr { msg: err.describe() }
}

} // verus!
