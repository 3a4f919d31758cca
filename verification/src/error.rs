//! The closed set of failures that activating a hook can report.

use vstd::prelude::*;
use vstd::string::StringExecFns;

verus! {

/// A failure reported by the hooking engine that patches machine code.
#[derive(Debug, Clone, PartialEq, Eq)]
pub enum EngineError {
    /// The address for the target and detour are identical.
    SameAddress,
    /// The address does not contain valid instructions.
    InvalidCode,
    /// The address has no available area for patching.
    NoPatchArea,
    /// The address is not executable memory.
    NotExecutable,
    /// The detour is not initialized.
    NotInitialized,
    /// The detour is already initialized.
    AlreadyInitialized,
    /// The system is out of executable memory.
    OutOfMemory,
    /// The address contains an instruction that prevents detouring.
    UnsupportedInstruction,
    /// A memory operation failed; the payload is the engine's own account.
    RegionFailure(String),
}

/// Why a hook could not be activated.
#[derive(Debug, Clone, PartialEq, Eq)]
pub enum Error {
    /// The hooking engine refused an operation.
    DetourError(EngineError),
    /// The target module is absent from the process.
    ModuleNotLoaded,
    /// The target module is loaded but does not export the symbol.
    SymbolNotFound,
}

impl EngineError {
    /// The variant's name, with the payload in brackets where there is one.
    pub open spec fn spec_name(self) -> Seq<char> {
        match self {
            EngineError::SameAddress => "SameAddress"@,
            EngineError::InvalidCode => "InvalidCode"@,
            EngineError::NoPatchArea => "NoPatchArea"@,
            EngineError::NotExecutable => "NotExecutable"@,
            EngineError::NotInitialized => "NotInitialized"@,
            EngineError::AlreadyInitialized => "AlreadyInitialized"@,
            EngineError::OutOfMemory => "OutOfMemory"@,
            EngineError::UnsupportedInstruction => "UnsupportedInstruction"@,
            EngineError::RegionFailure(detail) => "RegionFailure("@ + detail@ + ")"@,
        }
    }

    pub fn name(&self) -> (r: String)
        ensures
            r@ == self.spec_name(),
    {
        match self {
            EngineError::SameAddress => String::from_str("SameAddress"),
            EngineError::InvalidCode => String::from_str("InvalidCode"),
            EngineError::NoPatchArea => String::from_str("NoPatchArea"),
            EngineError::NotExecutable => String::from_str("NotExecutable"),
            EngineError::NotInitialized => String::from_str("NotInitialized"),
            EngineError::AlreadyInitialized => String::from_str("AlreadyInitialized"),
            EngineError::OutOfMemory => String::from_str("OutOfMemory"),
            EngineError::UnsupportedInstruction => String::from_str("UnsupportedInstruction"),
            EngineError::RegionFailure(detail) => {
                String::from_str("RegionFailure(").concat(detail.as_str()).concat(")")
            },
        }
    }
}

impl Error {
    /// The text shown to the host for this failure.
    pub open spec fn spec_message(self) -> Seq<char> {
        match self {
            Error::DetourError(e) => "Detour Error: "@ + e.spec_name(),
            Error::ModuleNotLoaded => "Module not loaded"@,
            Error::SymbolNotFound => "Symbol not found"@,
        }
    }

    pub fn message(&self) -> (r: String)
        ensures
            r@ == self.spec_message(),
    {
        match self {
            Error::DetourError(e) => {
                let name = e.name();
                String::from_str("Detour Error: ").concat(name.as_str())
            },
            Error::ModuleNotLoaded => String::from_str("Module not loaded"),
            Error::SymbolNotFound => String::from_str("Symbol not found"),
        }
    }
}

impl From<EngineError> for Error {
    fn from(value: EngineError) -> (r: Self) {
        Error::DetourError(value)
    }
}

impl vstd::std_specs::convert::FromSpecImpl<EngineError> for Error {
    open spec fn obeys_from_spec() -> bool {
        true
    }

    open spec fn from_spec(value: EngineError) -> Self {
        Error::DetourError(value)
    }
}

/// What the host is told after the engine has answered: the engine's
/// failure, wrapped, or success.
pub open spec fn reported(outcome: Result<(), EngineError>) -> Result<(), Error> {
    match outcome {
        Ok(()) => Ok(()),
        Err(e) => Err(Error::DetourError(e)),
    }
}

/// Wraps the engine's answer for the host.
pub fn activation_result(outcome: Result<(), EngineError>) -> (r: Result<(), Error>)
    ensures
        r == reported(outcome),
{
    match outcome {
        Ok(()) => Ok(()),
        Err(e) => Err(Error::from(e)),
    }
}

} // verus!
