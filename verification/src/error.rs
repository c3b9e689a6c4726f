use vstd::prelude::*;

verus! {

/// The library's error type. Every failure is local and recoverable;
/// each variant carries a human-readable description.
#[derive(Debug, Clone)]
pub enum TrayError {
    InitializationError(String),
    IconLoadError(String),
    MenuError(String),
    EventError(String),
    ConfigError(String),
}

} // verus!
