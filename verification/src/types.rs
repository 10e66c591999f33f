//! What crosses to the host as it is: the configuration that the host hands
//! over, and the engine as the host holds it.

use vstd::prelude::*;
use std::sync::Arc;
use rhai::Engine;

verus! {

/// Engine limits as the host states them: `0` stands for "no limit", and the
/// switches are `0` or non-zero.
#[derive(Debug, Clone, Copy)]
pub struct CRhaiConfig {
    /// Operations a script may perform before it is aborted (0 = unlimited).
    pub max_operations: u64,
    /// Depth of the call stack (0 = unlimited).
    pub max_stack_depth: u64,
    /// Length of a string in bytes (0 = unlimited).
    pub max_string_length: u64,
    /// Time a script may run, in milliseconds (0 = no timeout).
    pub timeout_ms: u64,
    /// Time a deferred host call may take, in seconds (0 = the default).
    pub async_timeout_seconds: u64,
    /// Non-zero switches file I/O off.
    pub disable_file_io: u8,
    /// Non-zero switches `eval` off.
    pub disable_eval: u8,
    /// Non-zero switches module loading off.
    pub disable_modules: u8,
}

impl CRhaiConfig {
    /// The configuration that `secure_defaults` returns.
    pub open spec fn spec_secure_defaults() -> CRhaiConfig {
        CRhaiConfig {
            max_operations: 1_000_000,
            max_stack_depth: 100,
            max_string_length: 10_485_760,
            timeout_ms: 5000,
            async_timeout_seconds: 30,
            disable_file_io: 1,
            disable_eval: 1,
            disable_modules: 1,
        }
    }

    /// Every sandbox switch on, and limits that suit untrusted scripts.
    pub fn secure_defaults() -> (config: Self)
        ensures
            config == Self::spec_secure_defaults(),
    {
        CRhaiConfig {
            max_operations: 1_000_000,
            max_stack_depth: 100,
            max_string_length: 10_485_760,
            timeout_ms: 5000,
            async_timeout_seconds: 30,
            disable_file_io: 1,
            disable_eval: 1,
            disable_modules: 1,
        }
    }
}

/// An engine as the host holds it: the engine itself, shared with the
/// threads that run scripts on it, and the time that its host functions are
/// given for a deferred result.
pub struct CRhaiEngine {
    /// The engine.
    pub inner: Arc<Engine>,
    /// Seconds that a deferred result may take.
    pub async_timeout_seconds: u64,
}

/// What the host is told where a call names no engine.
pub const NO_ENGINE_MESSAGE: &'static str = "Engine pointer is null";

impl CRhaiEngine {
    /// The engine inside.
    pub open spec fn spec_engine(&self) -> Engine {
        *self.inner
    }

    /// Seconds that a deferred result may take.
    pub open spec fn spec_async_timeout_seconds(&self) -> u64 {
        self.async_timeout_seconds
    }

    /// Wraps an engine for the host.
    pub fn new(engine: Engine, async_timeout_seconds: u64) -> (wrapper: Self)
        ensures
            wrapper.spec_engine() == engine,
            wrapper.spec_async_timeout_seconds() == async_timeout_seconds,
    {
        CRhaiEngine { inner: Arc::new(engine), async_timeout_seconds }
    }

    /// The engine inside.
    pub fn engine(&self) -> (engine: &Engine)
        ensures
            *engine == self.spec_engine(),
    {
        &*self.inner
    }

    /// Seconds that a deferred result of a host function may take.
    pub fn async_timeout_seconds(&self) -> (seconds: u64)
        ensures
            seconds == self.spec_async_timeout_seconds(),
    {
        self.async_timeout_seconds
    }
}

impl Default for CRhaiConfig {
    fn default() -> (config: Self)
        ensures
            config == CRhaiConfig::spec_secure_defaults(),
    {
        CRhaiConfig::secure_defaults()
    }
}

} // verus!
