//! The script engine as the bridge sees it: how it is configured, what a
//! finished run means to the host, and what a script looks like before it is
//! run.
//!
//! The engine itself is rhai's. The library sets its limits, asks it whether
//! a script compiles, and turns the end of a run into what the host is told.
//! The run itself happens outside, on the thread
//! that the host chose for it; it comes back as a value or as a
//! [`ScriptError`].

use vstd::prelude::*;
use vstd::string::StringExecFns;
use rhai::Engine;
use serde_json::Value;
use crate::async_eval::AsyncEvalResult;
use crate::async_eval::EvalStatus;
use crate::error::clear_last_error;
use crate::error::set_last_error;
use crate::error::LastError;
use crate::functions::check_and_clear_async_flag;
use crate::functions::ExecutionContext;
use crate::json::json_model;
use crate::json::json_pack;
use crate::json::json_text;
use crate::json::item_trees;
use crate::json::value_text;
use crate::json::JsonParts;
use crate::json::JsonTree;
use crate::text::concat;
use crate::text::decimal_digits;
use crate::text::u64_to_text;
use crate::types::CRhaiConfig;
use crate::types::CRhaiEngine;
use crate::types::NO_ENGINE_MESSAGE;
use crate::values::encode;
use crate::values::rhai_dynamic_to_json;
use crate::values::holds_other;
use crate::values::supported;
use crate::values::ScriptTree;
use crate::values::ScriptValue;
use crate::values::ValueError;

verus! {

/// `rhai::Engine`, opaque to the proofs: of an engine only its three limits
/// are spoken of, and what it makes of a script when it compiles it.
#[verifier::external_type_specification]
#[verifier::external_body]
pub struct ExEngine(Engine);

/// The number of operations that the engine allows a script, as
/// `Engine::max_operations` reports it: 0 for no limit.
pub uninterp spec fn engine_max_operations(engine: Engine) -> u64;

/// The depth of calls that the engine allows, as `Engine::max_call_levels`
/// reports it.
pub uninterp spec fn engine_max_call_levels(engine: Engine) -> usize;

/// The length of strings that the engine allows, as
/// `Engine::max_string_size` reports it: 0 for no limit.
pub uninterp spec fn engine_max_string_size(engine: Engine) -> usize;

/// What `Engine::compile` makes of a script: `None` where it compiles, else
/// the text of the parse error.
pub uninterp spec fn compile_failure(engine: Engine, script: Seq<char>) -> Option<Seq<char>>;

/// Calls `Engine::new`.
///
/// Claimed: a new engine limits neither the number of operations nor the
/// length of strings.
#[verifier::external_body]
pub(crate) fn new_engine() -> (engine: Engine)
    ensures
        engine_max_operations(engine) == 0,
        engine_max_string_size(engine) == 0,
{
    Engine::new()
}

/// Calls `Engine::set_max_operations`.
///
/// Claimed: the engine then reports this limit, and its two other limits are
/// as before.
#[verifier::external_body]
pub(crate) fn set_max_operations(engine: &mut Engine, operations: u64)
    ensures
        engine_max_operations(*final(engine)) == operations,
        engine_max_call_levels(*final(engine)) == engine_max_call_levels(*old(engine)),
        engine_max_string_size(*final(engine)) == engine_max_string_size(*old(engine)),
{
    engine.set_max_operations(operations);
}

/// Calls `Engine::set_max_call_levels`.
///
/// Claimed: the engine then reports this limit, and its two other limits are
/// as before.
#[verifier::external_body]
pub(crate) fn set_max_call_levels(engine: &mut Engine, levels: usize)
    ensures
        engine_max_call_levels(*final(engine)) == levels,
        engine_max_operations(*final(engine)) == engine_max_operations(*old(engine)),
        engine_max_string_size(*final(engine)) == engine_max_string_size(*old(engine)),
{
    engine.set_max_call_levels(levels);
}

/// Calls `Engine::set_max_string_size`.
///
/// Claimed: the engine then reports this limit, and its two other limits are
/// as before.
#[verifier::external_body]
pub(crate) fn set_max_string_size(engine: &mut Engine, max_len: usize)
    ensures
        engine_max_string_size(*final(engine)) == max_len,
        engine_max_operations(*final(engine)) == engine_max_operations(*old(engine)),
        engine_max_call_levels(*final(engine)) == engine_max_call_levels(*old(engine)),
{
    engine.set_max_string_size(max_len);
}

/// Calls `Engine::on_print` with a callback that drops the text.
///
/// Claimed: the three limits are as before.
#[verifier::external_body]
pub(crate) fn silence_print(engine: &mut Engine)
    ensures
        engine_max_operations(*final(engine)) == engine_max_operations(*old(engine)),
        engine_max_call_levels(*final(engine)) == engine_max_call_levels(*old(engine)),
        engine_max_string_size(*final(engine)) == engine_max_string_size(*old(engine)),
{
    engine.on_print(|_| {});
}

/// Calls `Engine::on_debug` with a callback that drops the text.
///
/// Claimed: the three limits are as before.
#[verifier::external_body]
pub(crate) fn silence_debug(engine: &mut Engine)
    ensures
        engine_max_operations(*final(engine)) == engine_max_operations(*old(engine)),
        engine_max_call_levels(*final(engine)) == engine_max_call_levels(*old(engine)),
        engine_max_string_size(*final(engine)) == engine_max_string_size(*old(engine)),
{
    engine.on_debug(|_, _, _| {});
}

/// Calls `Engine::compile` and keeps the text of the parse error, if any.
///
/// Claimed: whether a script compiles, and the text of the error, depend on
/// the engine and the script alone.
#[verifier::external_body]
pub(crate) fn compile_script(engine: &Engine, script: &str) -> (failure: Option<String>)
    ensures
        match failure {
            Some(text) => compile_failure(*engine, script@) == Some(text@),
            None => compile_failure(*engine, script@) is None,
        },
{
    engine.compile(script).err().map(|error| error.to_string())
}

/// How an engine is to be set up.
#[derive(Debug, Clone)]
pub struct EngineConfig {
    /// Operations a script may perform; `None` for no limit.
    pub max_operations: Option<u64>,
    /// Depth of the call stack; `None` for the engine's own.
    pub max_stack_depth: Option<usize>,
    /// Length of a string in bytes; `None` for no limit.
    pub max_string_length: Option<usize>,
    /// Time a script may run, in milliseconds; `None` for no timeout.
    pub timeout_ms: Option<u64>,
    /// Seconds that a deferred result of a host function may take.
    pub async_timeout_seconds: u64,
    /// Whether scripts are kept from printing.
    pub disable_file_io: bool,
    /// Whether `eval` is off.
    pub disable_eval: bool,
    /// Whether module loading is off.
    pub disable_modules: bool,
}

/// Seconds that a deferred result may take where the host names no time.
pub const DEFAULT_ASYNC_TIMEOUT_SECONDS: u64 = 30;

/// A limit as the host states it: 0 stands for none.
pub open spec fn limit_of(raw: u64) -> Option<u64> {
    if raw == 0 {
        None
    } else {
        Some(raw)
    }
}

/// A size as the host states it: 0 stands for none.
pub open spec fn size_of_limit(raw: u64) -> Option<usize> {
    if raw == 0 {
        None
    } else {
        Some(raw as usize)
    }
}

impl EngineConfig {
    /// The configuration that [`EngineConfig::secure_defaults`] returns.
    pub open spec fn spec_secure_defaults() -> EngineConfig {
        EngineConfig {
            max_operations: Some(1_000_000u64),
            max_stack_depth: Some(100usize),
            max_string_length: Some(10_485_760usize),
            timeout_ms: Some(5000u64),
            async_timeout_seconds: 30,
            disable_file_io: true,
            disable_eval: true,
            disable_modules: true,
        }
    }

    /// The configuration that [`EngineConfig::from_c_config`] makes of what
    /// the host states.
    pub open spec fn spec_from_c_config(c_config: CRhaiConfig) -> EngineConfig {
        EngineConfig {
            max_operations: limit_of(c_config.max_operations),
            max_stack_depth: size_of_limit(c_config.max_stack_depth),
            max_string_length: size_of_limit(c_config.max_string_length),
            timeout_ms: limit_of(c_config.timeout_ms),
            async_timeout_seconds: if c_config.async_timeout_seconds == 0 {
                DEFAULT_ASYNC_TIMEOUT_SECONDS
            } else {
                c_config.async_timeout_seconds
            },
            disable_file_io: c_config.disable_file_io != 0,
            disable_eval: c_config.disable_eval != 0,
            disable_modules: c_config.disable_modules != 0,
        }
    }

    /// Limits that suit untrusted scripts, with every sandbox switch on.
    pub fn secure_defaults() -> (config: Self)
        ensures
            config == Self::spec_secure_defaults(),
    {
        EngineConfig {
            max_operations: Some(1_000_000),
            max_stack_depth: Some(100),
            max_string_length: Some(10_485_760),
            timeout_ms: Some(5000),
            async_timeout_seconds: 30,
            disable_file_io: true,
            disable_eval: true,
            disable_modules: true,
        }
    }

    /// Reads the configuration that the host states. A limit of 0 is no
    /// limit, a time of 0 for deferred results is the default, and a switch
    /// is on where it is not 0.
    pub fn from_c_config(c_config: &CRhaiConfig) -> (config: Self)
        ensures
            config == Self::spec_from_c_config(*c_config),
    {
        EngineConfig {
            max_operations: if c_config.max_operations == 0 {
                None
            } else {
                Some(c_config.max_operations)
            },
            max_stack_depth: if c_config.max_stack_depth == 0 {
                None
            } else {
                Some(c_config.max_stack_depth as usize)
            },
            max_string_length: if c_config.max_string_length == 0 {
                None
            } else {
                Some(c_config.max_string_length as usize)
            },
            timeout_ms: if c_config.timeout_ms == 0 {
                None
            } else {
                Some(c_config.timeout_ms)
            },
            async_timeout_seconds: if c_config.async_timeout_seconds == 0 {
                DEFAULT_ASYNC_TIMEOUT_SECONDS
            } else {
                c_config.async_timeout_seconds
            },
            disable_file_io: c_config.disable_file_io != 0,
            disable_eval: c_config.disable_eval != 0,
            disable_modules: c_config.disable_modules != 0,
        }
    }

    /// Seconds that a deferred result of a host function may take.
    pub fn async_timeout_seconds(&self) -> (seconds: u64)
        ensures
            seconds == self.async_timeout_seconds,
    {
        self.async_timeout_seconds
    }

    /// Whether `after` is `before` with the limits of this configuration
    /// set: each limit that the configuration names is the engine's, and
    /// each that it leaves open is as it was.
    pub open spec fn applied(self, before: Engine, after: Engine) -> bool {
        &&& engine_max_operations(after) == match self.max_operations {
            Some(limit) => limit,
            None => engine_max_operations(before),
        }
        &&& engine_max_call_levels(after) == match self.max_stack_depth {
            Some(limit) => limit,
            None => engine_max_call_levels(before),
        }
        &&& engine_max_string_size(after) == match self.max_string_length {
            Some(limit) => limit,
            None => engine_max_string_size(before),
        }
    }

    /// Sets the engine up as the configuration says: the limits that it
    /// names, and no printing where file I/O is off.
    pub fn apply_to_engine(&self, engine: &mut Engine)
        ensures
            self.applied(*old(engine), *final(engine)),
    {
        if let Some(max_ops) = self.max_operations {
            set_max_operations(engine, max_ops);
        }
        if let Some(max_depth) = self.max_stack_depth {
            set_max_call_levels(engine, max_depth);
        }
        if let Some(max_len) = self.max_string_length {
            set_max_string_size(engine, max_len);
        }
        if self.disable_file_io {
            silence_print(engine);
            silence_debug(engine);
        }
    }
}

/// The configuration that an engine is made with: the host's, or the secure
/// defaults where the host states none.
pub open spec fn chosen_config(config: Option<CRhaiConfig>) -> EngineConfig {
    match config {
        Some(c_config) => EngineConfig::spec_from_c_config(c_config),
        None => EngineConfig::spec_secure_defaults(),
    }
}

/// Makes an engine for the host.
///
/// The engine is set up as the host's configuration says, or with the secure
/// defaults where the host states none. A limit that the configuration leaves
/// open is as rhai has it in a new engine: none for operations and for
/// strings.
pub fn rhai_engine_new(config: Option<&CRhaiConfig>) -> (engine: CRhaiEngine)
    ensures
        ({
            let chosen = chosen_config(
                match config {
                    Some(c_config) => Some(*c_config),
                    None => None,
                },
            );
            &&& engine.spec_async_timeout_seconds() == chosen.async_timeout_seconds
            &&& engine_max_operations(engine.spec_engine()) == match chosen.max_operations {
                Some(limit) => limit,
                None => 0,
            }
            &&& engine_max_string_size(engine.spec_engine()) == match chosen.max_string_length {
                Some(limit) => limit,
                None => 0,
            }
            &&& chosen.max_stack_depth matches Some(limit) ==> engine_max_call_levels(
                engine.spec_engine(),
            ) == limit
        }),
{
    let engine_config = match config {
        Some(c_config) => EngineConfig::from_c_config(c_config),
        None => EngineConfig::secure_defaults(),
    };
    let async_timeout_seconds = engine_config.async_timeout_seconds();
    let mut engine = new_engine();
    engine_config.apply_to_engine(&mut engine);
    CRhaiEngine::new(engine, async_timeout_seconds)
}

/// How a script failed, as far as the host is told.
#[derive(Debug, Clone, PartialEq, Eq)]
pub enum ScriptError {
    /// The script does not parse.
    Parsing { message: String, line: Option<u64> },
    /// The script raised an error; `line` is `None` where the error has no
    /// position.
    Runtime { message: String, line: Option<u64> },
    /// A variable that does not exist.
    VariableNotFound { name: String, line: Option<u64> },
    /// A function that does not exist.
    FunctionNotFound { name: String, line: Option<u64> },
    /// An arithmetic error.
    Arithmetic { message: String, line: Option<u64> },
    /// A value of another type than was asked for.
    MismatchDataType { expected: String, actual: String, line: Option<u64> },
    /// An index that does not exist.
    IndexNotFound { index: String, line: Option<u64> },
    /// The script ran out of operations.
    TooManyOperations { line: Option<u64> },
    /// The script's calls went too deep.
    StackOverflow { line: Option<u64> },
    /// Any other error, with the engine's text for it.
    Other { text: String },
}

/// The number that stands for the line of an error: 0 where there is none.
pub open spec fn line_number(line: Option<u64>) -> Seq<char> {
    decimal_digits(
        match line {
            Some(number) => number as nat,
            None => 0,
        },
    )
}

/// The head of the message of a runtime error at a line.
pub open spec fn runtime_at(line: Option<u64>) -> Seq<char> {
    "Runtime error at line "@ + line_number(line) + ": "@
}

impl ScriptError {
    /// The message of each error.
    pub open spec fn spec_message(&self) -> Seq<char> {
        match self {
            ScriptError::Parsing { message, line } => "Syntax error at line "@ + line_number(
                *line,
            ) + ": "@ + message@,
            ScriptError::Runtime { message, line } => match line {
                Some(_) => runtime_at(*line) + message@,
                None => "Runtime error: "@ + message@,
            },
            ScriptError::VariableNotFound { name, line } => runtime_at(*line) + "Variable '"@
                + name@ + "' not found"@,
            ScriptError::FunctionNotFound { name, line } => runtime_at(*line) + "Function '"@
                + name@ + "' not found"@,
            ScriptError::Arithmetic { message, line } => runtime_at(*line)
                + "Arithmetic error: "@ + message@,
            ScriptError::MismatchDataType { expected, actual, line } => runtime_at(*line)
                + "Type mismatch: expected "@ + expected@ + ", got "@ + actual@,
            ScriptError::IndexNotFound { index, line } => runtime_at(*line)
                + "Index not found: "@ + index@,
            ScriptError::TooManyOperations { line } => runtime_at(*line)
                + "Script execution timeout - too many operations"@,
            ScriptError::StackOverflow { line } => runtime_at(*line) + "Stack overflow"@,
            ScriptError::Other { text } => "Runtime error: "@ + text@,
        }
    }
}

/// Writes the head of the message of a runtime error at a line.
fn runtime_at_text(line: &Option<u64>) -> (text: String)
    ensures
        text@ == runtime_at(*line),
{
    let number = match line {
        Some(number) => u64_to_text(*number),
        None => u64_to_text(0),
    };
    let mut text = concat("Runtime error at line ", number.as_str());
    text.append(": ");
    assert(text@ =~= runtime_at(*line));
    text
}

/// Writes the message of a script error: what kind of error it is, the line
/// where it has one, and what the engine says of it.
pub fn format_rhai_error(error: &ScriptError) -> (text: String)
    ensures
        text@ == error.spec_message(),
{
    match error {
        ScriptError::Parsing { message, line } => {
            let number = match line {
                Some(number) => u64_to_text(*number),
                None => u64_to_text(0),
            };
            let mut text = concat("Syntax error at line ", number.as_str());
            text.append(": ");
            text.append(message.as_str());
            assert(text@ =~= error.spec_message());
            text
        },
        ScriptError::Runtime { message, line } => match line {
            Some(_) => {
                let mut text = runtime_at_text(line);
                text.append(message.as_str());
                text
            },
            None => concat("Runtime error: ", message.as_str()),
        },
        ScriptError::VariableNotFound { name, line } => {
            let mut text = runtime_at_text(line);
            text.append("Variable '");
            text.append(name.as_str());
            text.append("' not found");
            assert(text@ =~= error.spec_message());
            text
        },
        ScriptError::FunctionNotFound { name, line } => {
            let mut text = runtime_at_text(line);
            text.append("Function '");
            text.append(name.as_str());
            text.append("' not found");
            assert(text@ =~= error.spec_message());
            text
        },
        ScriptError::Arithmetic { message, line } => {
            let mut text = runtime_at_text(line);
            text.append("Arithmetic error: ");
            text.append(message.as_str());
            assert(text@ =~= error.spec_message());
            text
        },
        ScriptError::MismatchDataType { expected, actual, line } => {
            let mut text = runtime_at_text(line);
            text.append("Type mismatch: expected ");
            text.append(expected.as_str());
            text.append(", got ");
            text.append(actual.as_str());
            assert(text@ =~= error.spec_message());
            text
        },
        ScriptError::IndexNotFound { index, line } => {
            let mut text = runtime_at_text(line);
            text.append("Index not found: ");
            text.append(index.as_str());
            assert(text@ =~= error.spec_message());
            text
        },
        ScriptError::TooManyOperations { line } => {
            let mut text = runtime_at_text(line);
            text.append("Script execution timeout - too many operations");
            text
        },
        ScriptError::StackOverflow { line } => {
            let mut text = runtime_at_text(line);
            text.append("Stack overflow");
            text
        },
        ScriptError::Other { text } => concat("Runtime error: ", text.as_str()),
    }
}

/// What the host is told where a call names no script.
pub const NO_SCRIPT_MESSAGE: &'static str = "Script pointer is null";

/// What a synchronous evaluation answers where the script called a host
/// function whose result comes later.
pub const ASYNC_IN_EVAL_MESSAGE: &'static str =
    "Script attempted to call async functions. Use evalAsync() instead of eval() for scripts with async functions.";

/// Why a call that needs an engine and a script is refused, if it is: the
/// engine is looked at first.
pub open spec fn call_refusal(has_engine: bool, has_script: bool) -> Option<Seq<char>> {
    if !has_engine {
        Some(NO_ENGINE_MESSAGE@)
    } else if !has_script {
        Some(NO_SCRIPT_MESSAGE@)
    } else {
        None
    }
}

/// Opens a call that needs an engine and a script: empties the slot of the
/// last failure, and refuses the call where one of the two is missing. The
/// answer is the engine of a call that may go on.
pub fn check_engine_and_script<'a>(
    last_error: &mut LastError,
    engine: Option<&'a CRhaiEngine>,
    has_script: bool,
) -> (checked: Option<&'a CRhaiEngine>)
    ensures
        final(last_error)@ == call_refusal(engine is Some, has_script),
        checked == if has_script {
            engine
        } else {
            None
        },
{
    clear_last_error(last_error);
    let wrapper = match engine {
        Some(wrapper) => wrapper,
        None => {
            set_last_error(last_error, NO_ENGINE_MESSAGE);
            return None;
        },
    };
    if !has_script {
        set_last_error(last_error, NO_SCRIPT_MESSAGE);
        return None;
    }
    Some(wrapper)
}

/// The message for a result that cannot be written as JSON.
pub open spec fn conversion_failure(error: ValueError) -> Seq<char> {
    "Failed to convert result to JSON: "@ + error.spec_message()
}

/// Whether `error` is why a value is not written as JSON: the value holds
/// something without a wire form, of the type that the error names.
pub open spec fn is_conversion_error(tree: ScriptTree, error: ValueError) -> bool {
    error matches ValueError::UnsupportedType(kind) && !supported(tree) && holds_other(tree, kind@)
}

/// Writes the message for a result that cannot be written as JSON.
fn conversion_failure_text(error: &ValueError) -> (text: String)
    ensures
        text@ == conversion_failure(*error),
{
    concat("Failed to convert result to JSON: ", error.message().as_str())
}

/// What a synchronous evaluation hands to the host, given the attempt to
/// write its result as JSON: the text, or nothing and the reason in the slot
/// of the last failure.
pub fn eval_output(last_error: &mut LastError, written: Result<String, ValueError>) -> (output:
    Option<String>)
    ensures
        match written {
            Ok(text) => output == Some(text) && final(last_error)@ == old(last_error)@,
            Err(error) => output is None && final(last_error)@ == Some(conversion_failure(error)),
        },
{
    match written {
        Ok(text) => Some(text),
        Err(error) => {
            let message = conversion_failure_text(&error);
            set_last_error(last_error, message.as_str());
            None
        },
    }
}

/// Ends a synchronous evaluation: `run` is what the engine made of the
/// script, and the answer is the result as JSON text, or nothing with the
/// reason in the slot of the last failure.
///
/// A synchronous evaluation cannot wait. Where a host function announced its
/// result for later while the script ran, the evaluation fails whatever the
/// script made of it, and the message directs the caller to the evaluation
/// in the background. The mark that says so is cleared for the next
/// evaluation. Otherwise a failed run gives its message, and a value is
/// written as JSON, which succeeds exactly where every part of it has a wire
/// form.
pub fn rhai_eval(
    context: &mut ExecutionContext,
    last_error: &mut LastError,
    run: Result<ScriptValue, ScriptError>,
) -> (output: Option<String>)
    requires
        run matches Ok(value) ==> value.wf(),
    ensures
        !final(context).async_invoked(),
        final(context).in_async_eval() == old(context).in_async_eval(),
        old(context).async_invoked() ==> output is None && final(last_error)@ == Some(
            ASYNC_IN_EVAL_MESSAGE@,
        ),
        !old(context).async_invoked() ==> match run {
            Err(error) => output is None && final(last_error)@ == Some(error.spec_message()),
            Ok(value) => match output {
                Some(text) => supported(value@) && text@ == json_text(encode(value@))
                    && final(last_error)@ == old(last_error)@,
                None => !supported(value@) && exists|error: ValueError|
                    is_conversion_error(value@, error) && final(last_error)@ == Some(
                        conversion_failure(error),
                    ),
            },
        },
{
    if check_and_clear_async_flag(context) {
        set_last_error(last_error, ASYNC_IN_EVAL_MESSAGE);
        return None;
    }
    match run {
        Ok(value) => {
            let written = rhai_dynamic_to_json(&value);
            proof {
                if written is Err {
                    assert(is_conversion_error(value@, written->Err_0));
                }
            }
            eval_output(last_error, written)
        },
        Err(error) => {
            let message = format_rhai_error(&error);
            set_last_error(last_error, message.as_str());
            None
        },
    }
}

/// What a background evaluation records once the script has ended, given
/// the attempt to write its result as JSON.
pub fn evaluation_status(written: Result<String, ValueError>) -> (status: AsyncEvalResult)
    ensures
        status@ == match written {
            Ok(text) => EvalStatus::Success(text@),
            Err(error) => EvalStatus::Error(conversion_failure(error)),
        },
{
    match written {
        Ok(text) => AsyncEvalResult::Success(text),
        Err(error) => AsyncEvalResult::Error(conversion_failure_text(&error)),
    }
}

/// The end of a background evaluation: `run` is what the engine made of the
/// script. A failed run ends in an error with its message; a value is written
/// as JSON and ends in success, or in an error where it has no wire form.
/// The status is never "in progress".
pub fn evaluation_result(run: Result<ScriptValue, ScriptError>) -> (status: AsyncEvalResult)
    requires
        run matches Ok(value) ==> value.wf(),
    ensures
        match run {
            Err(error) => status@ == EvalStatus::Error(error.spec_message()),
            Ok(value) => match status@ {
                EvalStatus::Success(text) => supported(value@) && text == json_text(
                    encode(value@),
                ),
                EvalStatus::Error(message) => !supported(value@) && exists|error: ValueError|
                    is_conversion_error(value@, error) && message == conversion_failure(error),
                EvalStatus::InProgress => false,
            },
        },
{
    match run {
        Ok(value) => {
            let written = rhai_dynamic_to_json(&value);
            proof {
                if written is Err {
                    assert(is_conversion_error(value@, written->Err_0));
                }
            }
            evaluation_status(written)
        },
        Err(error) => AsyncEvalResult::Error(format_rhai_error(&error)),
    }
}

/// What looking at a script without running it found.
#[derive(Debug, Clone)]
pub struct AnalysisResult {
    /// Whether the script parses.
    pub is_valid: bool,
    /// The syntax errors that were found.
    pub syntax_errors: Vec<String>,
    /// Warnings; none are given yet.
    pub warnings: Vec<String>,
    /// A summary of the parsed script; none is given yet.
    pub ast_summary: Option<String>,
}

/// What an [`AnalysisResult`] holds.
pub struct AnalysisView {
    pub is_valid: bool,
    pub syntax_errors: Seq<Seq<char>>,
    pub warnings: Seq<Seq<char>>,
    pub ast_summary: Option<Seq<char>>,
}

/// The text of each line.
pub open spec fn line_texts(lines: Seq<String>) -> Seq<Seq<char>> {
    lines.map_values(|line: String| line@)
}

impl View for AnalysisResult {
    type V = AnalysisView;

    open spec fn view(&self) -> AnalysisView {
        AnalysisView {
            is_valid: self.is_valid,
            syntax_errors: line_texts(self.syntax_errors@),
            warnings: line_texts(self.warnings@),
            ast_summary: match self.ast_summary {
                Some(text) => Some(text@),
                None => None,
            },
        }
    }
}

impl AnalysisResult {
    /// The finding for a script that parses.
    pub fn valid() -> (result: Self)
        ensures
            result@ == (AnalysisView {
                is_valid: true,
                syntax_errors: Seq::empty(),
                warnings: Seq::empty(),
                ast_summary: None,
            }),
    {
        let result = AnalysisResult {
            is_valid: true,
            syntax_errors: Vec::new(),
            warnings: Vec::new(),
            ast_summary: None,
        };
        assert(result@.syntax_errors =~= Seq::empty());
        assert(result@.warnings =~= Seq::empty());
        result
    }

    /// The finding for a script with these syntax errors.
    pub fn with_errors(errors: Vec<String>) -> (result: Self)
        ensures
            result@ == (AnalysisView {
                is_valid: false,
                syntax_errors: line_texts(errors@),
                warnings: Seq::empty(),
                ast_summary: None,
            }),
    {
        let result = AnalysisResult {
            is_valid: false,
            syntax_errors: errors,
            warnings: Vec::new(),
            ast_summary: None,
        };
        assert(result@.warnings =~= Seq::empty());
        result
    }
}

/// The finding for a script, given what compiling it made: no error, or the
/// text of the parse error.
pub open spec fn analysis_of(failure: Option<Seq<char>>) -> AnalysisView {
    match failure {
        None => AnalysisView {
            is_valid: true,
            syntax_errors: Seq::empty(),
            warnings: Seq::empty(),
            ast_summary: None,
        },
        Some(text) => AnalysisView {
            is_valid: false,
            syntax_errors: seq!["Syntax error: "@ + text],
            warnings: Seq::empty(),
            ast_summary: None,
        },
    }
}

/// Looks at a script without running it: the engine compiles it, and a parse
/// error becomes the one syntax error of the finding.
pub fn analyze_script(engine: &Engine, script: &str) -> (result: AnalysisResult)
    ensures
        result@ == analysis_of(compile_failure(*engine, script@)),
{
    match compile_script(engine, script) {
        None => AnalysisResult::valid(),
        Some(text) => {
            let mut errors: Vec<String> = Vec::new();
            errors.push(concat("Syntax error: ", text.as_str()));
            assert(line_texts(errors@) =~= seq!["Syntax error: "@ + text@]);
            AnalysisResult::with_errors(errors)
        },
    }
}

/// Each line as a JSON string.
pub open spec fn text_trees(lines: Seq<Seq<char>>) -> Seq<JsonTree> {
    lines.map_values(|line: Seq<char>| JsonTree::Text(line))
}

/// The summary of a finding as JSON: its text, or `null` where there is
/// none.
pub open spec fn summary_tree(summary: Option<Seq<char>>) -> JsonTree {
    match summary {
        Some(text) => JsonTree::Text(text),
        None => JsonTree::Null,
    }
}

/// A finding as JSON text: an object with the fields `is_valid`,
/// `syntax_errors`, `warnings` and `ast_summary`, in this order and without
/// white space.
pub open spec fn analysis_text(analysis: AnalysisView) -> Seq<char> {
    "{\"is_valid\":"@ + json_text(JsonTree::Bool(analysis.is_valid)) + ",\"syntax_errors\":"@
        + json_text(JsonTree::Array(text_trees(analysis.syntax_errors))) + ",\"warnings\":"@
        + json_text(JsonTree::Array(text_trees(analysis.warnings))) + ",\"ast_summary\":"@
        + json_text(summary_tree(analysis.ast_summary)) + "}"@
}

/// Builds the JSON array of some lines.
fn lines_to_json(lines: &Vec<String>) -> (value: Value)
    ensures
        json_model(value) == JsonTree::Array(text_trees(line_texts(lines@))),
{
    let mut items: Vec<Value> = Vec::new();
    let mut index: usize = 0;
    while index < lines.len()
        invariant
            index <= lines.len(),
            items@.len() == index,
            forall|i: int|
                0 <= i < index ==> json_model(#[trigger] items@[i]) == JsonTree::Text(lines@[i]@),
        decreases lines.len() - index,
    {
        items.push(json_pack(JsonParts::Text(lines[index].clone())));
        index += 1;
    }
    assert(item_trees(items@) =~= text_trees(line_texts(lines@)));
    json_pack(JsonParts::Array(items))
}

/// Writes a finding as JSON text.
fn analysis_to_text(analysis: &AnalysisResult) -> (text: String)
    ensures
        text@ == analysis_text(analysis@),
{
    let summary = match &analysis.ast_summary {
        Some(text) => json_pack(JsonParts::Text(text.clone())),
        None => json_pack(JsonParts::Null),
    };
    let mut text = concat(
        "{\"is_valid\":",
        value_text(&json_pack(JsonParts::Bool(analysis.is_valid))).as_str(),
    );
    text.append(",\"syntax_errors\":");
    text.append(value_text(&lines_to_json(&analysis.syntax_errors)).as_str());
    text.append(",\"warnings\":");
    text.append(value_text(&lines_to_json(&analysis.warnings)).as_str());
    text.append(",\"ast_summary\":");
    text.append(value_text(&summary).as_str());
    text.append("}");
    assert(text@ =~= analysis_text(analysis@));
    text
}

/// Analyses a script for the host without running it, and answers with the
/// finding as JSON text.
///
/// The call is refused where no engine or no script is given. A script that
/// does not parse is no failure of the call: the finding says so.
pub fn rhai_analyze(
    last_error: &mut LastError,
    engine: Option<&CRhaiEngine>,
    script: Option<&str>,
) -> (output: Option<String>)
    ensures
        match (engine, script) {
            (Some(wrapper), Some(text)) => output matches Some(json) && json@ == analysis_text(
                analysis_of(compile_failure(wrapper.spec_engine(), text@)),
            ) && final(last_error)@ is None,
            _ => output is None && final(last_error)@ == call_refusal(
                engine is Some,
                script is Some,
            ),
        },
{
    let wrapper = match check_engine_and_script(last_error, engine, script.is_some()) {
        Some(wrapper) => wrapper,
        None => {
            return None;
        },
    };
    let text = match script {
        Some(text) => text,
        None => {
            return None;
        },
    };
    let analysis = analyze_script(wrapper.engine(), text);
    Some(analysis_to_text(&analysis))
}

} // verus!
