//! Turning the raw outcome of a native capability call into a typed
//! result.
//!
//! The host shell owns the loaded module behind its guard and performs
//! symbol resolution and the foreign call; what it observed comes back
//! here as an event. These functions decide, for every possible event,
//! what the caller is told: an absent handle yields the not-loaded
//! error, a failed resolution yields an error naming the export, a
//! failed text call yields the generic failure without exposing the
//! buffer, and a completed call yields its translated value.

use vstd::prelude::*;
use vstd::string::StringExecFns;

use crate::text::lossy_decode;
use crate::text::nul_prefix;
use crate::text::spec_lossy_decode;
use crate::text::spec_nul_prefix;

verus! {

/// The four native capabilities, each bound to one exported symbol.
#[derive(Clone, Copy, PartialEq, Eq, Structural, Debug)]
pub enum Capability {
    ComputerName,
    TotalMemory,
    ProcessId,
    Factorial,
}

/// The exact exported-symbol name each capability resolves.
pub open spec fn spec_symbol_name(c: Capability) -> Seq<char> {
    match c {
        Capability::ComputerName => "GetComputerNameString"@,
        Capability::TotalMemory => "GetTotalPhysicalMemory"@,
        Capability::ProcessId => "GetCurrentProcessID"@,
        Capability::Factorial => "CalculateFactorial"@,
    }
}

/// The exported-symbol name a capability is dispatched through.
pub fn symbol_name(c: Capability) -> (r: String)
    ensures
        r@ == spec_symbol_name(c),
{
    match c {
        Capability::ComputerName => "GetComputerNameString".to_owned(),
        Capability::TotalMemory => "GetTotalPhysicalMemory".to_owned(),
        Capability::ProcessId => "GetCurrentProcessID".to_owned(),
        Capability::Factorial => "CalculateFactorial".to_owned(),
    }
}

/// Why a capability call produced no value.
#[derive(Debug)]
pub enum HostError {
    /// No native module was loaded at startup.
    NotLoaded,
    /// The loaded module lacks the expected export; carries the export
    /// name and the resolver's own diagnostic.
    SymbolNotFound { symbol: String, diagnostic: String },
    /// The native call itself signalled failure.
    CallFailed,
}

impl HostError {
    /// The reportable text of the error.
    pub open spec fn spec_message(&self) -> Seq<char> {
        match *self {
            HostError::NotLoaded => "Library not loaded"@,
            HostError::SymbolNotFound { symbol, diagnostic } => "Symbol '"@ + symbol@
                + "' not found: "@ + diagnostic@,
            HostError::CallFailed => "Failed to get computer name"@,
        }
    }

    /// Renders the error for reporting to the caller.
    pub fn message(&self) -> (r: String)
        ensures
            r@ == self.spec_message(),
    {
        match self {
            HostError::NotLoaded => "Library not loaded".to_owned(),
            HostError::SymbolNotFound { symbol, diagnostic } => {
                let mut s = "Symbol '".to_owned();
                s.append(symbol.as_str());
                s.append("' not found: ");
                s.append(diagnostic.as_str());
                s
            },
            HostError::CallFailed => "Failed to get computer name".to_owned(),
        }
    }
}

/// Law: a symbol-resolution failure references the export it failed on;
/// its message carries the symbol name verbatim, right after the fixed
/// opening.
pub proof fn lemma_symbol_error_names_symbol(symbol: String, diagnostic: String)
    ensures
        (HostError::SymbolNotFound { symbol, diagnostic }).spec_message().subrange(
            8,
            8 + symbol@.len() as int,
        ) == symbol@,
{
    reveal_strlit("Symbol '");
    assert((HostError::SymbolNotFound { symbol, diagnostic }).spec_message().subrange(
        8,
        8 + symbol@.len() as int,
    ) =~= symbol@);
}

/// What the host shell observed when it dispatched the text-producing
/// capability against the guarded handle.
pub enum TextCallEvent {
    /// The handle slot held no module.
    LibraryAbsent,
    /// Resolution of the export failed; carries the resolver's
    /// diagnostic.
    SymbolMissing { diagnostic: String },
    /// The native call returned: its success flag, and the output
    /// buffer as it stands after the call.
    Completed { succeeded: bool, buffer: Vec<u8> },
}

/// What the host shell observed when it dispatched a scalar-producing
/// capability against the guarded handle.
pub enum ScalarCallEvent<V> {
    /// The handle slot held no module.
    LibraryAbsent,
    /// Resolution of the export failed; carries the resolver's
    /// diagnostic.
    SymbolMissing { diagnostic: String },
    /// The native call returned this value.
    Returned { value: V },
}

/// Translates the outcome of a scalar capability call: a returned value
/// passes through unchanged, everything else becomes its error.
fn scalar_result<V>(symbol: &str, event: ScalarCallEvent<V>) -> (r: Result<V, HostError>)
    ensures
        (event is LibraryAbsent) ==> (r is Err && r->Err_0 is NotLoaded),
        (event is SymbolMissing) ==> (r is Err && r->Err_0 is SymbolNotFound
            && r->Err_0->SymbolNotFound_symbol@ == symbol@
            && r->Err_0->SymbolNotFound_diagnostic == event->SymbolMissing_diagnostic),
        (event is Returned) ==> r == Ok::<V, HostError>(event->Returned_value),
{
    match event {
        ScalarCallEvent::LibraryAbsent => Err(HostError::NotLoaded),
        ScalarCallEvent::SymbolMissing { diagnostic } => Err(
            HostError::SymbolNotFound { symbol: symbol.to_owned(), diagnostic },
        ),
        ScalarCallEvent::Returned { value } => Ok(value),
    }
}

/// The computer-name capability: decides what the caller is told for
/// every outcome of the dispatch. A successful call yields the buffer's
/// NUL-terminated prefix decoded leniently; a failed call yields the
/// generic failure and exposes nothing of the buffer.
pub fn get_computer_name(event: TextCallEvent) -> (r: Result<String, HostError>)
    ensures
        (event is LibraryAbsent) ==> (r is Err && r->Err_0 is NotLoaded),
        (event is SymbolMissing) ==> (r is Err && r->Err_0 is SymbolNotFound
            && r->Err_0->SymbolNotFound_symbol@ == spec_symbol_name(Capability::ComputerName)
            && r->Err_0->SymbolNotFound_diagnostic == event->SymbolMissing_diagnostic),
        (event is Completed && !event->Completed_succeeded) ==> (r is Err
            && r->Err_0 is CallFailed),
        (event is Completed && event->Completed_succeeded) ==> (r is Ok && r->Ok_0@
            == spec_lossy_decode(spec_nul_prefix(event->Completed_buffer@))),
{
    match event {
        TextCallEvent::LibraryAbsent => Err(HostError::NotLoaded),
        TextCallEvent::SymbolMissing { diagnostic } => Err(
            HostError::SymbolNotFound {
                symbol: symbol_name(Capability::ComputerName),
                diagnostic,
            },
        ),
        TextCallEvent::Completed { succeeded, buffer } => {
            if succeeded {
                let text = nul_prefix(&buffer);
                Ok(lossy_decode(&text))
            } else {
                Err(HostError::CallFailed)
            }
        },
    }
}

/// The total-memory capability: a returned value passes through
/// unchanged.
pub fn get_total_memory(event: ScalarCallEvent<u64>) -> (r: Result<u64, HostError>)
    ensures
        (event is LibraryAbsent) ==> (r is Err && r->Err_0 is NotLoaded),
        (event is SymbolMissing) ==> (r is Err && r->Err_0 is SymbolNotFound
            && r->Err_0->SymbolNotFound_symbol@ == spec_symbol_name(Capability::TotalMemory)
            && r->Err_0->SymbolNotFound_diagnostic == event->SymbolMissing_diagnostic),
        (event is Returned) ==> r == Ok::<u64, HostError>(event->Returned_value),
{
    scalar_result("GetTotalPhysicalMemory", event)
}

/// The process-id capability: a returned value passes through
/// unchanged.
pub fn get_process_id(event: ScalarCallEvent<u32>) -> (r: Result<u32, HostError>)
    ensures
        (event is LibraryAbsent) ==> (r is Err && r->Err_0 is NotLoaded),
        (event is SymbolMissing) ==> (r is Err && r->Err_0 is SymbolNotFound
            && r->Err_0->SymbolNotFound_symbol@ == spec_symbol_name(Capability::ProcessId)
            && r->Err_0->SymbolNotFound_diagnostic == event->SymbolMissing_diagnostic),
        (event is Returned) ==> r == Ok::<u32, HostError>(event->Returned_value),
{
    scalar_result("GetCurrentProcessID", event)
}

/// The computed-value capability: whatever the native module computed
/// for its input passes through unchanged.
pub fn calculate_factorial(event: ScalarCallEvent<u64>) -> (r: Result<u64, HostError>)
    ensures
        (event is LibraryAbsent) ==> (r is Err && r->Err_0 is NotLoaded),
        (event is SymbolMissing) ==> (r is Err && r->Err_0 is SymbolNotFound
            && r->Err_0->SymbolNotFound_symbol@ == spec_symbol_name(Capability::Factorial)
            && r->Err_0->SymbolNotFound_diagnostic == event->SymbolMissing_diagnostic),
        (event is Returned) ==> r == Ok::<u64, HostError>(event->Returned_value),
{
    scalar_result("CalculateFactorial", event)
}

} // verus!
