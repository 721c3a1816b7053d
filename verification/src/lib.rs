//! Locating, loading and dispatching into a platform-specific native
//! module.
//!
//! The crate computes the ordered candidate locations for the shared
//! library, selects the first candidate that probed as loadable, decodes
//! the fixed-size text buffers the native calls fill, and turns the raw
//! outcomes of symbol resolution and native calls into typed results.
//! The host shell performs the actual filesystem probes and foreign
//! calls and feeds their outcomes back in as plain values.

mod dispatch;
mod locator;
mod platform;
mod text;

pub use dispatch::Capability;
pub use dispatch::HostError;
pub use dispatch::ScalarCallEvent;
pub use dispatch::TextCallEvent;
pub use dispatch::calculate_factorial;
pub use dispatch::get_computer_name;
pub use dispatch::get_process_id;
pub use dispatch::get_total_memory;
pub use dispatch::lemma_symbol_error_names_symbol;
pub use dispatch::spec_symbol_name;
pub use dispatch::symbol_name;
pub use locator::ProbeOutcome;
pub use locator::candidate_paths;
pub use locator::first_loaded;
pub use locator::lemma_candidate_precedence;
pub use locator::load_failure_message;
pub use locator::locate;
pub use locator::spec_candidate_paths;
pub use locator::spec_dev_path;
pub use locator::spec_join;
pub use locator::spec_load_failure_message;
pub use locator::spec_opt_dir;
pub use platform::Platform;
pub use platform::lemma_file_name_convention;
pub use platform::library_file_name;
pub use platform::spec_ends_with;
pub use platform::spec_starts_with;
pub use platform::platform_name;
pub use platform::spec_library_file_name;
pub use platform::spec_platform_name;
pub use text::lemma_lossy_decode_agrees_on_valid_utf8;
pub use text::lossy_decode;
pub use text::nul_prefix;
pub use text::replacement;
pub use text::spec_lossy_decode;
pub use text::spec_nul_prefix;
