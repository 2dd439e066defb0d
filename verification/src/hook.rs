//! The status-line data that the coding assistant hands to its status-line command.
//!
//! Floating-point values of the hook data are held by their IEEE-754 bit
//! patterns (`f64::to_bits`), so that no value is lost while the library
//! carries them; only the program that prints them reads them as numbers.
//! Equality compares such fields as `f64` values compare: `0.0` equals `-0.0`,
//! and NaN equals nothing.

use vstd::prelude::*;
use crate::text::str_eq;

verus! {

/// Where the hook data is written for Starship modules to read.
pub const HOOK_FILE_PATH: &'static str = "/tmp/code-session-starship.json";

/// Root structure for the assistant's status line data passed via stdin.
#[derive(Clone, Debug)]
pub struct HookData {
    /// Name of the hook event (e.g., "Status").
    pub hook_event_name: Option<String>,
    /// Unique identifier for the current assistant session.
    pub session_id: String,
    /// Path to the session transcript JSON file.
    pub transcript_path: Option<String>,
    /// Current working directory.
    pub cwd: Option<String>,
    /// Model being used for this session.
    pub model: Model,
    /// Workspace path information.
    pub workspace: Option<Workspace>,
    /// Assistant version string (e.g., "1.0.80").
    pub version: Option<String>,
    /// Output style configuration.
    pub output_style: Option<OutputStyle>,
    /// Cumulative cost and activity metrics.
    pub cost: Option<Cost>,
    /// Token usage and context window information.
    pub context_window: Option<ContextWindow>,
}

/// Model information.
#[derive(Clone, Debug, Eq)]
pub struct Model {
    /// Model identifier (e.g., "opus-4-1").
    pub id: String,
    /// Human-readable model name (e.g., "Opus").
    pub display_name: String,
}

/// Workspace paths for the current session.
#[derive(Clone, Debug, Eq)]
pub struct Workspace {
    /// Current working directory.
    pub current_dir: String,
    /// Original project directory (where the assistant was started).
    pub project_dir: String,
}

/// Output style configuration.
#[derive(Clone, Debug, Eq)]
pub struct OutputStyle {
    /// Style name (e.g., "default").
    pub name: String,
}

/// Cumulative cost and activity metrics for the session.
#[derive(Clone, Copy, Debug)]
pub struct Cost {
    /// Total session cost in USD, as the bits of an `f64`.
    pub total_cost_usd_bits: u64,
    /// Total session wall-clock duration in milliseconds.
    pub total_duration_ms: u64,
    /// Total time spent waiting for API responses in milliseconds.
    pub total_api_duration_ms: u64,
    /// Total lines of code added during the session.
    pub total_lines_added: u64,
    /// Total lines of code removed during the session.
    pub total_lines_removed: u64,
}

/// Token usage and context window information.
#[derive(Clone, Copy, Debug)]
pub struct ContextWindow {
    /// Cumulative input tokens across the entire session.
    pub total_input_tokens: u64,
    /// Cumulative output tokens across the entire session.
    pub total_output_tokens: u64,
    /// Maximum context window size for the model.
    pub context_window_size: u64,
    /// Pre-calculated percentage of context window used (0-100), as the bits of an `f64`.
    pub used_percentage_bits: Option<u64>,
    /// Pre-calculated percentage of context window remaining (0-100), as the bits of an `f64`.
    pub remaining_percentage_bits: Option<u64>,
    /// Current context window usage from the last API call (absent if no messages yet).
    pub current_usage: Option<CurrentUsage>,
}

/// Token usage from the last API call.
#[derive(Clone, Copy, Debug, PartialEq, Eq, Structural)]
pub struct CurrentUsage {
    /// Input tokens in current context.
    pub input_tokens: u64,
    /// Output tokens generated.
    pub output_tokens: u64,
    /// Tokens written to cache.
    pub cache_creation_input_tokens: Option<u64>,
    /// Tokens read from cache.
    pub cache_read_input_tokens: Option<u64>,
}


// ---------------------------------------------------------------- equality

/// The `f64` with bits `b` is a NaN.
pub open spec fn f64_bits_is_nan(b: u64) -> bool {
    (b & 0x7ff0_0000_0000_0000) == 0x7ff0_0000_0000_0000 && (b & 0x000f_ffff_ffff_ffff) != 0
}

/// The `f64` with bits `b` is `0.0` or `-0.0`.
pub open spec fn f64_bits_is_zero(b: u64) -> bool {
    (b & 0x7fff_ffff_ffff_ffff) == 0
}

/// The `f64` values with bits `a` and `b` compare equal (IEEE 754 `==`).
pub open spec fn f64_bits_eq(a: u64, b: u64) -> bool {
    !f64_bits_is_nan(a) && !f64_bits_is_nan(b) && (a == b || (f64_bits_is_zero(a) && f64_bits_is_zero(b)))
}

/// `==` on two `Option<f64>` given by their bits.
pub open spec fn opt_f64_bits_eq(a: Option<u64>, b: Option<u64>) -> bool {
    match (a, b) {
        (None, None) => true,
        (Some(x), Some(y)) => f64_bits_eq(x, y),
        _ => false,
    }
}

/// `==` on two optional strings.
pub open spec fn opt_string_eq(a: Option<String>, b: Option<String>) -> bool {
    match (a, b) {
        (None, None) => true,
        (Some(x), Some(y)) => x@ == y@,
        _ => false,
    }
}

/// `f64` equality on bit patterns: symmetric, a NaN equals nothing, every
/// other value equals itself, the two zeros are equal, and distinct bit
/// patterns of nonzero numbers differ.
pub proof fn lemma_f64_bits_eq(a: u64, b: u64)
    ensures
        f64_bits_eq(a, b) == f64_bits_eq(b, a),
        f64_bits_is_nan(a) ==> !f64_bits_eq(a, b),
        !f64_bits_is_nan(a) ==> f64_bits_eq(a, a),
        f64_bits_eq(0, 0x8000_0000_0000_0000),
        a != b && !(f64_bits_is_zero(a) && f64_bits_is_zero(b)) ==> !f64_bits_eq(a, b),
{
    assert((0u64 & 0x7fff_ffff_ffff_ffffu64) == 0u64) by (bit_vector);
    assert((0x8000_0000_0000_0000u64 & 0x7fff_ffff_ffff_ffffu64) == 0u64) by (bit_vector);
    assert((0u64 & 0x7ff0_0000_0000_0000u64) != 0x7ff0_0000_0000_0000u64) by (bit_vector);
    assert((0x8000_0000_0000_0000u64 & 0x7ff0_0000_0000_0000u64) != 0x7ff0_0000_0000_0000u64) by (bit_vector);
}

/// Whether the `f64` values with bits `a` and `b` compare equal.
pub fn f64_bits_equal(a: u64, b: u64) -> (r: bool)
    ensures
        r == f64_bits_eq(a, b),
{
    let a_nan = (a & 0x7ff0_0000_0000_0000) == 0x7ff0_0000_0000_0000 && (a & 0x000f_ffff_ffff_ffff) != 0;
    let b_nan = (b & 0x7ff0_0000_0000_0000) == 0x7ff0_0000_0000_0000 && (b & 0x000f_ffff_ffff_ffff) != 0;
    !a_nan && !b_nan && (a == b || ((a & 0x7fff_ffff_ffff_ffff) == 0 && (b & 0x7fff_ffff_ffff_ffff) == 0))
}

fn opt_f64_bits_equal(a: Option<u64>, b: Option<u64>) -> (r: bool)
    ensures
        r == opt_f64_bits_eq(a, b),
{
    match (a, b) {
        (None, None) => true,
        (Some(x), Some(y)) => f64_bits_equal(x, y),
        _ => false,
    }
}

fn opt_string_equal(a: &Option<String>, b: &Option<String>) -> (r: bool)
    ensures
        r == opt_string_eq(*a, *b),
{
    match (a, b) {
        (None, None) => true,
        (Some(x), Some(y)) => str_eq(x.as_str(), y.as_str()),
        _ => false,
    }
}

impl Model {
    pub open spec fn same(self, other: Model) -> bool {
        self.id@ == other.id@ && self.display_name@ == other.display_name@
    }
}

impl PartialEq for Model {
    fn eq(&self, other: &Self) -> (r: bool) {
        self.id == other.id && self.display_name == other.display_name
    }
}

impl vstd::std_specs::cmp::PartialEqSpecImpl for Model {
    open spec fn obeys_eq_spec() -> bool {
        true
    }

    open spec fn eq_spec(&self, other: &Model) -> bool {
        self.same(*other)
    }
}

impl Workspace {
    pub open spec fn same(self, other: Workspace) -> bool {
        self.current_dir@ == other.current_dir@ && self.project_dir@ == other.project_dir@
    }
}

impl PartialEq for Workspace {
    fn eq(&self, other: &Self) -> (r: bool) {
        self.current_dir == other.current_dir && self.project_dir == other.project_dir
    }
}

impl vstd::std_specs::cmp::PartialEqSpecImpl for Workspace {
    open spec fn obeys_eq_spec() -> bool {
        true
    }

    open spec fn eq_spec(&self, other: &Workspace) -> bool {
        self.same(*other)
    }
}

impl OutputStyle {
    pub open spec fn same(self, other: OutputStyle) -> bool {
        self.name@ == other.name@
    }
}

impl PartialEq for OutputStyle {
    fn eq(&self, other: &Self) -> (r: bool) {
        self.name == other.name
    }
}

impl vstd::std_specs::cmp::PartialEqSpecImpl for OutputStyle {
    open spec fn obeys_eq_spec() -> bool {
        true
    }

    open spec fn eq_spec(&self, other: &OutputStyle) -> bool {
        self.same(*other)
    }
}

impl Cost {
    /// Equal field by field, the dollar amount compared as an `f64`.
    pub open spec fn same(self, other: Cost) -> bool {
        &&& f64_bits_eq(self.total_cost_usd_bits, other.total_cost_usd_bits)
        &&& self.total_duration_ms == other.total_duration_ms
        &&& self.total_api_duration_ms == other.total_api_duration_ms
        &&& self.total_lines_added == other.total_lines_added
        &&& self.total_lines_removed == other.total_lines_removed
    }
}

impl PartialEq for Cost {
    fn eq(&self, other: &Self) -> (r: bool) {
        f64_bits_equal(self.total_cost_usd_bits, other.total_cost_usd_bits)
            && self.total_duration_ms == other.total_duration_ms
            && self.total_api_duration_ms == other.total_api_duration_ms
            && self.total_lines_added == other.total_lines_added
            && self.total_lines_removed == other.total_lines_removed
    }
}

impl vstd::std_specs::cmp::PartialEqSpecImpl for Cost {
    open spec fn obeys_eq_spec() -> bool {
        true
    }

    open spec fn eq_spec(&self, other: &Cost) -> bool {
        self.same(*other)
    }
}

impl ContextWindow {
    /// Equal field by field, the percentages compared as `f64`.
    pub open spec fn same(self, other: ContextWindow) -> bool {
        &&& self.total_input_tokens == other.total_input_tokens
        &&& self.total_output_tokens == other.total_output_tokens
        &&& self.context_window_size == other.context_window_size
        &&& opt_f64_bits_eq(self.used_percentage_bits, other.used_percentage_bits)
        &&& opt_f64_bits_eq(self.remaining_percentage_bits, other.remaining_percentage_bits)
        &&& self.current_usage == other.current_usage
    }
}

impl PartialEq for ContextWindow {
    fn eq(&self, other: &Self) -> (r: bool) {
        self.total_input_tokens == other.total_input_tokens
            && self.total_output_tokens == other.total_output_tokens
            && self.context_window_size == other.context_window_size
            && opt_f64_bits_equal(self.used_percentage_bits, other.used_percentage_bits)
            && opt_f64_bits_equal(self.remaining_percentage_bits, other.remaining_percentage_bits)
            && match (self.current_usage, other.current_usage) {
            (None, None) => true,
            (Some(x), Some(y)) => x == y,
            _ => false,
        }
    }
}

impl vstd::std_specs::cmp::PartialEqSpecImpl for ContextWindow {
    open spec fn obeys_eq_spec() -> bool {
        true
    }

    open spec fn eq_spec(&self, other: &ContextWindow) -> bool {
        self.same(*other)
    }
}

impl HookData {
    /// Equal field by field, strings by their characters and floating-point
    /// amounts as `f64`.
    pub open spec fn same(self, other: HookData) -> bool {
        &&& opt_string_eq(self.hook_event_name, other.hook_event_name)
        &&& self.session_id@ == other.session_id@
        &&& opt_string_eq(self.transcript_path, other.transcript_path)
        &&& opt_string_eq(self.cwd, other.cwd)
        &&& self.model.same(other.model)
        &&& match (self.workspace, other.workspace) {
            (None, None) => true,
            (Some(x), Some(y)) => x.same(y),
            _ => false,
        }
        &&& opt_string_eq(self.version, other.version)
        &&& match (self.output_style, other.output_style) {
            (None, None) => true,
            (Some(x), Some(y)) => x.same(y),
            _ => false,
        }
        &&& match (self.cost, other.cost) {
            (None, None) => true,
            (Some(x), Some(y)) => x.same(y),
            _ => false,
        }
        &&& match (self.context_window, other.context_window) {
            (None, None) => true,
            (Some(x), Some(y)) => x.same(y),
            _ => false,
        }
    }
}

impl PartialEq for HookData {
    fn eq(&self, other: &Self) -> (r: bool) {
        opt_string_equal(&self.hook_event_name, &other.hook_event_name)
            && self.session_id == other.session_id
            && opt_string_equal(&self.transcript_path, &other.transcript_path)
            && opt_string_equal(&self.cwd, &other.cwd)
            && self.model.eq(&other.model)
            && match (&self.workspace, &other.workspace) {
            (None, None) => true,
            (Some(x), Some(y)) => x.eq(y),
            _ => false,
        } && opt_string_equal(&self.version, &other.version) && match (
            &self.output_style,
            &other.output_style,
        ) {
            (None, None) => true,
            (Some(x), Some(y)) => x.eq(y),
            _ => false,
        } && match (&self.cost, &other.cost) {
            (None, None) => true,
            (Some(x), Some(y)) => x.eq(y),
            _ => false,
        } && match (&self.context_window, &other.context_window) {
            (None, None) => true,
            (Some(x), Some(y)) => x.eq(y),
            _ => false,
        }
    }
}

impl vstd::std_specs::cmp::PartialEqSpecImpl for HookData {
    open spec fn obeys_eq_spec() -> bool {
        true
    }

    open spec fn eq_spec(&self, other: &HookData) -> bool {
        self.same(*other)
    }
}

} // verus!
