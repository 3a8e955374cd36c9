//! The shapes of the external verification step.
//!
//! The generated project is checked by an external type checker and
//! linter.  Running those tools and parsing their output is process work
//! that stays outside this library; the reports they produce are held in
//! the types here.

use vstd::prelude::*;

verus! {

/// One error of the external type checker.
#[derive(Debug, Clone)]
pub struct TscError {
    pub file: String,
    pub line: usize,
    pub column: usize,
    pub message: String,
    pub code: String,
}

/// The outcome of one type-checker run.
#[derive(Debug)]
pub struct TscResult {
    pub success: bool,
    pub errors: Vec<TscError>,
    pub stdout: String,
    pub stderr: String,
}

/// Why the type checker could not be run at all.
#[derive(Debug, Clone)]
pub enum TscRunError {
    /// The process could not be started or read; the payload carries the
    /// reported reason.
    IoError(String),
    /// The tool is not installed.
    TscNotFound,
}

/// How severe one linter finding is.
#[derive(Debug, Clone, Copy, PartialEq, Eq, Structural)]
pub enum EslintSeverity {
    Warning,
    Error,
}

/// One finding of the external linter.
#[derive(Debug, Clone)]
pub struct EslintError {
    pub file: String,
    pub line: usize,
    pub column: usize,
    pub message: String,
    pub rule: String,
    pub severity: EslintSeverity,
}

/// The outcome of one linter run.
#[derive(Debug)]
pub struct EslintResult {
    pub success: bool,
    pub errors: Vec<EslintError>,
    pub warning_count: usize,
    pub error_count: usize,
}

/// Why the linter could not be run at all.
#[derive(Debug, Clone)]
pub enum EslintRunError {
    /// The process could not be started or read; the payload carries the
    /// reported reason.
    IoError(String),
    /// The tool is not installed.
    EslintNotFound,
}

/// Why a verification call failed before producing a report.
#[derive(Debug, Clone)]
pub enum VerificationError {
    IoError(String),
    TscFailed(String),
    EslintFailed(String),
    Timeout,
    TscError(TscRunError),
    EslintError(EslintRunError),
}

/// The combined report of both tools.
#[derive(Debug)]
pub struct VerificationResult {
    pub tsc: TscResult,
    pub eslint: EslintResult,
}

impl VerificationResult {
    /// Whether both tools passed.
    pub fn passed(&self) -> (r: bool)
        ensures
            r == (self.tsc.success && self.eslint.success),
    {
        self.tsc.success && self.eslint.success
    }

    /// How many findings the two tools reported together, saturating at
    /// the machine limit.
    pub fn error_count(&self) -> (r: usize)
        ensures
            self.tsc.errors@.len() + self.eslint.errors@.len() <= usize::MAX ==> r
                == self.tsc.errors@.len() + self.eslint.errors@.len(),
            self.tsc.errors@.len() + self.eslint.errors@.len() > usize::MAX ==> r == usize::MAX,
    {
        let a = self.tsc.errors.len();
        let b = self.eslint.errors.len();
        if a <= usize::MAX - b {
            a + b
        } else {
            usize::MAX
        }
    }
}

} // verus!
