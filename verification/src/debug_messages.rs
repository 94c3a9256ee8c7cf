//! Labels for validation messages delivered by the runtime's debug
//! extension, printed by the unverified callback.

use vstd::prelude::*;

verus! {

/// Category of a validation message.
#[derive(Clone, Copy, PartialEq, Eq, Structural, Debug)]
pub enum MessageCategory {
    General,
    Validation,
    Performance,
    Conformance,
    Unknown,
}

/// Severity of a validation message.
#[derive(Clone, Copy, PartialEq, Eq, Structural, Debug)]
pub enum MessageSeverity {
    Verbose,
    Info,
    Warning,
    Error,
    Unknown,
}

/// The label printed for a message category.
pub fn category_label(category: MessageCategory) -> (label: &'static str)
    ensures
        category is General ==> label@ == "general"@,
        category is Validation ==> label@ == "validation"@,
        category is Performance ==> label@ == "performance"@,
        category is Conformance ==> label@ == "conformance"@,
        category is Unknown ==> label@ == "unknown"@,
{
    match category {
        MessageCategory::General => "general",
        MessageCategory::Validation => "validation",
        MessageCategory::Performance => "performance",
        MessageCategory::Conformance => "conformance",
        MessageCategory::Unknown => "unknown",
    }
}

/// The label printed for a message severity.
pub fn severity_label(severity: MessageSeverity) -> (label: &'static str)
    ensures
        severity is Verbose ==> label@ == "verbose"@,
        severity is Info ==> label@ == "info"@,
        severity is Warning ==> label@ == "warning"@,
        severity is Error ==> label@ == "error"@,
        severity is Unknown ==> label@ == "unknown"@,
{
    match severity {
        MessageSeverity::Verbose => "verbose",
        MessageSeverity::Info => "info",
        MessageSeverity::Warning => "warning",
        MessageSeverity::Error => "error",
        MessageSeverity::Unknown => "unknown",
    }
}

} // verus!
