use vstd::prelude::*;

verus! {

/// The failure taxonomy of the header generator. Every stage of a run either
/// succeeds or aborts with exactly one of these; no partial header is ever
/// produced alongside an error.
#[derive(Clone, Copy, Debug, PartialEq, Eq, Structural)]
pub enum HgenError {
    /// No configuration file exists at any tier (project or user).
    ConfigUnreadable,
    /// A configuration file exists but its contents do not match the schema.
    ConfigMalformed,
    /// No entry of the language table has a `language` field equal to the
    /// requested name.
    LanguageNotFound,
    /// The matched language entry has no extension for the requested
    /// file-type label.
    UnknownFileType,
    /// No template file could be read, not even the final fallback.
    TemplateMissing,
    /// The template references a variable absent from the final mapping
    /// (strict-mode rendering).
    UndefinedVariable,
    /// The template text itself is malformed.
    TemplateSyntaxError,
    /// A shebang was explicitly requested but the language defines none.
    ShebangUndefined,
    /// The destination file could not be written.
    WriteFailure,
}

} // verus!
