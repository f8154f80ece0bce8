use vstd::prelude::*;

verus! {

/// Why merging failed.
#[derive(Clone, Copy, Debug, PartialEq, Eq, Structural)]
pub enum MergeError {
    /// The argument list does not start with `modules`.
    ExpectedModules,
    /// The argument list does not follow the grammar; `pos` is the index of
    /// the offending character.
    Syntax { pos: usize },
    /// A module entry names a field other than `module`, `file_path`,
    /// `prefix` and `wrapper`.
    UnknownField,
    /// A module entry names the same field twice.
    DuplicateField,
    /// A module entry has no `module` field.
    MissingRequiredField,
    /// A secondary module declares a fallback handler.
    FallbackInModule,
    /// The primary module has no body.
    MissingModuleBody,
}

} // verus!
