//! The dialect vocabulary of the AST layer.

use vstd::prelude::*;

verus! {

/// Source dialect that the AST layer lowers to and prints.
#[derive(Debug, Clone, Copy, Eq, PartialEq, Structural)]
pub enum AstDialectVersion {
    Lua51,
    Lua52,
    Lua53,
    Lua54,
    Lua55,
    LuaJit,
    Luau,
}

/// The dialect the AST is lowered for; a relaxed target admits every
/// construct, so that lowering never refuses a feature.
#[derive(Debug, Clone, Copy, Eq, PartialEq, Structural)]
pub struct AstTargetDialect {
    pub version: AstDialectVersion,
    pub relaxed: bool,
}

impl AstTargetDialect {
    /// The target that holds generated code to `version`'s feature set.
    pub fn new(version: AstDialectVersion) -> (r: Self)
        ensures
            r == (AstTargetDialect { version, relaxed: false }),
    {
        AstTargetDialect { version, relaxed: false }
    }

    /// The target used for lowering in permissive mode: it keeps the version
    /// but admits every feature.
    pub fn relaxed_for_lowering(version: AstDialectVersion) -> (r: Self)
        ensures
            r == (AstTargetDialect { version, relaxed: true }),
    {
        AstTargetDialect { version, relaxed: true }
    }
}

} // verus!
