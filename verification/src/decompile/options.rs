//! Public options of the main pipeline and the normalisation done once at
//! its entry, so that no later stage has to fill in defaults.

use vstd::prelude::*;
use vstd::std_specs::convert::FromSpecImpl;
use crate::ast::AstDialectVersion;
use crate::debug::{DebugColorMode, DebugDetail};
use crate::generate::{GenerateMode, GenerateOptions};
use crate::naming::{NamingMode, NamingOptions};
use crate::parser::{ParseMode, ParseOptions, StringDecodeMode, StringEncoding};
use crate::readability::ReadabilityOptions;
use crate::text::{NameParseError, str_eq};
use super::backend::DecompileBackend;
use super::debug::DebugOptions;
use super::state::DecompileStage;

verus! {

/// The bytecode dialect the caller asks to decompile.
#[derive(Debug, Clone, Copy, Eq, PartialEq, Structural)]
pub enum DecompileDialect {
    Lua51,
    Lua52,
    Lua53,
    Lua54,
    Lua55,
    Luajit,
    Luau,
}

impl Default for DecompileDialect {
    fn default() -> (r: Self)
        ensures
            r == DecompileDialect::Lua51,
    {
        DecompileDialect::Lua51
    }
}

impl DecompileDialect {
    /// The name under which the dialect is displayed.
    pub open spec fn name_view(self) -> Seq<char> {
        match self {
            DecompileDialect::Lua51 => "lua5.1"@,
            DecompileDialect::Lua52 => "lua5.2"@,
            DecompileDialect::Lua53 => "lua5.3"@,
            DecompileDialect::Lua54 => "lua5.4"@,
            DecompileDialect::Lua55 => "lua5.5"@,
            DecompileDialect::Luajit => "luajit"@,
            DecompileDialect::Luau => "luau"@,
        }
    }

    /// Display name of the dialect.
    pub fn as_str(self) -> (r: &'static str)
        ensures
            r@ == self.name_view(),
    {
        match self {
            Self::Lua51 => "lua5.1",
            Self::Lua52 => "lua5.2",
            Self::Lua53 => "lua5.3",
            Self::Lua54 => "lua5.4",
            Self::Lua55 => "lua5.5",
            Self::Luajit => "luajit",
            Self::Luau => "luau",
        }
    }

    /// Dialect named by `s`, with or without the dot in the version.
    pub fn from_name(s: &str) -> (r: Option<Self>)
        ensures
            r == dialect_from_name(s@),
    {
        if str_eq(s, "lua5.1") || str_eq(s, "lua51") {
            Some(Self::Lua51)
        } else if str_eq(s, "lua5.2") || str_eq(s, "lua52") {
            Some(Self::Lua52)
        } else if str_eq(s, "lua5.3") || str_eq(s, "lua53") {
            Some(Self::Lua53)
        } else if str_eq(s, "lua5.4") || str_eq(s, "lua54") {
            Some(Self::Lua54)
        } else if str_eq(s, "lua5.5") || str_eq(s, "lua55") {
            Some(Self::Lua55)
        } else if str_eq(s, "luajit") {
            Some(Self::Luajit)
        } else if str_eq(s, "luau") {
            Some(Self::Luau)
        } else {
            None
        }
    }

    /// Parses `bytes` with the parser of this dialect.
    pub fn parse_chunk<B: DecompileBackend>(
        self,
        backend: &B,
        bytes: &[u8],
        options: ParseOptions,
    ) -> (r: Result<B::RawChunk, B::Error>)
        ensures
            backend.parses(self, bytes@, options, r),
    {
        match self {
            Self::Lua51 => backend.parse_lua51_chunk(bytes, options),
            Self::Lua52 => backend.parse_lua52_chunk(bytes, options),
            Self::Lua53 => backend.parse_lua53_chunk(bytes, options),
            Self::Lua54 => backend.parse_lua54_chunk(bytes, options),
            Self::Lua55 => backend.parse_lua55_chunk(bytes, options),
            Self::Luajit => backend.parse_luajit_chunk(bytes, options),
            Self::Luau => backend.parse_luau_chunk(bytes, options),
        }
    }

    /// The AST dialect that corresponds to this bytecode dialect.
    pub open spec fn ast_version(self) -> AstDialectVersion {
        match self {
            DecompileDialect::Lua51 => AstDialectVersion::Lua51,
            DecompileDialect::Lua52 => AstDialectVersion::Lua52,
            DecompileDialect::Lua53 => AstDialectVersion::Lua53,
            DecompileDialect::Lua54 => AstDialectVersion::Lua54,
            DecompileDialect::Lua55 => AstDialectVersion::Lua55,
            DecompileDialect::Luajit => AstDialectVersion::LuaJit,
            DecompileDialect::Luau => AstDialectVersion::Luau,
        }
    }
}

impl std::str::FromStr for DecompileDialect {
    type Err = NameParseError;

    fn from_str(s: &str) -> (r: Result<Self, Self::Err>)
        ensures
            r == (match dialect_from_name(s@) {
                Some(dialect) => Ok(dialect),
                None => Err(NameParseError::VariantNotFound),
            }),
    {
        match DecompileDialect::from_name(s) {
            Some(dialect) => Ok(dialect),
            None => Err(NameParseError::VariantNotFound),
        }
    }
}

/// The dialect a name denotes.
pub open spec fn dialect_from_name(s: Seq<char>) -> Option<DecompileDialect> {
    if s == "lua5.1"@ || s == "lua51"@ {
        Some(DecompileDialect::Lua51)
    } else if s == "lua5.2"@ || s == "lua52"@ {
        Some(DecompileDialect::Lua52)
    } else if s == "lua5.3"@ || s == "lua53"@ {
        Some(DecompileDialect::Lua53)
    } else if s == "lua5.4"@ || s == "lua54"@ {
        Some(DecompileDialect::Lua54)
    } else if s == "lua5.5"@ || s == "lua55"@ {
        Some(DecompileDialect::Lua55)
    } else if s == "luajit"@ {
        Some(DecompileDialect::Luajit)
    } else if s == "luau"@ {
        Some(DecompileDialect::Luau)
    } else {
        None
    }
}

impl From<DecompileDialect> for AstDialectVersion {
    fn from(dialect: DecompileDialect) -> (r: Self) {
        match dialect {
            DecompileDialect::Lua51 => AstDialectVersion::Lua51,
            DecompileDialect::Lua52 => AstDialectVersion::Lua52,
            DecompileDialect::Lua53 => AstDialectVersion::Lua53,
            DecompileDialect::Lua54 => AstDialectVersion::Lua54,
            DecompileDialect::Lua55 => AstDialectVersion::Lua55,
            DecompileDialect::Luajit => AstDialectVersion::LuaJit,
            DecompileDialect::Luau => AstDialectVersion::Luau,
        }
    }
}

impl FromSpecImpl<DecompileDialect> for AstDialectVersion {
    open spec fn obeys_from_spec() -> bool {
        true
    }

    open spec fn from_spec(v: DecompileDialect) -> AstDialectVersion {
        v.ast_version()
    }
}

/// The characters of every dialect name literal.
proof fn reveal_dialect_literals()
    ensures
        "lua5.1"@ == seq!['l', 'u', 'a', '5', '.', '1'],
        "lua51"@ == seq!['l', 'u', 'a', '5', '1'],
        "lua5.2"@ == seq!['l', 'u', 'a', '5', '.', '2'],
        "lua52"@ == seq!['l', 'u', 'a', '5', '2'],
        "lua5.3"@ == seq!['l', 'u', 'a', '5', '.', '3'],
        "lua53"@ == seq!['l', 'u', 'a', '5', '3'],
        "lua5.4"@ == seq!['l', 'u', 'a', '5', '.', '4'],
        "lua54"@ == seq!['l', 'u', 'a', '5', '4'],
        "lua5.5"@ == seq!['l', 'u', 'a', '5', '.', '5'],
        "lua55"@ == seq!['l', 'u', 'a', '5', '5'],
        "luajit"@ == seq!['l', 'u', 'a', 'j', 'i', 't'],
        "luau"@ == seq!['l', 'u', 'a', 'u'],
{
    reveal_strlit("lua5.1");
    reveal_strlit("lua51");
    reveal_strlit("lua5.2");
    reveal_strlit("lua52");
    reveal_strlit("lua5.3");
    reveal_strlit("lua53");
    reveal_strlit("lua5.4");
    reveal_strlit("lua54");
    reveal_strlit("lua5.5");
    reveal_strlit("lua55");
    reveal_strlit("luajit");
    reveal_strlit("luau");
}

/// Every dialect's display name parses back to it, and distinct dialects
/// map to distinct AST dialects.
pub proof fn law_dialect_names(d: DecompileDialect, e: DecompileDialect)
    ensures
        dialect_from_name(d.name_view()) == Some(d),
        d.ast_version() == e.ast_version() ==> d == e,
{
    reveal_dialect_literals();
    assert("lua5.1"@[5] != "lua5.2"@[5] && "lua5.1"@[5] != "lua5.3"@[5] && "lua5.1"@[5] != "lua5.4"@[5]
        && "lua5.1"@[5] != "lua5.5"@[5] && "lua5.2"@[5] != "lua5.3"@[5] && "lua5.2"@[5] != "lua5.4"@[5]
        && "lua5.2"@[5] != "lua5.5"@[5] && "lua5.3"@[5] != "lua5.4"@[5] && "lua5.3"@[5] != "lua5.5"@[5]
        && "lua5.4"@[5] != "lua5.5"@[5]);
    assert("lua5.1"@[3] != "luajit"@[3] && "lua5.2"@[3] != "luajit"@[3] && "lua5.3"@[3] != "luajit"@[3]
        && "lua5.4"@[3] != "luajit"@[3] && "lua5.5"@[3] != "luajit"@[3]);
}

/// Each bytecode dialect is lowered to the AST dialect of the same
/// language version.
pub proof fn law_ast_version_per_dialect()
    ensures
        DecompileDialect::Lua51.ast_version() == AstDialectVersion::Lua51,
        DecompileDialect::Lua52.ast_version() == AstDialectVersion::Lua52,
        DecompileDialect::Lua53.ast_version() == AstDialectVersion::Lua53,
        DecompileDialect::Lua54.ast_version() == AstDialectVersion::Lua54,
        DecompileDialect::Lua55.ast_version() == AstDialectVersion::Lua55,
        DecompileDialect::Luajit.ast_version() == AstDialectVersion::LuaJit,
        DecompileDialect::Luau.ast_version() == AstDialectVersion::Luau,
{
}

/// The dialects are displayed under fixed names, and both spellings of a
/// Lua version, with and without the dot, parse to that version.
pub proof fn law_dialect_spellings()
    ensures
        DecompileDialect::Lua51.name_view() == "lua5.1"@,
        DecompileDialect::Lua52.name_view() == "lua5.2"@,
        DecompileDialect::Lua53.name_view() == "lua5.3"@,
        DecompileDialect::Lua54.name_view() == "lua5.4"@,
        DecompileDialect::Lua55.name_view() == "lua5.5"@,
        DecompileDialect::Luajit.name_view() == "luajit"@,
        DecompileDialect::Luau.name_view() == "luau"@,
        dialect_from_name("lua5.1"@) == Some(DecompileDialect::Lua51),
        dialect_from_name("lua51"@) == Some(DecompileDialect::Lua51),
        dialect_from_name("lua5.2"@) == Some(DecompileDialect::Lua52),
        dialect_from_name("lua52"@) == Some(DecompileDialect::Lua52),
        dialect_from_name("lua5.3"@) == Some(DecompileDialect::Lua53),
        dialect_from_name("lua53"@) == Some(DecompileDialect::Lua53),
        dialect_from_name("lua5.4"@) == Some(DecompileDialect::Lua54),
        dialect_from_name("lua54"@) == Some(DecompileDialect::Lua54),
        dialect_from_name("lua5.5"@) == Some(DecompileDialect::Lua55),
        dialect_from_name("lua55"@) == Some(DecompileDialect::Lua55),
        dialect_from_name("luajit"@) == Some(DecompileDialect::Luajit),
        dialect_from_name("luau"@) == Some(DecompileDialect::Luau),
{
    reveal_dialect_literals();
    assert("lua5.1"@[5] != "lua5.2"@[5] && "lua5.1"@[5] != "lua5.3"@[5] && "lua5.1"@[5] != "lua5.4"@[5]
        && "lua5.1"@[5] != "lua5.5"@[5] && "lua5.2"@[5] != "lua5.3"@[5] && "lua5.2"@[5] != "lua5.4"@[5]
        && "lua5.2"@[5] != "lua5.5"@[5] && "lua5.3"@[5] != "lua5.4"@[5] && "lua5.3"@[5] != "lua5.5"@[5]
        && "lua5.4"@[5] != "lua5.5"@[5]);
    assert("lua51"@[4] != "lua52"@[4] && "lua51"@[4] != "lua53"@[4] && "lua51"@[4] != "lua54"@[4]
        && "lua51"@[4] != "lua55"@[4] && "lua52"@[4] != "lua53"@[4] && "lua52"@[4] != "lua54"@[4]
        && "lua52"@[4] != "lua55"@[4] && "lua53"@[4] != "lua54"@[4] && "lua53"@[4] != "lua55"@[4]
        && "lua54"@[4] != "lua55"@[4]);
    assert("lua5.1"@[3] != "luajit"@[3] && "lua51"@[3] != "luajit"@[3]);
    assert("lua51"@[3] != "luau"@[3] && "lua52"@[3] != "luau"@[3] && "lua53"@[3] != "luau"@[3]
        && "lua54"@[3] != "luau"@[3] && "lua55"@[3] != "luau"@[3]);
}

/// Top-level options of one decompilation.
#[derive(Debug, Clone, PartialEq)]
pub struct DecompileOptions {
    pub dialect: DecompileDialect,
    pub parse: ParseOptions,
    /// The last stage to run.
    pub target_stage: DecompileStage,
    pub debug: DebugOptions,
    pub readability: ReadabilityOptions,
    pub naming: NamingOptions,
    pub generate: GenerateOptions,
}

impl Default for DecompileOptions {
    fn default() -> (r: Self)
        ensures
            r.dialect == DecompileDialect::Lua51,
            r.parse == (ParseOptions {
                mode: ParseMode::Permissive,
                string_encoding: StringEncoding::Utf8,
                string_decode_mode: StringDecodeMode::Strict,
            }),
            r.target_stage == DecompileStage::Generate,
            !r.debug.enable,
            r.debug.output_stages@ == Seq::<DecompileStage>::empty(),
            !r.debug.timing,
            r.debug.color == DebugColorMode::Auto,
            r.debug.detail == DebugDetail::Normal,
            r.debug.filters.proto is None,
            r.debug.dump_passes@ == Seq::<String>::empty(),
            r.readability == (ReadabilityOptions {
                return_inline_max_complexity: 10,
                index_inline_max_complexity: 10,
                args_inline_max_complexity: 6,
                access_base_inline_max_complexity: 5,
            }),
            r.naming == (NamingOptions {
                mode: NamingMode::DebugLike,
                debug_like_include_function: true,
            }),
            r.generate == (GenerateOptions { mode: GenerateMode::Strict, comment: false }),
    {
        DecompileOptions {
            dialect: DecompileDialect::Lua51,
            parse: ParseOptions {
                mode: ParseMode::Permissive,
                string_encoding: StringEncoding::Utf8,
                string_decode_mode: StringDecodeMode::Strict,
            },
            target_stage: DecompileStage::Generate,
            debug: DebugOptions::default(),
            readability: ReadabilityOptions {
                return_inline_max_complexity: 10,
                index_inline_max_complexity: 10,
                args_inline_max_complexity: 6,
                access_base_inline_max_complexity: 5,
            },
            naming: NamingOptions { mode: NamingMode::DebugLike, debug_like_include_function: true },
            generate: GenerateOptions::default(),
        }
    }
}

/// The stages dumped once the options are normalised: with debugging on,
/// no stage named and timing off, the target stage alone is dumped.
pub open spec fn normalized_output_stages(
    enable: bool,
    timing: bool,
    output_stages: Seq<DecompileStage>,
    target_stage: DecompileStage,
) -> Seq<DecompileStage> {
    if enable && output_stages.len() == 0 && !timing {
        seq![target_stage]
    } else {
        output_stages
    }
}

impl DecompileOptions {
    /// The dump list these options have after normalisation.
    pub open spec fn normalized_stages(&self) -> Seq<DecompileStage> {
        normalized_output_stages(
            self.debug.enable,
            self.debug.timing,
            self.debug.output_stages@,
            self.target_stage,
        )
    }

    /// Fills in the defaults that depend on other options: a debug run that
    /// names no stage and does not time dumps its target stage.
    pub(crate) fn normalized(self) -> (r: Self)
        ensures
            r.debug.output_stages@ == self.normalized_stages(),
            r.dialect == self.dialect,
            r.parse == self.parse,
            r.target_stage == self.target_stage,
            r.debug.enable == self.debug.enable,
            r.debug.timing == self.debug.timing,
            r.debug.color == self.debug.color,
            r.debug.detail == self.debug.detail,
            r.debug.filters == self.debug.filters,
            r.debug.dump_passes == self.debug.dump_passes,
            r.readability == self.readability,
            r.naming == self.naming,
            r.generate == self.generate,
    {
        let mut this = self;
        if this.debug.enable && this.debug.output_stages.len() == 0 && !this.debug.timing {
            this.debug.output_stages.push(this.target_stage);
        }
        this
    }
}

/// Normalising twice changes nothing more than normalising once.
pub proof fn law_normalization_idempotent(
    enable: bool,
    timing: bool,
    output_stages: Seq<DecompileStage>,
    target_stage: DecompileStage,
)
    ensures
        normalized_output_stages(
            enable,
            timing,
            normalized_output_stages(enable, timing, output_stages, target_stage),
            target_stage,
        ) == normalized_output_stages(enable, timing, output_stages, target_stage),
{
}

/// After normalisation a debug run without timing always dumps some stage,
/// and the stages the caller named are kept as they were.
pub proof fn law_normalization_dumps_something(
    enable: bool,
    timing: bool,
    output_stages: Seq<DecompileStage>,
    target_stage: DecompileStage,
)
    ensures
        enable && !timing ==> normalized_output_stages(
            enable,
            timing,
            output_stages,
            target_stage,
        ).len() > 0,
        output_stages.len() > 0 ==> normalized_output_stages(
            enable,
            timing,
            output_stages,
            target_stage,
        ) == output_stages,
{
}

} // verus!
