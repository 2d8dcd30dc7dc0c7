use std::str::FromStr;

use lib::ast::AstDialectVersion;
use lib::debug::DebugDetail;
use lib::decompile::{DecompileDialect, DecompileOptions, DecompileStage};
use lib::generate::{GenerateMode, GenerateOptions};
use lib::naming::{NamingMode, NamingOptions};
use lib::parser::debug::{build_parser_summary_row, ParserProtoEntry};
use lib::parser::{ParseMode, ParseOptions, ProtoLineRange, RawProto, RawProtoCommon, StringDecodeMode, StringEncoding};
use lib::decompile::pipeline::{format_ast_features, permissive_feature_warnings, unsupported_feature_warnings};
use lib::readability::ReadabilityOptions;
use lib::text::NameParseError;

#[test]
fn next_walks_the_whole_pipeline() {
    let mut stage = DecompileStage::Parse;
    let mut seen = vec![stage];
    while let Some(next) = stage.next() {
        assert!(next > stage);
        seen.push(next);
        stage = next;
    }
    assert_eq!(seen.len(), 11);
    assert_eq!(stage, DecompileStage::Generate);
    assert_eq!(DecompileStage::Naming.next(), Some(DecompileStage::Generate));
    assert_eq!(DecompileStage::Generate.next(), None);
}

#[test]
fn stage_names_and_spellings() {
    assert_eq!(DecompileStage::Parse.as_str(), "parse");
    assert_eq!(DecompileStage::GraphFacts.as_str(), "graph_facts");
    assert_eq!(DecompileStage::StructureFacts.as_str(), "structure_facts");
    assert_eq!(DecompileStage::Generate.as_str(), "generate");
    for s in ["graph-facts", "graph_facts", "graphfacts"] {
        assert_eq!(DecompileStage::from_name(s), Some(DecompileStage::GraphFacts));
    }
    for s in ["structure-facts", "structure_facts", "structurefacts"] {
        assert_eq!(DecompileStage::from_str(s), Ok(DecompileStage::StructureFacts));
    }
    assert_eq!(DecompileStage::from_name("Parse"), None);
    assert_eq!(DecompileStage::from_str("lir"), Err(NameParseError::VariantNotFound));
}

#[test]
fn every_stage_name_parses_back() {
    let mut stage = Some(DecompileStage::Parse);
    while let Some(s) = stage {
        assert_eq!(DecompileStage::from_name(s.as_str()), Some(s));
        stage = s.next();
    }
}

#[test]
fn dialect_names_and_spellings() {
    assert_eq!(DecompileDialect::default(), DecompileDialect::Lua51);
    assert_eq!(DecompileDialect::Lua54.as_str(), "lua5.4");
    assert_eq!(DecompileDialect::Luajit.as_str(), "luajit");
    assert_eq!(DecompileDialect::from_name("lua53"), Some(DecompileDialect::Lua53));
    assert_eq!(DecompileDialect::from_str("lua5.5"), Ok(DecompileDialect::Lua55));
    assert_eq!(DecompileDialect::from_str("luau"), Ok(DecompileDialect::Luau));
    assert_eq!(DecompileDialect::from_str("lua5"), Err(NameParseError::VariantNotFound));
    for d in [
        DecompileDialect::Lua51, DecompileDialect::Lua52, DecompileDialect::Lua53, DecompileDialect::Lua54,
        DecompileDialect::Lua55, DecompileDialect::Luajit, DecompileDialect::Luau,
    ] {
        assert_eq!(DecompileDialect::from_name(d.as_str()), Some(d));
    }
}

#[test]
fn dialect_maps_to_ast_version() {
    assert_eq!(AstDialectVersion::from(DecompileDialect::Lua51), AstDialectVersion::Lua51);
    assert_eq!(AstDialectVersion::from(DecompileDialect::Lua55), AstDialectVersion::Lua55);
    assert_eq!(AstDialectVersion::from(DecompileDialect::Luajit), AstDialectVersion::LuaJit);
    assert_eq!(AstDialectVersion::from(DecompileDialect::Luau), AstDialectVersion::Luau);
}

#[test]
fn default_options() {
    let o = DecompileOptions::default();
    assert_eq!(o.dialect, DecompileDialect::Lua51);
    assert_eq!(
        o.parse,
        ParseOptions {
            mode: ParseMode::Permissive,
            string_encoding: StringEncoding::Utf8,
            string_decode_mode: StringDecodeMode::Strict,
        }
    );
    assert_eq!(o.target_stage, DecompileStage::Generate);
    assert!(!o.debug.enable);
    assert_eq!(o.debug.detail, DebugDetail::Normal);
    assert_eq!(
        o.readability,
        ReadabilityOptions {
            return_inline_max_complexity: 10,
            index_inline_max_complexity: 10,
            args_inline_max_complexity: 6,
            access_base_inline_max_complexity: 5,
        }
    );
    assert_eq!(o.naming, NamingOptions { mode: NamingMode::DebugLike, debug_like_include_function: true });
    assert_eq!(o.generate, GenerateOptions { mode: GenerateMode::Strict, comment: false });
}

#[test]
fn feature_list_formatting() {
    assert_eq!(format_ast_features(&vec![]), "");
    assert_eq!(format_ast_features(&vec!["goto".to_string()]), "goto");
    assert_eq!(
        format_ast_features(&vec!["goto".to_string(), "int-div".to_string(), "const".to_string()]),
        "goto, int-div, const"
    );
}

#[test]
fn unsupported_feature_warning_text() {
    assert!(unsupported_feature_warnings("lua5.1", &vec![]).is_empty());
    assert_eq!(
        unsupported_feature_warnings("lua5.1", &vec!["goto".to_string(), "const".to_string()]),
        vec!["requested target dialect `lua5.1` does not support feature(s) goto, const; emitting permissive output.".to_string()]
    );
}

#[test]
fn parser_summary_row() {
    let child = RawProto {
        common: RawProtoCommon {
            line_range: ProtoLineRange { defined_start: 3, defined_end: 4 },
            instructions: vec![1],
            children: vec![],
        },
    };
    let proto = RawProto {
        common: RawProtoCommon {
            line_range: ProtoLineRange { defined_start: 1, defined_end: 20 },
            instructions: vec![7, 8, 9],
            children: vec![child],
        },
    };
    let entry = ParserProtoEntry { id: 5, parent: Some(2), depth: 1, proto: &proto };
    let row = build_parser_summary_row(&entry);
    assert_eq!(row.id, 5);
    assert_eq!(row.depth_below_focus, 1);
    assert_eq!(row.name, None);
    assert_eq!(row.first, None);
    assert_eq!(row.lines, Some((1, 20)));
    assert_eq!(row.instrs, Some(3));
    assert_eq!(row.children, Some(1));
}

#[test]
fn encoding_labels() {
    assert_eq!(StringEncoding::Utf8.as_str(), "utf-8");
    assert_eq!(StringEncoding::Gbk.as_str(), "gbk");
}

#[test]
fn feature_warnings_keep_unsupported_in_order() {
    let names = vec!["goto".to_string(), "int-div".to_string(), "const".to_string()];
    assert_eq!(
        permissive_feature_warnings(GenerateMode::Permissive, "lua5.1", &names, &vec![false, true, false]),
        vec!["requested target dialect `lua5.1` does not support feature(s) goto, const; emitting permissive output.".to_string()]
    );
    assert!(permissive_feature_warnings(GenerateMode::Permissive, "lua5.1", &names, &vec![true, true, true]).is_empty());
    assert!(permissive_feature_warnings(GenerateMode::Strict, "lua5.1", &names, &vec![false, false, false]).is_empty());
}
