use std::cell::RefCell;

use lib::ast::{AstDialectVersion, AstTargetDialect};
use lib::debug::{DebugColorMode, DebugDetail, DebugFilters};
use lib::decompile::{
    decompile, run_decompile_stages, DebugOptions, DecompileBackend, DecompileDialect,
    DecompileOptions, DecompileResult, DecompileStage, DecompileState, StageDebugOutput,
};
use lib::generate::{GenerateCommentMetadata, GenerateMode, GenerateOptions, ProtoSignature};
use lib::hir::{HirProtoSummary, PassDumpConfig};
use lib::naming::NamingOptions;
use lib::parser::{ParseOptions, ProtoLineRange};
use lib::readability::ReadabilityOptions;

/// A stand-in for the decompiler layers: every product is a string naming
/// how it was made, and every call is logged.
struct Toy {
    log: RefCell<Vec<String>>,
    fail_at: Option<&'static str>,
    features: Vec<&'static str>,
    unsupported: Vec<&'static str>,
    header_dialect: Option<DecompileDialect>,
    comments: RefCell<Option<GenerateCommentMetadata>>,
    ast_targets: RefCell<Vec<AstTargetDialect>>,
    timings: RefCell<Vec<String>>,
}

impl Toy {
    fn new() -> Toy {
        Toy {
            log: RefCell::new(Vec::new()),
            fail_at: None,
            features: Vec::new(),
            unsupported: Vec::new(),
            header_dialect: None,
            comments: RefCell::new(None),
            ast_targets: RefCell::new(Vec::new()),
            timings: RefCell::new(Vec::new()),
        }
    }

    fn note(&self, s: &str) {
        self.log.borrow_mut().push(s.to_string());
    }

    fn step(&self, name: &'static str, out: String) -> Result<String, String> {
        self.note(name);
        if self.fail_at == Some(name) {
            Err(format!("{} failed", name))
        } else {
            Ok(out)
        }
    }

    fn parse(&self, name: &'static str, dialect: DecompileDialect, bytes: &[u8]) -> Result<(DecompileDialect, Vec<u8>), String> {
        self.note(name);
        if self.fail_at == Some("parse") {
            return Err("parse failed".to_string());
        }
        Ok((self.header_dialect.unwrap_or(dialect), bytes.to_vec()))
    }

    fn calls(&self) -> Vec<String> {
        self.log.borrow().clone()
    }
}

#[derive(Debug, Clone, PartialEq)]
struct Generated {
    source: String,
    warnings: Vec<String>,
}

impl DecompileBackend for Toy {
    type RawChunk = (DecompileDialect, Vec<u8>);
    type LoweredChunk = String;
    type CfgGraph = String;
    type GraphFacts = String;
    type DataflowFacts = String;
    type StructureFacts = String;
    type HirModule = String;
    type AstModule = String;
    type AstFeature = &'static str;
    type NamingEvidence = String;
    type NameMap = String;
    type GeneratedChunk = Generated;
    type TimingReport = String;
    type Timings = (bool, Vec<String>);
    type Error = String;

    fn parse_lua51_chunk(&self, bytes: &[u8], _o: ParseOptions) -> Result<Self::RawChunk, String> {
        self.parse("parse_lua51", DecompileDialect::Lua51, bytes)
    }
    fn parse_lua52_chunk(&self, bytes: &[u8], _o: ParseOptions) -> Result<Self::RawChunk, String> {
        self.parse("parse_lua52", DecompileDialect::Lua52, bytes)
    }
    fn parse_lua53_chunk(&self, bytes: &[u8], _o: ParseOptions) -> Result<Self::RawChunk, String> {
        self.parse("parse_lua53", DecompileDialect::Lua53, bytes)
    }
    fn parse_lua54_chunk(&self, bytes: &[u8], _o: ParseOptions) -> Result<Self::RawChunk, String> {
        self.parse("parse_lua54", DecompileDialect::Lua54, bytes)
    }
    fn parse_lua55_chunk(&self, bytes: &[u8], _o: ParseOptions) -> Result<Self::RawChunk, String> {
        self.parse("parse_lua55", DecompileDialect::Lua55, bytes)
    }
    fn parse_luajit_chunk(&self, bytes: &[u8], _o: ParseOptions) -> Result<Self::RawChunk, String> {
        self.parse("parse_luajit", DecompileDialect::Luajit, bytes)
    }
    fn parse_luau_chunk(&self, bytes: &[u8], _o: ParseOptions) -> Result<Self::RawChunk, String> {
        self.parse("parse_luau", DecompileDialect::Luau, bytes)
    }
    fn chunk_dialect(&self, chunk: &Self::RawChunk) -> DecompileDialect {
        chunk.0
    }
    fn dump_lua51_chunk(&self, _c: &Self::RawChunk, _d: DebugDetail, _f: &DebugFilters, _k: DebugColorMode) -> String {
        "lua51 dump".to_string()
    }
    fn dump_lua52_chunk(&self, _c: &Self::RawChunk, _d: DebugDetail, _f: &DebugFilters, _k: DebugColorMode) -> String {
        "lua52 dump".to_string()
    }
    fn dump_lua53_chunk(&self, _c: &Self::RawChunk, _d: DebugDetail, _f: &DebugFilters, _k: DebugColorMode) -> String {
        "lua53 dump".to_string()
    }
    fn dump_lua54_chunk(&self, _c: &Self::RawChunk, _d: DebugDetail, _f: &DebugFilters, _k: DebugColorMode) -> String {
        "lua54 dump".to_string()
    }
    fn dump_lua55_chunk(&self, _c: &Self::RawChunk, _d: DebugDetail, _f: &DebugFilters, _k: DebugColorMode) -> String {
        "lua55 dump".to_string()
    }
    fn dump_luajit_chunk(&self, _c: &Self::RawChunk, _d: DebugDetail, _f: &DebugFilters, _k: DebugColorMode) -> String {
        "luajit dump".to_string()
    }
    fn dump_luau_chunk(&self, _c: &Self::RawChunk, _d: DebugDetail, _f: &DebugFilters, _k: DebugColorMode) -> String {
        "luau dump".to_string()
    }
    fn lower_chunk(&self, raw: &Self::RawChunk) -> Result<String, String> {
        self.step("lower", format!("lir({} bytes)", raw.1.len()))
    }
    fn dump_lir(&self, x: &String, _d: DebugDetail, _f: &DebugFilters, _k: DebugColorMode) -> String {
        format!("dump {}", x)
    }
    fn build_cfg(&self, lowered: &String) -> String {
        self.note("cfg");
        format!("cfg({})", lowered)
    }
    fn dump_cfg(&self, x: &String, _d: DebugDetail, _f: &DebugFilters, _k: DebugColorMode) -> String {
        format!("dump {}", x)
    }
    fn analyze_graph_facts(&self, cfg: &String) -> String {
        self.note("graph_facts");
        format!("gf({})", cfg)
    }
    fn dump_graph_facts(&self, x: &String, _d: DebugDetail, _f: &DebugFilters, _k: DebugColorMode) -> String {
        format!("dump {}", x)
    }
    fn analyze_dataflow(&self, _l: &String, _c: &String, gf: &String) -> String {
        self.note("dataflow");
        format!("df({})", gf)
    }
    fn dump_dataflow(&self, l: &String, c: &String, x: &String, _d: DebugDetail, _f: &DebugFilters, _k: DebugColorMode) -> String {
        format!("dump {} {} {}", l, c, x)
    }
    fn analyze_structure(&self, _l: &String, _c: &String, _g: &String, d: &String, _o: &DecompileOptions) -> String {
        self.note("structure");
        format!("st({})", d)
    }
    fn dump_structure(&self, x: &String, _d: DebugDetail, _f: &DebugFilters, _k: DebugColorMode) -> String {
        format!("dump {}", x)
    }
    fn lower_hir(&self, _l: &String, _c: &String, _g: &String, _d: &String, s: &String) -> String {
        self.note("lower_hir");
        format!("hir({})", s)
    }
    fn simplify_hir(&self, module: &mut String, _r: ReadabilityOptions, _m: GenerateMode, v: AstDialectVersion, dump: &PassDumpConfig) {
        self.note(&format!("simplify {:?} {:?}", v, dump.pass_names));
        module.push_str("+simplified");
    }
    fn dump_hir(&self, x: &String, _d: DebugDetail, _f: &DebugFilters, _k: DebugColorMode) -> String {
        format!("dump {}", x)
    }
    fn hir_entry(&self, _m: &String) -> usize {
        1
    }
    fn hir_proto_summaries(&self, _m: &String) -> Vec<HirProtoSummary> {
        let range = ProtoLineRange { defined_start: 0, defined_end: 9 };
        let signature = ProtoSignature { num_params: 2, is_vararg: false };
        vec![
            HirProtoSummary { id: 0, source: Some("a.lua".to_string()), line_range: range, signature, local_count: 3, upvalue_count: 0 },
            HirProtoSummary { id: 1, source: Some("main.lua".to_string()), line_range: range, signature, local_count: 1, upvalue_count: 2 },
        ]
    }
    fn lower_ast(&self, hir: &String, target: AstTargetDialect, _m: GenerateMode) -> Result<String, String> {
        self.ast_targets.borrow_mut().push(target);
        self.step("lower_ast", format!("ast({})", hir))
    }
    fn dump_ast(&self, x: &String, _d: DebugDetail, _f: &DebugFilters, _k: DebugColorMode) -> String {
        format!("dump {}", x)
    }
    fn make_readable(&self, module: &String, _t: AstTargetDialect, _o: ReadabilityOptions, _p: &Vec<String>) -> String {
        self.note("readable");
        format!("readable({})", module)
    }
    fn dump_readability(&self, x: &String, _d: DebugDetail, _f: &DebugFilters, _k: DebugColorMode) -> String {
        format!("dump {}", x)
    }
    fn collect_ast_features(&self, _m: &String) -> Vec<&'static str> {
        self.features.clone()
    }
    fn supports_feature(&self, _t: AstTargetDialect, feature: &&'static str) -> bool {
        !self.unsupported.contains(feature)
    }
    fn ast_feature_name(&self, feature: &&'static str) -> String {
        feature.to_string()
    }
    fn ast_dialect_name(&self, version: AstDialectVersion) -> String {
        format!("{:?}", version)
    }
    fn collect_naming_evidence(&self, _h: &String) -> Result<String, String> {
        self.step("evidence", "evidence".to_string())
    }
    fn assign_names_with_evidence(&self, r: &String, _h: &String, _e: &String, _o: NamingOptions) -> Result<String, String> {
        self.step("names", format!("names({})", r))
    }
    fn dump_naming(&self, x: &String, _d: DebugDetail, _f: &DebugFilters, _k: DebugColorMode) -> String {
        format!("dump {}", x)
    }
    fn generate_chunk(&self, r: &String, n: &String, _t: AstTargetDialect, comments: &Option<GenerateCommentMetadata>, _o: GenerateOptions) -> Result<Generated, String> {
        *self.comments.borrow_mut() = comments.clone();
        let source = self.step("generate", format!("src({}, {})", r, n))?;
        Ok(Generated { source, warnings: Vec::new() })
    }
    fn set_generated_warnings(&self, chunk: &mut Generated, warnings: Vec<String>) {
        chunk.warnings = warnings;
    }
    fn dump_generate(&self, x: &Generated, _d: DebugDetail, _f: &DebugFilters, _k: DebugColorMode) -> String {
        format!("dump {}", x.source)
    }
    fn start_timing(&self, enabled: bool) -> (bool, Vec<String>) {
        (enabled, Vec::new())
    }
    fn begin_timing(&self, timings: &mut (bool, Vec<String>), label: &str) {
        timings.1.push(format!("begin {}", label));
    }
    fn end_timing(&self, timings: &mut (bool, Vec<String>), label: &str) {
        timings.1.push(format!("end {}", label));
    }
    fn finish_timing(&self, timings: &(bool, Vec<String>)) -> Option<String> {
        *self.timings.borrow_mut() = timings.1.clone();
        if timings.0 {
            Some(format!("{} spans", timings.1.len() / 2))
        } else {
            None
        }
    }
}

const ALL: [DecompileStage; 11] = [
    DecompileStage::Parse,
    DecompileStage::Transform,
    DecompileStage::Cfg,
    DecompileStage::GraphFacts,
    DecompileStage::Dataflow,
    DecompileStage::StructureFacts,
    DecompileStage::Hir,
    DecompileStage::Ast,
    DecompileStage::Readability,
    DecompileStage::Naming,
    DecompileStage::Generate,
];

fn filled(state: &DecompileState<Toy>) -> Vec<bool> {
    vec![
        state.raw_chunk.is_some(),
        state.lowered.is_some(),
        state.cfg.is_some(),
        state.graph_facts.is_some(),
        state.dataflow.is_some(),
        state.structure_facts.is_some(),
        state.hir.is_some(),
        state.ast.is_some(),
        state.readability.is_some(),
        state.naming.is_some(),
        state.generated.is_some(),
    ]
}

fn stages_of(outputs: &[StageDebugOutput]) -> Vec<DecompileStage> {
    outputs.iter().map(|o| o.stage).collect()
}

fn run(toy: &Toy, options: DecompileOptions) -> Result<DecompileResult<Toy>, String> {
    decompile(toy, b"\x1bLua", options)
}

#[test]
fn default_run_reaches_generate() {
    let toy = Toy::new();
    let result = run(&toy, DecompileOptions::default()).unwrap();
    assert_eq!(result.state.completed_stage, Some(DecompileStage::Generate));
    assert_eq!(filled(&result.state), vec![true; 11]);
    assert!(result.debug_output.is_empty());
    assert!(result.timing_report.is_none());
    let generated = result.state.generated.unwrap();
    assert_eq!(
        generated.source,
        "src(readable(ast(hir(st(df(gf(cfg(lir(4 bytes))))))+simplified)), names(readable(ast(hir(st(df(gf(cfg(lir(4 bytes))))))+simplified))))"
    );
    assert!(generated.warnings.is_empty());
    assert_eq!(toy.calls()[0], "parse_lua51");
}

#[test]
fn each_target_stops_after_its_stage() {
    for (k, target) in ALL.iter().enumerate() {
        let toy = Toy::new();
        let mut options = DecompileOptions::default();
        options.target_stage = *target;
        let result = run(&toy, options).unwrap();
        assert_eq!(result.state.completed_stage, Some(*target));
        assert_eq!(result.state.target_stage, *target);
        let expected: Vec<bool> = (0..11).map(|i| i <= k).collect();
        assert_eq!(filled(&result.state), expected);
    }
}

#[test]
fn stages_run_in_fixed_order() {
    let toy = Toy::new();
    run(&toy, DecompileOptions::default()).unwrap();
    let calls = toy.calls();
    let order = [
        "parse_lua51", "lower", "cfg", "graph_facts", "dataflow", "structure", "lower_hir",
        "simplify Lua51 []", "lower_ast", "readable", "evidence", "names", "generate",
    ];
    assert_eq!(calls, order.iter().map(|s| s.to_string()).collect::<Vec<_>>());
}

#[test]
fn debug_without_stages_dumps_target() {
    let toy = Toy::new();
    let mut options = DecompileOptions::default();
    options.debug.enable = true;
    options.target_stage = DecompileStage::Cfg;
    let result = run(&toy, options).unwrap();
    assert_eq!(stages_of(&result.debug_output), vec![DecompileStage::Cfg]);
    assert_eq!(result.debug_output[0].content, "dump cfg(lir(4 bytes))");
    assert_eq!(result.debug_output[0].detail, DebugDetail::Normal);
}

#[test]
fn timing_run_does_not_add_default_dump() {
    let toy = Toy::new();
    let mut options = DecompileOptions::default();
    options.debug.enable = true;
    options.debug.timing = true;
    let result = run(&toy, options).unwrap();
    assert!(result.debug_output.is_empty());
    assert_eq!(result.timing_report, Some("14 spans".to_string()));
    let spans = toy.timings.borrow().clone();
    assert_eq!(spans[0], "begin parse");
    assert_eq!(spans[1], "end parse");
    assert!(spans.contains(&"begin lower".to_string()));
    assert!(spans.contains(&"end simplify".to_string()));
    assert!(spans.contains(&"begin collect-evidence".to_string()));
    assert_eq!(spans.last().unwrap(), "end generate");
}

#[test]
fn timing_needs_debug_enabled() {
    let toy = Toy::new();
    let mut options = DecompileOptions::default();
    options.debug.timing = true;
    let result = run(&toy, options).unwrap();
    assert!(result.timing_report.is_none());
    assert!(toy.timings.borrow().is_empty());
}

#[test]
fn requested_dumps_come_in_pipeline_order() {
    let toy = Toy::new();
    let mut options = DecompileOptions::default();
    options.debug.enable = true;
    options.debug.detail = DebugDetail::Verbose;
    options.debug.output_stages = vec![DecompileStage::Generate, DecompileStage::Dataflow, DecompileStage::Parse];
    let result = run(&toy, options).unwrap();
    assert_eq!(
        stages_of(&result.debug_output),
        vec![DecompileStage::Parse, DecompileStage::Dataflow, DecompileStage::Generate]
    );
    assert!(result.debug_output.iter().all(|o| o.detail == DebugDetail::Verbose));
    assert_eq!(result.debug_output[0].content, "lua51 dump");
    assert_eq!(result.debug_output[1].content, "dump lir(4 bytes) cfg(lir(4 bytes)) df(gf(cfg(lir(4 bytes))))");
}

#[test]
fn dumps_after_target_are_not_produced() {
    let toy = Toy::new();
    let mut options = DecompileOptions::default();
    options.debug.enable = true;
    options.target_stage = DecompileStage::Hir;
    options.debug.output_stages = vec![DecompileStage::Ast, DecompileStage::Hir, DecompileStage::Transform];
    let result = run(&toy, options).unwrap();
    assert_eq!(stages_of(&result.debug_output), vec![DecompileStage::Transform, DecompileStage::Hir]);
}

#[test]
fn dumps_need_debug_enabled() {
    let toy = Toy::new();
    let mut options = DecompileOptions::default();
    options.debug.output_stages = vec![DecompileStage::Parse];
    let result = run(&toy, options).unwrap();
    assert!(result.debug_output.is_empty());
}

#[test]
fn failing_layer_aborts_the_run() {
    for (layer, calls) in [("parse", 1usize), ("lower", 2), ("lower_ast", 9), ("names", 12), ("generate", 13)] {
        let mut toy = Toy::new();
        toy.fail_at = Some(layer);
        let err = match run(&toy, DecompileOptions::default()) {
            Ok(_) => panic!("expected failure"),
            Err(e) => e,
        };
        assert_eq!(err, format!("{} failed", layer));
        assert_eq!(toy.calls().len(), calls);
    }
}

#[test]
fn parser_follows_requested_dialect() {
    let cases = [
        (DecompileDialect::Lua51, "parse_lua51"),
        (DecompileDialect::Lua52, "parse_lua52"),
        (DecompileDialect::Lua53, "parse_lua53"),
        (DecompileDialect::Lua54, "parse_lua54"),
        (DecompileDialect::Lua55, "parse_lua55"),
        (DecompileDialect::Luajit, "parse_luajit"),
        (DecompileDialect::Luau, "parse_luau"),
    ];
    for (dialect, call) in cases {
        let toy = Toy::new();
        let mut options = DecompileOptions::default();
        options.dialect = dialect;
        options.target_stage = DecompileStage::Parse;
        let result = run(&toy, options).unwrap();
        assert_eq!(toy.calls(), vec![call.to_string()]);
        assert_eq!(result.state.dialect, dialect);
    }
}

#[test]
fn parse_chunk_dispatches_on_dialect() {
    let toy = Toy::new();
    let options = DecompileOptions::default().parse;
    let chunk = DecompileDialect::Luau.parse_chunk(&toy, b"xy", options).unwrap();
    assert_eq!(chunk, (DecompileDialect::Luau, b"xy".to_vec()));
    assert_eq!(toy.calls(), vec!["parse_luau".to_string()]);
}

#[test]
fn parser_dump_follows_chunk_header() {
    let mut toy = Toy::new();
    toy.header_dialect = Some(DecompileDialect::Luajit);
    let mut options = DecompileOptions::default();
    options.debug.enable = true;
    options.target_stage = DecompileStage::Parse;
    let result = run(&toy, options).unwrap();
    assert_eq!(result.debug_output[0].content, "luajit dump");
}

#[test]
fn simplifier_gets_dialect_and_dump_passes() {
    let toy = Toy::new();
    let mut options = DecompileOptions::default();
    options.dialect = DecompileDialect::Luajit;
    options.debug.dump_passes = vec!["fold".to_string(), "inline".to_string()];
    options.target_stage = DecompileStage::Hir;
    run(&toy, options).unwrap();
    assert!(toy.calls().contains(&"simplify LuaJit [\"fold\", \"inline\"]".to_string()));
}

#[test]
fn permissive_mode_lowers_for_relaxed_target() {
    let toy = Toy::new();
    let mut options = DecompileOptions::default();
    options.dialect = DecompileDialect::Lua53;
    options.generate.mode = GenerateMode::Permissive;
    options.target_stage = DecompileStage::Ast;
    run(&toy, options).unwrap();
    assert_eq!(
        toy.ast_targets.borrow().clone(),
        vec![AstTargetDialect { version: AstDialectVersion::Lua53, relaxed: true }]
    );

    let toy = Toy::new();
    let mut options = DecompileOptions::default();
    options.dialect = DecompileDialect::Lua53;
    options.target_stage = DecompileStage::Ast;
    run(&toy, options).unwrap();
    assert_eq!(
        toy.ast_targets.borrow().clone(),
        vec![AstTargetDialect { version: AstDialectVersion::Lua53, relaxed: false }]
    );
}

#[test]
fn permissive_output_warns_about_unsupported_features() {
    let mut toy = Toy::new();
    toy.features = vec!["goto", "integer-division", "bitwise-operators"];
    toy.unsupported = vec!["goto", "bitwise-operators"];
    let mut options = DecompileOptions::default();
    options.generate.mode = GenerateMode::Permissive;
    let result = run(&toy, options).unwrap();
    assert_eq!(
        result.state.generated.unwrap().warnings,
        vec!["requested target dialect `Lua51` does not support feature(s) goto, bitwise-operators; emitting permissive output.".to_string()]
    );
}

#[test]
fn permissive_output_without_unsupported_features_has_no_warning() {
    let mut toy = Toy::new();
    toy.features = vec!["goto"];
    let mut options = DecompileOptions::default();
    options.generate.mode = GenerateMode::Permissive;
    let result = run(&toy, options).unwrap();
    assert!(result.state.generated.unwrap().warnings.is_empty());
}

#[test]
fn strict_output_never_warns() {
    let mut toy = Toy::new();
    toy.features = vec!["goto"];
    toy.unsupported = vec!["goto"];
    let result = run(&toy, DecompileOptions::default()).unwrap();
    assert!(result.state.generated.unwrap().warnings.is_empty());
}

#[test]
fn comments_describe_every_function() {
    let toy = Toy::new();
    let mut options = DecompileOptions::default();
    options.generate.comment = true;
    run(&toy, options).unwrap();
    let comments = toy.comments.borrow().clone().unwrap();
    assert_eq!(comments.chunk.file_name, Some("main.lua".to_string()));
    assert_eq!(comments.chunk.encoding, "utf-8");
    assert_eq!(comments.functions.len(), 2);
    assert_eq!(comments.functions[0].function, 0);
    assert_eq!(comments.functions[0].source, Some("a.lua".to_string()));
    assert_eq!(comments.functions[0].local_count, 3);
    assert_eq!(comments.functions[1].upvalue_count, 2);
}

#[test]
fn no_comment_metadata_unless_asked() {
    let toy = Toy::new();
    run(&toy, DecompileOptions::default()).unwrap();
    assert!(toy.comments.borrow().is_none());
}

#[test]
fn table_schedule_appends_after_existing_dumps() {
    let toy = Toy::new();
    let mut options = DecompileOptions::default();
    options.debug.enable = true;
    options.debug.output_stages = vec![DecompileStage::Naming, DecompileStage::Cfg];
    options.target_stage = DecompileStage::Naming;
    let mut state: DecompileState<Toy> = DecompileState {
        dialect: options.dialect,
        target_stage: options.target_stage,
        completed_stage: None,
        raw_chunk: None,
        lowered: None,
        cfg: None,
        graph_facts: None,
        dataflow: None,
        structure_facts: None,
        hir: None,
        ast: None,
        readability: None,
        naming: None,
        generated: None,
    };
    let earlier = StageDebugOutput {
        stage: DecompileStage::Generate,
        detail: DebugDetail::Summary,
        content: "earlier".to_string(),
    };
    let mut outputs = vec![earlier.clone()];
    let mut timings = toy.start_timing(false);
    run_decompile_stages(&toy, b"abc", &options, &mut state, &mut outputs, &mut timings).unwrap();
    assert!(timings.1.is_empty());
    assert_eq!(outputs[0], earlier);
    assert_eq!(
        stages_of(&outputs),
        vec![DecompileStage::Generate, DecompileStage::Cfg, DecompileStage::Naming]
    );
    assert_eq!(state.completed_stage, Some(DecompileStage::Naming));
    assert!(state.naming.is_some());
    assert!(state.generated.is_none());
}

#[test]
fn table_schedule_stops_on_failure() {
    let mut toy = Toy::new();
    toy.fail_at = Some("lower");
    let mut options = DecompileOptions::default();
    options.debug.enable = true;
    options.debug.timing = true;
    let mut state: DecompileState<Toy> = DecompileState {
        dialect: options.dialect,
        target_stage: options.target_stage,
        completed_stage: None,
        raw_chunk: None,
        lowered: None,
        cfg: None,
        graph_facts: None,
        dataflow: None,
        structure_facts: None,
        hir: None,
        ast: None,
        readability: None,
        naming: None,
        generated: None,
    };
    let mut outputs = Vec::new();
    let mut timings = toy.start_timing(true);
    let r = run_decompile_stages(&toy, b"abc", &options, &mut state, &mut outputs, &mut timings);
    assert_eq!(
        timings.1,
        vec!["begin parse", "end parse", "begin transform", "end transform"]
            .into_iter()
            .map(|s| s.to_string())
            .collect::<Vec<_>>()
    );
    assert_eq!(r, Err("lower failed".to_string()));
    assert_eq!(state.completed_stage, Some(DecompileStage::Parse));
}

#[test]
fn debug_options_default_is_quiet() {
    let d = DebugOptions::default();
    assert!(!d.enable);
    assert!(!d.timing);
    assert!(d.output_stages.is_empty());
    assert!(d.dump_passes.is_empty());
    assert_eq!(d.detail, DebugDetail::Normal);
    assert_eq!(d.color, DebugColorMode::Auto);
    assert_eq!(d.filters, DebugFilters { proto: None });
}
