//! Stage enumeration of the main pipeline.

use vstd::prelude::*;
use crate::text::{NameParseError, str_eq};
use super::backend::DecompileBackend;
use super::options::DecompileDialect;

verus! {

/// The fixed order of the stages of the main decompilation pipeline.
#[derive(Debug, Clone, Copy, Eq, PartialEq, Ord, PartialOrd, Structural)]
pub enum DecompileStage {
    Parse,
    Transform,
    Cfg,
    GraphFacts,
    Dataflow,
    StructureFacts,
    Hir,
    Ast,
    Readability,
    Naming,
    Generate,
}

/// Number of stages in the pipeline.
pub open spec fn stage_count() -> nat {
    11
}

impl DecompileStage {
    /// Position of the stage in the pipeline order, starting at 0.
    pub open spec fn index(self) -> nat {
        match self {
            DecompileStage::Parse => 0,
            DecompileStage::Transform => 1,
            DecompileStage::Cfg => 2,
            DecompileStage::GraphFacts => 3,
            DecompileStage::Dataflow => 4,
            DecompileStage::StructureFacts => 5,
            DecompileStage::Hir => 6,
            DecompileStage::Ast => 7,
            DecompileStage::Readability => 8,
            DecompileStage::Naming => 9,
            DecompileStage::Generate => 10,
        }
    }

    /// The name under which the stage is displayed.
    pub open spec fn name_view(self) -> Seq<char> {
        match self {
            DecompileStage::Parse => "parse"@,
            DecompileStage::Transform => "transform"@,
            DecompileStage::Cfg => "cfg"@,
            DecompileStage::GraphFacts => "graph_facts"@,
            DecompileStage::Dataflow => "dataflow"@,
            DecompileStage::StructureFacts => "structure_facts"@,
            DecompileStage::Hir => "hir"@,
            DecompileStage::Ast => "ast"@,
            DecompileStage::Readability => "readability"@,
            DecompileStage::Naming => "naming"@,
            DecompileStage::Generate => "generate"@,
        }
    }

    /// The stage the pipeline runs after this one, if any.
    pub fn next(self) -> (r: Option<Self>)
        ensures
            r == stage_at(self.index() + 1),
    {
        match self {
            Self::Parse => Some(Self::Transform),
            Self::Transform => Some(Self::Cfg),
            Self::Cfg => Some(Self::GraphFacts),
            Self::GraphFacts => Some(Self::Dataflow),
            Self::Dataflow => Some(Self::StructureFacts),
            Self::StructureFacts => Some(Self::Hir),
            Self::Hir => Some(Self::Ast),
            Self::Ast => Some(Self::Readability),
            Self::Readability => Some(Self::Naming),
            Self::Naming => Some(Self::Generate),
            Self::Generate => None,
        }
    }

    /// Display name of the stage.
    pub fn as_str(self) -> (r: &'static str)
        ensures
            r@ == self.name_view(),
    {
        match self {
            Self::Parse => "parse",
            Self::Transform => "transform",
            Self::Cfg => "cfg",
            Self::GraphFacts => "graph_facts",
            Self::Dataflow => "dataflow",
            Self::StructureFacts => "structure_facts",
            Self::Hir => "hir",
            Self::Ast => "ast",
            Self::Readability => "readability",
            Self::Naming => "naming",
            Self::Generate => "generate",
        }
    }

    /// Stage named by `s`, among all spellings each stage accepts.
    pub fn from_name(s: &str) -> (r: Option<Self>)
        ensures
            r == stage_from_name(s@),
    {
        if str_eq(s, "parse") {
            Some(Self::Parse)
        } else if str_eq(s, "transform") {
            Some(Self::Transform)
        } else if str_eq(s, "cfg") {
            Some(Self::Cfg)
        } else if str_eq(s, "graph-facts") || str_eq(s, "graph_facts") || str_eq(s, "graphfacts") {
            Some(Self::GraphFacts)
        } else if str_eq(s, "dataflow") {
            Some(Self::Dataflow)
        } else if str_eq(s, "structure-facts") || str_eq(s, "structure_facts") || str_eq(
            s,
            "structurefacts",
        ) {
            Some(Self::StructureFacts)
        } else if str_eq(s, "hir") {
            Some(Self::Hir)
        } else if str_eq(s, "ast") {
            Some(Self::Ast)
        } else if str_eq(s, "readability") {
            Some(Self::Readability)
        } else if str_eq(s, "naming") {
            Some(Self::Naming)
        } else if str_eq(s, "generate") {
            Some(Self::Generate)
        } else {
            None
        }
    }
}

impl std::str::FromStr for DecompileStage {
    type Err = NameParseError;

    fn from_str(s: &str) -> (r: Result<Self, Self::Err>)
        ensures
            r == (match stage_from_name(s@) {
                Some(stage) => Ok(stage),
                None => Err(NameParseError::VariantNotFound),
            }),
    {
        match DecompileStage::from_name(s) {
            Some(stage) => Ok(stage),
            None => Err(NameParseError::VariantNotFound),
        }
    }
}

/// The stage at position `i` of the pipeline order.
pub open spec fn stage_at(i: nat) -> Option<DecompileStage> {
    if i == 0 {
        Some(DecompileStage::Parse)
    } else if i == 1 {
        Some(DecompileStage::Transform)
    } else if i == 2 {
        Some(DecompileStage::Cfg)
    } else if i == 3 {
        Some(DecompileStage::GraphFacts)
    } else if i == 4 {
        Some(DecompileStage::Dataflow)
    } else if i == 5 {
        Some(DecompileStage::StructureFacts)
    } else if i == 6 {
        Some(DecompileStage::Hir)
    } else if i == 7 {
        Some(DecompileStage::Ast)
    } else if i == 8 {
        Some(DecompileStage::Readability)
    } else if i == 9 {
        Some(DecompileStage::Naming)
    } else if i == 10 {
        Some(DecompileStage::Generate)
    } else {
        None
    }
}

/// The stage a name denotes: every spelling listed for a stage is accepted.
pub open spec fn stage_from_name(s: Seq<char>) -> Option<DecompileStage> {
    if s == "parse"@ {
        Some(DecompileStage::Parse)
    } else if s == "transform"@ {
        Some(DecompileStage::Transform)
    } else if s == "cfg"@ {
        Some(DecompileStage::Cfg)
    } else if s == "graph-facts"@ || s == "graph_facts"@ || s == "graphfacts"@ {
        Some(DecompileStage::GraphFacts)
    } else if s == "dataflow"@ {
        Some(DecompileStage::Dataflow)
    } else if s == "structure-facts"@ || s == "structure_facts"@ || s == "structurefacts"@ {
        Some(DecompileStage::StructureFacts)
    } else if s == "hir"@ {
        Some(DecompileStage::Hir)
    } else if s == "ast"@ {
        Some(DecompileStage::Ast)
    } else if s == "readability"@ {
        Some(DecompileStage::Readability)
    } else if s == "naming"@ {
        Some(DecompileStage::Naming)
    } else if s == "generate"@ {
        Some(DecompileStage::Generate)
    } else {
        None
    }
}

/// Products of every stage of one decompilation; a slot is filled once its
/// stage has run, and stays empty when the pipeline stopped before it.
pub struct DecompileState<B: DecompileBackend> {
    pub dialect: DecompileDialect,
    pub target_stage: DecompileStage,
    pub completed_stage: Option<DecompileStage>,
    pub raw_chunk: Option<B::RawChunk>,
    pub lowered: Option<B::LoweredChunk>,
    pub cfg: Option<B::CfgGraph>,
    pub graph_facts: Option<B::GraphFacts>,
    pub dataflow: Option<B::DataflowFacts>,
    pub structure_facts: Option<B::StructureFacts>,
    pub hir: Option<B::HirModule>,
    pub ast: Option<B::AstModule>,
    pub readability: Option<B::AstModule>,
    pub naming: Option<B::NameMap>,
    pub generated: Option<B::GeneratedChunk>,
}

impl<B: DecompileBackend> DecompileState<B> {
    /// Whether the slot of `stage` holds its product.
    pub open spec fn has_output(&self, stage: DecompileStage) -> bool {
        match stage {
            DecompileStage::Parse => self.raw_chunk is Some,
            DecompileStage::Transform => self.lowered is Some,
            DecompileStage::Cfg => self.cfg is Some,
            DecompileStage::GraphFacts => self.graph_facts is Some,
            DecompileStage::Dataflow => self.dataflow is Some,
            DecompileStage::StructureFacts => self.structure_facts is Some,
            DecompileStage::Hir => self.hir is Some,
            DecompileStage::Ast => self.ast is Some,
            DecompileStage::Readability => self.readability is Some,
            DecompileStage::Naming => self.naming is Some,
            DecompileStage::Generate => self.generated is Some,
        }
    }

    /// Exactly the stages before position `n` hold their product.
    pub open spec fn outputs_exactly_before(&self, n: nat) -> bool {
        forall|s: DecompileStage| #[trigger] self.has_output(s) <==> s.index() < n
    }

    /// Every stage before position `n` holds its product.
    pub open spec fn outputs_before(&self, n: nat) -> bool {
        forall|s: DecompileStage| s.index() < n ==> #[trigger] self.has_output(s)
    }

    /// `self` equals `other` except perhaps in the slot of `stage` and in the
    /// completed stage.
    pub open spec fn agrees_except(&self, other: &Self, stage: DecompileStage) -> bool {
        &&& self.dialect == other.dialect
        &&& self.target_stage == other.target_stage
        &&& stage != DecompileStage::Parse ==> self.raw_chunk == other.raw_chunk
        &&& stage != DecompileStage::Transform ==> self.lowered == other.lowered
        &&& stage != DecompileStage::Cfg ==> self.cfg == other.cfg
        &&& stage != DecompileStage::GraphFacts ==> self.graph_facts == other.graph_facts
        &&& stage != DecompileStage::Dataflow ==> self.dataflow == other.dataflow
        &&& stage != DecompileStage::StructureFacts ==> self.structure_facts
            == other.structure_facts
        &&& stage != DecompileStage::Hir ==> self.hir == other.hir
        &&& stage != DecompileStage::Ast ==> self.ast == other.ast
        &&& stage != DecompileStage::Readability ==> self.readability == other.readability
        &&& stage != DecompileStage::Naming ==> self.naming == other.naming
        &&& stage != DecompileStage::Generate ==> self.generated == other.generated
    }

    /// `self` and `other` hold the same value in the slot of `stage`.
    pub open spec fn same_slot(&self, other: &Self, stage: DecompileStage) -> bool {
        match stage {
            DecompileStage::Parse => self.raw_chunk == other.raw_chunk,
            DecompileStage::Transform => self.lowered == other.lowered,
            DecompileStage::Cfg => self.cfg == other.cfg,
            DecompileStage::GraphFacts => self.graph_facts == other.graph_facts,
            DecompileStage::Dataflow => self.dataflow == other.dataflow,
            DecompileStage::StructureFacts => self.structure_facts == other.structure_facts,
            DecompileStage::Hir => self.hir == other.hir,
            DecompileStage::Ast => self.ast == other.ast,
            DecompileStage::Readability => self.readability == other.readability,
            DecompileStage::Naming => self.naming == other.naming,
            DecompileStage::Generate => self.generated == other.generated,
        }
    }

    /// `self` is `before` after `stage` ran: its slot is filled, it is the
    /// completed stage, and nothing else changed.
    pub open spec fn advanced_from(&self, before: &Self, stage: DecompileStage) -> bool {
        &&& self.has_output(stage)
        &&& self.completed_stage == Some(stage)
        &&& self.agrees_except(before, stage)
    }

    /// A run that filled exactly the slots before `stage` and then ran
    /// `stage` has filled exactly the slots up to and including it.
    pub proof fn lemma_advance(before: Self, after: Self, stage: DecompileStage)
        requires
            before.outputs_exactly_before(stage.index()),
            after.advanced_from(&before, stage),
        ensures
            after.outputs_exactly_before(stage.index() + 1),
    {
        assert forall|s: DecompileStage| #[trigger] after.has_output(s) <==> s.index() < stage.index()
            + 1 by {
            if s != stage {
                assert(after.has_output(s) == before.has_output(s));
            }
        }
    }

    /// The empty state of a run that stops after `target_stage`.
    pub(crate) fn new(dialect: DecompileDialect, target_stage: DecompileStage) -> (r: Self)
        ensures
            r.dialect == dialect,
            r.target_stage == target_stage,
            r.completed_stage is None,
            r.outputs_exactly_before(0),
    {
        DecompileState {
            dialect,
            target_stage,
            completed_stage: None,
            raw_chunk: None,
            lowered: None,
            cfg: None,
            graph_facts: None,
            dataflow: None,
            structure_facts: None,
            hir: None,
            ast: None,
            readability: None,
            naming: None,
            generated: None,
        }
    }

    /// Records `stage` as the last stage that completed.
    pub(crate) fn mark_completed(&mut self, stage: DecompileStage)
        ensures
            *final(self) == (DecompileState { completed_stage: Some(stage), ..*old(self) }),
            final(self).agrees_except(old(self), stage),
    {
        self.completed_stage = Some(stage);
    }

    pub(crate) fn raw_chunk(&self) -> (r: &B::RawChunk)
        requires
            self.raw_chunk is Some,
        ensures
            self.raw_chunk == Some(*r),
    {
        required_stage_output(&self.raw_chunk, DecompileStage::Parse)
    }

    pub(crate) fn lowered(&self) -> (r: &B::LoweredChunk)
        requires
            self.lowered is Some,
        ensures
            self.lowered == Some(*r),
    {
        required_stage_output(&self.lowered, DecompileStage::Transform)
    }

    pub(crate) fn cfg(&self) -> (r: &B::CfgGraph)
        requires
            self.cfg is Some,
        ensures
            self.cfg == Some(*r),
    {
        required_stage_output(&self.cfg, DecompileStage::Cfg)
    }

    pub(crate) fn graph_facts(&self) -> (r: &B::GraphFacts)
        requires
            self.graph_facts is Some,
        ensures
            self.graph_facts == Some(*r),
    {
        required_stage_output(&self.graph_facts, DecompileStage::GraphFacts)
    }

    pub(crate) fn dataflow(&self) -> (r: &B::DataflowFacts)
        requires
            self.dataflow is Some,
        ensures
            self.dataflow == Some(*r),
    {
        required_stage_output(&self.dataflow, DecompileStage::Dataflow)
    }

    pub(crate) fn structure_facts(&self) -> (r: &B::StructureFacts)
        requires
            self.structure_facts is Some,
        ensures
            self.structure_facts == Some(*r),
    {
        required_stage_output(&self.structure_facts, DecompileStage::StructureFacts)
    }

    pub(crate) fn hir(&self) -> (r: &B::HirModule)
        requires
            self.hir is Some,
        ensures
            self.hir == Some(*r),
    {
        required_stage_output(&self.hir, DecompileStage::Hir)
    }

    pub(crate) fn ast(&self) -> (r: &B::AstModule)
        requires
            self.ast is Some,
        ensures
            self.ast == Some(*r),
    {
        required_stage_output(&self.ast, DecompileStage::Ast)
    }

    pub(crate) fn readability(&self) -> (r: &B::AstModule)
        requires
            self.readability is Some,
        ensures
            self.readability == Some(*r),
    {
        required_stage_output(&self.readability, DecompileStage::Readability)
    }

    pub(crate) fn naming(&self) -> (r: &B::NameMap)
        requires
            self.naming is Some,
        ensures
            self.naming == Some(*r),
    {
        required_stage_output(&self.naming, DecompileStage::Naming)
    }

    pub(crate) fn generated(&self) -> (r: &B::GeneratedChunk)
        requires
            self.generated is Some,
        ensures
            self.generated == Some(*r),
    {
        required_stage_output(&self.generated, DecompileStage::Generate)
    }
}

/// The product of an earlier stage; the pipeline runs the stages in order,
/// so a later stage only reads slots that are filled.
fn required_stage_output<T>(output: &Option<T>, stage: DecompileStage) -> (r: &T)
    requires
        output is Some,
    ensures
        *output == Some(*r),
{
    output.as_ref().unwrap()
}

/// Every stage sits at its own position of the pipeline order, positions
/// are exactly `0..11`, and `next` walks to the following position, so the
/// pipeline is one linear chain from `Parse` to `Generate`.
pub proof fn law_stage_order(s: DecompileStage, t: DecompileStage, i: nat)
    ensures
        stage_at(s.index()) == Some(s),
        s.index() < stage_count(),
        (stage_at(i) is Some) <==> i < stage_count(),
        stage_at(i) matches Some(u) ==> u.index() == i,
        s.index() == t.index() ==> s == t,
        (stage_at(s.index() + 1) is None) <==> s == DecompileStage::Generate,
{
}

/// The characters of every stage name literal.
proof fn reveal_name_literals()
    ensures
        "parse"@ == seq!['p', 'a', 'r', 's', 'e'],
        "transform"@ == seq!['t', 'r', 'a', 'n', 's', 'f', 'o', 'r', 'm'],
        "cfg"@ == seq!['c', 'f', 'g'],
        "graph-facts"@ == seq!['g', 'r', 'a', 'p', 'h', '-', 'f', 'a', 'c', 't', 's'],
        "graph_facts"@ == seq!['g', 'r', 'a', 'p', 'h', '_', 'f', 'a', 'c', 't', 's'],
        "graphfacts"@ == seq!['g', 'r', 'a', 'p', 'h', 'f', 'a', 'c', 't', 's'],
        "dataflow"@ == seq!['d', 'a', 't', 'a', 'f', 'l', 'o', 'w'],
        "structure-facts"@ == seq!['s', 't', 'r', 'u', 'c', 't', 'u', 'r', 'e', '-', 'f', 'a', 'c', 't', 's'],
        "structure_facts"@ == seq!['s', 't', 'r', 'u', 'c', 't', 'u', 'r', 'e', '_', 'f', 'a', 'c', 't', 's'],
        "structurefacts"@ == seq!['s', 't', 'r', 'u', 'c', 't', 'u', 'r', 'e', 'f', 'a', 'c', 't', 's'],
        "hir"@ == seq!['h', 'i', 'r'],
        "ast"@ == seq!['a', 's', 't'],
        "readability"@ == seq!['r', 'e', 'a', 'd', 'a', 'b', 'i', 'l', 'i', 't', 'y'],
        "naming"@ == seq!['n', 'a', 'm', 'i', 'n', 'g'],
        "generate"@ == seq!['g', 'e', 'n', 'e', 'r', 'a', 't', 'e'],
{
    reveal_strlit("parse");
    reveal_strlit("transform");
    reveal_strlit("cfg");
    reveal_strlit("graph-facts");
    reveal_strlit("graph_facts");
    reveal_strlit("graphfacts");
    reveal_strlit("dataflow");
    reveal_strlit("structure-facts");
    reveal_strlit("structure_facts");
    reveal_strlit("structurefacts");
    reveal_strlit("hir");
    reveal_strlit("ast");
    reveal_strlit("readability");
    reveal_strlit("naming");
    reveal_strlit("generate");
}

/// Every stage's display name is one of the spellings it is parsed from.
pub proof fn law_stage_name_roundtrip(s: DecompileStage)
    ensures
        stage_from_name(s.name_view()) == Some(s),
{
    reveal_name_literals();
    assert(stage_from_name(s.name_view()) == Some(s)) by {
        assert("cfg"@[0] != "hir"@[0] && "cfg"@[0] != "ast"@[0] && "hir"@[0] != "ast"@[0]);
        assert("dataflow"@[0] != "generate"@[0]);
        assert("graph-facts"@[5] != "graph_facts"@[5]);
        assert("graph_facts"@[0] != "readability"@[0] && "graph-facts"@[0] != "readability"@[0]);
        assert("structure-facts"@[9] != "structure_facts"@[9]);
    }
}


/// The stages are displayed under fixed names, and every spelling each
/// stage accepts parses to that stage: "graph-facts", "graph_facts" and
/// "graphfacts" name the graph-facts stage, "structure-facts",
/// "structure_facts" and "structurefacts" the structure-facts stage, and
/// every other stage is named by its single lower-case name.
pub proof fn law_stage_spellings()
    ensures
        DecompileStage::Parse.name_view() == "parse"@,
        DecompileStage::Transform.name_view() == "transform"@,
        DecompileStage::Cfg.name_view() == "cfg"@,
        DecompileStage::GraphFacts.name_view() == "graph_facts"@,
        DecompileStage::Dataflow.name_view() == "dataflow"@,
        DecompileStage::StructureFacts.name_view() == "structure_facts"@,
        DecompileStage::Hir.name_view() == "hir"@,
        DecompileStage::Ast.name_view() == "ast"@,
        DecompileStage::Readability.name_view() == "readability"@,
        DecompileStage::Naming.name_view() == "naming"@,
        DecompileStage::Generate.name_view() == "generate"@,
        stage_from_name("parse"@) == Some(DecompileStage::Parse),
        stage_from_name("transform"@) == Some(DecompileStage::Transform),
        stage_from_name("cfg"@) == Some(DecompileStage::Cfg),
        stage_from_name("graph-facts"@) == Some(DecompileStage::GraphFacts),
        stage_from_name("graph_facts"@) == Some(DecompileStage::GraphFacts),
        stage_from_name("graphfacts"@) == Some(DecompileStage::GraphFacts),
        stage_from_name("dataflow"@) == Some(DecompileStage::Dataflow),
        stage_from_name("structure-facts"@) == Some(DecompileStage::StructureFacts),
        stage_from_name("structure_facts"@) == Some(DecompileStage::StructureFacts),
        stage_from_name("structurefacts"@) == Some(DecompileStage::StructureFacts),
        stage_from_name("hir"@) == Some(DecompileStage::Hir),
        stage_from_name("ast"@) == Some(DecompileStage::Ast),
        stage_from_name("readability"@) == Some(DecompileStage::Readability),
        stage_from_name("naming"@) == Some(DecompileStage::Naming),
        stage_from_name("generate"@) == Some(DecompileStage::Generate),
{
    reveal_name_literals();
    assert("cfg"@[0] != "hir"@[0] && "cfg"@[0] != "ast"@[0] && "hir"@[0] != "ast"@[0]);
    assert("dataflow"@[0] != "generate"@[0]);
    assert("graph-facts"@[5] != "graph_facts"@[5]);
    assert("graph_facts"@[0] != "readability"@[0] && "graph-facts"@[0] != "readability"@[0]);
    assert("structure-facts"@[9] != "structure_facts"@[9]);
    assert("transform"@[0] != "parse"@[0]);
    assert("graphfacts"@[0] != "parse"@[0] && "graphfacts"@[0] != "transform"@[0]);
    assert("structurefacts"@[0] != "graphfacts"@[0]);
    assert("naming"@[0] != "parse"@[0]);
}

} // verus!
