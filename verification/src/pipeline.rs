//! The model pipeline: load, configure, resolve, run.
//!
//! A [`ModelPipeline`] moves through the states Loaded, Configured and
//! Resolved, in that order; configure is optional, and any operation
//! attempted out of order fails with `InvalidState`. Load reads a graph from
//! bytes through one of the format readers, configure applies shape/dtype
//! facts and name selections to the graph, resolve turns the graph into one
//! of the two plan representations, and run marshals buffers through the
//! plan.

use tract_core::prelude::Tensor;

use vstd::prelude::*;

use crate::buffer::{CoreTensor, CoreTensorVec};
use crate::cast::normalize_bool_bytes;
use crate::engine::{
    engine_tensor_bytes, engine_tensor_kind, engine_tensor_shape, graph_apply_fact, graph_clone,
    graph_fixed_dims, graph_has_node, graph_input_count, graph_inputs_len, graph_into_infer_plan,
    graph_into_optimized, graph_node_names, graph_output_names, graph_select_outputs,
    graph_set_input_names, input_fixed_dims, iplan_input_count, iplan_inputs, iplan_output_count,
    iplan_outputs, iplan_run, onnx_accepts, onnx_proto_of, onnx_read_proto, proto_converts,
    proto_graph_of, proto_metadata, proto_pairs, proto_to_graph, tensor_of_parts, tf_accepts,
    tf_graph_of, tf_read_graph, tplan_input_count, tplan_inputs, tplan_output_count,
    tplan_outputs, tplan_run, typed_into_plan, EngineGraph, EngineInferPlan, EngineTypedPlan,
};
use crate::error::CoreError;
use crate::fact::{
    build_shape_fact, dims_slot_invalid, dtype_of_name, dtype_slot_invalid, fact_incomplete,
    has_symbolic, terms_of, DimensionTerm, FactSpec, ShapeFact,
};
use crate::kind::{is_pod, width_of, NumericKind};

verus! {

/// Which graph reader `load` uses.
#[derive(Clone, Copy, PartialEq, Eq, Structural, Debug)]
pub enum GraphFormat {
    Onnx,
    TensorFlow,
}

/// The two plan representations, unified behind one run contract: the
/// pre-inference plan re-infers shapes inside every run, the optimized plan
/// resolved them once at resolve time.
pub enum Plan {
    Inference(EngineInferPlan),
    Typed(EngineTypedPlan),
}

/// How many inputs a plan expects.
pub open spec fn plan_input_count(p: Plan) -> int {
    match p {
        Plan::Inference(q) => iplan_input_count(q),
        Plan::Typed(q) => tplan_input_count(q),
    }
}

/// How many outputs a plan produces.
pub open spec fn plan_output_count(p: Plan) -> int {
    match p {
        Plan::Inference(q) => iplan_output_count(q),
        Plan::Typed(q) => tplan_output_count(q),
    }
}

/// The pipeline's observable stage.
#[derive(Clone, Copy, PartialEq, Eq, Structural, Debug)]
pub enum PipelineState {
    Loaded,
    Configured,
    Resolved,
}

/// A fact pair parses cleanly.
pub open spec fn fact_ok(fs: FactSpec) -> bool {
    !dtype_slot_invalid(fs) && !dims_slot_invalid(fs) && !fact_incomplete(fs)
}

/// A fact pair carries a symbolic dimension.
pub open spec fn fact_symbolic(fs: FactSpec) -> bool {
    fs.dims matches Some(ts) && has_symbolic(terms_of(ts@))
}

/// A dimension list contradicts the extents already fixed on an input: the
/// rank differs, or a fixed extent differs from a known one.
pub open spec fn dims_contradict(kd: Seq<Option<i64>>, ds: Seq<DimensionTerm>) -> bool {
    ds.len() != kd.len() || exists|j: int|
        {
            &&& 0 <= j < kd.len()
            &&& #[trigger] kd[j] matches Some(v)
            &&& #[trigger] ds[j] matches DimensionTerm::Fixed(w)
            &&& v != w
        }
}

/// A fact pair contradicts what the graph already knows of input `ix`.
pub open spec fn fact_contradicts(g: EngineGraph, ix: int, fs: FactSpec) -> bool {
    fs.dims matches Some(ts) && graph_fixed_dims(g, ix) matches Some(kd) && dims_contradict(
        kd,
        terms_of(ts@),
    )
}

/// Every index of the fact list is below the graph's input count.
pub open spec fn indices_ok(fs: Seq<(usize, FactSpec)>, n: int) -> bool {
    forall|i: int| 0 <= i < fs.len() ==> (#[trigger] fs[i]).0 < n
}

/// Every fact of the list parses cleanly.
pub open spec fn all_facts_ok(fs: Seq<(usize, FactSpec)>) -> bool {
    forall|i: int| 0 <= i < fs.len() ==> fact_ok((#[trigger] fs[i]).1)
}

/// No fact of the list contradicts the graph.
pub open spec fn no_contradiction(g: EngineGraph, fs: Seq<(usize, FactSpec)>) -> bool {
    forall|i: int|
        0 <= i < fs.len() ==> !fact_contradicts(g, (#[trigger] fs[i]).0 as int, fs[i].1)
}

/// Some fact of the list carries a symbolic dimension.
pub open spec fn any_fact_symbolic(fs: Seq<(usize, FactSpec)>) -> bool {
    exists|i: int| 0 <= i < fs.len() && fact_symbolic((#[trigger] fs[i]).1)
}

/// Every name of an optional selection is in the given set.
pub open spec fn names_in(names: Option<Vec<String>>, s: Set<Seq<char>>) -> bool {
    names matches Some(ns) ==> forall|i: int|
        0 <= i < ns@.len() ==> s.contains((#[trigger] ns@[i])@)
}

/// Whether the chosen reader accepts the bytes end to end: for ONNX, the
/// proto must decode and translate; for TensorFlow, decoding and translating
/// are one reader call.
pub open spec fn load_accepts(format: GraphFormat, bytes: Seq<u8>) -> bool {
    match format {
        GraphFormat::Onnx => onnx_accepts(bytes) && proto_converts(onnx_proto_of(bytes)),
        GraphFormat::TensorFlow => tf_accepts(bytes),
    }
}

/// The graph the chosen reader yields for accepted bytes.
pub open spec fn loaded_graph(format: GraphFormat, bytes: Seq<u8>) -> EngineGraph {
    match format {
        GraphFormat::Onnx => proto_graph_of(onnx_proto_of(bytes)),
        GraphFormat::TensorFlow => tf_graph_of(bytes),
    }
}

/// The metadata pairs load captures for accepted bytes: the proto's embedded
/// entries for ONNX, nothing for TensorFlow.
pub open spec fn load_pairs(format: GraphFormat, bytes: Seq<u8>) -> Seq<(Seq<char>, Seq<char>)> {
    match format {
        GraphFormat::Onnx => proto_pairs(onnx_proto_of(bytes)),
        GraphFormat::TensorFlow => Seq::empty(),
    }
}

/// The state machine around one graph.
pub struct ModelPipeline {
    graph: Option<EngineGraph>,
    plan: Option<Plan>,
    configured: bool,
    has_unresolved: bool,
    metadata: Vec<(String, String)>,
    in_count: usize,
    out_count: usize,
}

impl ModelPipeline {
    /// Well-formedness: exactly one of graph and plan is present, and the
    /// recorded arities are the plan's.
    pub closed spec fn wf(self) -> bool {
        &&& (self.plan is Some <==> self.graph is None)
        &&& (self.plan matches Some(p) ==> self.in_count == plan_input_count(p) && self.out_count
            == plan_output_count(p))
    }

    /// The pipeline's stage.
    pub closed spec fn state(self) -> PipelineState {
        if self.plan is Some {
            PipelineState::Resolved
        } else if self.configured {
            PipelineState::Configured
        } else {
            PipelineState::Loaded
        }
    }

    /// The graph under construction, before resolve.
    pub closed spec fn graph_of(self) -> EngineGraph
        recommends
            !(self.state() is Resolved),
    {
        self.graph.unwrap()
    }

    /// Whether an applied fact carried a symbolic dimension, deferring full
    /// shape resolution.
    pub closed spec fn symbolic_pending(self) -> bool {
        self.has_unresolved
    }

    /// The plan's input arity, once resolved.
    pub closed spec fn input_arity(self) -> int {
        self.in_count as int
    }

    /// The plan's output arity, once resolved.
    pub closed spec fn output_arity(self) -> int {
        self.out_count as int
    }

    /// The metadata captured at load time.
    pub closed spec fn metadata_view(self) -> Seq<(Seq<char>, Seq<char>)> {
        self.metadata@.map_values(|pr: (String, String)| (pr.0@, pr.1@))
    }

    /// Read a graph from bytes.
    ///
    /// The ONNX reader also captures the model's embedded key/value
    /// metadata; the TensorFlow format embeds none, so the metadata is
    /// empty. Fails with `ParseError`, wrapping the engine's diagnostic,
    /// exactly when the reader or the translator rejects the bytes.
    pub fn load(bytes: &Vec<u8>, format: GraphFormat) -> (r: Result<ModelPipeline, CoreError>)
        ensures
            r is Ok <==> load_accepts(format, bytes@),
            r matches Ok(p) ==> p.wf() && p.state() is Loaded && !p.symbolic_pending()
                && p.graph_of() == loaded_graph(format, bytes@) && p.metadata_view() == load_pairs(
                format,
                bytes@,
            ),
            r matches Err(e) ==> e is ParseError,
    {
        match format {
            GraphFormat::Onnx => {
                let proto = match onnx_read_proto(bytes) {
                    Ok(p) => p,
                    Err(msg) => {
                        return Err(CoreError::ParseError(msg));
                    },
                };
                let metadata = proto_metadata(&proto);
                let graph = match proto_to_graph(&proto) {
                    Ok(g) => g,
                    Err(msg) => {
                        return Err(CoreError::ParseError(msg));
                    },
                };
                Ok(
                    ModelPipeline {
                        graph: Some(graph),
                        plan: None,
                        configured: false,
                        has_unresolved: false,
                        metadata,
                        in_count: 0,
                        out_count: 0,
                    },
                )
            },
            GraphFormat::TensorFlow => {
                let graph = match tf_read_graph(bytes) {
                    Ok(g) => g,
                    Err(msg) => {
                        return Err(CoreError::ParseError(msg));
                    },
                };
                let r = ModelPipeline {
                    graph: Some(graph),
                    plan: None,
                    configured: false,
                    has_unresolved: false,
                    metadata: Vec::new(),
                    in_count: 0,
                    out_count: 0,
                };
                proof {
                    assert(r.metadata_view() =~= Seq::<(Seq<char>, Seq<char>)>::empty());
                }
                Ok(r)
            },
        }
    }

    /// Apply facts and name selections to the loaded graph.
    ///
    /// Only legal in the Loaded state. All fact indices are checked first
    /// (`IndexOutOfRange`), then every fact is parsed (the fact errors),
    /// then each fact is held against the extents the graph has already
    /// fixed (`ShapeMismatch`), then the output selection is resolved and
    /// every input name is looked up (`UnknownTensorName`, exactly when a
    /// name of either selection is absent), and only then are the facts
    /// applied and the input selection installed. Engine diagnostics are
    /// wrapped verbatim in `EngineFailure`.
    pub fn configure(
        &mut self,
        facts: &Vec<(usize, FactSpec)>,
        input_names: &Option<Vec<String>>,
        output_names: &Option<Vec<String>>,
    ) -> (r: Result<(), CoreError>)
        requires
            old(self).wf(),
        ensures
            final(self).wf(),
            final(self).metadata_view() == old(self).metadata_view(),
            r matches Err(CoreError::InvalidState) <==> !(old(self).state() is Loaded),
            !(r is Ok) ==> final(self).state() == old(self).state()
                && final(self).symbolic_pending() == old(self).symbolic_pending(),
            r is Ok ==> final(self).state() is Configured && final(self).symbolic_pending()
                == any_fact_symbolic(facts@),
            old(self).state() is Loaded ==> {
                let g0 = old(self).graph_of();
                let n = graph_input_count(g0);
                &&& (r matches Err(CoreError::IndexOutOfRange) <==> !indices_ok(facts@, n))
                &&& (r matches Err(CoreError::UnknownDtypeName) ==> exists|i: int|
                    0 <= i < facts@.len() && dtype_slot_invalid((#[trigger] facts@[i]).1))
                &&& (r matches Err(CoreError::InvalidDimensionSpec) ==> exists|i: int|
                    0 <= i < facts@.len() && dims_slot_invalid((#[trigger] facts@[i]).1))
                &&& (r matches Err(CoreError::IncompleteFact) ==> exists|i: int|
                    0 <= i < facts@.len() && fact_incomplete((#[trigger] facts@[i]).1))
                &&& (r matches Err(CoreError::ShapeMismatch) <==> indices_ok(facts@, n)
                    && all_facts_ok(facts@) && !no_contradiction(g0, facts@))
                &&& (r matches Err(CoreError::UnknownTensorName) <==> indices_ok(facts@, n)
                    && all_facts_ok(facts@) && no_contradiction(g0, facts@) && !(names_in(
                    *output_names,
                    graph_output_names(g0),
                ) && names_in(*input_names, graph_node_names(g0))))
                &&& (r matches Err(CoreError::EngineFailure(_)) ==> indices_ok(facts@, n)
                    && all_facts_ok(facts@) && no_contradiction(g0, facts@) && names_in(
                    *output_names,
                    graph_output_names(g0),
                ) && names_in(*input_names, graph_node_names(g0)))
                &&& (r is Ok ==> indices_ok(facts@, n) && all_facts_ok(facts@) && no_contradiction(
                    g0,
                    facts@,
                ) && names_in(*output_names, graph_output_names(g0)) && names_in(
                    *input_names,
                    graph_node_names(g0),
                ))
                &&& (r matches Err(e) ==> (e is IndexOutOfRange || e is UnknownDtypeName
                    || e is InvalidDimensionSpec || e is IncompleteFact || e is ShapeMismatch
                    || e is UnknownTensorName || e is EngineFailure))
            },
    {
        if self.plan.is_some() || self.configured {
            return Err(CoreError::InvalidState);
        }
        let ghost g0 = self.graph.unwrap();
        let n = match &self.graph {
            Some(g) => graph_inputs_len(g),
            None => {
                return Err(CoreError::InvalidState);
            },
        };
        let nfacts = facts.len();
        for i in 0..nfacts
            invariant
                *self == *old(self),
                old(self).wf(),
                old(self).state() is Loaded,
                self.graph is Some,
                g0 == old(self).graph_of(),
                n == graph_input_count(g0),
                nfacts == facts@.len(),
                forall|j: int| 0 <= j < i ==> (#[trigger] facts@[j]).0 < n,
        {
            if facts[i].0 >= n {
                return Err(CoreError::IndexOutOfRange);
            }
        }
        let mut parsed: Vec<(usize, ShapeFact)> = Vec::new();
        let mut symbolic = false;
        for i in 0..nfacts
            invariant
                *self == *old(self),
                old(self).wf(),
                old(self).state() is Loaded,
                self.graph is Some,
                g0 == old(self).graph_of(),
                n == graph_input_count(g0),
                nfacts == facts@.len(),
                indices_ok(facts@, n as int),
                parsed@.len() == i,
                forall|j: int| 0 <= j < i ==> fact_ok((#[trigger] facts@[j]).1),
                forall|j: int|
                    0 <= j < i ==> (#[trigger] parsed@[j]).0 == facts@[j].0 && parsed_matches(
                        facts@[j].1,
                        parsed@[j].1,
                    ),
                symbolic == (exists|j: int|
                    0 <= j < i && fact_symbolic((#[trigger] facts@[j]).1)),
        {
            let entry = &facts[i];
            match build_shape_fact(&entry.1) {
                Ok(f) => {
                    if f.has_unresolved_symbols {
                        symbolic = true;
                        proof {
                            assert(fact_symbolic(facts@[i as int].1));
                        }
                    }
                    proof {
                        assert(parsed_matches(facts@[i as int].1, f));
                    }
                    parsed.push((entry.0, f));
                },
                Err(e) => {
                    proof {
                        assert(!fact_ok(facts@[i as int].1));
                        assert(!all_facts_ok(facts@));
                    }
                    return Err(e);
                },
            }
        }
        let nparsed = parsed.len();
        for i in 0..nparsed
            invariant
                *self == *old(self),
                old(self).wf(),
                old(self).state() is Loaded,
                self.graph matches Some(g) && g == g0,
                g0 == old(self).graph_of(),
                n == graph_input_count(g0),
                nparsed == parsed@.len() == facts@.len(),
                indices_ok(facts@, n as int),
                all_facts_ok(facts@),
                symbolic == any_fact_symbolic(facts@),
                forall|j: int|
                    0 <= j < nparsed ==> (#[trigger] parsed@[j]).0 == facts@[j].0
                        && parsed_matches(facts@[j].1, parsed@[j].1),
                forall|j: int|
                    0 <= j < i ==> !fact_contradicts(
                        g0,
                        (#[trigger] facts@[j]).0 as int,
                        facts@[j].1,
                    ),
        {
            let ix = parsed[i].0;
            proof {
                assert(facts@[i as int].0 < n);
            }
            let has_dims = parsed[i].1.dims.is_some();
            if has_dims {
                let known = match &self.graph {
                    Some(g) => input_fixed_dims(g, ix),
                    None => {
                        proof {
                            assert(false);
                        }
                        return Err(CoreError::InvalidState);
                    },
                };
                if let Some(kd) = known {
                    if check_contradiction(&kd, parsed[i].1.dims.as_ref().unwrap()) {
                        proof {
                            assert(fact_contradicts(
                                g0,
                                facts@[i as int].0 as int,
                                facts@[i as int].1,
                            ));
                            assert(!no_contradiction(g0, facts@));
                        }
                        return Err(CoreError::ShapeMismatch);
                    }
                    proof {
                        assert(!fact_contradicts(g0, facts@[i as int].0 as int, facts@[i as int].1));
                    }
                } else {
                    proof {
                        assert(!fact_contradicts(g0, facts@[i as int].0 as int, facts@[i as int].1));
                    }
                }
            } else {
                proof {
                    assert(facts@[i as int].1.dims is None);
                    assert(!fact_contradicts(g0, facts@[i as int].0 as int, facts@[i as int].1));
                }
            }
        }
        if let Some(ns) = output_names {
            let sel = match &mut self.graph {
                Some(g) => graph_select_outputs(g, ns),
                None => {
                    proof {
                        assert(false);
                    }
                    return Err(CoreError::InvalidState);
                },
            };
            if sel.is_err() {
                return Err(CoreError::UnknownTensorName);
            }
        }
        if let Some(ns) = input_names {
            let ncount = ns.len();
            for k in 0..ncount
                invariant
                    old(self).wf(),
                    old(self).state() is Loaded,
                    self.plan is None,
                    self.configured == old(self).configured,
                    self.has_unresolved == old(self).has_unresolved,
                    self.metadata == old(self).metadata,
                    self.graph matches Some(g) && graph_input_count(g) == graph_input_count(g0)
                        && graph_node_names(g) == graph_node_names(g0) && graph_output_names(g)
                        == graph_output_names(g0),
                    g0 == old(self).graph_of(),
                    n == graph_input_count(g0),
                    nparsed == parsed@.len() == facts@.len(),
                    indices_ok(facts@, n as int),
                    all_facts_ok(facts@),
                    no_contradiction(g0, facts@),
                    names_in(*output_names, graph_output_names(g0)),
                    *input_names matches Some(m) && m == *ns,
                    ncount == ns@.len(),
                    forall|l: int|
                        0 <= l < k ==> graph_node_names(g0).contains((#[trigger] ns@[l])@),
            {
                let known = match &self.graph {
                    Some(g) => graph_has_node(g, &ns[k]),
                    None => {
                        proof {
                            assert(false);
                        }
                        return Err(CoreError::InvalidState);
                    },
                };
                if !known {
                    return Err(CoreError::UnknownTensorName);
                }
            }
        }
        for i in 0..nparsed
            invariant
                old(self).wf(),
                old(self).state() is Loaded,
                self.plan is None,
                self.configured == old(self).configured,
                self.has_unresolved == old(self).has_unresolved,
                self.metadata == old(self).metadata,
                self.graph matches Some(g) && graph_input_count(g) == graph_input_count(g0)
                    && graph_node_names(g) == graph_node_names(g0) && graph_output_names(g)
                    == graph_output_names(g0),
                g0 == old(self).graph_of(),
                n == graph_input_count(g0),
                nparsed == parsed@.len() == facts@.len(),
                indices_ok(facts@, n as int),
                all_facts_ok(facts@),
                no_contradiction(g0, facts@),
                names_in(*output_names, graph_output_names(g0)),
                names_in(*input_names, graph_node_names(g0)),
                symbolic == any_fact_symbolic(facts@),
                forall|j: int|
                    0 <= j < nparsed ==> (#[trigger] parsed@[j]).0 == facts@[j].0
                        && parsed_matches(facts@[j].1, parsed@[j].1),
        {
            proof {
                assert(facts@[i as int].0 < n);
            }
            let applied = match &mut self.graph {
                Some(g) => {
                    proof {
                        lemma_parsed_fact_pod(facts@[i as int].1, parsed@[i as int].1);
                    }
                    graph_apply_fact(g, parsed[i].0, &parsed[i].1)
                },
                None => {
                    proof {
                        assert(false);
                    }
                    return Err(CoreError::InvalidState);
                },
            };
            if let Err(msg) = applied {
                return Err(CoreError::EngineFailure(msg));
            }
        }
        if let Some(ns) = input_names {
            let sel = match &mut self.graph {
                Some(g) => graph_set_input_names(g, ns),
                None => {
                    proof {
                        assert(false);
                    }
                    return Err(CoreError::InvalidState);
                },
            };
            if sel.is_err() {
                // Every name was validated above against the same lookup.
                proof {
                    assert(false);
                }
                return Err(CoreError::UnknownTensorName);
            }
        }
        self.configured = true;
        self.has_unresolved = symbolic;
        Ok(())
    }

    /// Turn the graph into a runnable plan.
    ///
    /// Legal in the Loaded or Configured state. With `optimize` the engine
    /// analyses, declutters and optimizes the graph into a typed plan, which
    /// demands fully resolved shapes: a pending symbolic fact fails with
    /// `UnresolvedSymbolicDimension`. Without it the graph is wrapped in a
    /// pre-inference plan that re-infers shapes inside every run. If no
    /// output selection was configured, the graph's own terminal outputs
    /// stand. Fails atomically: on any error the pipeline is unchanged.
    pub fn resolve(&mut self, optimize: bool) -> (r: Result<(), CoreError>)
        requires
            old(self).wf(),
        ensures
            final(self).wf(),
            final(self).metadata_view() == old(self).metadata_view(),
            r matches Err(CoreError::InvalidState) <==> old(self).state() is Resolved,
            !(old(self).state() is Resolved) ==> (r matches Err(
                CoreError::UnresolvedSymbolicDimension,
            ) <==> optimize && old(self).symbolic_pending()),
            r matches Err(e) ==> (e is InvalidState || e is UnresolvedSymbolicDimension
                || e is EngineFailure),
            r is Ok ==> final(self).state() is Resolved,
            !(r is Ok) ==> *final(self) == *old(self),
    {
        match &self.plan {
            Some(_) => {
                return Err(CoreError::InvalidState);
            },
            None => {},
        }
        if optimize && self.has_unresolved {
            return Err(CoreError::UnresolvedSymbolicDimension);
        }
        let g = match &self.graph {
            Some(g) => graph_clone(g),
            None => {
                proof {
                    assert(false);
                }
                return Err(CoreError::InvalidState);
            },
        };
        let plan: Plan = if optimize {
            let typed = match graph_into_optimized(g) {
                Ok(t) => t,
                Err(msg) => {
                    return Err(CoreError::EngineFailure(msg));
                },
            };
            match typed_into_plan(typed) {
                Ok(p) => Plan::Typed(p),
                Err(msg) => {
                    return Err(CoreError::EngineFailure(msg));
                },
            }
        } else {
            match graph_into_infer_plan(g) {
                Ok(p) => Plan::Inference(p),
                Err(msg) => {
                    return Err(CoreError::EngineFailure(msg));
                },
            }
        };
        let (ic, oc) = match &plan {
            Plan::Inference(p) => (iplan_inputs(p), iplan_outputs(p)),
            Plan::Typed(p) => (tplan_inputs(p), tplan_outputs(p)),
        };
        self.in_count = ic;
        self.out_count = oc;
        self.graph = None;
        self.plan = Some(plan);
        Ok(())
    }

    /// Execute the plan on an ordered collection of buffers.
    ///
    /// Legal only in the Resolved state (`InvalidState` otherwise, checked
    /// first). The input count must equal the plan's input arity
    /// (`ArityMismatch`), and every input must be of a plain-old-data kind
    /// (`UnsupportedType`); boolean input bytes are normalized to 0 and 1
    /// before they reach the engine. On success there is one output buffer
    /// per plan output, each contiguous. The plan itself is never changed by
    /// a run.
    pub fn run(&self, inputs: &CoreTensorVec) -> (r: Result<CoreTensorVec, CoreError>)
        requires
            self.wf(),
        ensures
            r matches Err(CoreError::InvalidState) <==> !(self.state() is Resolved),
            self.state() is Resolved ==> (r matches Err(CoreError::ArityMismatch) <==> inputs@.len()
                != self.input_arity()),
            self.state() is Resolved && inputs@.len() == self.input_arity() ==> (r matches Err(
                CoreError::UnsupportedType,
            ) <==> exists|i: int| 0 <= i < inputs@.len() && !is_pod((#[trigger] inputs@[i]).kind)),
            r matches Ok(outs) ==> self.state() is Resolved && inputs@.len() == self.input_arity()
                && outs@.len() == self.output_arity() && (forall|i: int|
                0 <= i < outs@.len() ==> (#[trigger] outs@[i]).contiguous),
            r matches Err(e) ==> (e is InvalidState || e is ArityMismatch || e is UnsupportedType
                || e is EngineFailure),
    {
        let plan = match &self.plan {
            Some(p) => p,
            None => {
                return Err(CoreError::InvalidState);
            },
        };
        let count = inputs.length();
        if count != self.in_count {
            return Err(CoreError::ArityMismatch);
        }
        for i in 0..count
            invariant
                self.wf(),
                self.state() is Resolved,
                self.plan is Some,
                count == inputs@.len(),
                count == self.input_arity(),
                forall|j: int| 0 <= j < i ==> is_pod((#[trigger] inputs@[j]).kind),
        {
            let t = inputs.get(i);
            if width_of(t.kind()) == 0 {
                return Err(CoreError::UnsupportedType);
            }
        }
        let mut tensors: Vec<Tensor> = Vec::new();
        for i in 0..count
            invariant
                self.wf(),
                self.state() is Resolved,
                self.plan is Some,
                count == inputs@.len(),
                count == self.input_arity(),
                tensors@.len() == i,
                forall|j: int| 0 <= j < count ==> is_pod((#[trigger] inputs@[j]).kind),
        {
            let t = inputs.get(i);
            let k = t.kind();
            // A boolean buffer built from raw parts may hold bytes other
            // than 0 and 1, which the engine's boolean storage does not
            // admit: normalize them, exactly as extraction would.
            let made = match k {
                NumericKind::Bool => {
                    let normalized = normalize_bool_bytes(t.raw_data());
                    tensor_of_parts(k, t.raw_shape(), &normalized)
                },
                _ => tensor_of_parts(k, t.raw_shape(), t.raw_data()),
            };
            match made {
                Ok(tensor) => {
                    tensors.push(tensor);
                },
                Err(msg) => {
                    return Err(CoreError::EngineFailure(msg));
                },
            }
        }
        let ran = match plan {
            Plan::Inference(p) => iplan_run(p, tensors),
            Plan::Typed(p) => tplan_run(p, tensors),
        };
        let outs = match ran {
            Ok(outs) => outs,
            Err(msg) => {
                return Err(CoreError::EngineFailure(msg));
            },
        };
        let mut result = CoreTensorVec::new();
        let total = outs.len();
        let mut i: usize = 0;
        while i < total
            invariant
                self.wf(),
                self.state() is Resolved,
                count == inputs@.len(),
                count == self.input_arity(),
                forall|j: int| 0 <= j < count ==> is_pod((#[trigger] inputs@[j]).kind),
                total == outs@.len(),
                total == self.output_arity(),
                result@.len() == i,
                i <= total,
                forall|j: int| 0 <= j < i ==> (#[trigger] result@[j]).contiguous,
            decreases total - i,
        {
            let t = &outs[i];
            let k = engine_tensor_kind(t);
            let shape = engine_tensor_shape(t);
            let bytes = engine_tensor_bytes(t);
            match CoreTensor::from_parts(k, shape, bytes, true) {
                Ok(ct) => {
                    result.push(ct);
                },
                Err(_) => {
                    proof {
                        assert(false);
                    }
                    return Err(CoreError::EngineFailure(String::new()));
                },
            }
            i = i + 1;
        }
        Ok(result)
    }

    /// The metadata captured at load time, as fresh pairs.
    pub fn metadata_pairs(&self) -> (r: Vec<(String, String)>)
        ensures
            r@.map_values(|pr: (String, String)| (pr.0@, pr.1@)) == self.metadata_view(),
    {
        copy_pairs(&self.metadata)
    }

    /// The plan's input arity, once resolved.
    pub fn input_count(&self) -> (n: usize)
        ensures
            n == self.input_arity(),
    {
        self.in_count
    }

    /// The plan's output arity, once resolved.
    pub fn output_count(&self) -> (n: usize)
        ensures
            n == self.output_arity(),
    {
        self.out_count
    }
}

/// The relation between a raw fact pair and what it parses to, as
/// `build_shape_fact` establishes it.
pub open spec fn parsed_matches(fs: FactSpec, f: ShapeFact) -> bool {
    &&& f.dtype == (match fs.dtype {
        Some(s) => dtype_of_name(s@),
        None => None::<NumericKind>,
    })
    &&& (match fs.dims {
        Some(ts) => f.dims matches Some(ds) && ds@ == terms_of(ts@),
        None => f.dims is None,
    })
}

/// A parsed dtype is always one of the host-facing table's kinds, which are
/// all plain-old-data.
proof fn lemma_parsed_fact_pod(fs: FactSpec, f: ShapeFact)
    requires
        parsed_matches(fs, f),
    ensures
        f.dtype matches Some(k) ==> is_pod(k),
{
}

/// Whether a parsed dimension list contradicts the known extents, exactly as
/// [`dims_contradict`] states it.
fn check_contradiction(kd: &Vec<Option<i64>>, ds: &Vec<DimensionTerm>) -> (r: bool)
    ensures
        r == dims_contradict(kd@, ds@),
{
    if ds.len() != kd.len() {
        return true;
    }
    let n = kd.len();
    for j in 0..n
        invariant
            n == kd@.len() == ds@.len(),
            forall|l: int|
                0 <= l < j ==> !(#[trigger] kd@[l] matches Some(v) && ds@[l] matches
                    DimensionTerm::Fixed(w) && v != w),
    {
        let conflict = match (&kd[j], &ds[j]) {
            (Some(v), DimensionTerm::Fixed(w)) => *v != *w,
            _ => false,
        };
        if conflict {
            return true;
        }
    }
    false
}

/// Pair-for-pair copy.
fn copy_pairs(data: &Vec<(String, String)>) -> (r: Vec<(String, String)>)
    ensures
        r@ == data@,
{
    let n = data.len();
    let mut r: Vec<(String, String)> = Vec::new();
    for i in 0..n
        invariant
            n == data@.len(),
            r@.len() == i,
            forall|j: int| 0 <= j < i ==> r@[j] == data@[j],
    {
        let pair = &data[i];
        r.push((pair.0.clone(), pair.1.clone()));
        proof {
            assert(r@[i as int] == data@[i as int]);
        }
    }
    proof {
        assert(r@ =~= data@);
    }
    r
}

} // verus!
