//! The one-shot model facade: load, configure and resolve in one call, then
//! predict.
//!
//! A [`CoreModel`] is a [`ModelPipeline`] driven through its whole lifecycle
//! at construction, so a value of this type always holds a resolved plan.

use vstd::prelude::*;

use crate::buffer::CoreTensorVec;
use crate::engine::{graph_input_count, graph_node_names, graph_output_names};
use crate::error::CoreError;
use crate::fact::{dims_slot_invalid, dtype_slot_invalid, fact_incomplete, FactSpec};
use crate::kind::is_pod;
use crate::pipeline::{
    all_facts_ok, any_fact_symbolic, indices_ok, load_accepts, load_pairs, loaded_graph,
    names_in, no_contradiction, GraphFormat, ModelPipeline, PipelineState,
};

verus! {

/// A loaded, configured and resolved model.
pub struct CoreModel {
    pipeline: ModelPipeline,
}

impl CoreModel {
    /// A model always holds a resolved, well-formed pipeline.
    pub closed spec fn wf(self) -> bool {
        self.pipeline.wf() && self.pipeline.state() is Resolved
    }

    /// The plan's input arity.
    pub closed spec fn input_arity(self) -> int {
        self.pipeline.input_arity()
    }

    /// The plan's output arity.
    pub closed spec fn output_arity(self) -> int {
        self.pipeline.output_arity()
    }

    /// The metadata captured at load time.
    pub closed spec fn metadata_view(self) -> Seq<(Seq<char>, Seq<char>)> {
        self.pipeline.metadata_view()
    }

    /// Read a graph from bytes, apply the facts and name selections, and
    /// resolve it into a plan, optimized or not.
    ///
    /// The stages run in order, so `InvalidState` can never come out of this
    /// one-shot construction. Reader rejection is `ParseError`, exactly; the
    /// fact checks and name lookups behave as in
    /// [`ModelPipeline::configure`], stated here over the graph the bytes
    /// load to; a symbolic fact with `optimize` fails before any
    /// optimization work. On success the metadata is exactly what the
    /// source embeds, and the facts were free of every pure error.
    pub fn load(
        data: Vec<u8>,
        format: GraphFormat,
        optimize: bool,
        input_names: &Option<Vec<String>>,
        output_names: &Option<Vec<String>>,
        input_facts: &Vec<(usize, FactSpec)>,
    ) -> (r: Result<CoreModel, CoreError>)
        ensures
            r matches Ok(m) ==> m.wf() && m.metadata_view() == load_pairs(format, data@),
            r matches Err(e) ==> !(e is InvalidState),
            (r matches Err(e) && e is ParseError) <==> !load_accepts(format, data@),
            load_accepts(format, data@) ==> {
                let g = loaded_graph(format, data@);
                let n = graph_input_count(g);
                &&& (r matches Err(CoreError::IndexOutOfRange) <==> !indices_ok(input_facts@, n))
                &&& (indices_ok(input_facts@, n) && !all_facts_ok(input_facts@) ==> (r matches Err(
                    e,
                ) && (e is UnknownDtypeName || e is InvalidDimensionSpec || e is IncompleteFact)))
                &&& (r matches Err(CoreError::UnknownDtypeName) ==> exists|i: int|
                    0 <= i < input_facts@.len() && dtype_slot_invalid(
                        (#[trigger] input_facts@[i]).1,
                    ))
                &&& (r matches Err(CoreError::InvalidDimensionSpec) ==> exists|i: int|
                    0 <= i < input_facts@.len() && dims_slot_invalid(
                        (#[trigger] input_facts@[i]).1,
                    ))
                &&& (r matches Err(CoreError::IncompleteFact) ==> exists|i: int|
                    0 <= i < input_facts@.len() && fact_incomplete((#[trigger] input_facts@[i]).1))
                &&& (r matches Err(CoreError::ShapeMismatch) <==> indices_ok(input_facts@, n)
                    && all_facts_ok(input_facts@) && !no_contradiction(g, input_facts@))
                &&& (r matches Err(CoreError::UnknownTensorName) <==> indices_ok(input_facts@, n)
                    && all_facts_ok(input_facts@) && no_contradiction(g, input_facts@) && !(
                    names_in(*output_names, graph_output_names(g)) && names_in(
                        *input_names,
                        graph_node_names(g),
                    )))
                &&& (indices_ok(input_facts@, n) && all_facts_ok(input_facts@) && no_contradiction(
                    g,
                    input_facts@,
                ) && names_in(*output_names, graph_output_names(g)) && names_in(
                    *input_names,
                    graph_node_names(g),
                ) && optimize && any_fact_symbolic(input_facts@) ==> (r matches Err(e) && (
                e is UnresolvedSymbolicDimension || e is EngineFailure)))
                &&& (r matches Err(CoreError::UnresolvedSymbolicDimension) ==> optimize
                    && any_fact_symbolic(input_facts@))
                &&& (r is Ok ==> indices_ok(input_facts@, n) && all_facts_ok(input_facts@)
                    && no_contradiction(g, input_facts@) && names_in(
                    *output_names,
                    graph_output_names(g),
                ) && names_in(*input_names, graph_node_names(g)) && (optimize
                    ==> !any_fact_symbolic(input_facts@)))
            },
    {
        let mut pipeline = match ModelPipeline::load(&data, format) {
            Ok(p) => p,
            Err(e) => {
                return Err(e);
            },
        };
        match pipeline.configure(input_facts, input_names, output_names) {
            Ok(()) => {},
            Err(e) => {
                return Err(e);
            },
        }
        match pipeline.resolve(optimize) {
            Ok(()) => {},
            Err(e) => {
                return Err(e);
            },
        }
        Ok(CoreModel { pipeline })
    }

    /// The metadata captured at load time, as fresh pairs; empty where the
    /// source format embeds none.
    pub fn metadata(&self) -> (r: Vec<(String, String)>)
        ensures
            r@.map_values(|pr: (String, String)| (pr.0@, pr.1@)) == self.metadata_view(),
    {
        self.pipeline.metadata_pairs()
    }

    /// Run the plan on an ordered collection of buffers.
    ///
    /// The input count must equal the plan's input arity (`ArityMismatch`,
    /// for every nonzero difference), and every input must be of a
    /// plain-old-data kind (`UnsupportedType`). On success there is one
    /// output buffer per plan output.
    pub fn predict(&self, data: CoreTensorVec) -> (r: Result<CoreTensorVec, CoreError>)
        requires
            self.wf(),
        ensures
            r matches Err(CoreError::ArityMismatch) <==> data@.len() != self.input_arity(),
            data@.len() == self.input_arity() ==> (r matches Err(CoreError::UnsupportedType)
                <==> exists|i: int|
                0 <= i < data@.len() && !is_pod((#[trigger] data@[i]).kind)),
            r matches Ok(outs) ==> data@.len() == self.input_arity() && outs@.len()
                == self.output_arity(),
            r matches Err(e) ==> (e is ArityMismatch || e is UnsupportedType
                || e is EngineFailure),
    {
        self.pipeline.run(&data)
    }

    /// The plan's input arity.
    pub fn input_count(&self) -> (n: usize)
        ensures
            n == self.input_arity(),
    {
        self.pipeline.input_count()
    }

    /// The plan's output arity.
    pub fn output_count(&self) -> (n: usize)
        ensures
            n == self.output_arity(),
    {
        self.pipeline.output_count()
    }
}

} // verus!
