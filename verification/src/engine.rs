//! The trusted boundary to the tract engine.
//!
//! Everything the library takes on trust about the engine stands in this
//! module: opaque holders for the engine's graphs, plans and protos, names
//! for what those values hold, and one wrapper per engine function the
//! pipeline calls. Each wrapper's contract states only what the engine's
//! source shows.

use std::sync::Arc;

use tract_core::prelude::DatumType;
use tract_core::framework::Framework;
use tract_core::prelude::IntoTValue;
use tract_core::prelude::IntoTensor;
use tract_hir::infer::Factoid;
use tract_core::prelude::TDim;
use tract_core::prelude::Tensor;
use tract_hir::infer::InferenceFact;
use tract_hir::infer::InferenceModelExt;
use tract_onnx::prelude::InferenceModel;

use vstd::prelude::*;

use crate::buffer::prod;
use crate::fact::{DimensionTerm, ShapeFact};
use crate::kind::{is_pod, width, NumericKind};

verus! {

#[verifier::external_type_specification]
#[verifier::external_body]
pub struct ExTensor(Tensor);

#[verifier::external_type_specification]
#[verifier::external_body]
pub struct ExDatumType(DatumType);

#[verifier::external_type_specification]
#[verifier::external_body]
pub struct ExTDim(TDim);

// The engine's graph and plan types are generic over boxed operator trait
// objects, with `Display` and `AsRef<dyn Op>` bounds the verifier cannot
// express in a type declaration, so each is held whole inside an opaque
// wrapper struct instead; the names below say what such a value holds.

/// An ONNX model proto, parsed but not yet translated to a graph.
#[verifier::external_body]
pub struct EngineProto {
    inner: tract_onnx::pb::ModelProto,
}

/// A graph under construction: the engine's inference model.
#[verifier::external_body]
pub struct EngineGraph {
    inner: InferenceModel,
}

/// A fully typed, optimized graph.
#[verifier::external_body]
pub struct EngineTypedGraph {
    inner: tract_core::model::TypedModel,
}

/// A runnable plan over the inference model; infers shapes at each run.
#[verifier::external_body]
pub struct EngineInferPlan {
    inner: Arc<tract_hir::infer::InferenceSimplePlan>,
}

/// A runnable plan over the optimized typed model.
#[verifier::external_body]
pub struct EngineTypedPlan {
    inner: Arc<tract_core::model::TypedSimplePlan>,
}

/// The element kind of an engine tensor.
pub uninterp spec fn tensor_kind(t: Tensor) -> NumericKind;

/// The shape of an engine tensor.
pub uninterp spec fn tensor_shape(t: Tensor) -> Seq<usize>;

/// The row-major little-endian byte image of an engine tensor's elements.
pub uninterp spec fn tensor_bytes(t: Tensor) -> Seq<u8>;

/// Whether the ONNX reader accepts these bytes as a model proto.
pub uninterp spec fn onnx_accepts(bytes: Seq<u8>) -> bool;

/// The proto the ONNX reader yields for accepted bytes: parsing is a pure
/// function of the bytes.
pub uninterp spec fn onnx_proto_of(bytes: Seq<u8>) -> EngineProto;

/// Whether the TensorFlow reader accepts these bytes as a graph.
pub uninterp spec fn tf_accepts(bytes: Seq<u8>) -> bool;

/// The key/value metadata pairs embedded in a model proto.
pub uninterp spec fn proto_pairs(p: EngineProto) -> Seq<(Seq<char>, Seq<char>)>;

/// Whether the proto translates to a graph.
pub uninterp spec fn proto_converts(p: EngineProto) -> bool;

/// The graph the translator yields for an accepted proto: translation is a
/// pure function of the proto.
pub uninterp spec fn proto_graph_of(p: EngineProto) -> EngineGraph;

/// The graph the TensorFlow reader yields for accepted bytes: reading is a
/// pure function of the bytes.
pub uninterp spec fn tf_graph_of(bytes: Seq<u8>) -> EngineGraph;

/// How many inputs the graph declares.
pub uninterp spec fn graph_input_count(g: EngineGraph) -> int;

/// The node names of the graph, as input selection resolves them.
pub uninterp spec fn graph_node_names(g: EngineGraph) -> Set<Seq<char>>;

/// The names output selection resolves: outlet labels, `name:slot` forms and
/// node names.
pub uninterp spec fn graph_output_names(g: EngineGraph) -> Set<Seq<char>>;

/// The dimensions already fixed on one input, where the input's rank is
/// known: one entry per axis, `Some` where the extent is a known integer.
pub uninterp spec fn graph_fixed_dims(g: EngineGraph, ix: int) -> Option<Seq<Option<i64>>>;

/// How many inputs an inference plan expects.
pub uninterp spec fn iplan_input_count(p: EngineInferPlan) -> int;

/// How many outputs an inference plan produces.
pub uninterp spec fn iplan_output_count(p: EngineInferPlan) -> int;

/// How many inputs a typed plan expects.
pub uninterp spec fn tplan_input_count(p: EngineTypedPlan) -> int;

/// How many outputs a typed plan produces.
pub uninterp spec fn tplan_output_count(p: EngineTypedPlan) -> int;

/// Relies on tract_onnx's `Onnx::proto_model_for_read`: parsing is a pure
/// function of the bytes, and fails exactly on bytes the reader rejects.
#[verifier::external_body]
pub(crate) fn onnx_read_proto(bytes: &Vec<u8>) -> (r: Result<EngineProto, String>)
    ensures
        r is Ok <==> onnx_accepts(bytes@),
        r matches Ok(p) ==> p == onnx_proto_of(bytes@),
{
    let mut reader = std::io::Cursor::new(bytes.as_slice());
    match tract_onnx::onnx().proto_model_for_read(&mut reader) {
        Ok(p) => Ok(EngineProto { inner: p }),
        Err(e) => Err(format!("{e:?}")),
    }
}

/// Relies on the `metadata_props` field of tract_onnx's model proto: the
/// embedded key/value pairs, in order.
#[verifier::external_body]
pub(crate) fn proto_metadata(p: &EngineProto) -> (r: Vec<(String, String)>)
    ensures
        r@.map_values(|pr: (String, String)| (pr.0@, pr.1@)) == proto_pairs(*p),
{
    p.inner.metadata_props.iter().map(|e| (e.key.clone(), e.value.clone())).collect()
}

/// Relies on tract_onnx's `Onnx::model_for_proto_model`: translation is a
/// pure function of the proto, and fails exactly on protos the translator
/// rejects.
#[verifier::external_body]
pub(crate) fn proto_to_graph(p: &EngineProto) -> (r: Result<EngineGraph, String>)
    ensures
        r is Ok <==> proto_converts(*p),
        r matches Ok(g) ==> g == proto_graph_of(*p),
{
    match tract_onnx::onnx().model_for_proto_model(&p.inner) {
        Ok(m) => Ok(EngineGraph { inner: m }),
        Err(e) => Err(format!("{e:?}")),
    }
}

/// Relies on tract_tensorflow's `Tensorflow::model_for_read`: reading is a
/// pure function of the bytes, and fails exactly on bytes the reader
/// rejects.
#[verifier::external_body]
pub(crate) fn tf_read_graph(bytes: &Vec<u8>) -> (r: Result<EngineGraph, String>)
    ensures
        r is Ok <==> tf_accepts(bytes@),
        r matches Ok(g) ==> g == tf_graph_of(bytes@),
{
    let mut reader = std::io::Cursor::new(bytes.as_slice());
    match tract_tensorflow::tensorflow().model_for_read(&mut reader) {
        Ok(m) => Ok(EngineGraph { inner: m }),
        Err(e) => Err(format!("{e:?}")),
    }
}

/// Relies on the graph's `Clone`: a deep copy observationally equal to the
/// original.
#[verifier::external_body]
pub(crate) fn graph_clone(g: &EngineGraph) -> (r: EngineGraph)
    ensures
        r == *g,
{
    EngineGraph { inner: g.inner.clone() }
}

/// Relies on `Graph::node_by_name`: whether a node of that name exists; the
/// same lookup input selection resolves names through.
#[verifier::external_body]
pub(crate) fn graph_has_node(g: &EngineGraph, name: &String) -> (r: bool)
    ensures
        r == graph_node_names(*g).contains(name@),
{
    g.inner.node_by_name(name).is_ok()
}

/// Relies on the graph's `inputs` field: the declared input outlets.
#[verifier::external_body]
pub(crate) fn graph_inputs_len(g: &EngineGraph) -> (r: usize)
    ensures
        r == graph_input_count(*g),
{
    g.inner.inputs.len()
}

/// Relies on `Graph::input_fact` and the shape factoid's dims: the extents
/// already known for one input, or `None` where the rank itself is open.
#[verifier::external_body]
pub(crate) fn input_fixed_dims(g: &EngineGraph, ix: usize) -> (r: Option<Vec<Option<i64>>>)
    requires
        0 <= ix < graph_input_count(*g),
    ensures
        match r {
            Some(v) => graph_fixed_dims(*g, ix as int) == Some(v@),
            None => graph_fixed_dims(*g, ix as int) is None,
        },
{
    let fact = match g.inner.input_fact(ix) {
        Ok(f) => f,
        Err(_) => return None,
    };
    if fact.shape.is_open() {
        return None;
    }
    Some(fact.shape.dims().map(|d| d.concretize().and_then(|t| t.to_i64().ok())).collect())
}

/// Relies on tract's `DatumType`: the engine's tag for a host-facing element
/// kind.
#[verifier::external_body]
fn datum_of_kind(k: NumericKind) -> DatumType
    requires
        is_pod(k),
{
    match k {
        NumericKind::Int8 => DatumType::I8, NumericKind::Uint8 => DatumType::U8,
        NumericKind::Int16 => DatumType::I16, NumericKind::Uint16 => DatumType::U16,
        NumericKind::Int32 => DatumType::I32, NumericKind::Uint32 => DatumType::U32,
        NumericKind::Int64 => DatumType::I64, NumericKind::Uint64 => DatumType::U64,
        NumericKind::Float16 => DatumType::F16, NumericKind::Float32 => DatumType::F32,
        NumericKind::Float64 => DatumType::F64, _ => DatumType::Bool,
    }
}

/// Relies on the graph's symbol scope and `TDim` arithmetic: a fixed extent,
/// a named symbol, or `slope * symbol + intercept`.
#[verifier::external_body]
fn term_dim(g: &EngineGraph, t: &DimensionTerm) -> TDim {
    match t {
        DimensionTerm::Fixed(v) => TDim::Val(*v),
        DimensionTerm::Symbol(c) => g.inner.symbols.sym(&c.to_string()).into(),
        DimensionTerm::Affine { id, slope, intercept } => {
            let s: TDim = g.inner.symbols.sym(&id.to_string()).into();
            s * *slope + *intercept
        },
    }
}

/// Relies on `Graph::set_input_fact`: stores the fact on the input's outlet
/// and leaves the input list, the node names and the resolvable output names
/// unchanged.
#[verifier::external_body]
pub(crate) fn graph_apply_fact(g: &mut EngineGraph, ix: usize, fact: &ShapeFact) -> (r: Result<
    (),
    String,
>)
    requires
        0 <= ix < graph_input_count(*old(g)),
        fact.dtype matches Some(k) ==> is_pod(k),
    ensures
        graph_input_count(*final(g)) == graph_input_count(*old(g)),
        graph_node_names(*final(g)) == graph_node_names(*old(g)),
        graph_output_names(*final(g)) == graph_output_names(*old(g)),
{
    let dt = fact.dtype.map(datum_of_kind);
    let sh: Option<Vec<TDim>> = fact.dims.as_ref().map(
        |ds| ds.iter().map(|t| term_dim(g, t)).collect(),
    );
    let f = match (dt, sh) {
        (Some(d), Some(s)) => InferenceFact::dt_shape(d, s),
        (Some(d), None) => InferenceFact::dt(d),
        (None, Some(s)) => InferenceFact::shape(s),
        (None, None) => InferenceFact::default(),
    };
    g.inner.set_input_fact(ix, f).map_err(|e| format!("{e:?}"))
}

/// Relies on `Graph::select_outputs_by_name`: resolves each name as an
/// outlet label, a `name:slot` form or a node name; succeeds exactly when
/// every name resolves, changes nothing on failure, and never touches the
/// inputs, the node names or the input facts.
#[verifier::external_body]
pub(crate) fn graph_select_outputs(g: &mut EngineGraph, names: &Vec<String>) -> (r: Result<
    (),
    String,
>)
    ensures
        r is Ok <==> (forall|i: int|
            0 <= i < names@.len() ==> graph_output_names(*old(g)).contains(#[trigger] names@[i]@)),
        graph_input_count(*final(g)) == graph_input_count(*old(g)),
        graph_node_names(*final(g)) == graph_node_names(*old(g)),
        graph_output_names(*final(g)) == graph_output_names(*old(g)),
        forall|ix: int|
            #[trigger] graph_fixed_dims(*final(g), ix) == graph_fixed_dims(*old(g), ix),
{
    g.inner.select_outputs_by_name(names.iter()).map_err(|e| format!("{e:?}"))
}

/// Relies on `Graph::set_input_names`: resolves every name through
/// `node_by_name` before changing the inputs; succeeds exactly when every
/// name is a node name, changes nothing on failure, and never touches the
/// node names or the resolvable output names.
#[verifier::external_body]
pub(crate) fn graph_set_input_names(g: &mut EngineGraph, names: &Vec<String>) -> (r: Result<
    (),
    String,
>)
    ensures
        r is Ok <==> (forall|i: int|
            0 <= i < names@.len() ==> graph_node_names(*old(g)).contains(#[trigger] names@[i]@)),
        graph_node_names(*final(g)) == graph_node_names(*old(g)),
        graph_output_names(*final(g)) == graph_output_names(*old(g)),
{
    g.inner.set_input_names(names.iter()).map_err(|e| format!("{e:?}"))
}

/// Relies on `SimplePlan::new` over the inference model: builds the plan
/// that runs shape inference lazily at each execution, keeping the model's
/// inputs.
#[verifier::external_body]
pub(crate) fn graph_into_infer_plan(g: EngineGraph) -> (r: Result<EngineInferPlan, String>)
    ensures
        r matches Ok(p) ==> iplan_input_count(p) == graph_input_count(g),
{
    match tract_core::plan::SimplePlan::new(g.inner) {
        Ok(p) => Ok(EngineInferPlan { inner: p }),
        Err(e) => Err(format!("{e:?}")),
    }
}

/// Relies on `InferenceModelExt::into_optimized`: full analysis, declutter
/// and optimization to a typed model.
#[verifier::external_body]
pub(crate) fn graph_into_optimized(g: EngineGraph) -> (r: Result<EngineTypedGraph, String>) {
    match g.inner.into_optimized() {
        Ok(m) => Ok(EngineTypedGraph { inner: m }),
        Err(e) => Err(format!("{e:?}")),
    }
}

/// Relies on `SimplePlan::new` over the typed model: builds the plan for the
/// optimized graph.
#[verifier::external_body]
pub(crate) fn typed_into_plan(t: EngineTypedGraph) -> (r: Result<EngineTypedPlan, String>) {
    match tract_core::plan::SimplePlan::new(t.inner) {
        Ok(p) => Ok(EngineTypedPlan { inner: p }),
        Err(e) => Err(format!("{e:?}")),
    }
}

/// Relies on `SimplePlan::model`: the plan's declared input count.
#[verifier::external_body]
pub(crate) fn iplan_inputs(p: &EngineInferPlan) -> (r: usize)
    ensures
        r == iplan_input_count(*p),
{
    p.inner.model().inputs.len()
}

/// Relies on `SimplePlan::model`: the plan's declared output count.
#[verifier::external_body]
pub(crate) fn iplan_outputs(p: &EngineInferPlan) -> (r: usize)
    ensures
        r == iplan_output_count(*p),
{
    p.inner.model().outputs.len()
}

/// Relies on `SimplePlan::model`: the plan's declared input count.
#[verifier::external_body]
pub(crate) fn tplan_inputs(p: &EngineTypedPlan) -> (r: usize)
    ensures
        r == tplan_input_count(*p),
{
    p.inner.model().inputs.len()
}

/// Relies on `SimplePlan::model`: the plan's declared output count.
#[verifier::external_body]
pub(crate) fn tplan_outputs(p: &EngineTypedPlan) -> (r: usize)
    ensures
        r == tplan_output_count(*p),
{
    p.inner.model().outputs.len()
}

/// Relies on `SimplePlan::run` over the inference model: executes the plan
/// and returns one tensor per plan output.
#[verifier::external_body]
pub(crate) fn iplan_run(p: &EngineInferPlan, inputs: Vec<Tensor>) -> (r: Result<Vec<Tensor>, String>)
    ensures
        r matches Ok(outs) ==> outs@.len() == iplan_output_count(*p),
{
    let tv: tract_core::prelude::TVec<tract_core::prelude::TValue> =
        inputs.into_iter().map(|t| t.into_tvalue()).collect();
    match p.inner.run(tv) {
        Ok(outs) => Ok(outs.into_iter().map(|t| t.into_tensor()).collect()),
        Err(e) => Err(format!("{e:?}")),
    }
}

/// Relies on `SimplePlan::run` over the typed model: executes the plan and
/// returns one tensor per plan output.
#[verifier::external_body]
pub(crate) fn tplan_run(p: &EngineTypedPlan, inputs: Vec<Tensor>) -> (r: Result<Vec<Tensor>, String>)
    ensures
        r matches Ok(outs) ==> outs@.len() == tplan_output_count(*p),
{
    let tv: tract_core::prelude::TVec<tract_core::prelude::TValue> =
        inputs.into_iter().map(|t| t.into_tvalue()).collect();
    match p.inner.run(tv) {
        Ok(outs) => Ok(outs.into_iter().map(|t| t.into_tensor()).collect()),
        Err(e) => Err(format!("{e:?}")),
    }
}

/// Relies on `Tensor::zero_dt` and `Tensor::as_bytes_mut`: allocates the
/// engine's contiguous row-major storage for the kind and shape and fills it
/// with the given bytes.
#[verifier::external_body]
pub(crate) fn tensor_of_parts(kind: NumericKind, shape: &Vec<usize>, data: &Vec<u8>) -> (r: Result<
    Tensor,
    String,
>)
    requires
        is_pod(kind),
        data@.len() == prod(shape@) * width(kind),
    ensures
        r matches Ok(t) ==> tensor_kind(t) == kind && tensor_shape(t) == shape@ && tensor_bytes(t)
            == data@,
{
    let dt = datum_of_kind(kind);
    let mut t = Tensor::zero_dt(dt, shape.as_slice()).map_err(|e| format!("{e:?}"))?;
    t.as_bytes_mut().copy_from_slice(data.as_slice());
    Ok(t)
}

/// Relies on `Tensor::datum_type`: the element kind of an engine tensor.
#[verifier::external_body]
pub(crate) fn engine_tensor_kind(t: &Tensor) -> (k: NumericKind)
    ensures
        k == tensor_kind(*t),
{
    match t.datum_type() {
        DatumType::I8 => NumericKind::Int8, DatumType::U8 => NumericKind::Uint8,
        DatumType::I16 => NumericKind::Int16, DatumType::U16 => NumericKind::Uint16,
        DatumType::I32 => NumericKind::Int32, DatumType::U32 => NumericKind::Uint32,
        DatumType::I64 => NumericKind::Int64, DatumType::U64 => NumericKind::Uint64,
        DatumType::F16 => NumericKind::Float16, DatumType::F32 => NumericKind::Float32,
        DatumType::F64 => NumericKind::Float64, DatumType::Bool => NumericKind::Bool,
        DatumType::TDim => NumericKind::SymDim, DatumType::Blob => NumericKind::Blob,
        DatumType::String => NumericKind::Str, DatumType::QI8(_) => NumericKind::QInt8,
        DatumType::QU8(_) => NumericKind::QUint8, _ => NumericKind::Other,
    }
}

/// Relies on `Tensor::shape`: the shape of an engine tensor.
#[verifier::external_body]
pub(crate) fn engine_tensor_shape(t: &Tensor) -> (s: Vec<usize>)
    ensures
        s@ == tensor_shape(*t),
{
    t.shape().to_vec()
}

/// Relies on `Tensor::as_bytes`: the contiguous row-major storage of an
/// engine tensor. For plain-old-data kinds its length is the element count
/// times the element width.
#[verifier::external_body]
pub(crate) fn engine_tensor_bytes(t: &Tensor) -> (b: Vec<u8>)
    ensures
        is_pod(tensor_kind(*t)) ==> b@ == tensor_bytes(*t) && b@.len() == prod(tensor_shape(*t))
            * width(tensor_kind(*t)),
        !is_pod(tensor_kind(*t)) ==> b@.len() == 0,
{
    match t.datum_type() {
        DatumType::Bool | DatumType::U8 | DatumType::U16 | DatumType::U32 | DatumType::U64
        | DatumType::I8 | DatumType::I16 | DatumType::I32 | DatumType::I64 | DatumType::F16
        | DatumType::F32 | DatumType::F64 => t.as_bytes().to_vec(),
        _ => Vec::new(),
    }
}

} // verus!
