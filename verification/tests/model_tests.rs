//! End-to-end tests of the pipeline state machine over real engine graphs,
//! built in memory as ONNX and TensorFlow protos.

use prost::Message;
use tract_bridge::buffer::{CoreTensor, CoreTensorVec};
use tract_bridge::error::CoreError;
use tract_bridge::fact::{DimToken, FactSpec};
use tract_bridge::kind::{HostArrayKind, NumericKind};
use tract_bridge::model::CoreModel;
use tract_bridge::pipeline::{GraphFormat, ModelPipeline};
use tract_onnx::pb;
use tract_tensorflow::tfpb;
use tract_tensorflow::tfpb::tensorflow::DataType;

fn dim_value(v: i64) -> pb::tensor_shape_proto::Dimension {
    pb::tensor_shape_proto::Dimension {
        denotation: String::new(),
        value: Some(pb::tensor_shape_proto::dimension::Value::DimValue(v)),
    }
}

fn dim_param(name: &str) -> pb::tensor_shape_proto::Dimension {
    pb::tensor_shape_proto::Dimension {
        denotation: String::new(),
        value: Some(pb::tensor_shape_proto::dimension::Value::DimParam(name.to_string())),
    }
}

fn float_tensor_type(dims: Vec<pb::tensor_shape_proto::Dimension>) -> pb::TypeProto {
    pb::TypeProto {
        denotation: String::new(),
        value: Some(pb::type_proto::Value::TensorType(pb::type_proto::Tensor {
            elem_type: 1,
            shape: Some(pb::TensorShapeProto { dim: dims }),
        })),
    }
}

/// Assemble a `ValueInfoProto` from its wire image: field 1 is the name,
/// field 2 the type. Spelled out this way because the generated struct's
/// type field uses a raw identifier.
fn value_info(name: &str, ty: pb::TypeProto) -> pb::ValueInfoProto {
    let ty_bytes = ty.encode_to_vec();
    let mut buf: Vec<u8> = Vec::new();
    buf.push(0x0A);
    buf.push(name.len() as u8);
    buf.extend_from_slice(name.as_bytes());
    buf.push(0x12);
    buf.push(ty_bytes.len() as u8);
    buf.extend_from_slice(&ty_bytes);
    pb::ValueInfoProto::decode(buf.as_slice()).unwrap()
}

fn node(op: &str, name: &str, inputs: &[&str], outputs: &[&str]) -> pb::NodeProto {
    pb::NodeProto {
        input: inputs.iter().map(|s| s.to_string()).collect(),
        output: outputs.iter().map(|s| s.to_string()).collect(),
        name: name.to_string(),
        op_type: op.to_string(),
        ..Default::default()
    }
}

/// Assemble an integer `AttributeProto` from its wire image: field 1 is the
/// name, field 3 the value, field 20 the INT attribute type tag. Spelled out
/// this way because the generated struct's type field uses a raw identifier.
fn int_attr(name: &str, v: i64) -> pb::AttributeProto {
    assert!((0..128).contains(&v));
    let mut buf: Vec<u8> = Vec::new();
    buf.push(0x0A);
    buf.push(name.len() as u8);
    buf.extend_from_slice(name.as_bytes());
    buf.push(0x18);
    buf.push(v as u8);
    buf.push(0xA0);
    buf.push(0x01);
    buf.push(0x02);
    pb::AttributeProto::decode(buf.as_slice()).unwrap()
}

fn model_bytes(graph: pb::GraphProto, metadata: &[(&str, &str)]) -> Vec<u8> {
    let model = pb::ModelProto {
        ir_version: 8,
        opset_import: vec![pb::OperatorSetIdProto { domain: String::new(), version: 13 }],
        graph: Some(graph),
        metadata_props: metadata
            .iter()
            .map(|(k, v)| pb::StringStringEntryProto { key: k.to_string(), value: v.to_string() })
            .collect(),
        ..Default::default()
    };
    model.encode_to_vec()
}

/// A fully shape-resolved graph: X float32 (1,3,4,4) -> Flatten -> MatMul
/// with a constant (48,10) weight -> Y float32 (1,10).
fn fixed_model_bytes(metadata: &[(&str, &str)]) -> Vec<u8> {
    let mut flatten = node("Flatten", "flat", &["X"], &["F"]);
    flatten.attribute.push(int_attr("axis", 1));
    let weights = pb::TensorProto {
        dims: vec![48, 10],
        data_type: 1,
        float_data: vec![0.0; 480],
        name: "W".to_string(),
        ..Default::default()
    };
    let graph = pb::GraphProto {
        node: vec![flatten, node("MatMul", "mm", &["F", "W"], &["Y"])],
        name: "g".to_string(),
        initializer: vec![weights],
        input: vec![value_info(
            "X",
            float_tensor_type(vec![dim_value(1), dim_value(3), dim_value(4), dim_value(4)]),
        )],
        output: vec![value_info("Y", float_tensor_type(vec![dim_value(1), dim_value(10)]))],
        ..Default::default()
    };
    model_bytes(graph, metadata)
}

/// A partially resolved graph: X float32 (N,3,224,224) -> Relu -> Y.
fn symbolic_model_bytes() -> Vec<u8> {
    let graph = pb::GraphProto {
        node: vec![node("Relu", "relu", &["X"], &["Y"])],
        name: "g".to_string(),
        input: vec![value_info(
            "X",
            float_tensor_type(vec![
                dim_param("N"),
                dim_value(3),
                dim_value(224),
                dim_value(224),
            ]),
        )],
        output: vec![value_info(
            "Y",
            float_tensor_type(vec![
                dim_param("N"),
                dim_value(3),
                dim_value(224),
                dim_value(224),
            ]),
        )],
        ..Default::default()
    };
    model_bytes(graph, &[])
}

fn zero_f32_buffer(shape: Vec<usize>) -> CoreTensor {
    let count: usize = shape.iter().product();
    CoreTensor::new(HostArrayKind::Float32, vec![0u8; count * 4], shape).unwrap()
}

fn float32_fact(dims: &[i64]) -> FactSpec {
    FactSpec {
        dtype: Some("float32".to_string()),
        dims: Some(dims.iter().map(|d| DimToken::Number(*d)).collect()),
    }
}

#[test]
fn fixed_graph_loads_resolves_and_runs() {
    let model = CoreModel::load(
        fixed_model_bytes(&[]),
        GraphFormat::Onnx,
        true,
        &None,
        &None,
        &vec![],
    )
    .unwrap();
    assert_eq!(model.input_count(), 1);
    assert_eq!(model.output_count(), 1);
    let mut inputs = CoreTensorVec::new();
    inputs.push(zero_f32_buffer(vec![1, 3, 4, 4]));
    let outputs = model.predict(inputs).unwrap();
    assert_eq!(outputs.length(), 1);
    let out = outputs.get(0);
    assert_eq!(out.kind(), NumericKind::Float32);
    assert_eq!(out.shape(), vec![1, 10]);
    let host = out.data().unwrap();
    assert_eq!(host.kind, HostArrayKind::Float32);
    assert_eq!(host.data, vec![0u8; 40]);
}

#[test]
fn symbolic_graph_configures_and_runs_optimized() {
    let mut pipeline = ModelPipeline::load(&symbolic_model_bytes(), GraphFormat::Onnx).unwrap();
    pipeline
        .configure(&vec![(0, float32_fact(&[1, 3, 224, 224]))], &None, &None)
        .unwrap();
    pipeline.resolve(true).unwrap();
    let mut inputs = CoreTensorVec::new();
    inputs.push(zero_f32_buffer(vec![1, 3, 224, 224]));
    let outputs = pipeline.run(&inputs).unwrap();
    assert_eq!(outputs.length(), 1);
    let out = outputs.get(0);
    assert_eq!(out.kind(), NumericKind::Float32);
    assert_eq!(out.shape(), vec![1, 3, 224, 224]);
}

#[test]
fn run_before_resolve_is_an_invalid_state() {
    let pipeline = ModelPipeline::load(&fixed_model_bytes(&[]), GraphFormat::Onnx).unwrap();
    let mut inputs = CoreTensorVec::new();
    inputs.push(zero_f32_buffer(vec![1, 3, 4, 4]));
    let r = pipeline.run(&inputs);
    assert!(matches!(r, Err(CoreError::InvalidState)));
}

#[test]
fn fact_index_out_of_range() {
    let mut pipeline = ModelPipeline::load(&fixed_model_bytes(&[]), GraphFormat::Onnx).unwrap();
    let r = pipeline.configure(&vec![(7, float32_fact(&[1, 3, 4, 4]))], &None, &None);
    assert!(matches!(r, Err(CoreError::IndexOutOfRange)));
}

#[test]
fn unknown_output_name_is_rejected() {
    let mut pipeline = ModelPipeline::load(&fixed_model_bytes(&[]), GraphFormat::Onnx).unwrap();
    let r = pipeline.configure(&vec![], &None, &Some(vec!["nonexistent".to_string()]));
    assert!(matches!(r, Err(CoreError::UnknownTensorName)));
}

#[test]
fn unknown_input_name_is_rejected() {
    let mut pipeline = ModelPipeline::load(&fixed_model_bytes(&[]), GraphFormat::Onnx).unwrap();
    let r = pipeline.configure(&vec![], &Some(vec!["nonexistent".to_string()]), &None);
    assert!(matches!(r, Err(CoreError::UnknownTensorName)));
}

#[test]
fn selecting_a_real_output_name_works() {
    let mut pipeline = ModelPipeline::load(&fixed_model_bytes(&[]), GraphFormat::Onnx).unwrap();
    pipeline.configure(&vec![], &None, &Some(vec!["mm".to_string()])).unwrap();
    pipeline.resolve(true).unwrap();
    let mut inputs = CoreTensorVec::new();
    inputs.push(zero_f32_buffer(vec![1, 3, 4, 4]));
    let outputs = pipeline.run(&inputs).unwrap();
    assert_eq!(outputs.length(), 1);
    assert_eq!(outputs.get(0).shape(), vec![1, 10]);
}

#[test]
fn arity_mismatch_on_every_nonzero_difference() {
    let model = CoreModel::load(
        fixed_model_bytes(&[]),
        GraphFormat::Onnx,
        true,
        &None,
        &None,
        &vec![],
    )
    .unwrap();
    let empty = CoreTensorVec::new();
    assert!(matches!(model.predict(empty), Err(CoreError::ArityMismatch)));
    let mut two = CoreTensorVec::new();
    two.push(zero_f32_buffer(vec![1, 3, 4, 4]));
    two.push(zero_f32_buffer(vec![1, 3, 4, 4]));
    assert!(matches!(model.predict(two), Err(CoreError::ArityMismatch)));
}

#[test]
fn contradicting_fact_is_a_shape_mismatch() {
    let mut pipeline = ModelPipeline::load(&fixed_model_bytes(&[]), GraphFormat::Onnx).unwrap();
    let r = pipeline.configure(&vec![(0, float32_fact(&[2, 3, 4, 4]))], &None, &None);
    assert!(matches!(r, Err(CoreError::ShapeMismatch)));
}

#[test]
fn matching_fact_on_a_fixed_input_is_fine() {
    let mut pipeline = ModelPipeline::load(&fixed_model_bytes(&[]), GraphFormat::Onnx).unwrap();
    pipeline.configure(&vec![(0, float32_fact(&[1, 3, 4, 4]))], &None, &None).unwrap();
    pipeline.resolve(true).unwrap();
}

#[test]
fn symbolic_fact_blocks_optimization() {
    let mut pipeline = ModelPipeline::load(&symbolic_model_bytes(), GraphFormat::Onnx).unwrap();
    let fact = FactSpec {
        dtype: Some("float32".to_string()),
        dims: Some(vec![
            DimToken::Name("n".to_string()),
            DimToken::Number(3),
            DimToken::Number(224),
            DimToken::Number(224),
        ]),
    };
    pipeline.configure(&vec![(0, fact)], &None, &None).unwrap();
    let r = pipeline.resolve(true);
    assert!(matches!(r, Err(CoreError::UnresolvedSymbolicDimension)));
    // Without optimization the symbolic dimension may stay unresolved.
    pipeline.resolve(false).unwrap();
}

#[test]
fn operations_out_of_order_are_invalid_states() {
    let mut pipeline = ModelPipeline::load(&fixed_model_bytes(&[]), GraphFormat::Onnx).unwrap();
    pipeline.resolve(true).unwrap();
    let r = pipeline.resolve(true);
    assert!(matches!(r, Err(CoreError::InvalidState)));
    let r = pipeline.configure(&vec![], &None, &None);
    assert!(matches!(r, Err(CoreError::InvalidState)));
}

#[test]
fn configure_twice_is_an_invalid_state() {
    let mut pipeline = ModelPipeline::load(&fixed_model_bytes(&[]), GraphFormat::Onnx).unwrap();
    pipeline.configure(&vec![], &None, &None).unwrap();
    let r = pipeline.configure(&vec![], &None, &None);
    assert!(matches!(r, Err(CoreError::InvalidState)));
}

#[test]
fn bad_fact_surfaces_its_parse_error() {
    let mut pipeline = ModelPipeline::load(&fixed_model_bytes(&[]), GraphFormat::Onnx).unwrap();
    let bad = FactSpec { dtype: Some("float16".to_string()), dims: None };
    let r = pipeline.configure(&vec![(0, bad)], &None, &None);
    assert!(matches!(r, Err(CoreError::UnknownDtypeName)));
    let empty = FactSpec { dtype: None, dims: None };
    let r = pipeline.configure(&vec![(0, empty)], &None, &None);
    assert!(matches!(r, Err(CoreError::IncompleteFact)));
}

#[test]
fn metadata_is_captured_from_the_onnx_proto() {
    let bytes = fixed_model_bytes(&[("author", "ferris"), ("license", "mit")]);
    let model =
        CoreModel::load(bytes, GraphFormat::Onnx, true, &None, &None, &vec![]).unwrap();
    let pairs = model.metadata();
    assert_eq!(
        pairs,
        vec![
            ("author".to_string(), "ferris".to_string()),
            ("license".to_string(), "mit".to_string()),
        ]
    );
}

#[test]
fn malformed_bytes_are_a_parse_error() {
    let garbage = vec![0xFFu8; 16];
    let r = ModelPipeline::load(&garbage, GraphFormat::Onnx);
    assert!(matches!(r, Err(CoreError::ParseError(_))));
    let r = ModelPipeline::load(&garbage, GraphFormat::TensorFlow);
    assert!(matches!(r, Err(CoreError::ParseError(_))));
}

#[test]
fn tensorflow_graph_loads_and_runs() {
    let graph = tfpb::graph()
        .node(tfpb::node().name("x").op("Placeholder").attr("dtype", DataType::DtFloat))
        .node(tfpb::node().name("y").op("Abs").input("x").attr("T", DataType::DtFloat));
    let bytes = graph.write_to_bytes().unwrap();
    let mut pipeline = ModelPipeline::load(&bytes, GraphFormat::TensorFlow).unwrap();
    assert!(pipeline.metadata_pairs().is_empty());
    pipeline.configure(&vec![(0, float32_fact(&[2, 2]))], &None, &None).unwrap();
    pipeline.resolve(true).unwrap();
    let values: [f32; 4] = [-1.5, 2.0, 3.25, -4.0];
    let mut bytes_in = Vec::new();
    for v in values {
        bytes_in.extend_from_slice(&v.to_le_bytes());
    }
    let mut inputs = CoreTensorVec::new();
    inputs.push(CoreTensor::new(HostArrayKind::Float32, bytes_in, vec![2, 2]).unwrap());
    let outputs = pipeline.run(&inputs).unwrap();
    assert_eq!(outputs.length(), 1);
    let out = outputs.get(0).data().unwrap();
    let got: Vec<f32> = out.data.chunks(4)
        .map(|c| f32::from_le_bytes([c[0], c[1], c[2], c[3]]))
        .collect();
    assert_eq!(got, vec![1.5, 2.0, 3.25, 4.0]);
}

#[test]
fn selecting_the_input_by_node_name_works() {
    let mut pipeline = ModelPipeline::load(&fixed_model_bytes(&[]), GraphFormat::Onnx).unwrap();
    pipeline.configure(&vec![], &Some(vec!["X".to_string()]), &None).unwrap();
    pipeline.resolve(true).unwrap();
    let mut inputs = CoreTensorVec::new();
    inputs.push(zero_f32_buffer(vec![1, 3, 4, 4]));
    let outputs = pipeline.run(&inputs).unwrap();
    assert_eq!(outputs.length(), 1);
}

#[test]
fn repeated_runs_return_equal_outputs() {
    let model = CoreModel::load(
        fixed_model_bytes(&[]),
        GraphFormat::Onnx,
        true,
        &None,
        &None,
        &vec![],
    )
    .unwrap();
    let mut first = CoreTensorVec::new();
    first.push(zero_f32_buffer(vec![1, 3, 4, 4]));
    let mut second = CoreTensorVec::new();
    second.push(zero_f32_buffer(vec![1, 3, 4, 4]));
    let a = model.predict(first).unwrap().get(0).data().unwrap();
    let b = model.predict(second).unwrap().get(0).data().unwrap();
    assert_eq!(a.kind, b.kind);
    assert_eq!(a.data, b.data);
}

#[test]
fn symbolic_fact_with_optimize_fails_through_the_facade() {
    let fact = FactSpec {
        dtype: Some("float32".to_string()),
        dims: Some(vec![
            DimToken::Name("n".to_string()),
            DimToken::Number(3),
            DimToken::Number(224),
            DimToken::Number(224),
        ]),
    };
    let r = CoreModel::load(
        symbolic_model_bytes(),
        GraphFormat::Onnx,
        true,
        &None,
        &None,
        &vec![(0, fact)],
    );
    assert!(matches!(r, Err(CoreError::UnresolvedSymbolicDimension)));
}

#[test]
fn unknown_names_are_rejected_through_the_facade() {
    let r = CoreModel::load(
        fixed_model_bytes(&[]),
        GraphFormat::Onnx,
        true,
        &Some(vec!["nonexistent".to_string()]),
        &None,
        &vec![],
    );
    assert!(matches!(r, Err(CoreError::UnknownTensorName)));
    let r = CoreModel::load(
        fixed_model_bytes(&[]),
        GraphFormat::Onnx,
        true,
        &None,
        &Some(vec!["nonexistent".to_string()]),
        &vec![],
    );
    assert!(matches!(r, Err(CoreError::UnknownTensorName)));
}

#[test]
fn unknown_input_name_wins_over_engine_work() {
    // A valid fact plus an unknown input name: the name lookup is decided
    // before any fact reaches the engine.
    let mut pipeline = ModelPipeline::load(&fixed_model_bytes(&[]), GraphFormat::Onnx).unwrap();
    let r = pipeline.configure(
        &vec![(0, float32_fact(&[1, 3, 4, 4]))],
        &Some(vec!["nonexistent".to_string()]),
        &None,
    );
    assert!(matches!(r, Err(CoreError::UnknownTensorName)));
}

#[test]
fn bad_index_is_rejected_through_the_facade() {
    let r = CoreModel::load(
        fixed_model_bytes(&[]),
        GraphFormat::Onnx,
        true,
        &None,
        &None,
        &vec![(9, float32_fact(&[1, 3, 4, 4]))],
    );
    assert!(matches!(r, Err(CoreError::IndexOutOfRange)));
}

#[test]
fn untranslatable_proto_is_a_parse_error() {
    // The bytes decode as a model proto, but a node consumes a tensor that
    // nothing produces, so the translator rejects the structure.
    let graph = pb::GraphProto {
        node: vec![node("Relu", "relu", &["nosuch"], &["Y"])],
        name: "g".to_string(),
        input: vec![value_info(
            "X",
            float_tensor_type(vec![dim_value(1)]),
        )],
        output: vec![value_info("Y", float_tensor_type(vec![dim_value(1)]))],
        ..Default::default()
    };
    let bytes = model_bytes(graph, &[]);
    let r = CoreModel::load(bytes, GraphFormat::Onnx, false, &None, &None, &vec![]);
    assert!(matches!(r, Err(CoreError::ParseError(_))));
}
