//! Typed buffers: the tensor interchange between host arrays and the engine.
//!
//! A [`CoreTensor`] holds an element kind, a shape, and the contiguous
//! row-major little-endian byte image of its elements. Its invariant ties the
//! byte length to the shape; construction from a host array enforces it, and
//! extraction back to a host array applies the fixed narrowing-cast table.

use vstd::prelude::*;

use crate::cast::{
    bool_bytes, narrow_groups8, narrowed64, normalize_bool_bytes, widen_groups2, widened16,
};
use crate::error::CoreError;
use crate::kind::{
    input_kind, input_kind_of, is_pod, output_kind, output_kind_of, width, width_of,
    HostArrayKind, NumericKind,
};

verus! {

/// The number of elements a shape describes.
pub open spec fn prod(shape: Seq<usize>) -> int
    decreases shape.len(),
{
    if shape.len() == 0 {
        1
    } else {
        shape[0] * prod(shape.skip(1))
    }
}

/// A buffer's byte length is determined by its kind and shape: elementwise
/// storage for plain-old-data kinds, nothing for the kinds the boundary
/// cannot represent.
pub open spec fn buffer_fits(kind: NumericKind, shape: Seq<usize>, data: Seq<u8>) -> bool {
    if is_pod(kind) {
        data.len() == prod(shape) * width(kind)
    } else {
        data.len() == 0
    }
}

/// The mathematical model of a buffer.
pub struct BufferModel {
    pub kind: NumericKind,
    pub shape: Seq<usize>,
    pub data: Seq<u8>,
    pub contiguous: bool,
}

/// A typed buffer crossing the boundary in either direction.
pub struct CoreTensor {
    kind: NumericKind,
    shape: Vec<usize>,
    data: Vec<u8>,
    contiguous: bool,
}

/// A host-side numeric array: its kind and its raw little-endian bytes.
pub struct HostArray {
    pub kind: HostArrayKind,
    pub data: Vec<u8>,
}

/// The bytes extraction hands out for a given buffer kind: unchanged for
/// kinds with a direct host counterpart, otherwise through the fixed
/// narrowing-cast table.
pub open spec fn out_bytes(k: NumericKind, data: Seq<u8>) -> Seq<u8> {
    match k {
        NumericKind::Int64 | NumericKind::Uint64 => narrowed64(data),
        NumericKind::Float16 => widened16(data),
        NumericKind::Bool => bool_bytes(data),
        _ => data,
    }
}

/// What extraction owes for every buffer: the narrowed host array, or the
/// error the buffer's kind and layout force.
pub open spec fn to_host_model(m: BufferModel) -> Result<(HostArrayKind, Seq<u8>), CoreError> {
    match output_kind(m.kind) {
        None => Err(CoreError::UnsupportedType),
        Some(h) => if !m.contiguous {
            Err(CoreError::NonContiguousLayout)
        } else {
            Ok((h, out_bytes(m.kind, m.data)))
        },
    }
}

impl View for CoreTensor {
    type V = BufferModel;

    closed spec fn view(&self) -> BufferModel {
        BufferModel {
            kind: self.kind,
            shape: self.shape@,
            data: self.data@,
            contiguous: self.contiguous,
        }
    }
}

impl CoreTensor {
    #[verifier::type_invariant]
    spec fn wf(self) -> bool {
        buffer_fits(self.kind, self.shape@, self.data@)
    }

    /// Construct a buffer from a host array and a shape.
    ///
    /// The host kind must be accepted on input, and the data length must be
    /// exactly the number of elements the shape describes times the element
    /// width.
    pub fn new(kind: HostArrayKind, data: Vec<u8>, shape: Vec<usize>) -> (r: Result<
        CoreTensor,
        CoreError,
    >)
        ensures
            r matches Err(CoreError::UnsupportedType) <==> input_kind(kind) is None,
            input_kind(kind) matches Some(k) ==> (r is Ok <==> data@.len() == prod(shape@)
                * width(k)),
            r matches Err(e) ==> (e is UnsupportedType || e is ShapeMismatch),
            r matches Err(CoreError::ShapeMismatch) <==> (input_kind(kind) matches Some(k)
                && data@.len() != prod(shape@) * width(k)),
            r matches Ok(t) ==> t@ == (BufferModel {
                kind: input_kind(kind).unwrap(),
                shape: shape@,
                data: data@,
                contiguous: true,
            }),
    {
        let k = match input_kind_of(kind) {
            None => {
                return Err(CoreError::UnsupportedType);
            },
            Some(k) => k,
        };
        let w = width_of(k);
        let dlen = data.len();
        match checked_product(&shape) {
            Some(p) => {
                match p.checked_mul(w) {
                    Some(total) => {
                        if total == dlen {
                            Ok(CoreTensor { kind: k, shape, data, contiguous: true })
                        } else {
                            Err(CoreError::ShapeMismatch)
                        }
                    },
                    None => {
                        proof {
                            lemma_prod_mul_ge(prod(shape@), w as int);
                        }
                        Err(CoreError::ShapeMismatch)
                    },
                }
            },
            None => {
                proof {
                    lemma_prod_mul_ge(prod(shape@), w as int);
                }
                Err(CoreError::ShapeMismatch)
            },
        }
    }

    /// Construct a buffer from raw parts, as the engine side of the boundary
    /// does when it marshals a plan's outputs. The parts must satisfy the
    /// buffer invariant; `contiguous` records whether the bytes really are
    /// the row-major image.
    pub fn from_parts(kind: NumericKind, shape: Vec<usize>, data: Vec<u8>, contiguous: bool) -> (r:
        Result<CoreTensor, CoreError>)
        ensures
            r is Ok <==> buffer_fits(kind, shape@, data@),
            r matches Err(e) ==> e is ShapeMismatch,
            r matches Ok(t) ==> t@ == (BufferModel { kind, shape: shape@, data: data@, contiguous }),
    {
        if width_of(kind) == 0 {
            if data.len() == 0 {
                Ok(CoreTensor { kind, shape, data, contiguous })
            } else {
                Err(CoreError::ShapeMismatch)
            }
        } else {
            let w = width_of(kind);
            let dlen = data.len();
            match checked_product(&shape) {
                Some(p) => {
                    match p.checked_mul(w) {
                        Some(total) => {
                            if total == dlen {
                                Ok(CoreTensor { kind, shape, data, contiguous })
                            } else {
                                Err(CoreError::ShapeMismatch)
                            }
                        },
                        None => {
                            proof {
                                lemma_prod_mul_ge(prod(shape@), w as int);
                            }
                            Err(CoreError::ShapeMismatch)
                        },
                    }
                },
                None => {
                    proof {
                        lemma_prod_mul_ge(prod(shape@), w as int);
                    }
                    Err(CoreError::ShapeMismatch)
                },
            }
        }
    }

    /// The element kind.
    pub fn kind(&self) -> (k: NumericKind)
        ensures
            k == self@.kind,
    {
        self.kind
    }

    /// The shape, as a fresh vector.
    pub fn shape(&self) -> (s: Vec<usize>)
        ensures
            s@ == self@.shape,
    {
        copy_usizes(&self.shape)
    }

    /// The raw little-endian element bytes.
    pub(crate) fn raw_data(&self) -> (d: &Vec<u8>)
        ensures
            d@ == self@.data,
    {
        &self.data
    }

    /// The shape, borrowed.
    pub(crate) fn raw_shape(&self) -> (s: &Vec<usize>)
        ensures
            s@ == self@.shape,
    {
        &self.shape
    }

    /// Whether the underlying storage is contiguous in row-major order.
    pub fn is_contiguous(&self) -> (c: bool)
        ensures
            c == self@.contiguous,
    {
        self.contiguous
    }

    /// Extract the buffer to a host array.
    ///
    /// Kinds with a direct host counterpart copy their bytes unchanged;
    /// engine-only kinds go through the fixed narrowing-cast table; the
    /// remaining kinds fail with `UnsupportedType`, and non-contiguous
    /// storage with `NonContiguousLayout`.
    pub fn data(&self) -> (r: Result<HostArray, CoreError>)
        ensures
            r is Ok <==> to_host_model(self@) is Ok,
            r matches Ok(a) ==> to_host_model(self@) == Ok::<(HostArrayKind, Seq<u8>), CoreError>(
                (a.kind, a.data@),
            ),
            r matches Err(CoreError::UnsupportedType) <==> output_kind(self@.kind) is None,
            r matches Err(CoreError::NonContiguousLayout) <==> (output_kind(self@.kind) is Some
                && !self@.contiguous),
            r matches Err(e) ==> (e is UnsupportedType || e is NonContiguousLayout),
    {
        let h = match output_kind_of(self.kind) {
            None => {
                return Err(CoreError::UnsupportedType);
            },
            Some(h) => h,
        };
        if !self.contiguous {
            return Err(CoreError::NonContiguousLayout);
        }
        proof {
            use_type_invariant(self);
        }
        let bytes = match self.kind {
            NumericKind::Int64 | NumericKind::Uint64 => {
                proof {
                    lemma_prod_times_divisible(prod(self@.shape), 8);
                }
                narrow_groups8(&self.data)
            },
            NumericKind::Float16 => {
                proof {
                    lemma_prod_times_divisible(prod(self@.shape), 2);
                }
                widen_groups2(&self.data)
            },
            NumericKind::Bool => normalize_bool_bytes(&self.data),
            _ => copy_bytes(&self.data),
        };
        Ok(HostArray { kind: h, data: bytes })
    }

    /// A fresh buffer with the same kind, shape, data and layout.
    pub fn duplicate(&self) -> (r: CoreTensor)
        ensures
            r@ == self@,
            buffer_fits(r@.kind, r@.shape, r@.data),
    {
        proof {
            use_type_invariant(self);
        }
        CoreTensor {
            kind: self.kind,
            shape: copy_usizes(&self.shape),
            data: copy_bytes(&self.data),
            contiguous: self.contiguous,
        }
    }
}

/// An ordered collection of buffers, as handed to and returned from a plan.
pub struct CoreTensorVec {
    tensors: Vec<CoreTensor>,
}

impl View for CoreTensorVec {
    type V = Seq<BufferModel>;

    closed spec fn view(&self) -> Seq<BufferModel> {
        self.tensors@.map_values(|t: CoreTensor| t@)
    }
}

impl CoreTensorVec {
    /// An empty collection.
    pub fn new() -> (r: CoreTensorVec)
        ensures
            r@ == Seq::<BufferModel>::empty(),
    {
        let r = CoreTensorVec { tensors: Vec::new() };
        proof {
            assert(r@ =~= Seq::<BufferModel>::empty());
        }
        r
    }

    /// Append one buffer.
    pub fn push(&mut self, tensor: CoreTensor)
        ensures
            final(self)@ == old(self)@.push(tensor@),
    {
        let ghost m = tensor@;
        self.tensors.push(tensor);
        proof {
            assert(self@ =~= old(self)@.push(m));
        }
    }

    /// How many buffers the collection holds.
    pub fn length(&self) -> (n: usize)
        ensures
            n == self@.len(),
    {
        self.tensors.len()
    }

    /// A fresh copy of the buffer at `idx`.
    pub fn get(&self, idx: usize) -> (r: CoreTensor)
        requires
            idx < self@.len(),
        ensures
            r@ == self@[idx as int],
            buffer_fits(r@.kind, r@.shape, r@.data),
    {
        self.tensors[idx].duplicate()
    }
}

/// Byte-for-byte copy.
fn copy_bytes(data: &Vec<u8>) -> (r: Vec<u8>)
    ensures
        r@ == data@,
{
    let n = data.len();
    let mut r: Vec<u8> = Vec::new();
    for i in 0..n
        invariant
            n == data@.len(),
            r@ == data@.take(i as int),
    {
        r.push(data[i]);
        proof {
            assert(r@ =~= data@.take(i as int + 1));
        }
    }
    proof {
        assert(data@.take(n as int) =~= data@);
    }
    r
}

/// Element-for-element copy.
fn copy_usizes(data: &Vec<usize>) -> (r: Vec<usize>)
    ensures
        r@ == data@,
{
    let n = data.len();
    let mut r: Vec<usize> = Vec::new();
    for i in 0..n
        invariant
            n == data@.len(),
            r@ == data@.take(i as int),
    {
        r.push(data[i]);
        proof {
            assert(r@ =~= data@.take(i as int + 1));
        }
    }
    proof {
        assert(data@.take(n as int) =~= data@);
    }
    r
}

/// The product of a shape is never negative.
proof fn lemma_prod_nonneg(shape: Seq<usize>)
    ensures
        prod(shape) >= 0,
    decreases shape.len(),
{
    if shape.len() > 0 {
        lemma_prod_nonneg(shape.skip(1));
        assert(prod(shape) >= 0) by (nonlinear_arith)
            requires
                prod(shape) == shape[0] * prod(shape.skip(1)),
                shape[0] >= 0,
                prod(shape.skip(1)) >= 0,
        ;
    }
}

/// A shape with a zero dimension describes zero elements.
proof fn lemma_prod_zero(shape: Seq<usize>, i: int)
    requires
        0 <= i < shape.len(),
        shape[i] == 0,
    ensures
        prod(shape) == 0,
    decreases i,
{
    if i == 0 {
        assert(prod(shape) == shape[0] * prod(shape.skip(1)));
        assert(shape[0] as int * prod(shape.skip(1)) == 0) by (nonlinear_arith)
            requires
                shape[0] as int == 0,
        ;
    } else {
        lemma_prod_zero(shape.skip(1), i - 1);
        assert(prod(shape) == shape[0] * 0) by {
            assert(prod(shape) == shape[0] * prod(shape.skip(1)));
        };
        assert(shape[0] as int * 0 == 0) by (nonlinear_arith);
    }
}

/// With no zero dimension before position `i`, the whole product is at least
/// the product of the remaining dimensions.
proof fn lemma_prod_lower(shape: Seq<usize>, i: int)
    requires
        0 <= i <= shape.len(),
        forall|j: int| 0 <= j < i ==> shape[j] >= 1,
    ensures
        prod(shape) >= prod(shape.skip(i)),
    decreases i,
{
    if i == 0 {
        assert(shape.skip(0) =~= shape);
    } else {
        lemma_prod_lower(shape, i - 1);
        lemma_prod_nonneg(shape.skip(i));
        assert(shape.skip(i - 1).skip(1) =~= shape.skip(i));
        assert(prod(shape.skip(i - 1)) == shape[i - 1] * prod(shape.skip(i)));
        assert(shape[i - 1] as int * prod(shape.skip(i)) >= prod(shape.skip(i)))
            by (nonlinear_arith)
            requires
                shape[i - 1] as int >= 1,
                prod(shape.skip(i)) >= 0,
        ;
    }
}

/// Multiplying a nonnegative product by a width of at least one does not
/// shrink it.
proof fn lemma_prod_mul_ge(p: int, w: int)
    requires
        p >= 0,
        w >= 1,
    ensures
        p * w >= p,
{
    assert(p * w >= p) by (nonlinear_arith)
        requires
            p >= 0,
            w >= 1,
    ;
}

/// A product times a width is divisible by that width.
proof fn lemma_prod_times_divisible(p: int, w: int)
    requires
        p >= 0,
        w >= 1,
    ensures
        (p * w) % w == 0,
{
    assert((p * w) % w == 0) by (nonlinear_arith)
        requires
            p >= 0,
            w >= 1,
    ;
}

/// Compute the number of elements a shape describes, or report that it
/// exceeds the machine's address range.
fn checked_product(shape: &Vec<usize>) -> (r: Option<usize>)
    ensures
        r matches Some(p) ==> p == prod(shape@),
        r is None ==> prod(shape@) > usize::MAX,
{
    let n = shape.len();
    for i in 0..n
        invariant
            n == shape@.len(),
            forall|j: int| 0 <= j < i ==> shape@[j] >= 1,
    {
        if shape[i] == 0 {
            proof {
                lemma_prod_zero(shape@, i as int);
            }
            return Some(0);
        }
    }
    let mut acc: usize = 1;
    let mut i: usize = n;
    while i > 0
        invariant
            i <= n,
            n == shape@.len(),
            forall|j: int| 0 <= j < n ==> shape@[j] >= 1,
            acc == prod(shape@.skip(i as int)),
        decreases i,
    {
        i = i - 1;
        proof {
            assert(shape@.skip(i as int).skip(1) =~= shape@.skip(i as int + 1));
            assert(prod(shape@.skip(i as int)) == shape@[i as int] * prod(
                shape@.skip(i as int + 1),
            ));
        }
        match shape[i].checked_mul(acc) {
            Some(next) => {
                acc = next;
            },
            None => {
                proof {
                    lemma_prod_lower(shape@, i as int);
                }
                return None;
            },
        }
    }
    proof {
        assert(shape@.skip(0) =~= shape@);
    }
    Some(acc)
}

/// ROUND TRIP. For every host kind accepted on input and every shape whose
/// element count matches the data length, constructing a buffer and
/// extracting it again reproduces the data exactly, at the kind's direct
/// host counterpart.
pub proof fn lemma_round_trip(h: HostArrayKind, data: Seq<u8>, shape: Seq<usize>)
    requires
        input_kind(h) is Some,
        data.len() == prod(shape) * width(input_kind(h).unwrap()),
    ensures
        to_host_model(
            BufferModel { kind: input_kind(h).unwrap(), shape, data, contiguous: true },
        ) == Ok::<(HostArrayKind, Seq<u8>), CoreError>(
            (output_kind(input_kind(h).unwrap()).unwrap(), data),
        ),
{
}

} // verus!
