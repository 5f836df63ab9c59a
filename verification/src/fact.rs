//! The declarative shape/dtype fact language.
//!
//! A fact arrives from the host as a two-slot pair: an optional dtype name
//! and an optional ordered sequence of dimension tokens. Each token is a
//! number, a single-character symbol name, an affine record
//! `{id, slope, intercept}`, or something unrecognized. Parsing turns the
//! pair into a [`ShapeFact`] over the closed dimension algebra
//! [`DimensionTerm`].

use vstd::prelude::*;

use crate::error::CoreError;
use crate::kind::NumericKind;

verus! {

/// One axis of a shape fact: a fixed extent, a symbolic extent, or an affine
/// function `slope * symbol + intercept` of a symbolic extent.
#[derive(Clone, Copy, PartialEq, Eq, Structural, Debug)]
pub enum DimensionTerm {
    Fixed(i64),
    Symbol(char),
    Affine { id: char, slope: i64, intercept: i64 },
}

/// One entry of the dims slot, as handed over by the host before parsing.
/// `Unrecognized` stands for any host value that is neither a number, nor a
/// string, nor a record with `id`, `slope` and `intercept` fields.
#[derive(Clone, PartialEq, Eq, Debug)]
pub enum DimToken {
    Number(i64),
    Name(String),
    Record { id: String, slope: i64, intercept: i64 },
    Unrecognized,
}

/// The raw two-slot fact pair `[dtypeSlot, dimsSlot]`.
#[derive(Clone, Debug)]
pub struct FactSpec {
    pub dtype: Option<String>,
    pub dims: Option<Vec<DimToken>>,
}

/// A parsed fact: an optional element kind, an optional dimension list, and
/// whether any dimension is symbolic (and so defers full shape resolution).
#[derive(Clone, PartialEq, Eq, Debug)]
pub struct ShapeFact {
    pub dtype: Option<NumericKind>,
    pub dims: Option<Vec<DimensionTerm>>,
    pub has_unresolved_symbols: bool,
}

/// The fixed name table of the dtype slot, restricted to the host-facing
/// kinds the fact language accepts.
pub open spec fn dtype_of_name(s: Seq<char>) -> Option<NumericKind> {
    if s == "int8"@ {
        Some(NumericKind::Int8)
    } else if s == "uint8"@ {
        Some(NumericKind::Uint8)
    } else if s == "int16"@ {
        Some(NumericKind::Int16)
    } else if s == "uint16"@ {
        Some(NumericKind::Uint16)
    } else if s == "int32"@ {
        Some(NumericKind::Int32)
    } else if s == "float32"@ {
        Some(NumericKind::Float32)
    } else if s == "float64"@ {
        Some(NumericKind::Float64)
    } else {
        None
    }
}

/// What one dimension token parses to, or `None` where it is invalid: a
/// number is a fixed extent, a one-character string a symbol, a record with a
/// one-character id an affine term.
pub open spec fn term_of_token(t: DimToken) -> Option<DimensionTerm> {
    match t {
        DimToken::Number(v) => Some(DimensionTerm::Fixed(v)),
        DimToken::Name(s) => if s@.len() == 1 {
            Some(DimensionTerm::Symbol(s@[0]))
        } else {
            None
        },
        DimToken::Record { id, slope, intercept } => if id@.len() == 1 {
            Some(DimensionTerm::Affine { id: id@[0], slope, intercept })
        } else {
            None
        },
        DimToken::Unrecognized => None,
    }
}

/// Whether every token of a dims slot is valid.
pub open spec fn tokens_valid(ts: Seq<DimToken>) -> bool {
    forall|i: int| 0 <= i < ts.len() ==> term_of_token(ts[i]) is Some
}

/// The terms a valid dims slot parses to.
pub open spec fn terms_of(ts: Seq<DimToken>) -> Seq<DimensionTerm> {
    Seq::new(ts.len(), |i: int| term_of_token(ts[i]).unwrap())
}

/// Whether a term defers shape resolution.
pub open spec fn term_is_symbolic(t: DimensionTerm) -> bool {
    !(t is Fixed)
}

/// Whether any term of a dimension list defers shape resolution.
pub open spec fn has_symbolic(terms: Seq<DimensionTerm>) -> bool {
    exists|i: int| 0 <= i < terms.len() && term_is_symbolic(terms[i])
}

/// The dtype slot is present but names no kind of the table.
pub open spec fn dtype_slot_invalid(input: FactSpec) -> bool {
    input.dtype matches Some(s) && dtype_of_name(s@) is None
}

/// The dims slot is present but holds an invalid token.
pub open spec fn dims_slot_invalid(input: FactSpec) -> bool {
    input.dims matches Some(ts) && !tokens_valid(ts@)
}

/// Both slots are absent.
pub open spec fn fact_incomplete(input: FactSpec) -> bool {
    input.dtype is None && input.dims is None
}

/// Parse one dimension token.
fn parse_token(t: &DimToken) -> (r: Option<DimensionTerm>)
    ensures
        r == term_of_token(*t),
{
    match t {
        DimToken::Number(v) => Some(DimensionTerm::Fixed(*v)),
        DimToken::Name(s) => {
            if s.as_str().unicode_len() == 1 {
                Some(DimensionTerm::Symbol(s.as_str().get_char(0)))
            } else {
                None
            }
        },
        DimToken::Record { id, slope, intercept } => {
            if id.as_str().unicode_len() == 1 {
                Some(DimensionTerm::Affine { id: id.as_str().get_char(0), slope: *slope, intercept: *intercept })
            } else {
                None
            }
        },
        DimToken::Unrecognized => None,
    }
}

/// Resolve the dtype slot through the fixed name table.
fn parse_dtype_name(s: &String) -> (r: Option<NumericKind>)
    ensures
        r == dtype_of_name(s@),
{
    if *s == "int8".to_owned() {
        Some(NumericKind::Int8)
    } else if *s == "uint8".to_owned() {
        Some(NumericKind::Uint8)
    } else if *s == "int16".to_owned() {
        Some(NumericKind::Int16)
    } else if *s == "uint16".to_owned() {
        Some(NumericKind::Uint16)
    } else if *s == "int32".to_owned() {
        Some(NumericKind::Int32)
    } else if *s == "float32".to_owned() {
        Some(NumericKind::Float32)
    } else if *s == "float64".to_owned() {
        Some(NumericKind::Float64)
    } else {
        None
    }
}

/// Build a [`ShapeFact`] from the host's raw two-slot pair.
///
/// The dtype slot must resolve through the fixed name table
/// (`UnknownDtypeName` otherwise, checked first); every dimension token must
/// be valid (`InvalidDimensionSpec`); and at least one slot must be present
/// (`IncompleteFact`). On success the parsed terms follow the tokens one for
/// one and the symbolic flag is set exactly when some term is symbolic.
pub fn build_shape_fact(input: &FactSpec) -> (r: Result<ShapeFact, CoreError>)
    ensures
        r matches Err(CoreError::UnknownDtypeName) <==> dtype_slot_invalid(*input),
        r matches Err(CoreError::IncompleteFact) <==> !dtype_slot_invalid(*input)
            && fact_incomplete(*input),
        r matches Err(CoreError::InvalidDimensionSpec) <==> !dtype_slot_invalid(*input)
            && dims_slot_invalid(*input),
        r is Ok <==> !dtype_slot_invalid(*input) && !dims_slot_invalid(*input)
            && !fact_incomplete(*input),
        r matches Ok(f) ==> {
            &&& f.dtype == (match input.dtype {
                Some(s) => dtype_of_name(s@),
                None => None::<NumericKind>,
            })
            &&& (match input.dims {
                Some(ts) => f.dims matches Some(ds) && ds@ == terms_of(ts@),
                None => f.dims is None,
            })
            &&& f.has_unresolved_symbols == (match input.dims {
                Some(ts) => has_symbolic(terms_of(ts@)),
                None => false,
            })
        },
{
    let dtype: Option<NumericKind> = match &input.dtype {
        Some(name) => {
            match parse_dtype_name(name) {
                Some(k) => Some(k),
                None => {
                    return Err(CoreError::UnknownDtypeName);
                },
            }
        },
        None => None,
    };
    match &input.dims {
        None => {
            if dtype.is_none() {
                Err(CoreError::IncompleteFact)
            } else {
                Ok(ShapeFact { dtype, dims: None, has_unresolved_symbols: false })
            }
        },
        Some(tokens) => {
            let mut terms: Vec<DimensionTerm> = Vec::new();
            let mut symbolic = false;
            let n = tokens.len();
            for i in 0..n
                invariant
                    !dtype_slot_invalid(*input),
                    dtype == (match input.dtype {
                        Some(s) => dtype_of_name(s@),
                        None => None::<NumericKind>,
                    }),
                    input.dims matches Some(toks) && toks@ == tokens@,
                    n == tokens@.len(),
                    tokens_valid(tokens@.take(i as int)),
                    terms@ == terms_of(tokens@.take(i as int)),
                    symbolic == has_symbolic(terms_of(tokens@.take(i as int))),
            {
                match parse_token(&tokens[i]) {
                    None => {
                        return Err(CoreError::InvalidDimensionSpec);
                    },
                    Some(term) => {
                        terms.push(term);
                        if term_is_symbolic_exec(&term) {
                            symbolic = true;
                        }
                        proof {
                            let s_old = terms_of(tokens@.take(i as int));
                            let s_new = terms_of(tokens@.take(i as int + 1));
                            assert(terms@ =~= s_new);
                            assert(s_new[i as int] == term);
                            if term_is_symbolic(term) {
                                assert(has_symbolic(s_new));
                            } else {
                                assert(has_symbolic(s_new) == has_symbolic(s_old)) by {
                                    if has_symbolic(s_old) {
                                        let j = choose|j: int|
                                            0 <= j < s_old.len() && term_is_symbolic(s_old[j]);
                                        assert(term_is_symbolic(s_new[j]));
                                    }
                                    if has_symbolic(s_new) {
                                        let j = choose|j: int|
                                            0 <= j < s_new.len() && term_is_symbolic(s_new[j]);
                                        if j < s_old.len() {
                                            assert(term_is_symbolic(s_old[j]));
                                        } else {
                                            assert(s_new[j] == term);
                                        }
                                    }
                                };
                            }
                        }
                    },
                }
            }
            proof {
                assert(tokens@.take(n as int) =~= tokens@);
            }
            Ok(ShapeFact { dtype, dims: Some(terms), has_unresolved_symbols: symbolic })
        },
    }
}

/// Executable twin of [`term_is_symbolic`].
fn term_is_symbolic_exec(t: &DimensionTerm) -> (r: bool)
    ensures
        r == term_is_symbolic(*t),
{
    match t {
        DimensionTerm::Fixed(_) => false,
        _ => true,
    }
}

} // verus!
