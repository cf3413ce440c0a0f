//! The tagged value model: bit-width-checked integer literals, double
//! literals, opaque qubit and result references, and builder-allocated
//! variables. Every value knows its own type.

use vstd::prelude::*;
use vstd::arithmetic::power2::{pow2, lemma2_to64_rest, lemma_pow2_strictly_increases};
use vstd::bits::{lemma_u64_pow2_no_overflow, lemma_u64_shl_is_mul};
use vstd::string::StringExecFns;
use crate::decimal::{dec_digits, push_decimal};
use crate::types::ValueType;

verus! {

/// Whether `value` can be represented in `width` bits: it needs no more than
/// `width` significant bits, that is, it is below `2^width`. A zero value
/// fits any width.
pub open spec fn fits_width(value: u64, width: u32) -> bool {
    (value as nat) < pow2(width as nat)
}

/// An integer literal: a bit width and a value that is known to need no more
/// than that many bits.
#[derive(Clone, Copy, Debug, Eq, PartialEq, Structural)]
pub struct Integer {
    width: u32,
    value: u64,
}

impl Integer {
    /// The declared bit width.
    pub closed spec fn spec_width(&self) -> u32 {
        self.width
    }

    /// The represented value.
    pub closed spec fn spec_value(&self) -> u64 {
        self.value
    }

    /// The literal's invariant: the value fits its declared width.
    pub open spec fn wf(&self) -> bool {
        fits_width(self.spec_value(), self.spec_width())
    }

    /// Creates a new integer literal, returning `None` exactly when `value`
    /// needs more than `width` bits.
    pub fn new(width: u32, value: u64) -> (r: Option<Integer>)
        ensures
            r is Some <==> fits_width(value, width),
            r matches Some(i) ==> i == spec_integer(width, value) && i.spec_width() == width
                && i.spec_value() == value && i.wf(),
    {
        let w: u64 = width as u64;
        let fits: bool = if w >= 64 {
            true
        } else {
            value >> w == 0
        };
        proof {
            if w >= 64 {
                lemma2_to64_rest();
                if width > 64 {
                    lemma_pow2_strictly_increases(64, width as nat);
                }
                assert(fits_width(value, width));
            } else {
                lemma_u64_pow2_no_overflow(w as nat);
                lemma_u64_shl_is_mul(1u64, w);
                assert((value >> w == 0) == (value < (1u64 << w))) by (bit_vector)
                    requires
                        w < 64,
                ;
            }
        }
        if fits {
            Some(Integer { width, value })
        } else {
            None
        }
    }

    /// The declared bit width.
    pub fn width(&self) -> (w: u32)
        ensures
            w == self.spec_width(),
    {
        self.width
    }

    /// The represented value.
    pub fn value(&self) -> (v: u64)
        ensures
            v == self.spec_value(),
    {
        self.value
    }
}

/// The integer literal with the given width and value, at the
/// specification level.
pub closed spec fn spec_integer(width: u32, value: u64) -> Integer {
    Integer { width, value }
}

/// `spec_integer` builds the literal whose width and value are its
/// arguments.
pub broadcast proof fn lemma_spec_integer(width: u32, value: u64)
    ensures
        (#[trigger] spec_integer(width, value)).spec_width() == width,
        spec_integer(width, value).spec_value() == value,
{
}

/// A builder-allocated variable: a result identifier written exactly once.
/// Its identity is the pair of its type and its id; ids are assigned
/// sequentially by the builder and never reused within a build.
#[derive(Clone, Copy, Debug, Eq, Hash, PartialEq, Structural)]
pub struct Variable {
    ty: ValueType,
    id: i64,
}

impl Variable {
    /// The variable's type.
    pub closed spec fn spec_ty(&self) -> ValueType {
        self.ty
    }

    /// The variable's sequential id.
    pub closed spec fn spec_id(&self) -> i64 {
        self.id
    }

    /// The first variable of a build: id 0.
    pub fn new(ty: ValueType) -> (v: Variable)
        ensures
            v == spec_variable(ty, 0),
            v.spec_ty() == ty,
            v.spec_id() == 0,
    {
        Variable { ty, id: 0 }
    }

    /// The variable allocated after this one: the next id, with the given
    /// type.
    pub fn next(&self, ty: ValueType) -> (v: Variable)
        requires
            self.spec_id() < i64::MAX,
        ensures
            v == spec_variable(ty, (self.spec_id() + 1) as i64),
            v.spec_ty() == ty,
            v.spec_id() == self.spec_id() + 1,
    {
        Variable { ty, id: self.id + 1 }
    }
}

/// The variable with the given type and id, at the specification level.
pub closed spec fn spec_variable(ty: ValueType, id: i64) -> Variable {
    Variable { ty, id }
}

/// `spec_variable` builds the variable whose type and id are its arguments.
pub broadcast proof fn lemma_spec_variable(ty: ValueType, id: i64)
    ensures
        (#[trigger] spec_variable(ty, id)).spec_ty() == ty,
        spec_variable(ty, id).spec_id() == id,
{
}

/// A value of the base profile: an integer literal, a double literal, an
/// opaque qubit or result reference, or a builder-allocated variable.
///
/// A double literal is carried as the 64 bits of its encoding; the core
/// never computes with it, it only passes it through to the backend.
#[derive(Debug, PartialEq)]
pub enum Value {
    Integer(Integer),
    Double(u64),
    Qubit(String),
    Result(String),
    Variable(Variable),
}

/// The mathematical view of a [`Value`]: reference identifiers become
/// character sequences.
pub ghost enum ValueView {
    Integer(Integer),
    Double(u64),
    Qubit(Seq<char>),
    Result(Seq<char>),
    Variable(Variable),
}

impl View for Value {
    type V = ValueView;

    open spec fn view(&self) -> ValueView {
        match self {
            Value::Integer(i) => ValueView::Integer(*i),
            Value::Double(bits) => ValueView::Double(*bits),
            Value::Qubit(id) => ValueView::Qubit(id@),
            Value::Result(id) => ValueView::Result(id@),
            Value::Variable(v) => ValueView::Variable(*v),
        }
    }
}

impl ValueView {
    /// The type a value carries, derived from its shape: an integer literal
    /// has its declared width, and a variable has the type it was allocated
    /// with.
    pub open spec fn type_of(&self) -> ValueType {
        match self {
            ValueView::Integer(i) => ValueType::Integer { width: i.spec_width() },
            ValueView::Double(_) => ValueType::Double,
            ValueView::Qubit(_) => ValueType::Qubit,
            ValueView::Result(_) => ValueType::Result,
            ValueView::Variable(v) => v.spec_ty(),
        }
    }
}

impl Clone for Value {
    /// Clones the value; the copy has the same view.
    fn clone(&self) -> (r: Self)
        ensures
            r@ == self@,
    {
        match self {
            Value::Integer(i) => Value::Integer(*i),
            Value::Double(bits) => Value::Double(*bits),
            Value::Qubit(id) => Value::Qubit(id.clone()),
            Value::Result(id) => Value::Result(id.clone()),
            Value::Variable(v) => Value::Variable(*v),
        }
    }
}

impl Value {
    /// The type this value carries.
    pub fn type_of(&self) -> (t: ValueType)
        ensures
            t == self@.type_of(),
    {
        match self {
            Value::Integer(i) => ValueType::Integer { width: i.width() },
            Value::Double(_) => ValueType::Double,
            Value::Qubit(_) => ValueType::Qubit,
            Value::Result(_) => ValueType::Result,
            Value::Variable(v) => v.ty,
        }
    }
}

/// The name prefix shared by the qubit register and every qubit identifier.
pub open spec fn qubit_prefix() -> Seq<char> {
    seq!['q', 'u', 'b', 'i', 't']
}

/// The name prefix shared by the result register and every result
/// identifier.
pub open spec fn result_prefix() -> Seq<char> {
    seq!['r', 'e', 's', 'u', 'l', 't']
}

/// The identifier of the qubit with the given register index: the prefix
/// `qubit` followed by the index in decimal.
pub open spec fn qubit_id_seq(index: nat) -> Seq<char> {
    qubit_prefix() + dec_digits(index)
}

/// The identifier of the result with the given register index: the prefix
/// `result` followed by the index in decimal.
pub open spec fn result_id_seq(index: nat) -> Seq<char> {
    result_prefix() + dec_digits(index)
}

/// A handle to one declared qubit, identified by its dense register index.
#[derive(Clone, Copy, Debug, Eq, Hash, PartialEq, Structural)]
pub struct Qubit {
    pub index: u64,
}

impl Qubit {
    /// The opaque string identifier instructions use to reference this
    /// qubit.
    pub fn id(&self) -> (s: String)
        ensures
            s@ == qubit_id_seq(self.index as nat),
    {
        let mut s = String::from_str("qubit");
        proof {
            reveal_strlit("qubit");
            assert(s@ =~= seq!['q', 'u', 'b', 'i', 't']);
        }
        push_decimal(&mut s, self.index);
        s
    }
}

/// A handle to one slot of the declared result register, identified by its
/// index.
#[derive(Clone, Copy, Debug, Eq, Hash, PartialEq, Structural)]
pub struct ResultRef {
    pub index: u64,
}

impl ResultRef {
    /// The opaque string identifier instructions use to reference this
    /// result.
    pub fn id(&self) -> (s: String)
        ensures
            s@ == result_id_seq(self.index as nat),
    {
        let mut s = String::from_str("result");
        proof {
            reveal_strlit("result");
            assert(s@ =~= seq!['r', 'e', 's', 'u', 'l', 't']);
        }
        push_decimal(&mut s, self.index);
        s
    }
}

} // verus!
