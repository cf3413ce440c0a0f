//! The closed set of value types and function signatures.

use vstd::prelude::*;

verus! {

/// The type of a value in the base profile: a sized integer, a double, a
/// qubit reference, or a measurement-result reference.
///
/// Two integer types are equal only if their widths match; the width is the
/// exact number of representable bits.
#[derive(Clone, Copy, Debug, Eq, Hash, PartialEq, Structural)]
pub enum ValueType {
    Integer { width: u32 },
    Double,
    Qubit,
    Result,
}

/// The ten ordered integer comparison predicates of the profile's `icmp`
/// family: equality, inequality, and the unsigned and signed orderings.
#[derive(Clone, Copy, Debug, Eq, Hash, PartialEq, Structural)]
pub enum IntPredicate {
    EQ,
    NE,
    UGT,
    UGE,
    ULT,
    ULE,
    SGT,
    SGE,
    SLT,
    SLE,
}

/// The return type of an external function: void, or a single value type.
/// The profile has no multi-value returns.
#[derive(Clone, Copy, Debug, Eq, PartialEq, Structural)]
pub enum ReturnType {
    Void,
    Value(ValueType),
}

/// The signature of a declared external function: its parameter types, in
/// order, and its return type. The arity of the function is the number of
/// parameter types.
#[derive(Debug)]
pub struct FunctionType {
    pub param_types: Vec<ValueType>,
    pub return_type: ReturnType,
}

impl Clone for FunctionType {
    /// Clones the signature; the copy has the same view.
    fn clone(&self) -> (r: Self)
        ensures
            r@ == self@,
    {
        let mut param_types: Vec<ValueType> = Vec::new();
        let n = self.param_types.len();
        let mut i: usize = 0;
        while i < n
            invariant
                i <= n,
                n == self.param_types@.len(),
                param_types@.len() == i,
                forall|k: int| 0 <= k < i ==> #[trigger] param_types@[k] == self.param_types@[k],
            decreases n - i,
        {
            param_types.push(self.param_types[i]);
            i += 1;
        }
        proof {
            assert(param_types@ =~= self.param_types@);
        }
        FunctionType { param_types, return_type: self.return_type }
    }
}

/// The mathematical view of a [`FunctionType`]: the parameter types as a
/// sequence, and the return type.
pub ghost struct FunctionTypeView {
    pub param_types: Seq<ValueType>,
    pub return_type: ReturnType,
}

impl View for FunctionType {
    type V = FunctionTypeView;

    open spec fn view(&self) -> FunctionTypeView {
        FunctionTypeView { param_types: self.param_types@, return_type: self.return_type }
    }
}

impl FunctionType {
    /// The number of parameters the function declares.
    pub open spec fn spec_arity(&self) -> nat {
        self@.param_types.len()
    }
}

} // verus!
