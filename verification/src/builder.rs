//! The stateful construction engine: a stack of instruction frames for
//! scoped control flow, a monotonically advancing variable allocator, a
//! table of declared external functions, and the operations that append
//! typed instructions while validating operand types and arity.

use vstd::prelude::*;
use vstd::arithmetic::power2::lemma_pow2_pos;
use crate::inst::{
    insts_view, BinaryKind, BinaryOp, BinaryOpView, Call, CallView, Controlled, ControlledView,
    If, IfView, Instruction, InstructionView, Measured, MeasuredView, Rotated, RotatedView,
    Single, SingleView,
};
use crate::model::externals_view;
use crate::types::{FunctionType, FunctionTypeView, IntPredicate, ReturnType, ValueType};
use crate::values::{
    fits_width, qubit_id_seq, result_id_seq, spec_integer, spec_variable, Integer, Qubit,
    ResultRef, Value, ValueView, Variable,
};

verus! {

/// Why one builder operation was refused. Every error is detected eagerly
/// at the offending call; the instructions already appended are left
/// untouched.
#[derive(Clone, Copy, Debug, Eq, PartialEq, Structural)]
pub enum BuildError {
    /// An operand cannot be interpreted as the required value type, or no
    /// operand of a binary operation carried a type of its own.
    TypeMismatch,
    /// An integer literal does not fit its target bit width.
    Overflow,
    /// A call's argument count disagrees with the callee's declared
    /// parameter count.
    ArityMismatch { expected: usize, got: usize },
    /// A call references a name never declared as an external function.
    UnknownCallee,
    /// The frame stack did not hold exactly one frame at finalization.
    UnbalancedFrames,
}

/// A caller-supplied operand: either a value that already carries an
/// explicit type — the output of a previous builder operation — or a raw
/// literal or register handle to be coerced against an expected type.
#[derive(Debug)]
pub enum Operand {
    Value(Value),
    Int(u64),
    Double(u64),
    Qubit(Qubit),
    Result(ResultRef),
}

/// The view of an [`Operand`].
pub ghost enum OperandView {
    Value(ValueView),
    Int(u64),
    Double(u64),
    Qubit(Qubit),
    Result(ResultRef),
}

impl View for Operand {
    type V = OperandView;

    open spec fn view(&self) -> OperandView {
        match self {
            Operand::Value(v) => OperandView::Value(v@),
            Operand::Int(n) => OperandView::Int(*n),
            Operand::Double(bits) => OperandView::Double(*bits),
            Operand::Qubit(q) => OperandView::Qubit(*q),
            Operand::Result(r) => OperandView::Result(*r),
        }
    }
}

/// Coercion of one operand against an expected type. An operand that is
/// already a typed value is used as-is — its own type, not the expected
/// one, determines downstream behaviour. Otherwise the expected type
/// selects the acceptable literal: an integer literal must fit the expected
/// width, a double literal is accepted for the double type, and qubit and
/// result types accept only an existing register handle, never a number.
pub open spec fn coerce_spec(op: OperandView, ty: ValueType) -> Result<ValueView, BuildError> {
    match op {
        OperandView::Value(v) => Ok(v),
        OperandView::Int(n) => match ty {
            ValueType::Integer { width } => if fits_width(n, width) {
                Ok(ValueView::Integer(spec_integer(width, n)))
            } else {
                Err(BuildError::Overflow)
            },
            _ => Err(BuildError::TypeMismatch),
        },
        OperandView::Double(bits) => match ty {
            ValueType::Double => Ok(ValueView::Double(bits)),
            _ => Err(BuildError::TypeMismatch),
        },
        OperandView::Qubit(q) => match ty {
            ValueType::Qubit => Ok(ValueView::Qubit(qubit_id_seq(q.index as nat))),
            _ => Err(BuildError::TypeMismatch),
        },
        OperandView::Result(r) => match ty {
            ValueType::Result => Ok(ValueView::Result(result_id_seq(r.index as nat))),
            _ => Err(BuildError::TypeMismatch),
        },
    }
}

/// A coercion result, viewed.
pub open spec fn result_value_view(r: Result<Value, BuildError>) -> Result<ValueView, BuildError> {
    match r {
        Ok(v) => Ok(v@),
        Err(e) => Err(e),
    }
}

/// Coerces one operand against an expected type, as [`coerce_spec`] says.
pub fn extract_value(op: &Operand, ty: ValueType) -> (r: Result<Value, BuildError>)
    ensures
        result_value_view(r) == coerce_spec(op@, ty),
{
    match op {
        Operand::Value(v) => Ok(v.clone()),
        Operand::Int(n) => match ty {
            ValueType::Integer { width } => match Integer::new(width, *n) {
                Some(i) => Ok(Value::Integer(i)),
                None => Err(BuildError::Overflow),
            },
            _ => Err(BuildError::TypeMismatch),
        },
        Operand::Double(bits) => match ty {
            ValueType::Double => Ok(Value::Double(*bits)),
            _ => Err(BuildError::TypeMismatch),
        },
        Operand::Qubit(q) => match ty {
            ValueType::Qubit => Ok(Value::Qubit(q.id())),
            _ => Err(BuildError::TypeMismatch),
        },
        Operand::Result(rr) => match ty {
            ValueType::Result => Ok(Value::Result(rr.id())),
            _ => Err(BuildError::TypeMismatch),
        },
    }
}

/// Resolution of the two operands of a binary operation: at least one must
/// already be a typed value, and the other is coerced to that value's type.
/// When neither carries a type of its own, the operation fails with a type
/// mismatch rather than guessing.
pub open spec fn binary_operands_spec(lhs: OperandView, rhs: OperandView) -> Result<
    (ValueView, ValueView),
    BuildError,
> {
    match lhs {
        OperandView::Value(lv) => match coerce_spec(rhs, lv.type_of()) {
            Ok(rv) => Ok((lv, rv)),
            Err(e) => Err(e),
        },
        _ => match rhs {
            OperandView::Value(rv) => match coerce_spec(lhs, rv.type_of()) {
                Ok(lv) => Ok((lv, rv)),
                Err(e) => Err(e),
            },
            _ => Err(BuildError::TypeMismatch),
        },
    }
}

/// A resolved operand pair, viewed.
pub open spec fn result_pair_view(r: Result<(Value, Value), BuildError>) -> Result<
    (ValueView, ValueView),
    BuildError,
> {
    match r {
        Ok(p) => Ok((p.0@, p.1@)),
        Err(e) => Err(e),
    }
}

/// Resolves the two operands of a binary operation, as
/// [`binary_operands_spec`] says.
pub fn extract_binary_operands(lhs: &Operand, rhs: &Operand) -> (r: Result<
    (Value, Value),
    BuildError,
>)
    ensures
        result_pair_view(r) == binary_operands_spec(lhs@, rhs@),
{
    match lhs {
        Operand::Value(lv) => {
            let ty = lv.type_of();
            match extract_value(rhs, ty) {
                Ok(rv) => Ok((lv.clone(), rv)),
                Err(e) => Err(e),
            }
        },
        _ => match rhs {
            Operand::Value(rv) => {
                let ty = rv.type_of();
                match extract_value(lhs, ty) {
                    Ok(lv) => Ok((lv, rv.clone())),
                    Err(e) => Err(e),
                }
            },
            _ => Err(BuildError::TypeMismatch),
        },
    }
}

/// A handle to a declared external function, returned by the declaration
/// and presented back when calling it.
#[derive(Debug)]
pub struct Function {
    pub name: String,
}

impl View for Function {
    type V = Seq<char>;

    open spec fn view(&self) -> Seq<char> {
        self.name@
    }
}

impl Clone for Function {
    /// Clones the handle; the copy names the same function.
    fn clone(&self) -> (r: Self)
        ensures
            r@ == self@,
    {
        Function { name: self.name.clone() }
    }
}

/// The construction state: an ordered stack of instruction frames whose
/// innermost frame is the active scope, the declared external functions in
/// insertion order, and the most recently allocated variable, if any.
pub struct Builder {
    pub frames: Vec<Vec<Instruction>>,
    pub external_functions: Vec<(String, FunctionType)>,
    pub last_variable: Option<Variable>,
}

/// The view of a [`Builder`].
#[verifier::ext_equal]
pub ghost struct BuilderView {
    pub frames: Seq<Seq<InstructionView>>,
    pub external_functions: Seq<(Seq<char>, FunctionTypeView)>,
    pub last_variable: Option<Variable>,
}

impl View for Builder {
    type V = BuilderView;

    open spec fn view(&self) -> BuilderView {
        BuilderView {
            frames: Seq::new(self.frames@.len(), |j: int| insts_view(self.frames@[j]@)),
            external_functions: externals_view(self.external_functions@),
            last_variable: self.last_variable,
        }
    }
}

/// The frame stack after appending one instruction to the innermost frame;
/// outer frames are neither inspected nor changed.
pub open spec fn push_top(frames: Seq<Seq<InstructionView>>, i: InstructionView) -> Seq<
    Seq<InstructionView>,
>
    recommends
        frames.len() >= 1,
{
    frames.update(frames.len() - 1, frames.last().push(i))
}

/// The id the allocator hands out next: 0 at the start of a build, and the
/// last allocated id plus one afterwards, regardless of type, operation, or
/// frame nesting.
pub open spec fn next_var_id(last: Option<Variable>) -> int {
    match last {
        None => 0,
        Some(v) => v.spec_id() + 1,
    }
}

/// The builder after opening one empty frame.
pub open spec fn bv_push_frame(b: BuilderView) -> BuilderView {
    BuilderView { frames: b.frames.push(Seq::empty()), ..b }
}

/// The builder after appending one instruction to the active frame.
pub open spec fn bv_push_inst(b: BuilderView, i: InstructionView) -> BuilderView
    recommends
        b.frames.len() >= 1,
{
    BuilderView { frames: push_top(b.frames, i), ..b }
}

/// The builder after appending a list of instructions to the active frame,
/// first element first.
pub open spec fn bv_append_all(b: BuilderView, s: Seq<InstructionView>) -> BuilderView
    recommends
        b.frames.len() >= 1,
    decreases s.len(),
{
    if s.len() == 0 {
        b
    } else {
        bv_append_all(bv_push_inst(b, s[0]), s.drop_first())
    }
}

/// The builder and the captured branch body after closing the active
/// frame.
pub open spec fn bv_pop_frame(b: BuilderView) -> (BuilderView, Option<Seq<InstructionView>>) {
    if b.frames.len() == 0 {
        (b, None)
    } else {
        (BuilderView { frames: b.frames.drop_last(), ..b }, Some(b.frames.last()))
    }
}

/// The conditional instruction the scoped protocol seals: both branch
/// bodies are always present, possibly empty.
pub open spec fn bv_if_inst(
    cond: Seq<char>,
    thens: Seq<InstructionView>,
    elss: Seq<InstructionView>,
) -> InstructionView {
    InstructionView::If((IfView { condition: cond, then_insts: thens, else_insts: elss }))
}

/// A popped frame, viewed.
pub open spec fn frames_opt_view(r: Option<Vec<Instruction>>) -> Option<Seq<InstructionView>> {
    match r {
        Some(f) => Some(insts_view(f@)),
        None => None,
    }
}

impl Builder {
    /// A fresh build: one empty frame, no external functions, and no
    /// variable allocated yet.
    pub fn new() -> (b: Builder)
        ensures
            b@.frames == seq![Seq::<InstructionView>::empty()],
            b@.external_functions == Seq::<(Seq<char>, FunctionTypeView)>::empty(),
            b@.last_variable is None,
    {
        let mut frames: Vec<Vec<Instruction>> = Vec::new();
        frames.push(Vec::new());
        let b = Builder { frames, external_functions: Vec::new(), last_variable: None };
        proof {
            assert(b@.frames =~= seq![Seq::<InstructionView>::empty()]);
            assert(b@.external_functions =~= Seq::<(Seq<char>, FunctionTypeView)>::empty());
        }
        b
    }

    /// Appends one instruction to the innermost frame. Everything else —
    /// outer frames, the external-function table, the allocator — is left
    /// as it was.
    pub fn push_inst(&mut self, inst: Instruction)
        requires
            old(self)@.frames.len() >= 1,
        ensures
            final(self)@ == bv_push_inst(old(self)@, inst@),
            final(self)@.frames == push_top(old(self)@.frames, inst@),
            final(self)@.external_functions == old(self)@.external_functions,
            final(self)@.last_variable == old(self)@.last_variable,
    {
        let ghost oldframes = self.frames@;
        let mut top = self.frames.pop().unwrap();
        top.push(inst);
        self.frames.push(top);
        proof {
            crate::inst::lemma_insts_view_push(oldframes.last()@, inst);
            assert(self.frames@ =~= oldframes.update(oldframes.len() - 1, top));
            assert(self@.frames =~= push_top(old(self)@.frames, inst@));
            assert(self@ =~= bv_push_inst(old(self)@, inst@));
        }
    }

    /// Opens a new empty frame as the active scope, used when entering a
    /// conditional branch body.
    pub fn push_frame(&mut self)
        ensures
            final(self)@ == bv_push_frame(old(self)@),
            final(self)@.frames == old(self)@.frames.push(Seq::<InstructionView>::empty()),
            final(self)@.external_functions == old(self)@.external_functions,
            final(self)@.last_variable == old(self)@.last_variable,
    {
        self.frames.push(Vec::new());
        proof {
            assert(self@.frames =~= old(self)@.frames.push(Seq::<InstructionView>::empty()));
            assert(self@ =~= bv_push_frame(old(self)@));
        }
    }

    /// Removes and returns the innermost frame's instruction list, used
    /// when a conditional branch body finishes. Returns nothing when the
    /// stack is empty.
    pub fn pop_frame(&mut self) -> (r: Option<Vec<Instruction>>)
        ensures
            final(self)@ == bv_pop_frame(old(self)@).0,
            frames_opt_view(r) == bv_pop_frame(old(self)@).1,
            final(self)@.external_functions == old(self)@.external_functions,
            final(self)@.last_variable == old(self)@.last_variable,
            old(self)@.frames.len() == 0 ==> r is None && final(self)@.frames == old(
                self,
            )@.frames,
            old(self)@.frames.len() > 0 ==> (r matches Some(f) && insts_view(f@) == old(
                self,
            )@.frames.last() && final(self)@.frames == old(self)@.frames.drop_last()),
    {
        let r = self.frames.pop();
        proof {
            if old(self)@.frames.len() > 0 {
                assert(self@.frames =~= old(self)@.frames.drop_last());
            } else {
                assert(self@.frames =~= old(self)@.frames);
            }
            assert(self@ =~= bv_pop_frame(old(self)@).0);
        }
        r
    }

    /// Allocates the next variable of the build: the first allocation hands
    /// out id 0, every later one the previous id plus one, whatever the
    /// type and whatever operation asked. The frame stack and the declared
    /// functions are untouched.
    pub fn fresh_variable(&mut self, ty: ValueType) -> (v: Variable)
        requires
            next_var_id(old(self)@.last_variable) <= i64::MAX,
        ensures
            v == spec_variable(ty, next_var_id(old(self)@.last_variable) as i64),
            v.spec_ty() == ty,
            v.spec_id() == next_var_id(old(self)@.last_variable),
            final(self)@.last_variable == Some(v),
            final(self)@.frames == old(self)@.frames,
            final(self)@.external_functions == old(self)@.external_functions,
    {
        let v = match &self.last_variable {
            None => Variable::new(ty),
            Some(w) => w.next(ty),
        };
        self.last_variable = Some(v);
        v
    }

    /// Appends one binary operation: allocates one fresh variable typed by
    /// the left operand's own type, appends the instruction to the active
    /// frame, and returns the variable as a value. Whether both operands
    /// carry the same type is not checked here; validating that is left to
    /// the backend.
    pub fn push_binary_op(&mut self, kind: BinaryKind, lhs: Value, rhs: Value) -> (r: Value)
        requires
            old(self)@.frames.len() >= 1,
            next_var_id(old(self)@.last_variable) <= i64::MAX,
        ensures
            ({
                let v = spec_variable(lhs@.type_of(), next_var_id(old(self)@.last_variable) as i64);
                &&& r@ == ValueView::Variable(v)
                &&& final(self)@.frames == push_top(
                    old(self)@.frames,
                    InstructionView::BinaryOp(
                        (BinaryOpView { kind, lhs: lhs@, rhs: rhs@, result: v }),
                    ),
                )
                &&& final(self)@.last_variable == Some(v)
                &&& final(self)@.external_functions == old(self)@.external_functions
            }),
    {
        let result = self.fresh_variable(lhs.type_of());
        self.push_inst(Instruction::BinaryOp(BinaryOp { kind, lhs, rhs, result }));
        Value::Variable(result)
    }
}

/// What appending a binary operation leaves behind, given the builder
/// state before (`pre`) and after (`post`), the operation's kind, the two
/// operand candidates, and the viewed outcome. On an operand failure the
/// error is returned and the state is untouched; on success one fresh
/// variable typed by the resolved left operand holds the result, and one
/// instruction is appended to the active frame.
pub open spec fn binary_op_post(
    pre: BuilderView,
    post: BuilderView,
    kind: BinaryKind,
    lhs: OperandView,
    rhs: OperandView,
    r: Result<ValueView, BuildError>,
) -> bool {
    match binary_operands_spec(lhs, rhs) {
        Err(e) => r == Err::<ValueView, BuildError>(e) && post == pre,
        Ok(p) => {
            let v = spec_variable(p.0.type_of(), next_var_id(pre.last_variable) as i64);
            &&& r == Ok::<ValueView, BuildError>(ValueView::Variable(v))
            &&& post.frames == push_top(
                pre.frames,
                InstructionView::BinaryOp(
                    (BinaryOpView { kind, lhs: p.0, rhs: p.1, result: v }),
                ),
            )
            &&& post.last_variable == Some(v)
            &&& post.external_functions == pre.external_functions
        },
    }
}

impl Builder {
    /// Resolves the two operand candidates — at least one must already be
    /// a typed value — and appends one binary operation of the given kind.
    pub fn push_binary_op_any(&mut self, kind: BinaryKind, lhs: &Operand, rhs: &Operand) -> (r:
        Result<Value, BuildError>)
        requires
            old(self)@.frames.len() >= 1,
            next_var_id(old(self)@.last_variable) <= i64::MAX,
        ensures
            binary_op_post(old(self)@, final(self)@, kind, lhs@, rhs@, result_value_view(r)),
    {
        match extract_binary_operands(lhs, rhs) {
            Ok((lv, rv)) => Ok(self.push_binary_op(kind, lv, rv)),
            Err(e) => Err(e),
        }
    }

    /// Appends a bitwise and.
    pub fn and(&mut self, lhs: &Operand, rhs: &Operand) -> (r: Result<Value, BuildError>)
        requires
            old(self)@.frames.len() >= 1,
            next_var_id(old(self)@.last_variable) <= i64::MAX,
        ensures
            binary_op_post(
                old(self)@,
                final(self)@,
                BinaryKind::And,
                lhs@,
                rhs@,
                result_value_view(r),
            ),
    {
        self.push_binary_op_any(BinaryKind::And, lhs, rhs)
    }

    /// Appends a bitwise or.
    pub fn or(&mut self, lhs: &Operand, rhs: &Operand) -> (r: Result<Value, BuildError>)
        requires
            old(self)@.frames.len() >= 1,
            next_var_id(old(self)@.last_variable) <= i64::MAX,
        ensures
            binary_op_post(
                old(self)@,
                final(self)@,
                BinaryKind::Or,
                lhs@,
                rhs@,
                result_value_view(r),
            ),
    {
        self.push_binary_op_any(BinaryKind::Or, lhs, rhs)
    }

    /// Appends a bitwise exclusive or.
    pub fn xor(&mut self, lhs: &Operand, rhs: &Operand) -> (r: Result<Value, BuildError>)
        requires
            old(self)@.frames.len() >= 1,
            next_var_id(old(self)@.last_variable) <= i64::MAX,
        ensures
            binary_op_post(
                old(self)@,
                final(self)@,
                BinaryKind::Xor,
                lhs@,
                rhs@,
                result_value_view(r),
            ),
    {
        self.push_binary_op_any(BinaryKind::Xor, lhs, rhs)
    }

    /// Appends an addition.
    pub fn add(&mut self, lhs: &Operand, rhs: &Operand) -> (r: Result<Value, BuildError>)
        requires
            old(self)@.frames.len() >= 1,
            next_var_id(old(self)@.last_variable) <= i64::MAX,
        ensures
            binary_op_post(
                old(self)@,
                final(self)@,
                BinaryKind::Add,
                lhs@,
                rhs@,
                result_value_view(r),
            ),
    {
        self.push_binary_op_any(BinaryKind::Add, lhs, rhs)
    }

    /// Appends a subtraction.
    pub fn sub(&mut self, lhs: &Operand, rhs: &Operand) -> (r: Result<Value, BuildError>)
        requires
            old(self)@.frames.len() >= 1,
            next_var_id(old(self)@.last_variable) <= i64::MAX,
        ensures
            binary_op_post(
                old(self)@,
                final(self)@,
                BinaryKind::Sub,
                lhs@,
                rhs@,
                result_value_view(r),
            ),
    {
        self.push_binary_op_any(BinaryKind::Sub, lhs, rhs)
    }

    /// Appends a multiplication.
    pub fn mul(&mut self, lhs: &Operand, rhs: &Operand) -> (r: Result<Value, BuildError>)
        requires
            old(self)@.frames.len() >= 1,
            next_var_id(old(self)@.last_variable) <= i64::MAX,
        ensures
            binary_op_post(
                old(self)@,
                final(self)@,
                BinaryKind::Mul,
                lhs@,
                rhs@,
                result_value_view(r),
            ),
    {
        self.push_binary_op_any(BinaryKind::Mul, lhs, rhs)
    }

    /// Appends a shift left.
    pub fn shl(&mut self, lhs: &Operand, rhs: &Operand) -> (r: Result<Value, BuildError>)
        requires
            old(self)@.frames.len() >= 1,
            next_var_id(old(self)@.last_variable) <= i64::MAX,
        ensures
            binary_op_post(
                old(self)@,
                final(self)@,
                BinaryKind::Shl,
                lhs@,
                rhs@,
                result_value_view(r),
            ),
    {
        self.push_binary_op_any(BinaryKind::Shl, lhs, rhs)
    }

    /// Appends a logical shift right.
    pub fn lshr(&mut self, lhs: &Operand, rhs: &Operand) -> (r: Result<Value, BuildError>)
        requires
            old(self)@.frames.len() >= 1,
            next_var_id(old(self)@.last_variable) <= i64::MAX,
        ensures
            binary_op_post(
                old(self)@,
                final(self)@,
                BinaryKind::LShr,
                lhs@,
                rhs@,
                result_value_view(r),
            ),
    {
        self.push_binary_op_any(BinaryKind::LShr, lhs, rhs)
    }

    /// Appends an equality comparison.
    pub fn icmp_eq(&mut self, lhs: &Operand, rhs: &Operand) -> (r: Result<Value, BuildError>)
        requires
            old(self)@.frames.len() >= 1,
            next_var_id(old(self)@.last_variable) <= i64::MAX,
        ensures
            binary_op_post(
                old(self)@,
                final(self)@,
                BinaryKind::ICmp(IntPredicate::EQ),
                lhs@,
                rhs@,
                result_value_view(r),
            ),
    {
        self.push_binary_op_any(BinaryKind::ICmp(IntPredicate::EQ), lhs, rhs)
    }

    /// Appends an inequality comparison.
    pub fn icmp_neq(&mut self, lhs: &Operand, rhs: &Operand) -> (r: Result<Value, BuildError>)
        requires
            old(self)@.frames.len() >= 1,
            next_var_id(old(self)@.last_variable) <= i64::MAX,
        ensures
            binary_op_post(
                old(self)@,
                final(self)@,
                BinaryKind::ICmp(IntPredicate::NE),
                lhs@,
                rhs@,
                result_value_view(r),
            ),
    {
        self.push_binary_op_any(BinaryKind::ICmp(IntPredicate::NE), lhs, rhs)
    }

    /// Appends an unsigned greater-than comparison.
    pub fn icmp_ugt(&mut self, lhs: &Operand, rhs: &Operand) -> (r: Result<Value, BuildError>)
        requires
            old(self)@.frames.len() >= 1,
            next_var_id(old(self)@.last_variable) <= i64::MAX,
        ensures
            binary_op_post(
                old(self)@,
                final(self)@,
                BinaryKind::ICmp(IntPredicate::UGT),
                lhs@,
                rhs@,
                result_value_view(r),
            ),
    {
        self.push_binary_op_any(BinaryKind::ICmp(IntPredicate::UGT), lhs, rhs)
    }

    /// Appends an unsigned greater-or-equal comparison.
    pub fn icmp_uge(&mut self, lhs: &Operand, rhs: &Operand) -> (r: Result<Value, BuildError>)
        requires
            old(self)@.frames.len() >= 1,
            next_var_id(old(self)@.last_variable) <= i64::MAX,
        ensures
            binary_op_post(
                old(self)@,
                final(self)@,
                BinaryKind::ICmp(IntPredicate::UGE),
                lhs@,
                rhs@,
                result_value_view(r),
            ),
    {
        self.push_binary_op_any(BinaryKind::ICmp(IntPredicate::UGE), lhs, rhs)
    }

    /// Appends an unsigned less-than comparison.
    pub fn icmp_ult(&mut self, lhs: &Operand, rhs: &Operand) -> (r: Result<Value, BuildError>)
        requires
            old(self)@.frames.len() >= 1,
            next_var_id(old(self)@.last_variable) <= i64::MAX,
        ensures
            binary_op_post(
                old(self)@,
                final(self)@,
                BinaryKind::ICmp(IntPredicate::ULT),
                lhs@,
                rhs@,
                result_value_view(r),
            ),
    {
        self.push_binary_op_any(BinaryKind::ICmp(IntPredicate::ULT), lhs, rhs)
    }

    /// Appends an unsigned less-or-equal comparison.
    pub fn icmp_ule(&mut self, lhs: &Operand, rhs: &Operand) -> (r: Result<Value, BuildError>)
        requires
            old(self)@.frames.len() >= 1,
            next_var_id(old(self)@.last_variable) <= i64::MAX,
        ensures
            binary_op_post(
                old(self)@,
                final(self)@,
                BinaryKind::ICmp(IntPredicate::ULE),
                lhs@,
                rhs@,
                result_value_view(r),
            ),
    {
        self.push_binary_op_any(BinaryKind::ICmp(IntPredicate::ULE), lhs, rhs)
    }

    /// Appends a signed greater-than comparison.
    pub fn icmp_sgt(&mut self, lhs: &Operand, rhs: &Operand) -> (r: Result<Value, BuildError>)
        requires
            old(self)@.frames.len() >= 1,
            next_var_id(old(self)@.last_variable) <= i64::MAX,
        ensures
            binary_op_post(
                old(self)@,
                final(self)@,
                BinaryKind::ICmp(IntPredicate::SGT),
                lhs@,
                rhs@,
                result_value_view(r),
            ),
    {
        self.push_binary_op_any(BinaryKind::ICmp(IntPredicate::SGT), lhs, rhs)
    }

    /// Appends a signed greater-or-equal comparison.
    pub fn icmp_sge(&mut self, lhs: &Operand, rhs: &Operand) -> (r: Result<Value, BuildError>)
        requires
            old(self)@.frames.len() >= 1,
            next_var_id(old(self)@.last_variable) <= i64::MAX,
        ensures
            binary_op_post(
                old(self)@,
                final(self)@,
                BinaryKind::ICmp(IntPredicate::SGE),
                lhs@,
                rhs@,
                result_value_view(r),
            ),
    {
        self.push_binary_op_any(BinaryKind::ICmp(IntPredicate::SGE), lhs, rhs)
    }

    /// Appends a signed less-than comparison.
    pub fn icmp_slt(&mut self, lhs: &Operand, rhs: &Operand) -> (r: Result<Value, BuildError>)
        requires
            old(self)@.frames.len() >= 1,
            next_var_id(old(self)@.last_variable) <= i64::MAX,
        ensures
            binary_op_post(
                old(self)@,
                final(self)@,
                BinaryKind::ICmp(IntPredicate::SLT),
                lhs@,
                rhs@,
                result_value_view(r),
            ),
    {
        self.push_binary_op_any(BinaryKind::ICmp(IntPredicate::SLT), lhs, rhs)
    }

    /// Appends a signed less-or-equal comparison.
    pub fn icmp_sle(&mut self, lhs: &Operand, rhs: &Operand) -> (r: Result<Value, BuildError>)
        requires
            old(self)@.frames.len() >= 1,
            next_var_id(old(self)@.last_variable) <= i64::MAX,
        ensures
            binary_op_post(
                old(self)@,
                final(self)@,
                BinaryKind::ICmp(IntPredicate::SLE),
                lhs@,
                rhs@,
                result_value_view(r),
            ),
    {
        self.push_binary_op_any(BinaryKind::ICmp(IntPredicate::SLE), lhs, rhs)
    }

    /// Appends a unary negation of an integer value, written as zero minus
    /// the value with a zero literal of the value's own width. A value of
    /// any other type is refused with a type mismatch, and the build is
    /// left untouched.
    pub fn neg(&mut self, value: Value) -> (r: Result<Value, BuildError>)
        requires
            old(self)@.frames.len() >= 1,
            next_var_id(old(self)@.last_variable) <= i64::MAX,
        ensures
            !(value@.type_of() matches ValueType::Integer { .. }) ==> r == Err::<
                Value,
                BuildError,
            >(BuildError::TypeMismatch) && final(self)@ == old(self)@,
            value@.type_of() matches ValueType::Integer { width } ==> ({
                let v = spec_variable(
                    ValueType::Integer { width },
                    next_var_id(old(self)@.last_variable) as i64,
                );
                &&& result_value_view(r) == Ok::<ValueView, BuildError>(ValueView::Variable(v))
                &&& final(self)@.frames == push_top(
                    old(self)@.frames,
                    InstructionView::BinaryOp(
                        (BinaryOpView {
                            kind: BinaryKind::Sub,
                            lhs: ValueView::Integer(spec_integer(width, 0)),
                            rhs: value@,
                            result: v,
                        }),
                    ),
                )
                &&& final(self)@.last_variable == Some(v)
                &&& final(self)@.external_functions == old(self)@.external_functions
            }),
    {
        let ty = value.type_of();
        match ty {
            ValueType::Integer { width } => {
                proof {
                    lemma_pow2_pos(width as nat);
                    crate::values::lemma_spec_integer(width, 0);
                }
                let zero = Value::Integer(Integer::new(width, 0).unwrap());
                Ok(self.push_binary_op(BinaryKind::Sub, zero, value))
            },
            _ => Err(BuildError::TypeMismatch),
        }
    }
}

/// What appending one instruction with no operand handling leaves
/// behind: the instruction joins the active frame, and nothing else
/// changes.
pub open spec fn append_post(
    pre: BuilderView,
    post: BuilderView,
    i: InstructionView,
) -> bool {
    &&& post.frames == push_top(pre.frames, i)
    &&& post.external_functions == pre.external_functions
    &&& post.last_variable == pre.last_variable
}

impl Builder {
    /// Appends a controlled-X gate on the two qubits.
    pub fn cx(&mut self, control: &Qubit, target: &Qubit)
        requires
            old(self)@.frames.len() >= 1,
        ensures
            append_post(
                old(self)@,
                final(self)@,
                InstructionView::Cx(
                    (ControlledView {
                        control: qubit_id_seq(control.index as nat),
                        target: qubit_id_seq(target.index as nat),
                    }),
                ),
            ),
    {
        let controlled = Controlled::new(control.id(), target.id());
        self.push_inst(Instruction::Cx(controlled));
    }

    /// Appends a controlled-Z gate on the two qubits.
    pub fn cz(&mut self, control: &Qubit, target: &Qubit)
        requires
            old(self)@.frames.len() >= 1,
        ensures
            append_post(
                old(self)@,
                final(self)@,
                InstructionView::Cz(
                    (ControlledView {
                        control: qubit_id_seq(control.index as nat),
                        target: qubit_id_seq(target.index as nat),
                    }),
                ),
            ),
    {
        let controlled = Controlled::new(control.id(), target.id());
        self.push_inst(Instruction::Cz(controlled));
    }

    /// Appends a Hadamard gate on the qubit.
    pub fn h(&mut self, qubit: &Qubit)
        requires
            old(self)@.frames.len() >= 1,
        ensures
            append_post(
                old(self)@,
                final(self)@,
                InstructionView::H((SingleView { qubit: qubit_id_seq(qubit.index as nat) })),
            ),
    {
        let single = Single::new(qubit.id());
        self.push_inst(Instruction::H(single));
    }

    /// Appends a measurement of the qubit into the result slot.
    pub fn m(&mut self, qubit: &Qubit, result: &ResultRef)
        requires
            old(self)@.frames.len() >= 1,
        ensures
            append_post(
                old(self)@,
                final(self)@,
                InstructionView::M(
                    (MeasuredView {
                        qubit: qubit_id_seq(qubit.index as nat),
                        target: result_id_seq(result.index as nat),
                    }),
                ),
            ),
    {
        let measured = Measured::new(qubit.id(), result.id());
        self.push_inst(Instruction::M(measured));
    }

    /// Appends a reset of the qubit.
    pub fn reset(&mut self, qubit: &Qubit)
        requires
            old(self)@.frames.len() >= 1,
        ensures
            append_post(
                old(self)@,
                final(self)@,
                InstructionView::Reset((SingleView { qubit: qubit_id_seq(qubit.index as nat) })),
            ),
    {
        let single = Single::new(qubit.id());
        self.push_inst(Instruction::Reset(single));
    }

    /// Appends a rotation about X. The angle operand is coerced against
    /// the double type; on failure the error is returned and the build is
    /// untouched.
    pub fn rx(&mut self, theta: &Operand, qubit: &Qubit) -> (r: Result<(), BuildError>)
        requires
            old(self)@.frames.len() >= 1,
        ensures
            coerce_spec(theta@, ValueType::Double) matches Err(e) ==> r == Err::<(), BuildError>(
                e,
            ) && final(self)@ == old(self)@,
            coerce_spec(theta@, ValueType::Double) matches Ok(t) ==> r == Ok::<(), BuildError>(())
                && append_post(
                old(self)@,
                final(self)@,
                InstructionView::Rx(
                    (RotatedView { theta: t, qubit: qubit_id_seq(qubit.index as nat) }),
                ),
            ),
    {
        match extract_value(theta, ValueType::Double) {
            Ok(t) => {
                let rotated = Rotated::new(t, qubit.id());
                self.push_inst(Instruction::Rx(rotated));
                Ok(())
            },
            Err(e) => Err(e),
        }
    }

    /// Appends a rotation about Y. The angle operand is coerced against
    /// the double type; on failure the error is returned and the build is
    /// untouched.
    pub fn ry(&mut self, theta: &Operand, qubit: &Qubit) -> (r: Result<(), BuildError>)
        requires
            old(self)@.frames.len() >= 1,
        ensures
            coerce_spec(theta@, ValueType::Double) matches Err(e) ==> r == Err::<(), BuildError>(
                e,
            ) && final(self)@ == old(self)@,
            coerce_spec(theta@, ValueType::Double) matches Ok(t) ==> r == Ok::<(), BuildError>(())
                && append_post(
                old(self)@,
                final(self)@,
                InstructionView::Ry(
                    (RotatedView { theta: t, qubit: qubit_id_seq(qubit.index as nat) }),
                ),
            ),
    {
        match extract_value(theta, ValueType::Double) {
            Ok(t) => {
                let rotated = Rotated::new(t, qubit.id());
                self.push_inst(Instruction::Ry(rotated));
                Ok(())
            },
            Err(e) => Err(e),
        }
    }

    /// Appends a rotation about Z. The angle operand is coerced against
    /// the double type; on failure the error is returned and the build is
    /// untouched.
    pub fn rz(&mut self, theta: &Operand, qubit: &Qubit) -> (r: Result<(), BuildError>)
        requires
            old(self)@.frames.len() >= 1,
        ensures
            coerce_spec(theta@, ValueType::Double) matches Err(e) ==> r == Err::<(), BuildError>(
                e,
            ) && final(self)@ == old(self)@,
            coerce_spec(theta@, ValueType::Double) matches Ok(t) ==> r == Ok::<(), BuildError>(())
                && append_post(
                old(self)@,
                final(self)@,
                InstructionView::Rz(
                    (RotatedView { theta: t, qubit: qubit_id_seq(qubit.index as nat) }),
                ),
            ),
    {
        match extract_value(theta, ValueType::Double) {
            Ok(t) => {
                let rotated = Rotated::new(t, qubit.id());
                self.push_inst(Instruction::Rz(rotated));
                Ok(())
            },
            Err(e) => Err(e),
        }
    }

    /// Appends an S gate on the qubit.
    pub fn s(&mut self, qubit: &Qubit)
        requires
            old(self)@.frames.len() >= 1,
        ensures
            append_post(
                old(self)@,
                final(self)@,
                InstructionView::S((SingleView { qubit: qubit_id_seq(qubit.index as nat) })),
            ),
    {
        let single = Single::new(qubit.id());
        self.push_inst(Instruction::S(single));
    }

    /// Appends an adjoint S gate on the qubit.
    pub fn s_adj(&mut self, qubit: &Qubit)
        requires
            old(self)@.frames.len() >= 1,
        ensures
            append_post(
                old(self)@,
                final(self)@,
                InstructionView::SAdj((SingleView { qubit: qubit_id_seq(qubit.index as nat) })),
            ),
    {
        let single = Single::new(qubit.id());
        self.push_inst(Instruction::SAdj(single));
    }

    /// Appends a T gate on the qubit.
    pub fn t(&mut self, qubit: &Qubit)
        requires
            old(self)@.frames.len() >= 1,
        ensures
            append_post(
                old(self)@,
                final(self)@,
                InstructionView::T((SingleView { qubit: qubit_id_seq(qubit.index as nat) })),
            ),
    {
        let single = Single::new(qubit.id());
        self.push_inst(Instruction::T(single));
    }

    /// Appends an adjoint T gate on the qubit.
    pub fn t_adj(&mut self, qubit: &Qubit)
        requires
            old(self)@.frames.len() >= 1,
        ensures
            append_post(
                old(self)@,
                final(self)@,
                InstructionView::TAdj((SingleView { qubit: qubit_id_seq(qubit.index as nat) })),
            ),
    {
        let single = Single::new(qubit.id());
        self.push_inst(Instruction::TAdj(single));
    }

    /// Appends a Pauli-X gate on the qubit.
    pub fn x(&mut self, qubit: &Qubit)
        requires
            old(self)@.frames.len() >= 1,
        ensures
            append_post(
                old(self)@,
                final(self)@,
                InstructionView::X((SingleView { qubit: qubit_id_seq(qubit.index as nat) })),
            ),
    {
        let single = Single::new(qubit.id());
        self.push_inst(Instruction::X(single));
    }

    /// Appends a Pauli-Y gate on the qubit.
    pub fn y(&mut self, qubit: &Qubit)
        requires
            old(self)@.frames.len() >= 1,
        ensures
            append_post(
                old(self)@,
                final(self)@,
                InstructionView::Y((SingleView { qubit: qubit_id_seq(qubit.index as nat) })),
            ),
    {
        let single = Single::new(qubit.id());
        self.push_inst(Instruction::Y(single));
    }

    /// Appends a Pauli-Z gate on the qubit.
    pub fn z(&mut self, qubit: &Qubit)
        requires
            old(self)@.frames.len() >= 1,
        ensures
            append_post(
                old(self)@,
                final(self)@,
                InstructionView::Z((SingleView { qubit: qubit_id_seq(qubit.index as nat) })),
            ),
    {
        let single = Single::new(qubit.id());
        self.push_inst(Instruction::Z(single));
    }

    /// Seals one conditional: appends a single `If` instruction on the
    /// given result, holding the two branch bodies, to the active frame.
    ///
    /// The branch bodies come from the scoped protocol: open a frame with
    /// [`Builder::push_frame`], run the branch's construction logic against
    /// the same builder, and capture its instructions with
    /// [`Builder::pop_frame`] — first for the "one" branch, then for the
    /// "zero" branch. A branch for which the caller supplies no logic is an
    /// empty list, not a missing branch; both lists are always present.
    pub fn if_result(
        &mut self,
        result: &ResultRef,
        then_insts: Vec<Instruction>,
        else_insts: Vec<Instruction>,
    )
        requires
            old(self)@.frames.len() >= 1,
        ensures
            final(self)@ == bv_push_inst(
                old(self)@,
                bv_if_inst(
                    result_id_seq(result.index as nat),
                    insts_view(then_insts@),
                    insts_view(else_insts@),
                ),
            ),
            append_post(
                old(self)@,
                final(self)@,
                bv_if_inst(
                    result_id_seq(result.index as nat),
                    insts_view(then_insts@),
                    insts_view(else_insts@),
                ),
            ),
    {
        let condition = result.id();
        self.push_inst(Instruction::If(If { condition, then_insts, else_insts }));
    }

    /// Declares an external function under the given name and signature
    /// and returns the handle used to call it. Declared names are expected
    /// to be unique; when a name is declared twice, calls resolve to the
    /// first declaration, and the redeclaration is a caller defect.
    pub fn add_external_function(&mut self, name: String, ty: FunctionType) -> (f: Function)
        ensures
            final(self)@.external_functions == old(self)@.external_functions.push((name@, ty@)),
            final(self)@.frames == old(self)@.frames,
            final(self)@.last_variable == old(self)@.last_variable,
            f@ == name@,
    {
        let f = Function { name: name.clone() };
        self.external_functions.push((name, ty));
        proof {
            assert(self@.external_functions =~= old(self)@.external_functions.push((name@, ty@)));
            assert(self@.frames =~= old(self)@.frames);
        }
        f
    }
}

/// The signature under which `name` was declared: the first entry of the
/// table carrying that name, or nothing when no entry does.
pub open spec fn find_external(t: Seq<(Seq<char>, FunctionTypeView)>, name: Seq<char>) -> Option<
    FunctionTypeView,
>
    decreases t.len(),
{
    if t.len() == 0 {
        None
    } else if t[0].0 == name {
        Some(t[0].1)
    } else {
        find_external(t.drop_first(), name)
    }
}

/// When no entry of the table carries the name, the lookup finds nothing.
pub proof fn lemma_find_external_none(t: Seq<(Seq<char>, FunctionTypeView)>, name: Seq<char>)
    requires
        forall|j: int| 0 <= j < t.len() ==> t[j].0 != name,
    ensures
        find_external(t, name) is None,
    decreases t.len(),
{
    if t.len() > 0 {
        lemma_find_external_none(t.drop_first(), name);
    }
}

/// When the first entry carrying the name sits at position `i`, the lookup
/// finds that entry's signature.
pub proof fn lemma_find_external_at(t: Seq<(Seq<char>, FunctionTypeView)>, name: Seq<char>, i: int)
    requires
        0 <= i < t.len(),
        forall|j: int| 0 <= j < i ==> t[j].0 != name,
        t[i].0 == name,
    ensures
        find_external(t, name) == Some(t[i].1),
    decreases i,
{
    if i > 0 {
        lemma_find_external_at(t.drop_first(), name, i - 1);
    }
}

/// Coercion of an argument list against the declared parameter types, in
/// order: the first failing argument's error, or all coerced values.
pub open spec fn coerce_args_spec(args: Seq<OperandView>, tys: Seq<ValueType>) -> Result<
    Seq<ValueView>,
    BuildError,
>
    recommends
        args.len() == tys.len(),
    decreases args.len(),
{
    if args.len() == 0 {
        Ok(Seq::empty())
    } else {
        match coerce_spec(args[0], tys[0]) {
            Err(e) => Err(e),
            Ok(v) => match coerce_args_spec(args.drop_first(), tys.drop_first()) {
                Err(e) => Err(e),
                Ok(s) => Ok(seq![v] + s),
            },
        }
    }
}

/// When every argument coerces, the list coercion succeeds with the
/// coerced values in order.
pub proof fn lemma_coerce_args_ok(args: Seq<OperandView>, tys: Seq<ValueType>)
    requires
        args.len() == tys.len(),
        forall|j: int| 0 <= j < args.len() ==> coerce_spec(args[j], tys[j]) is Ok,
    ensures
        coerce_args_spec(args, tys) is Ok,
        coerce_args_spec(args, tys)->Ok_0.len() == args.len(),
        forall|j: int| 0 <= j < args.len() ==> coerce_args_spec(args, tys)->Ok_0[j] == coerce_spec(
            args[j],
            tys[j],
        )->Ok_0,
    decreases args.len(),
{
    if args.len() > 0 {
        lemma_coerce_args_ok(args.drop_first(), tys.drop_first());
        let v0 = coerce_spec(args[0], tys[0])->Ok_0;
        let rest = coerce_args_spec(args.drop_first(), tys.drop_first())->Ok_0;
        assert(coerce_args_spec(args, tys)->Ok_0 == seq![v0] + rest);
        assert forall|k: int| 0 <= k < args.len() implies coerce_args_spec(args, tys)->Ok_0[k]
            == coerce_spec(args[k], tys[k])->Ok_0 by {
            if k > 0 {
                assert(args.drop_first()[k - 1] == args[k]);
                assert(tys.drop_first()[k - 1] == tys[k]);
                assert(rest[k - 1] == coerce_spec(
                    args.drop_first()[k - 1],
                    tys.drop_first()[k - 1],
                )->Ok_0);
                assert((seq![v0] + rest)[k] == rest[k - 1]);
            }
        }
    }
}

/// When the arguments before position `i` coerce and the one at `i` fails,
/// the list coercion fails with that argument's error.
pub proof fn lemma_coerce_args_err(
    args: Seq<OperandView>,
    tys: Seq<ValueType>,
    i: int,
    e: BuildError,
)
    requires
        args.len() == tys.len(),
        0 <= i < args.len(),
        forall|j: int| 0 <= j < i ==> coerce_spec(args[j], tys[j]) is Ok,
        coerce_spec(args[i], tys[i]) == Err::<ValueView, BuildError>(e),
    ensures
        coerce_args_spec(args, tys) == Err::<Seq<ValueView>, BuildError>(e),
    decreases i,
{
    if i > 0 {
        lemma_coerce_args_err(args.drop_first(), tys.drop_first(), i - 1, e);
    }
}

/// An optional call result, viewed.
pub open spec fn option_value_view(o: Option<Value>) -> Option<ValueView> {
    match o {
        Some(v) => Some(v@),
        None => None,
    }
}

/// An operand list, viewed.
pub open spec fn operands_view(s: Seq<Operand>) -> Seq<OperandView> {
    Seq::new(s.len(), |j: int| s[j]@)
}

/// What calling a declared external function does, given the builder state
/// before and the call's name and operands. An undeclared name is an
/// unknown-callee error; a wrong argument count is an arity error; each
/// argument is coerced in order against its declared parameter type, and
/// the first failure is returned. On success one `Call` instruction joins
/// the active frame; a non-void callee additionally allocates one fresh
/// variable of the declared return type, which is the call's result.
pub open spec fn call_spec(b: BuilderView, name: Seq<char>, args: Seq<OperandView>) -> Result<
    (BuilderView, Option<ValueView>),
    BuildError,
>
    recommends
        b.frames.len() >= 1,
{
    match find_external(b.external_functions, name) {
        None => Err(BuildError::UnknownCallee),
        Some(ty) => if args.len() != ty.param_types.len() {
            Err(
                BuildError::ArityMismatch {
                    expected: ty.param_types.len() as usize,
                    got: args.len() as usize,
                },
            )
        } else {
            match coerce_args_spec(args, ty.param_types) {
                Err(e) => Err(e),
                Ok(vals) => {
                    let result_var = match ty.return_type {
                        ReturnType::Void => None,
                        ReturnType::Value(t) => Some(
                            spec_variable(t, next_var_id(b.last_variable) as i64),
                        ),
                    };
                    Ok(
                        (
                            BuilderView {
                                frames: push_top(
                                    b.frames,
                                    InstructionView::Call(
                                        (CallView { name, args: vals, result: result_var }),
                                    ),
                                ),
                                external_functions: b.external_functions,
                                last_variable: match result_var {
                                    None => b.last_variable,
                                    Some(v) => Some(v),
                                },
                            },
                            match result_var {
                                None => None,
                                Some(v) => Some(ValueView::Variable(v)),
                            },
                        ),
                    )
                },
            }
        },
    }
}

impl Builder {
    /// Calls a declared external function: checks that the name was
    /// declared and that the argument count equals the declared parameter
    /// count, coerces each argument in order against its parameter type,
    /// and appends one `Call` instruction. A void callee yields no value;
    /// otherwise the call yields one fresh variable of the declared return
    /// type. On any failure the error is returned eagerly and the build is
    /// left untouched.
    pub fn call(&mut self, function: &Function, args: &Vec<Operand>) -> (r: Result<
        Option<Value>,
        BuildError,
    >)
        requires
            old(self)@.frames.len() >= 1,
            next_var_id(old(self)@.last_variable) <= i64::MAX,
        ensures
            call_spec(old(self)@, function@, operands_view(args@)) matches Err(e) ==> r == Err::<
                Option<Value>,
                BuildError,
            >(e) && final(self)@ == old(self)@,
            call_spec(old(self)@, function@, operands_view(args@)) matches Ok(p) ==> (r matches Ok(
                rv,
            ) && option_value_view(rv) == p.1 && final(self)@ == p.0),
    {
        let ghost table = self@.external_functions;
        let n = self.external_functions.len();
        let mut idx: usize = 0;
        let mut found: Option<usize> = None;
        while idx < n
            invariant
                idx <= n,
                self == old(self),
                n == self.external_functions@.len(),
                table == self@.external_functions,
                match found {
                    None => forall|j: int| 0 <= j < idx ==> table[j].0 != function@,
                    Some(i) => i < n && table[i as int].0 == function@ && forall|j: int|
                        0 <= j < i ==> table[j].0 != function@,
                },
            decreases n - idx,
        {
            if found.is_none() {
                if self.external_functions[idx].0 == function.name {
                    found = Some(idx);
                }
            }
            idx += 1;
        }
        match found {
            None => {
                proof {
                    lemma_find_external_none(table, function@);
                }
                Err(BuildError::UnknownCallee)
            },
            Some(i) => {
                proof {
                    lemma_find_external_at(table, function@, i as int);
                }
                let ghost fty = table[i as int].1;
                let expected = self.external_functions[i].1.param_types.len();
                let got = args.len();
                if got != expected {
                    return Err(BuildError::ArityMismatch { expected, got });
                }
                let ghost tys = fty.param_types;
                let ghost argsv = operands_view(args@);
                let mut vals: Vec<Value> = Vec::new();
                let mut j: usize = 0;
                while j < expected
                    invariant
                        j <= expected,
                        self == old(self),
                        old(self)@.frames.len() >= 1,
                        next_var_id(old(self)@.last_variable) <= i64::MAX,
                        expected == args@.len(),
                        i < self.external_functions@.len(),
                        table == self@.external_functions,
                        table == old(self)@.external_functions,
                        find_external(old(self)@.external_functions, function@) == Some(fty),
                        fty == table[i as int].1,
                        tys == table[i as int].1.param_types,
                        tys == self.external_functions@[i as int].1.param_types@,
                        expected == tys.len(),
                        argsv == operands_view(args@),
                        vals@.len() == j,
                        forall|k: int| 0 <= k < j ==> (#[trigger] coerce_spec(argsv[k], tys[k]))
                            is Ok,
                        forall|k: int| 0 <= k < j ==> #[trigger] vals@[k]@ == coerce_spec(
                            argsv[k],
                            tys[k],
                        )->Ok_0,
                    decreases expected - j,
                {
                    proof {
                        assert(argsv[j as int] == args@[j as int]@);
                        assert(tys[j as int] == self.external_functions@[i as int].1.param_types@[
                            j as int
                        ]);
                    }
                    match extract_value(&args[j], self.external_functions[i].1.param_types[j]) {
                        Ok(v) => {
                            proof {
                                assert(coerce_spec(argsv[j as int], tys[j as int])
                                    == result_value_view(Ok::<Value, BuildError>(v)));
                            }
                            vals.push(v);
                        },
                        Err(e) => {
                            proof {
                                assert(coerce_spec(argsv[j as int], tys[j as int]) == Err::<
                                    ValueView,
                                    BuildError,
                                >(e));
                                lemma_coerce_args_err(argsv, tys, j as int, e);
                            }
                            return Err(e);
                        },
                    }
                    j += 1;
                }
                proof {
                    lemma_coerce_args_ok(argsv, tys);
                    assert(vals@.len() == coerce_args_spec(argsv, tys)->Ok_0.len());
                }
                let ret = self.external_functions[i].1.return_type;
                let result_var: Option<Variable> = match ret {
                    ReturnType::Void => None,
                    ReturnType::Value(t) => Some(self.fresh_variable(t)),
                };
                let callee = function.name.clone();
                let inst = Instruction::Call(Call { name: callee, args: vals, result: result_var });
                proof {
                    assert(inst@ matches InstructionView::Call(c) && c.args =~= coerce_args_spec(
                        argsv,
                        tys,
                    )->Ok_0);
                }
                self.push_inst(inst);
                let r: Option<Value> = match result_var {
                    Some(v) => Some(Value::Variable(v)),
                    None => None,
                };
                proof {
                    let p = call_spec(old(self)@, function@, operands_view(args@))->Ok_0;
                    assert(self@.frames =~= p.0.frames);
                    assert(self@ =~= p.0);
                }
                Ok(r)
            },
        }
    }
}

} // verus!
