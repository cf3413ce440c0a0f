//! The closed instruction set of the base profile: single-qubit gates,
//! controlled two-qubit gates, value-parameterized rotations, measurement,
//! reset, binary classical operations, external calls, and a structured
//! two-branch conditional holding nested instruction lists.

use vstd::prelude::*;
use crate::types::IntPredicate;
use crate::values::{Value, ValueView, Variable};

verus! {

/// The operands of a controlled two-qubit gate: the identifiers of the
/// control and target qubits.
#[derive(Debug, Eq, PartialEq)]
pub struct Controlled {
    pub control: String,
    pub target: String,
}

/// The view of [`Controlled`]: both identifiers as character sequences.
pub ghost struct ControlledView {
    pub control: Seq<char>,
    pub target: Seq<char>,
}

impl View for Controlled {
    type V = ControlledView;

    open spec fn view(&self) -> ControlledView {
        ControlledView { control: self.control@, target: self.target@ }
    }
}

impl Controlled {
    /// Pairs a control qubit identifier with a target qubit identifier.
    pub fn new(control: String, target: String) -> (r: Controlled)
        ensures
            r@.control == control@,
            r@.target == target@,
    {
        Controlled { control, target }
    }
}

/// The operands of a measurement: the measured qubit and the result slot
/// that receives the outcome.
#[derive(Debug, Eq, PartialEq)]
pub struct Measured {
    pub qubit: String,
    pub target: String,
}

/// The view of [`Measured`]: both identifiers as character sequences.
pub ghost struct MeasuredView {
    pub qubit: Seq<char>,
    pub target: Seq<char>,
}

impl View for Measured {
    type V = MeasuredView;

    open spec fn view(&self) -> MeasuredView {
        MeasuredView { qubit: self.qubit@, target: self.target@ }
    }
}

impl Measured {
    /// Pairs a measured qubit identifier with a result identifier.
    pub fn new(qubit: String, target: String) -> (r: Measured)
        ensures
            r@.qubit == qubit@,
            r@.target == target@,
    {
        Measured { qubit, target }
    }
}

/// The operands of a rotation gate: the angle, a value expected to carry the
/// double type, and the rotated qubit.
#[derive(Debug, PartialEq)]
pub struct Rotated {
    pub theta: Value,
    pub qubit: String,
}

/// The view of [`Rotated`].
pub ghost struct RotatedView {
    pub theta: ValueView,
    pub qubit: Seq<char>,
}

impl View for Rotated {
    type V = RotatedView;

    open spec fn view(&self) -> RotatedView {
        RotatedView { theta: self.theta@, qubit: self.qubit@ }
    }
}

impl Rotated {
    /// Pairs a rotation angle with the identifier of the rotated qubit.
    pub fn new(theta: Value, qubit: String) -> (r: Rotated)
        ensures
            r@.theta == theta@,
            r@.qubit == qubit@,
    {
        Rotated { theta, qubit }
    }
}

/// The operand of a single-qubit gate or a reset: the qubit identifier.
#[derive(Debug, Eq, PartialEq)]
pub struct Single {
    pub qubit: String,
}

/// The view of [`Single`].
pub ghost struct SingleView {
    pub qubit: Seq<char>,
}

impl View for Single {
    type V = SingleView;

    open spec fn view(&self) -> SingleView {
        SingleView { qubit: self.qubit@ }
    }
}

impl Single {
    /// Wraps the identifier of the qubit a gate acts on.
    pub fn new(qubit: String) -> (r: Single)
        ensures
            r@.qubit == qubit@,
    {
        Single { qubit }
    }
}

/// The kind of a binary classical operation: bitwise logic, arithmetic,
/// shifts, or an ordered integer comparison.
#[derive(Clone, Copy, Debug, Eq, PartialEq, Structural)]
pub enum BinaryKind {
    And,
    Or,
    Xor,
    Add,
    Sub,
    Mul,
    Shl,
    LShr,
    ICmp(IntPredicate),
}

/// A binary classical operation: its kind, both operands, and the fresh
/// variable that holds its result.
#[derive(Debug, PartialEq)]
pub struct BinaryOp {
    pub kind: BinaryKind,
    pub lhs: Value,
    pub rhs: Value,
    pub result: Variable,
}

/// The view of [`BinaryOp`].
pub ghost struct BinaryOpView {
    pub kind: BinaryKind,
    pub lhs: ValueView,
    pub rhs: ValueView,
    pub result: Variable,
}

impl View for BinaryOp {
    type V = BinaryOpView;

    open spec fn view(&self) -> BinaryOpView {
        BinaryOpView { kind: self.kind, lhs: self.lhs@, rhs: self.rhs@, result: self.result }
    }
}

/// A call to a declared external function: the callee name, the ordered
/// coerced arguments, and the variable holding the returned value, absent
/// for a void return type.
#[derive(Debug, PartialEq)]
pub struct Call {
    pub name: String,
    pub args: Vec<Value>,
    pub result: Option<Variable>,
}

/// The view of [`Call`].
pub ghost struct CallView {
    pub name: Seq<char>,
    pub args: Seq<ValueView>,
    pub result: Option<Variable>,
}

impl View for Call {
    type V = CallView;

    open spec fn view(&self) -> CallView {
        CallView {
            name: self.name@,
            args: Seq::new(self.args@.len(), |j: int| self.args@[j]@),
            result: self.result,
        }
    }
}

/// A structured two-branch conditional on a classical result: the condition
/// result identifier and the instruction lists of both branches. Both
/// branches are always present, possibly empty; there is no single-branch
/// form.
#[derive(Debug, PartialEq)]
pub struct If {
    pub condition: String,
    pub then_insts: Vec<Instruction>,
    pub else_insts: Vec<Instruction>,
}

/// One instruction of the base profile.
#[derive(Debug, PartialEq)]
pub enum Instruction {
    Cx(Controlled),
    Cz(Controlled),
    H(Single),
    S(Single),
    SAdj(Single),
    T(Single),
    TAdj(Single),
    X(Single),
    Y(Single),
    Z(Single),
    Rx(Rotated),
    Ry(Rotated),
    Rz(Rotated),
    Reset(Single),
    M(Measured),
    BinaryOp(BinaryOp),
    Call(Call),
    If(If),
}

/// The view of [`If`]: the condition identifier and the views of both
/// branch bodies.
pub ghost struct IfView {
    pub condition: Seq<char>,
    pub then_insts: Seq<InstructionView>,
    pub else_insts: Seq<InstructionView>,
}

/// The view of an [`Instruction`]: the same shape over character sequences
/// and value views.
pub ghost enum InstructionView {
    Cx(ControlledView),
    Cz(ControlledView),
    H(SingleView),
    S(SingleView),
    SAdj(SingleView),
    T(SingleView),
    TAdj(SingleView),
    X(SingleView),
    Y(SingleView),
    Z(SingleView),
    Rx(RotatedView),
    Ry(RotatedView),
    Rz(RotatedView),
    Reset(SingleView),
    M(MeasuredView),
    BinaryOp(BinaryOpView),
    Call(CallView),
    If(IfView),
}

/// The view of one instruction; conditionals are viewed recursively.
pub open spec fn inst_view(i: Instruction) -> InstructionView
    decreases i,
{
    match i {
        Instruction::Cx(c) => InstructionView::Cx(c@),
        Instruction::Cz(c) => InstructionView::Cz(c@),
        Instruction::H(s) => InstructionView::H(s@),
        Instruction::S(s) => InstructionView::S(s@),
        Instruction::SAdj(s) => InstructionView::SAdj(s@),
        Instruction::T(s) => InstructionView::T(s@),
        Instruction::TAdj(s) => InstructionView::TAdj(s@),
        Instruction::X(s) => InstructionView::X(s@),
        Instruction::Y(s) => InstructionView::Y(s@),
        Instruction::Z(s) => InstructionView::Z(s@),
        Instruction::Rx(r) => InstructionView::Rx(r@),
        Instruction::Ry(r) => InstructionView::Ry(r@),
        Instruction::Rz(r) => InstructionView::Rz(r@),
        Instruction::Reset(s) => InstructionView::Reset(s@),
        Instruction::M(m) => InstructionView::M(m@),
        Instruction::BinaryOp(b) => InstructionView::BinaryOp(b@),
        Instruction::Call(c) => InstructionView::Call(c@),
        Instruction::If(f) => InstructionView::If(
            IfView {
                condition: f.condition@,
                then_insts: insts_view(f.then_insts@),
                else_insts: insts_view(f.else_insts@),
            },
        ),
    }
}

/// The views of a sequence of instructions, in order.
pub open spec fn insts_view(s: Seq<Instruction>) -> Seq<InstructionView>
    decreases s,
{
    if s.len() == 0 {
        Seq::empty()
    } else {
        insts_view(s.drop_last()).push(inst_view(s.last()))
    }
}

impl View for Instruction {
    type V = InstructionView;

    open spec fn view(&self) -> InstructionView {
        inst_view(*self)
    }
}

impl View for If {
    type V = IfView;

    open spec fn view(&self) -> IfView {
        IfView {
            condition: self.condition@,
            then_insts: insts_view(self.then_insts@),
            else_insts: insts_view(self.else_insts@),
        }
    }
}

/// `insts_view` maps the sequence element by element: the view of a list of
/// instructions has the same length, and each position holds the view of
/// the instruction at that position.
pub proof fn lemma_insts_view_elementwise(s: Seq<Instruction>)
    ensures
        insts_view(s).len() == s.len(),
        forall|j: int| 0 <= j < s.len() ==> insts_view(s)[j] == inst_view(s[j]),
    decreases s,
{
    if s.len() > 0 {
        lemma_insts_view_elementwise(s.drop_last());
    }
}

/// Viewing a sequence extended by one instruction extends the viewed
/// sequence by that instruction's view.
pub proof fn lemma_insts_view_push(s: Seq<Instruction>, i: Instruction)
    ensures
        insts_view(s.push(i)) == insts_view(s).push(inst_view(i)),
{
    assert(s.push(i).drop_last() =~= s);
    assert(s.push(i).last() == i);
}

impl Clone for Controlled {
    /// Clones the operand pair; the copy has the same view.
    fn clone(&self) -> (r: Self)
        ensures
            r@ == self@,
    {
        Controlled { control: self.control.clone(), target: self.target.clone() }
    }
}

impl Clone for Measured {
    /// Clones the operand pair; the copy has the same view.
    fn clone(&self) -> (r: Self)
        ensures
            r@ == self@,
    {
        Measured { qubit: self.qubit.clone(), target: self.target.clone() }
    }
}

impl Clone for Rotated {
    /// Clones the operand pair; the copy has the same view.
    fn clone(&self) -> (r: Self)
        ensures
            r@ == self@,
    {
        Rotated { theta: self.theta.clone(), qubit: self.qubit.clone() }
    }
}

impl Clone for Single {
    /// Clones the operand; the copy has the same view.
    fn clone(&self) -> (r: Self)
        ensures
            r@ == self@,
    {
        Single { qubit: self.qubit.clone() }
    }
}

impl Clone for BinaryOp {
    /// Clones the operation; the copy has the same view.
    fn clone(&self) -> (r: Self)
        ensures
            r@ == self@,
    {
        BinaryOp {
            kind: self.kind,
            lhs: self.lhs.clone(),
            rhs: self.rhs.clone(),
            result: self.result,
        }
    }
}

/// Clones a list of values; the copy views element for element like the
/// list it came from.
fn clone_values(v: &Vec<Value>) -> (r: Vec<Value>)
    ensures
        r@.len() == v@.len(),
        forall|k: int| 0 <= k < v@.len() ==> #[trigger] r@[k]@ == v@[k]@,
{
    let mut out: Vec<Value> = Vec::new();
    let n = v.len();
    let mut i: usize = 0;
    while i < n
        invariant
            i <= n,
            n == v@.len(),
            out@.len() == i,
            forall|k: int| 0 <= k < i ==> #[trigger] out@[k]@ == v@[k]@,
        decreases n - i,
    {
        out.push(v[i].clone());
        i += 1;
    }
    out
}

impl Clone for Call {
    /// Clones the call; the copy has the same view.
    fn clone(&self) -> (r: Self)
        ensures
            r@ == self@,
    {
        let r = Call {
            name: self.name.clone(),
            args: clone_values(&self.args),
            result: self.result,
        };
        proof {
            assert(r@.args =~= self@.args);
        }
        r
    }
}

/// Clones one instruction; the copy has the same view. The branch bodies
/// of a conditional are cloned recursively.
fn clone_inst(i: &Instruction) -> (r: Instruction)
    ensures
        r@ == i@,
    decreases *i,
{
    match i {
        Instruction::Cx(c) => Instruction::Cx(c.clone()),
        Instruction::Cz(c) => Instruction::Cz(c.clone()),
        Instruction::H(s) => Instruction::H(s.clone()),
        Instruction::S(s) => Instruction::S(s.clone()),
        Instruction::SAdj(s) => Instruction::SAdj(s.clone()),
        Instruction::T(s) => Instruction::T(s.clone()),
        Instruction::TAdj(s) => Instruction::TAdj(s.clone()),
        Instruction::X(s) => Instruction::X(s.clone()),
        Instruction::Y(s) => Instruction::Y(s.clone()),
        Instruction::Z(s) => Instruction::Z(s.clone()),
        Instruction::Rx(rot) => Instruction::Rx(rot.clone()),
        Instruction::Ry(rot) => Instruction::Ry(rot.clone()),
        Instruction::Rz(rot) => Instruction::Rz(rot.clone()),
        Instruction::Reset(s) => Instruction::Reset(s.clone()),
        Instruction::M(meas) => Instruction::M(meas.clone()),
        Instruction::BinaryOp(op) => Instruction::BinaryOp(op.clone()),
        Instruction::Call(c) => Instruction::Call(c.clone()),
        Instruction::If(f) => Instruction::If(
            If {
                condition: f.condition.clone(),
                then_insts: clone_insts(&f.then_insts),
                else_insts: clone_insts(&f.else_insts),
            },
        ),
    }
}

/// Clones a list of instructions; the copy views like the list it came
/// from.
pub(crate) fn clone_insts(v: &Vec<Instruction>) -> (r: Vec<Instruction>)
    ensures
        insts_view(r@) == insts_view(v@),
    decreases v@,
{
    let mut out: Vec<Instruction> = Vec::new();
    let n = v.len();
    let mut i: usize = 0;
    while i < n
        invariant
            i <= n,
            n == v@.len(),
            out@.len() == i,
            forall|k: int| 0 <= k < i ==> #[trigger] inst_view(out@[k]) == inst_view(v@[k]),
        decreases n - i,
    {
        proof {
            assert(decreases_to!(v@ => v@[i as int]));
        }
        out.push(clone_inst(&v[i]));
        i += 1;
    }
    proof {
        lemma_insts_view_elementwise(out@);
        lemma_insts_view_elementwise(v@);
        assert(insts_view(out@) =~= insts_view(v@));
    }
    out
}

impl Clone for If {
    /// Clones the conditional, branch bodies included; the copy has the
    /// same view.
    fn clone(&self) -> (r: Self)
        ensures
            r@ == self@,
    {
        If {
            condition: self.condition.clone(),
            then_insts: clone_insts(&self.then_insts),
            else_insts: clone_insts(&self.else_insts),
        }
    }
}

impl Clone for Instruction {
    /// Clones the instruction, nested branch bodies included; the copy
    /// has the same view.
    fn clone(&self) -> (r: Self)
        ensures
            r@ == self@,
    {
        clone_inst(self)
    }
}

} // verus!
