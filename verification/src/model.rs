//! Register declarations and the aggregate program model that finalization
//! produces and a backend consumes.

use vstd::prelude::*;
use crate::inst::{insts_view, Instruction, InstructionView};
use crate::types::{FunctionType, FunctionTypeView};

verus! {

/// The declaration of one qubit: a register name and the qubit's dense
/// index, unique within the program and starting at 0.
#[derive(Debug, Eq, PartialEq)]
pub struct QuantumRegister {
    pub name: String,
    pub index: u64,
}

/// The view of [`QuantumRegister`].
pub ghost struct QuantumRegisterView {
    pub name: Seq<char>,
    pub index: u64,
}

impl View for QuantumRegister {
    type V = QuantumRegisterView;

    open spec fn view(&self) -> QuantumRegisterView {
        QuantumRegisterView { name: self.name@, index: self.index }
    }
}

/// The declaration of the classical result register: a name and its
/// capacity.
#[derive(Debug, Eq, PartialEq)]
pub struct ClassicalRegister {
    pub name: String,
    pub size: u64,
}

/// The view of [`ClassicalRegister`].
pub ghost struct ClassicalRegisterView {
    pub name: Seq<char>,
    pub size: u64,
}

impl View for ClassicalRegister {
    type V = ClassicalRegisterView;

    open spec fn view(&self) -> ClassicalRegisterView {
        ClassicalRegisterView { name: self.name@, size: self.size }
    }
}

/// Either kind of register declaration.
#[derive(Debug, Eq, PartialEq)]
pub enum Register {
    Quantum(QuantumRegister),
    Classical(ClassicalRegister),
}

/// The view of [`Register`].
pub ghost enum RegisterView {
    Quantum(QuantumRegisterView),
    Classical(ClassicalRegisterView),
}

impl View for Register {
    type V = RegisterView;

    open spec fn view(&self) -> RegisterView {
        match self {
            Register::Quantum(q) => RegisterView::Quantum(q@),
            Register::Classical(c) => RegisterView::Classical(c@),
        }
    }
}

impl Clone for Register {
    /// Clones the declaration; the copy has the same view.
    fn clone(&self) -> (r: Self)
        ensures
            r@ == self@,
    {
        match self {
            Register::Quantum(q) => Register::Quantum(q.clone()),
            Register::Classical(c) => Register::Classical(c.clone()),
        }
    }
}

impl Clone for QuantumRegister {
    /// Clones the declaration; the copy has the same view.
    fn clone(&self) -> (r: Self)
        ensures
            r@ == self@,
    {
        QuantumRegister { name: self.name.clone(), index: self.index }
    }
}

impl Default for QuantumRegister {
    /// The default declaration: an empty name and index 0.
    fn default() -> (r: Self)
        ensures
            r@.name == Seq::<char>::empty(),
            r@.index == 0,
    {
        QuantumRegister { name: String::new(), index: 0 }
    }
}

impl QuantumRegister {
    /// Declares one qubit under the given register name and index.
    pub fn new(name: String, index: u64) -> (r: QuantumRegister)
        ensures
            r@.name == name@,
            r@.index == index,
    {
        QuantumRegister { name, index }
    }

    /// This declaration as a [`Register`].
    pub fn as_register(&self) -> (r: Register)
        ensures
            r@ matches RegisterView::Quantum(q) && q == self@,
    {
        Register::Quantum(self.clone())
    }
}

impl Clone for ClassicalRegister {
    /// Clones the declaration; the copy has the same view.
    fn clone(&self) -> (r: Self)
        ensures
            r@ == self@,
    {
        ClassicalRegister { name: self.name.clone(), size: self.size }
    }
}

impl Default for ClassicalRegister {
    /// The default declaration: an empty name and size 0.
    fn default() -> (r: Self)
        ensures
            r@.name == Seq::<char>::empty(),
            r@.size == 0,
    {
        ClassicalRegister { name: String::new(), size: 0 }
    }
}

impl ClassicalRegister {
    /// Declares a result register of the given capacity.
    pub fn new(name: String, size: u64) -> (r: ClassicalRegister)
        ensures
            r@.name == name@,
            r@.size == size,
    {
        ClassicalRegister { name, size }
    }

    /// This declaration as a [`Register`].
    pub fn as_register(&self) -> (r: Register)
        ensures
            r@ matches RegisterView::Classical(c) && c == self@,
    {
        Register::Classical(self.clone())
    }
}

/// The aggregate program: its name, the declared registers and qubits, the
/// finalized instruction list, the two allocation-strategy flags passed
/// through to the backend, and the declared external functions.
#[derive(Debug)]
pub struct SemanticModel {
    pub name: String,
    pub registers: Vec<ClassicalRegister>,
    pub qubits: Vec<QuantumRegister>,
    pub instructions: Vec<Instruction>,
    pub use_static_qubit_alloc: bool,
    pub use_static_result_alloc: bool,
    pub external_functions: Vec<(String, FunctionType)>,
}

/// The view of [`SemanticModel`].
#[verifier::ext_equal]
pub ghost struct SemanticModelView {
    pub name: Seq<char>,
    pub registers: Seq<ClassicalRegisterView>,
    pub qubits: Seq<QuantumRegisterView>,
    pub instructions: Seq<InstructionView>,
    pub use_static_qubit_alloc: bool,
    pub use_static_result_alloc: bool,
    pub external_functions: Seq<(Seq<char>, FunctionTypeView)>,
}

/// The view of a table of declared external functions: each entry's name as
/// a character sequence beside the signature's view, insertion order kept.
pub open spec fn externals_view(t: Seq<(String, FunctionType)>) -> Seq<(Seq<char>, FunctionTypeView)> {
    Seq::new(t.len(), |j: int| (t[j].0@, t[j].1@))
}

impl View for SemanticModel {
    type V = SemanticModelView;

    open spec fn view(&self) -> SemanticModelView {
        SemanticModelView {
            name: self.name@,
            registers: Seq::new(self.registers@.len(), |j: int| self.registers@[j]@),
            qubits: Seq::new(self.qubits@.len(), |j: int| self.qubits@[j]@),
            instructions: insts_view(self.instructions@),
            use_static_qubit_alloc: self.use_static_qubit_alloc,
            use_static_result_alloc: self.use_static_result_alloc,
            external_functions: externals_view(self.external_functions@),
        }
    }
}

impl SemanticModel {
    /// An empty program with the given name: no registers, no qubits, no
    /// instructions, no external functions, dynamic qubit allocation and
    /// static result allocation.
    pub fn new(name: String) -> (m: SemanticModel)
        ensures
            m@.name == name@,
            m@.registers == Seq::<ClassicalRegisterView>::empty(),
            m@.qubits == Seq::<QuantumRegisterView>::empty(),
            m@.instructions == Seq::<InstructionView>::empty(),
            m@.use_static_qubit_alloc == false,
            m@.use_static_result_alloc == true,
            m@.external_functions == Seq::<(Seq<char>, FunctionTypeView)>::empty(),
    {
        let m = SemanticModel {
            name,
            registers: Vec::new(),
            qubits: Vec::new(),
            instructions: Vec::new(),
            use_static_qubit_alloc: false,
            use_static_result_alloc: true,
            external_functions: Vec::new(),
        };
        proof {
            assert(m@.registers =~= Seq::<ClassicalRegisterView>::empty());
            assert(m@.qubits =~= Seq::<QuantumRegisterView>::empty());
            assert(m@.instructions =~= Seq::<InstructionView>::empty());
            assert(m@.external_functions =~= Seq::<(Seq<char>, FunctionTypeView)>::empty());
        }
        m
    }

    /// Appends one register declaration: a classical register joins the
    /// register list, a quantum register joins the qubit list; nothing else
    /// changes.
    pub fn add_reg(&mut self, reg: &Register)
        ensures
            final(self)@.name == old(self)@.name,
            final(self)@.instructions == old(self)@.instructions,
            final(self)@.use_static_qubit_alloc == old(self)@.use_static_qubit_alloc,
            final(self)@.use_static_result_alloc == old(self)@.use_static_result_alloc,
            final(self)@.external_functions == old(self)@.external_functions,
            reg@ matches RegisterView::Classical(c) ==> final(self)@.registers
                == old(self)@.registers.push(c) && final(self)@.qubits == old(self)@.qubits,
            reg@ matches RegisterView::Quantum(q) ==> final(self)@.qubits == old(self)@.qubits.push(
                q,
            ) && final(self)@.registers == old(self)@.registers,
    {
        match reg {
            Register::Classical(classical) => self.registers.push(classical.clone()),
            Register::Quantum(quantum) => self.qubits.push(quantum.clone()),
        }
        proof {
            match reg@ {
                RegisterView::Classical(c) => {
                    assert(self@.registers =~= old(self)@.registers.push(c));
                    assert(self@.qubits =~= old(self)@.qubits);
                },
                RegisterView::Quantum(q) => {
                    assert(self@.qubits =~= old(self)@.qubits.push(q));
                    assert(self@.registers =~= old(self)@.registers);
                },
            }
            assert(self@.external_functions =~= old(self)@.external_functions);
        }
    }

    /// Appends one instruction to the finalized list; nothing else changes.
    pub fn add_inst(&mut self, inst: Instruction)
        ensures
            final(self)@.name == old(self)@.name,
            final(self)@.registers == old(self)@.registers,
            final(self)@.qubits == old(self)@.qubits,
            final(self)@.use_static_qubit_alloc == old(self)@.use_static_qubit_alloc,
            final(self)@.use_static_result_alloc == old(self)@.use_static_result_alloc,
            final(self)@.external_functions == old(self)@.external_functions,
            final(self)@.instructions == old(self)@.instructions.push(inst@),
    {
        let ghost prev = self.instructions@;
        self.instructions.push(inst);
        proof {
            crate::inst::lemma_insts_view_push(prev, inst);
            assert(self@.registers =~= old(self)@.registers);
            assert(self@.qubits =~= old(self)@.qubits);
            assert(self@.external_functions =~= old(self)@.external_functions);
        }
    }
}

/// Clones a list of classical-register declarations; the copy views
/// element for element like the list it came from.
fn clone_classicals(v: &Vec<ClassicalRegister>) -> (r: Vec<ClassicalRegister>)
    ensures
        r@.len() == v@.len(),
        forall|k: int| 0 <= k < v@.len() ==> #[trigger] r@[k]@ == v@[k]@,
{
    let mut out: Vec<ClassicalRegister> = Vec::new();
    let n = v.len();
    let mut i: usize = 0;
    while i < n
        invariant
            i <= n,
            n == v@.len(),
            out@.len() == i,
            forall|k: int| 0 <= k < i ==> #[trigger] out@[k]@ == v@[k]@,
        decreases n - i,
    {
        out.push(v[i].clone());
        i += 1;
    }
    out
}

/// Clones a list of qubit declarations; the copy views element for
/// element like the list it came from.
fn clone_quantums(v: &Vec<QuantumRegister>) -> (r: Vec<QuantumRegister>)
    ensures
        r@.len() == v@.len(),
        forall|k: int| 0 <= k < v@.len() ==> #[trigger] r@[k]@ == v@[k]@,
{
    let mut out: Vec<QuantumRegister> = Vec::new();
    let n = v.len();
    let mut i: usize = 0;
    while i < n
        invariant
            i <= n,
            n == v@.len(),
            out@.len() == i,
            forall|k: int| 0 <= k < i ==> #[trigger] out@[k]@ == v@[k]@,
        decreases n - i,
    {
        out.push(v[i].clone());
        i += 1;
    }
    out
}

/// Clones a table of declared external functions; the copy views entry
/// for entry like the table it came from, insertion order kept.
pub(crate) fn clone_externals(v: &Vec<(String, FunctionType)>) -> (r: Vec<(String, FunctionType)>)
    ensures
        externals_view(r@) == externals_view(v@),
{
    let mut out: Vec<(String, FunctionType)> = Vec::new();
    let n = v.len();
    let mut i: usize = 0;
    while i < n
        invariant
            i <= n,
            n == v@.len(),
            out@.len() == i,
            forall|k: int| 0 <= k < i ==> #[trigger] out@[k].0@ == v@[k].0@ && out@[k].1@
                == v@[k].1@,
        decreases n - i,
    {
        let entry = &v[i];
        out.push((entry.0.clone(), entry.1.clone()));
        i += 1;
    }
    proof {
        assert(externals_view(out@) =~= externals_view(v@));
    }
    out
}

impl Clone for SemanticModel {
    /// Clones the whole program model; the copy has the same view.
    fn clone(&self) -> (r: Self)
        ensures
            r@ == self@,
    {
        let r = SemanticModel {
            name: self.name.clone(),
            registers: clone_classicals(&self.registers),
            qubits: clone_quantums(&self.qubits),
            instructions: crate::inst::clone_insts(&self.instructions),
            use_static_qubit_alloc: self.use_static_qubit_alloc,
            use_static_result_alloc: self.use_static_result_alloc,
            external_functions: clone_externals(&self.external_functions),
        };
        proof {
            assert(r@.registers =~= self@.registers);
            assert(r@.qubits =~= self@.qubits);
            assert(r@ =~= self@);
        }
        r
    }
}

} // verus!
