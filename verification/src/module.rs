//! The program-level facade: owns the semantic model fixed at program
//! creation and the builder that assembles the instruction stream, and
//! finalizes the two into one immutable model.

use vstd::prelude::*;
use vstd::string::StringExecFns;
use crate::builder::{BuildError, Builder, Function};
use crate::inst::InstructionView;
use crate::model::{
    ClassicalRegister, ClassicalRegisterView, QuantumRegister, QuantumRegisterView, SemanticModel,
    SemanticModelView,
};
use crate::types::{FunctionType, FunctionTypeView};
use crate::values::{qubit_prefix, result_prefix, Qubit, ResultRef};

verus! {

/// One program under construction: the semantic model holding the
/// registers fixed at creation time, and the builder that collects
/// instructions and external-function declarations until finalization.
pub struct SimpleModule {
    pub model: SemanticModel,
    pub builder: Builder,
}

impl SimpleModule {
    /// A new program with the given name, one quantum register of
    /// `num_qubits` qubits named after the qubit prefix, and one classical
    /// register of capacity `num_results` named after the result prefix.
    /// Both allocation-strategy flags start on, the instruction list is
    /// empty, and the builder is fresh.
    pub fn new(name: String, num_qubits: u64, num_results: u64) -> (m: SimpleModule)
        ensures
            m.model@.name == name@,
            m.model@.registers =~= seq![
                (ClassicalRegisterView { name: result_prefix(), size: num_results }),
            ],
            m.model@.qubits.len() == num_qubits,
            forall|k: int|
                0 <= k < num_qubits ==> m.model@.qubits[k] == (QuantumRegisterView {
                    name: qubit_prefix(),
                    index: k as u64,
                }),
            m.model@.instructions == Seq::<InstructionView>::empty(),
            m.model@.use_static_qubit_alloc == true,
            m.model@.use_static_result_alloc == true,
            m.model@.external_functions == Seq::<(Seq<char>, FunctionTypeView)>::empty(),
            m.builder@.frames == seq![Seq::<InstructionView>::empty()],
            m.builder@.external_functions == Seq::<(Seq<char>, FunctionTypeView)>::empty(),
            m.builder@.last_variable is None,
    {
        let mut registers: Vec<ClassicalRegister> = Vec::new();
        let result_name = String::from_str("result");
        proof {
            reveal_strlit("result");
            assert(result_name@ =~= result_prefix());
        }
        registers.push(ClassicalRegister::new(result_name, num_results));
        let mut qubits: Vec<QuantumRegister> = Vec::new();
        let mut i: u64 = 0;
        while i < num_qubits
            invariant
                i <= num_qubits,
                qubits@.len() == i,
                forall|k: int|
                    0 <= k < i ==> qubits@[k]@ == (QuantumRegisterView {
                        name: qubit_prefix(),
                        index: k as u64,
                    }),
            decreases num_qubits - i,
        {
            let qubit_name = String::from_str("qubit");
            proof {
                reveal_strlit("qubit");
                assert(qubit_name@ =~= qubit_prefix());
            }
            qubits.push(QuantumRegister::new(qubit_name, i));
            i += 1;
        }
        let model = SemanticModel {
            name,
            registers,
            qubits,
            instructions: Vec::new(),
            use_static_qubit_alloc: true,
            use_static_result_alloc: true,
            external_functions: Vec::new(),
        };
        let m = SimpleModule { model, builder: Builder::new() };
        proof {
            assert(m.model@.registers =~= seq![
                (ClassicalRegisterView { name: result_prefix(), size: num_results }),
            ]);
            assert(m.model@.instructions =~= Seq::<InstructionView>::empty());
            assert(m.model@.external_functions =~= Seq::<(Seq<char>, FunctionTypeView)>::empty());
        }
        m
    }

    /// Handles to the program's qubits, one per declared qubit, carrying
    /// the same indices in the same order.
    pub fn qubits(&self) -> (r: Vec<Qubit>)
        ensures
            r@.len() == self.model@.qubits.len(),
            forall|k: int| 0 <= k < r@.len() ==> r@[k].index == self.model@.qubits[k].index,
    {
        let mut out: Vec<Qubit> = Vec::new();
        let n = self.model.qubits.len();
        let mut i: usize = 0;
        while i < n
            invariant
                i <= n,
                n == self.model@.qubits.len(),
                out@.len() == i,
                forall|k: int| 0 <= k < i ==> out@[k].index == self.model@.qubits[k].index,
            decreases n - i,
        {
            out.push(Qubit { index: self.model.qubits[i].index });
            i += 1;
        }
        out
    }

    /// Handles to the slots of the result register, one per slot of the
    /// first declared classical register, indexed densely from 0.
    pub fn results(&self) -> (r: Vec<ResultRef>)
        requires
            self.model@.registers.len() >= 1,
        ensures
            r@.len() == self.model@.registers[0].size,
            forall|k: int| 0 <= k < r@.len() ==> r@[k].index == k as u64,
    {
        let size = self.model.registers[0].size;
        let mut out: Vec<ResultRef> = Vec::new();
        let mut i: u64 = 0;
        while i < size
            invariant
                i <= size,
                out@.len() == i,
                forall|k: int| 0 <= k < i ==> out@[k].index == k as u64,
            decreases size - i,
        {
            out.push(ResultRef { index: i });
            i += 1;
        }
        out
    }

    /// The builder assembling this program's instruction stream.
    pub fn builder(&self) -> (b: &Builder)
        ensures
            b == &self.builder,
    {
        &self.builder
    }

    /// Declares an external function on the underlying builder and returns
    /// the handle used to call it.
    pub fn add_external_function(&mut self, name: String, ty: FunctionType) -> (f: Function)
        ensures
            final(self).model == old(self).model,
            final(self).builder@.external_functions == old(
                self,
            ).builder@.external_functions.push((name@, ty@)),
            final(self).builder@.frames == old(self).builder@.frames,
            final(self).builder@.last_variable == old(self).builder@.last_variable,
            f@ == name@,
    {
        self.builder.add_external_function(name, ty)
    }

    /// Chooses whether the backend may allocate qubits statically.
    pub fn use_static_qubit_alloc(&mut self, value: bool)
        ensures
            final(self).model@ == (SemanticModelView {
                use_static_qubit_alloc: value,
                ..old(self).model@
            }),
            final(self).builder == old(self).builder,
    {
        self.model.use_static_qubit_alloc = value;
    }

    /// Chooses whether the backend may allocate result slots statically.
    pub fn use_static_result_alloc(&mut self, value: bool)
        ensures
            final(self).model@ == (SemanticModelView {
                use_static_result_alloc: value,
                ..old(self).model@
            }),
            final(self).builder == old(self).builder,
    {
        self.model.use_static_result_alloc = value;
    }

    /// Finalizes the build into one immutable snapshot. The frame stack
    /// must hold exactly one frame — a build left inside an unfinished
    /// conditional scope, or one that popped too far, is refused rather
    /// than silently truncated. On success the remaining frame becomes the
    /// model's instruction list and the builder's declarations become its
    /// external-function list. The snapshot has value semantics: mutating
    /// the builder afterwards never reaches into a model taken earlier.
    pub fn model_from_builder(&self) -> (r: Result<SemanticModel, BuildError>)
        ensures
            self.builder@.frames.len() == 1 ==> (r matches Ok(m) && m@ == (SemanticModelView {
                instructions: self.builder@.frames[0],
                external_functions: self.builder@.external_functions,
                ..self.model@
            })),
            self.builder@.frames.len() != 1 ==> r == Err::<SemanticModel, BuildError>(
                BuildError::UnbalancedFrames,
            ),
    {
        if self.builder.frames.len() != 1 {
            return Err(BuildError::UnbalancedFrames);
        }
        let m = SemanticModel {
            instructions: crate::inst::clone_insts(&self.builder.frames[0]),
            external_functions: crate::model::clone_externals(&self.builder.external_functions),
            ..self.model.clone()
        };
        proof {
            assert(m@ =~= (SemanticModelView {
                instructions: self.builder@.frames[0],
                external_functions: self.builder@.external_functions,
                ..self.model@
            }));
        }
        Ok(m)
    }
}

} // verus!
