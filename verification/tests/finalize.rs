use qirgen::builder::{BuildError, Builder, Operand};
use qirgen::inst::{Controlled, Instruction, Measured, Rotated, Single};
use qirgen::model::{ClassicalRegister, QuantumRegister, Register, SemanticModel};
use qirgen::module::SimpleModule;
use qirgen::values::Value;

#[test]
fn new_module_declares_registers_and_flags() {
    let m = SimpleModule::new(String::from("prog"), 3, 2);
    assert_eq!(m.model.name, "prog");
    assert_eq!(m.model.registers.len(), 1);
    assert_eq!(m.model.registers[0], ClassicalRegister::new(String::from("result"), 2));
    assert_eq!(m.model.qubits.len(), 3);
    for (k, q) in m.model.qubits.iter().enumerate() {
        assert_eq!(*q, QuantumRegister::new(String::from("qubit"), k as u64));
    }
    assert!(m.model.use_static_qubit_alloc);
    assert!(m.model.use_static_result_alloc);
    assert_eq!(m.qubits().len(), 3);
    assert_eq!(m.results().len(), 2);
}

#[test]
fn semantic_model_defaults_and_registers() {
    let mut model = SemanticModel::new(String::from("m"));
    assert!(!model.use_static_qubit_alloc);
    assert!(model.use_static_result_alloc);
    assert!(model.registers.is_empty());
    assert!(model.qubits.is_empty());
    let q = QuantumRegister::new(String::from("q"), 0);
    let c = ClassicalRegister::new(String::from("c"), 4);
    assert_eq!(q.as_register(), Register::Quantum(q.clone()));
    assert_eq!(c.as_register(), Register::Classical(c.clone()));
    model.add_reg(&q.as_register());
    model.add_reg(&c.as_register());
    assert_eq!(model.qubits, vec![q]);
    assert_eq!(model.registers, vec![c]);
    model.add_inst(Instruction::H(Single { qubit: String::from("qubit0") }));
    assert_eq!(model.instructions.len(), 1);
}

#[test]
fn allocation_flags_can_be_toggled() {
    let mut m = SimpleModule::new(String::from("flags"), 0, 0);
    m.use_static_qubit_alloc(false);
    m.use_static_result_alloc(false);
    assert!(!m.model.use_static_qubit_alloc);
    assert!(!m.model.use_static_result_alloc);
    m.use_static_qubit_alloc(true);
    assert!(m.model.use_static_qubit_alloc);
}

#[test]
fn representative_program_builds_in_order() {
    let mut m = SimpleModule::new(String::from("bell"), 2, 2);
    let qs = m.qubits();
    let rs = m.results();
    m.builder.h(&qs[0]);
    m.builder.cx(&qs[0], &qs[1]);
    m.builder.m(&qs[0], &rs[0]);
    m.builder.m(&qs[1], &rs[1]);
    let model = m.model_from_builder().unwrap();
    assert_eq!(model.qubits.len(), 2);
    assert_eq!(model.registers[0].size, 2);
    assert_eq!(
        model.instructions,
        vec![
            Instruction::H(Single { qubit: String::from("qubit0") }),
            Instruction::Cx(Controlled {
                control: String::from("qubit0"),
                target: String::from("qubit1"),
            }),
            Instruction::M(Measured {
                qubit: String::from("qubit0"),
                target: String::from("result0"),
            }),
            Instruction::M(Measured {
                qubit: String::from("qubit1"),
                target: String::from("result1"),
            }),
        ]
    );
}

#[test]
fn every_gate_is_recorded_under_its_own_variant() {
    let mut m = SimpleModule::new(String::from("gates"), 1, 1);
    let q = m.qubits()[0];
    let theta = Operand::Double(f64::to_bits(0.5));
    m.builder.s(&q);
    m.builder.s_adj(&q);
    m.builder.t(&q);
    m.builder.t_adj(&q);
    m.builder.x(&q);
    m.builder.y(&q);
    m.builder.z(&q);
    m.builder.reset(&q);
    m.builder.cz(&q, &q);
    m.builder.rx(&theta, &q).unwrap();
    m.builder.ry(&theta, &q).unwrap();
    m.builder.rz(&theta, &q).unwrap();
    let model = m.model_from_builder().unwrap();
    let single = Single { qubit: String::from("qubit0") };
    let rot = Rotated { theta: Value::Double(f64::to_bits(0.5)), qubit: String::from("qubit0") };
    assert_eq!(
        model.instructions,
        vec![
            Instruction::S(single.clone()),
            Instruction::SAdj(single.clone()),
            Instruction::T(single.clone()),
            Instruction::TAdj(single.clone()),
            Instruction::X(single.clone()),
            Instruction::Y(single.clone()),
            Instruction::Z(single.clone()),
            Instruction::Reset(single.clone()),
            Instruction::Cz(Controlled {
                control: String::from("qubit0"),
                target: String::from("qubit0"),
            }),
            Instruction::Rx(rot.clone()),
            Instruction::Ry(rot.clone()),
            Instruction::Rz(rot),
        ]
    );
}

#[test]
fn typed_value_angle_is_used_as_is() {
    // an operand that is already a typed value passes through coercion
    // untouched, even against the double type its own type decides
    let mut m = SimpleModule::new(String::from("angle"), 1, 1);
    let q = m.qubits()[0];
    let angle = Value::Integer(qirgen::values::Integer::new(8, 3).unwrap());
    m.builder.rx(&Operand::Value(angle.clone()), &q).unwrap();
    let model = m.model_from_builder().unwrap();
    match &model.instructions[0] {
        Instruction::Rx(rot) => assert_eq!(rot.theta, angle),
        other => panic!("expected a rotation, got {:?}", other),
    }
}

#[test]
fn rotation_angle_must_coerce_to_double() {
    let mut m = SimpleModule::new(String::from("rot"), 1, 1);
    let q = m.qubits()[0];
    let r = m.builder.rx(&Operand::Int(1), &q);
    assert_eq!(r.unwrap_err(), BuildError::TypeMismatch);
    let model = m.model_from_builder().unwrap();
    assert!(model.instructions.is_empty());
}

#[test]
fn unclosed_frame_is_refused_at_finalization() {
    let mut m = SimpleModule::new(String::from("deep"), 1, 1);
    let q = m.qubits()[0];
    m.builder.push_frame();
    m.builder.x(&q);
    // the conditional was never sealed: two frames remain
    let r = m.model_from_builder();
    assert_eq!(r.unwrap_err(), BuildError::UnbalancedFrames);
}

#[test]
fn overpopped_stack_is_refused_at_finalization() {
    let mut m = SimpleModule::new(String::from("shallow"), 0, 0);
    let popped = m.builder.pop_frame();
    assert!(popped.is_some());
    assert!(m.builder.pop_frame().is_none());
    let r = m.model_from_builder();
    assert_eq!(r.unwrap_err(), BuildError::UnbalancedFrames);
}

#[test]
fn snapshot_is_independent_of_later_mutation() {
    let mut m = SimpleModule::new(String::from("snap"), 1, 1);
    let q = m.qubits()[0];
    m.builder.h(&q);
    let model = m.model_from_builder().unwrap();
    assert_eq!(model.instructions.len(), 1);
    m.builder.x(&q);
    // the earlier snapshot is untouched by later building
    assert_eq!(model.instructions.len(), 1);
    let model2 = m.model_from_builder().unwrap();
    assert_eq!(model2.instructions.len(), 2);
}

#[test]
fn instructions_clone_deeply() {
    let inner = Instruction::X(Single { qubit: String::from("qubit0") });
    let cond = Instruction::If(qirgen::inst::If {
        condition: String::from("result0"),
        then_insts: vec![inner],
        else_insts: vec![],
    });
    let copy = cond.clone();
    assert_eq!(copy, cond);
    let mut model = SemanticModel::new(String::from("orig"));
    model.add_inst(cond);
    let twin = model.clone();
    assert_eq!(twin.instructions, model.instructions);
    assert_eq!(twin.name, model.name);
}

#[test]
fn finalized_model_carries_builder_contents() {
    let mut b = Builder::new();
    assert_eq!(b.frames.len(), 1);
    b.push_frame();
    assert_eq!(b.frames.len(), 2);
    let top = b.pop_frame().unwrap();
    assert!(top.is_empty());
    let mut m = SimpleModule::new(String::from("carry"), 1, 1);
    let q = m.qubits()[0];
    m.builder.h(&q);
    let model = m.model_from_builder().unwrap();
    assert_eq!(model.name, "carry");
    assert_eq!(model.instructions.len(), 1);
    assert!(model.external_functions.is_empty());
}
