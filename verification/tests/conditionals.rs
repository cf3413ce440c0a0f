use qirgen::builder::Operand;
use qirgen::inst::{If, Instruction, Single};
use qirgen::module::SimpleModule;
use qirgen::types::ValueType;
use qirgen::values::{Integer, Value, Variable};

fn int_operand(width: u32, value: u64) -> Operand {
    Operand::Value(Value::Integer(Integer::new(width, value).unwrap()))
}

#[test]
fn empty_then_branch_and_nontrivial_else_branch() {
    let mut m = SimpleModule::new(String::from("cond"), 1, 1);
    let q0 = m.qubits()[0];
    let r0 = m.results()[0];

    // no "then" logic: the frame opens and closes untouched
    m.builder.push_frame();
    let then_insts = m.builder.pop_frame().unwrap();
    // the "else" logic appends two gates
    m.builder.push_frame();
    m.builder.x(&q0);
    m.builder.y(&q0);
    let else_insts = m.builder.pop_frame().unwrap();
    m.builder.if_result(&r0, then_insts, else_insts);

    let model = m.model_from_builder().unwrap();
    assert_eq!(model.instructions.len(), 1);
    let expected = Instruction::If(If {
        condition: String::from("result0"),
        then_insts: vec![],
        else_insts: vec![
            Instruction::X(Single { qubit: String::from("qubit0") }),
            Instruction::Y(Single { qubit: String::from("qubit0") }),
        ],
    });
    assert_eq!(model.instructions[0], expected);
}

#[test]
fn variable_ids_advance_across_nested_branches() {
    // allocations: an addition, then a conditional whose "then" branch
    // holds one addition and whose "else" branch holds none, then another
    // addition: ids 0, 1, 2 in that order
    let mut m = SimpleModule::new(String::from("ids"), 1, 1);
    let r0 = m.results()[0];
    let ty = ValueType::Integer { width: 8 };
    let x0 = Variable::new(ty);
    let x1 = x0.next(ty);
    let x2 = x1.next(ty);

    let v1 = m.builder.add(&int_operand(8, 1), &Operand::Int(2)).unwrap();
    assert_eq!(v1, Value::Variable(x0));

    m.builder.push_frame();
    let v2 = m.builder.add(&int_operand(8, 3), &Operand::Int(4)).unwrap();
    assert_eq!(v2, Value::Variable(x1));
    let then_insts = m.builder.pop_frame().unwrap();
    m.builder.push_frame();
    let else_insts = m.builder.pop_frame().unwrap();
    m.builder.if_result(&r0, then_insts, else_insts);

    let v3 = m.builder.add(&int_operand(8, 5), &Operand::Int(6)).unwrap();
    assert_eq!(v3, Value::Variable(x2));

    let model = m.model_from_builder().unwrap();
    assert_eq!(model.instructions.len(), 3);
    match &model.instructions[1] {
        Instruction::If(i) => {
            assert_eq!(i.then_insts.len(), 1);
            assert!(i.else_insts.is_empty());
            match &i.then_insts[0] {
                Instruction::BinaryOp(op) => assert_eq!(op.result, x1),
                other => panic!("expected a binary operation, got {:?}", other),
            }
        },
        other => panic!("expected a conditional, got {:?}", other),
    }
    match &model.instructions[2] {
        Instruction::BinaryOp(op) => assert_eq!(op.result, x2),
        other => panic!("expected a binary operation, got {:?}", other),
    }
}

#[test]
fn nested_conditionals_keep_outer_frames_untouched() {
    let mut m = SimpleModule::new(String::from("nested"), 1, 2);
    let q0 = m.qubits()[0];
    let r0 = m.results()[0];
    let r1 = m.results()[1];

    m.builder.h(&q0);
    m.builder.push_frame();
    {
        // an inner conditional nested in the outer "then" branch
        m.builder.push_frame();
        m.builder.z(&q0);
        let inner_then = m.builder.pop_frame().unwrap();
        m.builder.push_frame();
        let inner_else = m.builder.pop_frame().unwrap();
        m.builder.if_result(&r1, inner_then, inner_else);
    }
    let outer_then = m.builder.pop_frame().unwrap();
    m.builder.push_frame();
    let outer_else = m.builder.pop_frame().unwrap();
    m.builder.if_result(&r0, outer_then, outer_else);

    let model = m.model_from_builder().unwrap();
    assert_eq!(model.instructions.len(), 2);
    assert_eq!(
        model.instructions[0],
        Instruction::H(Single { qubit: String::from("qubit0") })
    );
    match &model.instructions[1] {
        Instruction::If(outer) => {
            assert_eq!(outer.condition, "result0");
            assert_eq!(outer.then_insts.len(), 1);
            assert!(outer.else_insts.is_empty());
            match &outer.then_insts[0] {
                Instruction::If(inner) => {
                    assert_eq!(inner.condition, "result1");
                    assert_eq!(
                        inner.then_insts,
                        vec![Instruction::Z(Single { qubit: String::from("qubit0") })]
                    );
                    assert!(inner.else_insts.is_empty());
                },
                other => panic!("expected the inner conditional, got {:?}", other),
            }
        },
        other => panic!("expected the outer conditional, got {:?}", other),
    }
}
