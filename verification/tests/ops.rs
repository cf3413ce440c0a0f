use qirgen::builder::{BuildError, Builder, Operand};
use qirgen::inst::{BinaryKind, Instruction};
use qirgen::types::{IntPredicate, ValueType};
use qirgen::values::{Integer, Value, Variable};

fn int_value(width: u32, value: u64) -> Value {
    Value::Integer(Integer::new(width, value).unwrap())
}

#[test]
fn add_coerces_raw_literal_to_typed_side() {
    let mut b = Builder::new();
    let r = b.add(&Operand::Value(int_value(8, 1)), &Operand::Int(2)).unwrap();
    let ty = ValueType::Integer { width: 8 };
    assert_eq!(r, Value::Variable(Variable::new(ty)));
    match &b.frames[0][0] {
        Instruction::BinaryOp(op) => {
            assert_eq!(op.kind, BinaryKind::Add);
            assert_eq!(op.lhs, int_value(8, 1));
            assert_eq!(op.rhs, int_value(8, 2));
            assert_eq!(op.result, Variable::new(ty));
        },
        other => panic!("expected a binary operation, got {:?}", other),
    }
}

#[test]
fn typed_right_side_infers_left_literal() {
    let mut b = Builder::new();
    let r = b.sub(&Operand::Int(5), &Operand::Value(int_value(16, 9))).unwrap();
    // the result is typed by the resolved left operand: the coerced literal
    assert_eq!(r, Value::Variable(Variable::new(ValueType::Integer { width: 16 })));
    match &b.frames[0][0] {
        Instruction::BinaryOp(op) => {
            assert_eq!(op.kind, BinaryKind::Sub);
            assert_eq!(op.lhs, int_value(16, 5));
            assert_eq!(op.rhs, int_value(16, 9));
        },
        other => panic!("expected a binary operation, got {:?}", other),
    }
}

#[test]
fn two_raw_literals_are_a_type_mismatch() {
    let mut b = Builder::new();
    let r = b.mul(&Operand::Int(1), &Operand::Int(2));
    assert_eq!(r.unwrap_err(), BuildError::TypeMismatch);
    assert!(b.frames[0].is_empty());
}

#[test]
fn literal_too_wide_is_an_overflow() {
    let mut b = Builder::new();
    let r = b.add(&Operand::Value(int_value(8, 1)), &Operand::Int(256));
    assert_eq!(r.unwrap_err(), BuildError::Overflow);
    assert!(b.frames[0].is_empty());
}

#[test]
fn comparison_kinds_are_recorded() {
    let mut b = Builder::new();
    b.icmp_eq(&Operand::Value(int_value(8, 1)), &Operand::Int(1)).unwrap();
    b.icmp_neq(&Operand::Value(int_value(8, 1)), &Operand::Int(1)).unwrap();
    b.icmp_ugt(&Operand::Value(int_value(8, 1)), &Operand::Int(1)).unwrap();
    b.icmp_uge(&Operand::Value(int_value(8, 1)), &Operand::Int(1)).unwrap();
    b.icmp_ult(&Operand::Value(int_value(8, 1)), &Operand::Int(1)).unwrap();
    b.icmp_ule(&Operand::Value(int_value(8, 1)), &Operand::Int(1)).unwrap();
    b.icmp_sgt(&Operand::Value(int_value(8, 1)), &Operand::Int(1)).unwrap();
    b.icmp_sge(&Operand::Value(int_value(8, 1)), &Operand::Int(1)).unwrap();
    b.icmp_slt(&Operand::Value(int_value(8, 1)), &Operand::Int(1)).unwrap();
    b.icmp_sle(&Operand::Value(int_value(8, 1)), &Operand::Int(1)).unwrap();
    let expected = [
        IntPredicate::EQ,
        IntPredicate::NE,
        IntPredicate::UGT,
        IntPredicate::UGE,
        IntPredicate::ULT,
        IntPredicate::ULE,
        IntPredicate::SGT,
        IntPredicate::SGE,
        IntPredicate::SLT,
        IntPredicate::SLE,
    ];
    assert_eq!(b.frames[0].len(), 10);
    for (inst, pred) in b.frames[0].iter().zip(expected.iter()) {
        match inst {
            Instruction::BinaryOp(op) => assert_eq!(op.kind, BinaryKind::ICmp(*pred)),
            other => panic!("expected a comparison, got {:?}", other),
        }
    }
}

#[test]
fn logic_and_shift_kinds_are_recorded() {
    let mut b = Builder::new();
    b.and(&Operand::Value(int_value(8, 1)), &Operand::Int(1)).unwrap();
    b.or(&Operand::Value(int_value(8, 1)), &Operand::Int(1)).unwrap();
    b.xor(&Operand::Value(int_value(8, 1)), &Operand::Int(1)).unwrap();
    b.shl(&Operand::Value(int_value(8, 1)), &Operand::Int(1)).unwrap();
    b.lshr(&Operand::Value(int_value(8, 1)), &Operand::Int(1)).unwrap();
    let expected = [
        BinaryKind::And,
        BinaryKind::Or,
        BinaryKind::Xor,
        BinaryKind::Shl,
        BinaryKind::LShr,
    ];
    for (inst, kind) in b.frames[0].iter().zip(expected.iter()) {
        match inst {
            Instruction::BinaryOp(op) => assert_eq!(op.kind, *kind),
            other => panic!("expected a binary operation, got {:?}", other),
        }
    }
}

#[test]
fn typed_operands_are_used_as_given() {
    // when both operands already carry a type, neither is coerced and the
    // pair is recorded as given; checking that the types agree is left to
    // the backend
    let mut b = Builder::new();
    let r = b.add(
        &Operand::Value(int_value(8, 1)),
        &Operand::Value(Value::Double(f64::to_bits(2.0))),
    );
    assert!(r.is_ok());
    match &b.frames[0][0] {
        Instruction::BinaryOp(op) => {
            assert_eq!(op.lhs, int_value(8, 1));
            assert_eq!(op.rhs, Value::Double(f64::to_bits(2.0)));
        },
        other => panic!("expected a binary operation, got {:?}", other),
    }
}

#[test]
fn neg_writes_zero_minus_value() {
    let mut b = Builder::new();
    let r = b.neg(int_value(8, 5)).unwrap();
    assert_eq!(r, Value::Variable(Variable::new(ValueType::Integer { width: 8 })));
    match &b.frames[0][0] {
        Instruction::BinaryOp(op) => {
            assert_eq!(op.kind, BinaryKind::Sub);
            assert_eq!(op.lhs, int_value(8, 0));
            assert_eq!(op.rhs, int_value(8, 5));
        },
        other => panic!("expected a binary operation, got {:?}", other),
    }
}

#[test]
fn neg_refuses_non_integer() {
    let mut b = Builder::new();
    let r = b.neg(Value::Double(f64::to_bits(1.5)));
    assert_eq!(r.unwrap_err(), BuildError::TypeMismatch);
    assert!(b.frames[0].is_empty());
}
