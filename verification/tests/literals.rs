use qirgen::types::ValueType;
use qirgen::values::{Integer, Qubit, ResultRef, Value, Variable};

#[test]
fn integer_fits_exact_width() {
    let i = Integer::new(8, 255).expect("255 fits in 8 bits");
    assert_eq!(i.width(), 8);
    assert_eq!(i.value(), 255);
}

#[test]
fn integer_overflows_width() {
    assert!(Integer::new(8, 256).is_none());
}

#[test]
fn integer_zero_fits_any_width() {
    assert!(Integer::new(1, 0).is_some());
    assert!(Integer::new(64, 0).is_some());
}

#[test]
fn integer_one_bit() {
    assert!(Integer::new(1, 1).is_some());
    assert!(Integer::new(1, 2).is_none());
}

#[test]
fn integer_wide_values() {
    assert!(Integer::new(64, u64::MAX).is_some());
    assert!(Integer::new(63, u64::MAX).is_none());
    assert!(Integer::new(63, u64::MAX >> 1).is_some());
}

#[test]
fn value_type_derivation() {
    let i = Integer::new(16, 7).unwrap();
    assert_eq!(Value::Integer(i).type_of(), ValueType::Integer { width: 16 });
    assert_eq!(Value::Double(f64::to_bits(0.5)).type_of(), ValueType::Double);
    assert_eq!(Value::Qubit(String::from("qubit0")).type_of(), ValueType::Qubit);
    assert_eq!(Value::Result(String::from("result1")).type_of(), ValueType::Result);
    let v = Variable::new(ValueType::Double);
    assert_eq!(Value::Variable(v).type_of(), ValueType::Double);
}

#[test]
fn variable_ids_advance_by_one() {
    let ty = ValueType::Integer { width: 8 };
    let v0 = Variable::new(ty);
    let v1 = v0.next(ValueType::Double);
    let v2 = v1.next(ty);
    assert_ne!(v0, v1);
    assert_ne!(v1, v2);
    assert_eq!(v0, Variable::new(ty));
    assert_eq!(v2, Variable::new(ty).next(ValueType::Double).next(ty));
}

#[test]
fn qubit_identifier_derivation() {
    assert_eq!(Qubit { index: 0 }.id(), "qubit0");
    assert_eq!(Qubit { index: 7 }.id(), "qubit7");
    assert_eq!(Qubit { index: 12345 }.id(), "qubit12345");
    assert_eq!(Qubit { index: u64::MAX }.id(), format!("qubit{}", u64::MAX));
}

#[test]
fn result_identifier_derivation() {
    assert_eq!(ResultRef { index: 0 }.id(), "result0");
    assert_eq!(ResultRef { index: 10 }.id(), "result10");
    assert_eq!(ResultRef { index: 907 }.id(), "result907");
}

#[test]
fn equal_indices_are_indistinguishable() {
    assert_eq!(Qubit { index: 3 }, Qubit { index: 3 });
    assert_eq!(Qubit { index: 3 }.id(), Qubit { index: 3 }.id());
    assert_eq!(ResultRef { index: 2 }, ResultRef { index: 2 });
}
