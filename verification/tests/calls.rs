use qirgen::builder::{BuildError, Builder, Function, Operand};
use qirgen::inst::Instruction;
use qirgen::module::SimpleModule;
use qirgen::types::{FunctionType, ReturnType, ValueType};
use qirgen::values::{Value, Variable};

fn unary_int_fn(width: u32, return_type: ReturnType) -> FunctionType {
    FunctionType { param_types: vec![ValueType::Integer { width }], return_type }
}

#[test]
fn undeclared_callee_is_refused() {
    let mut b = Builder::new();
    let f = Function { name: String::from("nowhere") };
    let r = b.call(&f, &vec![]);
    assert_eq!(r.unwrap_err(), BuildError::UnknownCallee);
    assert!(b.frames[0].is_empty());
}

#[test]
fn wrong_argument_count_is_an_arity_error() {
    let mut m = SimpleModule::new(String::from("arity"), 0, 0);
    let f = m.add_external_function(String::from("f"), unary_int_fn(8, ReturnType::Void));
    let r = m.builder.call(&f, &vec![]);
    assert_eq!(r.unwrap_err(), BuildError::ArityMismatch { expected: 1, got: 0 });
    let r = m.builder.call(&f, &vec![Operand::Int(1), Operand::Int(2)]);
    assert_eq!(r.unwrap_err(), BuildError::ArityMismatch { expected: 1, got: 2 });
    let model = m.model_from_builder().unwrap();
    assert!(model.instructions.is_empty());
}

#[test]
fn void_call_yields_no_value() {
    let mut m = SimpleModule::new(String::from("void"), 0, 0);
    let f = m.add_external_function(String::from("f"), unary_int_fn(8, ReturnType::Void));
    let r = m.builder.call(&f, &vec![Operand::Int(3)]).unwrap();
    assert!(r.is_none());
    let model = m.model_from_builder().unwrap();
    match &model.instructions[0] {
        Instruction::Call(c) => {
            assert_eq!(c.name, "f");
            assert_eq!(c.args.len(), 1);
            assert_eq!(c.args[0].type_of(), ValueType::Integer { width: 8 });
            assert!(c.result.is_none());
        },
        other => panic!("expected a call, got {:?}", other),
    }
}

#[test]
fn returning_call_allocates_one_variable() {
    let mut m = SimpleModule::new(String::from("ret"), 0, 0);
    let f = m.add_external_function(
        String::from("g"),
        unary_int_fn(8, ReturnType::Value(ValueType::Double)),
    );
    let r = m.builder.call(&f, &vec![Operand::Int(3)]).unwrap();
    let x0 = Variable::new(ValueType::Double);
    assert_eq!(r, Some(Value::Variable(x0)));
    let model = m.model_from_builder().unwrap();
    match &model.instructions[0] {
        Instruction::Call(c) => assert_eq!(c.result, Some(x0)),
        other => panic!("expected a call, got {:?}", other),
    }
}

#[test]
fn call_arguments_are_coerced_in_order() {
    let mut m = SimpleModule::new(String::from("args"), 1, 1);
    let q0 = m.qubits()[0];
    let r0 = m.results()[0];
    let ty = FunctionType {
        param_types: vec![
            ValueType::Integer { width: 4 },
            ValueType::Double,
            ValueType::Qubit,
            ValueType::Result,
        ],
        return_type: ReturnType::Void,
    };
    let f = m.add_external_function(String::from("mixed"), ty);
    let args = vec![
        Operand::Int(9),
        Operand::Double(f64::to_bits(0.25)),
        Operand::Qubit(q0),
        Operand::Result(r0),
    ];
    m.builder.call(&f, &args).unwrap();
    let model = m.model_from_builder().unwrap();
    match &model.instructions[0] {
        Instruction::Call(c) => {
            assert_eq!(c.args.len(), 4);
            assert_eq!(c.args[1], Value::Double(f64::to_bits(0.25)));
            assert_eq!(c.args[2], Value::Qubit(String::from("qubit0")));
            assert_eq!(c.args[3], Value::Result(String::from("result0")));
        },
        other => panic!("expected a call, got {:?}", other),
    }
}

#[test]
fn failing_argument_coercion_appends_nothing() {
    let mut m = SimpleModule::new(String::from("bad"), 0, 0);
    let f = m.add_external_function(String::from("f"), unary_int_fn(4, ReturnType::Void));
    // 16 needs 5 bits, the declared parameter has 4
    let r = m.builder.call(&f, &vec![Operand::Int(16)]);
    assert_eq!(r.unwrap_err(), BuildError::Overflow);
    // a qubit handle where an integer is declared
    let r = m.builder.call(&f, &vec![Operand::Qubit(qirgen::values::Qubit { index: 0 })]);
    assert_eq!(r.unwrap_err(), BuildError::TypeMismatch);
    let model = m.model_from_builder().unwrap();
    assert!(model.instructions.is_empty());
}

#[test]
fn calls_resolve_to_the_first_declaration() {
    let mut m = SimpleModule::new(String::from("dup"), 0, 0);
    let f = m.add_external_function(String::from("f"), unary_int_fn(8, ReturnType::Void));
    // a redeclaration under the same name is a caller defect; lookups keep
    // using the first signature
    m.add_external_function(
        String::from("f"),
        FunctionType { param_types: vec![], return_type: ReturnType::Void },
    );
    let r = m.builder.call(&f, &vec![]);
    assert_eq!(r.unwrap_err(), BuildError::ArityMismatch { expected: 1, got: 0 });
}
