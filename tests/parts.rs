use werbolg::{literal_mapper, CompilationError, Literal};
use werbolg::{
    _check_arity, copy_value, literal_to_value, nif_bool_eq, nif_expect_bool_eq,
    nif_expect_int_eq, nif_int_eq, ConstrId, Decimal, ExecutionError, FunId, Id, IdRemapper,
    MyLiteral, Number, Value, ValueKind,
};

#[test]
fn id_arithmetic() {
    assert_eq!(Id(7).as_index(), 7usize);
    assert_eq!(Id::from_slice_len(&[1, 2, 3]), Id(3));
    assert_eq!(Id::from_collection_len(12), Id(12));
    assert_eq!(Id::remap(Id(4), Id(10)), Id(14));
    assert_eq!(Id::add(Id(4), 3), Id(7));
    assert_eq!(Id::diff(Id(9), Id(4)), 5);
}

#[test]
fn id_remapper() {
    let f = FunId::cat(Id(5));
    assert_eq!(f, FunId(Id(5)));
    assert_eq!(f.uncat(), Id(5));
    assert_eq!(ConstrId::cat(Id(2)).uncat(), Id(2));
}

#[test]
fn ident_matches() {
    let a = werbolg::ast::Ident(String::from("main"));
    assert!(a.matches("main"));
    assert!(!a.matches("mai"));
    assert!(!a.matches("maim"));
    let i = werbolg::ir::Ident(String::from("bool_eq"));
    assert!(i.matches("bool_eq"));
    assert!(!i.matches("int_eq"));
}

#[test]
fn number_parsing() {
    assert!(Number::from_str_radix("ff", 16).is_ok());
    assert_eq!(format!("{:?}", Number::from_str_radix("-12", 10).unwrap().0), "-12");
    assert!(Number::from_str_radix("1_000", 10).is_ok());
    assert!(Number::from_str_radix("12a", 10).is_err());
    assert!(Number::from_str_radix("", 10).is_err());
    assert!(Number::from_str_radix("_1", 10).is_err());
    assert!(Number::from_str_radix("-+1", 10).is_err());
}

#[test]
fn decimal_parsing() {
    assert!(Decimal::from_str("1.5").is_ok());
    assert!(Decimal::from_str("").is_err());
    assert!(Decimal::from_str("abc").is_err());
}

#[test]
fn literals_to_values() {
    assert_eq!(literal_to_value(&MyLiteral::Int(9)), Value::Integral(9));
    assert_eq!(literal_to_value(&MyLiteral::Bool(true)), Value::Bool(true));
}

#[test]
fn equality_nifs() {
    let t = Value::Bool(true);
    let f = Value::Bool(false);
    assert_eq!(nif_bool_eq(&[t.clone(), f.clone()]), Ok(Value::Bool(false)));
    assert_eq!(nif_bool_eq(&[t.clone(), t.clone()]), Ok(Value::Bool(true)));
    assert_eq!(nif_int_eq(&[Value::Integral(3), Value::Integral(3)]), Ok(Value::Bool(true)));
    assert_eq!(
        nif_int_eq(&[Value::Integral(3), Value::Bool(true)]),
        Err(ExecutionError::ValueKindUnexpected {
            value_expected: ValueKind::Integral,
            value_got: ValueKind::Bool,
        })
    );
    assert_eq!(
        nif_bool_eq(&[t.clone()]),
        Err(ExecutionError::ArityError { expected: 2, got: 1 })
    );
}

#[test]
fn expectation_nifs() {
    assert_eq!(
        nif_expect_bool_eq(&[Value::Bool(true), Value::Bool(true)]),
        Ok(Value::Bool(true))
    );
    assert_eq!(
        nif_expect_bool_eq(&[Value::Bool(true), Value::Bool(false)]),
        Err(ExecutionError::AssertionFailed)
    );
    assert_eq!(
        nif_expect_int_eq(&[Value::Integral(1), Value::Integral(2)]),
        Err(ExecutionError::AssertionFailed)
    );
    assert_eq!(
        nif_expect_int_eq(&[Value::Integral(2), Value::Integral(2)]),
        Ok(Value::Bool(true))
    );
}

#[test]
fn arity_check() {
    assert_eq!(_check_arity(2, 2), Ok(()));
    assert_eq!(_check_arity(2, 3), Err(ExecutionError::ArityError { expected: 2, got: 3 }));
}

#[test]
fn deep_copy_of_struct() {
    let v = Value::Struct(
        ConstrId(Id(1)),
        vec![Value::Unit, Value::Struct(ConstrId(Id(0)), vec![Value::Integral(3)])],
    );
    assert_eq!(copy_value(&v), v);
    assert_eq!(v.clone(), v);
    assert_eq!(v.kind(), ValueKind::Struct);
    assert_eq!(Value::Unit.bool(), Err(ExecutionError::ValueKindUnexpected {
        value_expected: ValueKind::Bool,
        value_got: ValueKind::Unit,
    }));
}

#[test]
fn basic_ident_matches() {
    let i = werbolg::ir::basic::Ident(String::from("x"));
    assert!(i.matches("x"));
    assert!(!i.matches("y"));
}

#[test]
fn literal_mapping() {
    assert_eq!(literal_mapper(Literal::Bool(String::from("true"))), Ok(MyLiteral::Bool(true)));
    assert_eq!(literal_mapper(Literal::Bool(String::from("false"))), Ok(MyLiteral::Bool(false)));
    assert_eq!(literal_mapper(Literal::Number(String::from("42"))), Ok(MyLiteral::Int(42)));
    assert_eq!(literal_mapper(Literal::Number(String::from("+7"))), Ok(MyLiteral::Int(7)));
    assert_eq!(
        literal_mapper(Literal::Number(String::from("18446744073709551616"))),
        Err(CompilationError::LiteralInvalid(Literal::Number(String::from(
            "18446744073709551616"
        ))))
    );
    assert_eq!(
        literal_mapper(Literal::String(String::from("s"))),
        Err(CompilationError::LiteralNotSupported(Literal::String(String::from("s"))))
    );
}

#[test]
fn idents_from_text() {
    assert!(werbolg::ast::Ident::from("a").matches("a"));
    assert!(werbolg::ast::Ident::from(String::from("b")).matches("b"));
    assert!(werbolg::ir::Ident::from("c").matches("c"));
    assert!(werbolg::ir::basic::Ident::from(String::from("d")).matches("d"));
}
