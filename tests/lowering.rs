use leo_types::ir::{
    CircuitFieldDefinition, Expression, Identifier, Integer, IntegerType, RangeOrExpression,
    SpreadOrExpression,
};
use leo_types::lower::LowerError;
use leo_types::syntax::{
    Access, Assignee, AssigneeAccess, BinaryOperation, CircuitField, Expression as Ast,
    RangeOrExpression as AstRange, SpreadOrExpression as AstSpread, Value,
};

fn id(name: &str) -> Identifier {
    Identifier { name: name.to_string() }
}

fn var(name: &str) -> Ast {
    Ast::Identifier(id(name))
}

fn implicit(text: &str) -> Ast {
    Ast::Value(Value::Implicit(text.to_string()))
}

fn lower(e: &Ast) -> Expression {
    Expression::from_expression(e).unwrap()
}

fn ir_var(name: &str) -> Box<Expression> {
    Box::new(Expression::Identifier(id(name)))
}

fn ir_implicit(text: &str) -> Box<Expression> {
    Box::new(Expression::Implicit(text.to_string()))
}

#[test]
fn renders_addition_of_integer() {
    let e = Expression::Add(
        ir_var("x"),
        Box::new(Expression::Integer(Integer { number: "5".to_string(), integer_type: IntegerType::U32 })),
    );
    assert_eq!(e.to_string(), "x + 5");
}

#[test]
fn rendering_twice_gives_same_text() {
    let e = lower(&Ast::Ternary(Box::new(var("c")), Box::new(implicit("1")), Box::new(implicit("2"))));
    assert_eq!(e.to_string(), e.to_string());
    assert_eq!(e.to_string(), "if c then 1 else 2 fi");
}

#[test]
fn postfix_chain_nests_left() {
    let e = lower(&Ast::Postfix(
        id("a"),
        vec![
            Access::Array(AstRange::Expression(implicit("1"))),
            Access::Object(id("b")),
            Access::Call(vec![implicit("2")]),
        ],
    ));
    let expected = Expression::FunctionCall(
        Box::new(Expression::CircuitMemberAccess(
            Box::new(Expression::ArrayAccess(ir_var("a"), Box::new(RangeOrExpression::Expression(*ir_implicit("1"))))),
            id("b"),
        )),
        vec![*ir_implicit("2")],
    );
    assert_eq!(e, expected);
    assert_eq!(e.to_string(), "a[1].b(2)");
}

#[test]
fn postfix_call_then_member() {
    let e = lower(&Ast::Postfix(
        id("a"),
        vec![
            Access::Array(AstRange::Expression(implicit("1"))),
            Access::Call(vec![implicit("2")]),
            Access::Object(id("b")),
        ],
    ));
    assert_eq!(e.to_string(), "a[1](2).b");
    assert!(matches!(e, Expression::CircuitMemberAccess(_, _)));
}

#[test]
fn postfix_static_access_and_range() {
    let e = lower(&Ast::Postfix(
        id("M"),
        vec![
            Access::StaticObject(id("new")),
            Access::Call(vec![]),
            Access::Array(AstRange::Range(Some(implicit("0")), None)),
        ],
    ));
    assert_eq!(e.to_string(), "M::new()[0..]");
}

#[test]
fn postfix_without_accesses_is_the_variable() {
    let e = lower(&Ast::Postfix(id("a"), vec![]));
    assert_eq!(e, Expression::Identifier(id("a")));
}

#[test]
fn array_initializer_expands() {
    let e = lower(&Ast::ArrayInitializer(Box::new(var("x")), Value::Implicit("3".to_string())));
    let plain = || Box::new(SpreadOrExpression::Expression(Expression::Identifier(id("x"))));
    assert_eq!(e, Expression::Array(vec![plain(), plain(), plain()]));
    assert_eq!(e.to_string(), "[x, x, x]");
}

#[test]
fn array_initializer_with_integer_count() {
    let count = Value::Integer("2".to_string(), IntegerType::U8);
    let e = lower(&Ast::ArrayInitializer(Box::new(implicit("7")), count));
    assert_eq!(e.to_string(), "[7, 7]");
}

#[test]
fn array_initializer_of_zero_is_empty() {
    let e = lower(&Ast::ArrayInitializer(Box::new(var("x")), Value::Implicit("0".to_string())));
    assert_eq!(e, Expression::Array(vec![]));
    assert_eq!(e.to_string(), "[]");
}

#[test]
fn not_equal_becomes_negated_equality() {
    let e = lower(&Ast::Binary(BinaryOperation::Ne, Box::new(var("a")), Box::new(var("b"))));
    assert_eq!(e, Expression::Not(Box::new(Expression::Eq(ir_var("a"), ir_var("b")))));
    assert_eq!(e.to_string(), "!a == b");
}

#[test]
fn binary_operators_map_one_to_one() {
    let cases = [
        (BinaryOperation::Or, "a || b"),
        (BinaryOperation::And, "a && b"),
        (BinaryOperation::Eq, "a == b"),
        (BinaryOperation::Ge, "a >= b"),
        (BinaryOperation::Gt, "a > b"),
        (BinaryOperation::Le, "a <= b"),
        (BinaryOperation::Lt, "a < b"),
        (BinaryOperation::Add, "a + b"),
        (BinaryOperation::Sub, "a - b"),
        (BinaryOperation::Mul, "a * b"),
        (BinaryOperation::Div, "a / b"),
        (BinaryOperation::Pow, "a ** b"),
    ];
    for (op, text) in cases {
        let e = lower(&Ast::Binary(op, Box::new(var("a")), Box::new(var("b"))));
        assert_eq!(e.to_string(), text);
    }
}

#[test]
fn assignee_lowers_to_accesses() {
    let a = Assignee {
        identifier: id("p"),
        accesses: vec![AssigneeAccess::Member(id("q")), AssigneeAccess::Array(AstRange::Expression(implicit("0")))],
    };
    let e = Expression::from_assignee(&a).unwrap();
    assert_eq!(
        e,
        Expression::ArrayAccess(
            Box::new(Expression::CircuitMemberAccess(ir_var("p"), id("q"))),
            Box::new(RangeOrExpression::Expression(*ir_implicit("0"))),
        )
    );
    assert_eq!(e.to_string(), "p.q[0]");
}

#[test]
fn boolean_count_is_rejected() {
    let e = Ast::ArrayInitializer(Box::new(var("x")), Value::Boolean("true".to_string()));
    assert_eq!(Expression::from_expression(&e), Err(LowerError::ArraySizeNotInteger));
}

#[test]
fn field_count_is_rejected() {
    assert_eq!(Expression::get_count(&Value::Field("3".to_string())), Err(LowerError::ArraySizeNotInteger));
}

#[test]
fn unparsable_count_is_rejected() {
    assert_eq!(Expression::get_count(&Value::Implicit("-1".to_string())), Err(LowerError::InvalidArraySize));
    assert_eq!(Expression::get_count(&Value::Implicit("".to_string())), Err(LowerError::InvalidArraySize));
    assert_eq!(Expression::get_count(&Value::Implicit("+12".to_string())), Ok(12));
}

#[test]
fn maybe_boolean_is_rejected() {
    let e = Ast::Value(Value::Boolean("maybe".to_string()));
    assert_eq!(Expression::from_expression(&e), Err(LowerError::InvalidBoolean));
}

#[test]
fn nested_error_propagates() {
    let bad = Ast::Value(Value::Boolean("maybe".to_string()));
    let e = Ast::Postfix(id("f"), vec![Access::Call(vec![implicit("1"), bad])]);
    assert_eq!(Expression::from_expression(&e), Err(LowerError::InvalidBoolean));
}

#[test]
fn literals_lower_verbatim() {
    assert_eq!(lower(&Ast::Value(Value::Boolean("false".to_string()))), Expression::Boolean(false));
    assert_eq!(lower(&Ast::Value(Value::Boolean("true".to_string()))).to_string(), "true");
    assert_eq!(lower(&Ast::Value(Value::Field("12".to_string()))), Expression::Field("12".to_string()));
    assert_eq!(lower(&Ast::Value(Value::Group("(0, 1)group".to_string()))).to_string(), "(0, 1)group");
    let i = lower(&Ast::Value(Value::Integer("300".to_string(), IntegerType::U8)));
    assert_eq!(i, Expression::Integer(Integer { number: "300".to_string(), integer_type: IntegerType::U8 }));
}

#[test]
fn array_inline_keeps_spreads() {
    let e = lower(&Ast::ArrayInline(vec![AstSpread::Expression(implicit("1")), AstSpread::Spread(var("xs"))]));
    assert_eq!(
        e,
        Expression::Array(vec![
            Box::new(SpreadOrExpression::Expression(*ir_implicit("1"))),
            Box::new(SpreadOrExpression::Spread(Expression::Identifier(id("xs")))),
        ])
    );
    assert_eq!(e.to_string(), "[1, ...xs]");
}

#[test]
fn circuit_literal_keeps_field_order() {
    let e = lower(&Ast::CircuitInline(
        id("Point"),
        vec![
            CircuitField { identifier: id("x"), expression: implicit("1") },
            CircuitField { identifier: id("y"), expression: Ast::Not(Box::new(var("b"))) },
        ],
    ));
    assert_eq!(
        e,
        Expression::Circuit(
            id("Point"),
            vec![
                CircuitFieldDefinition { identifier: id("x"), expression: *ir_implicit("1") },
                CircuitFieldDefinition { identifier: id("y"), expression: Expression::Not(ir_var("b")) },
            ],
        )
    );
    assert_eq!(e.to_string(), "Point {x: 1, y: !b}");
}

#[test]
fn clone_is_deep() {
    let e = lower(&Ast::Postfix(id("a"), vec![Access::Call(vec![implicit("1"), var("b")])]));
    assert_eq!(e.clone(), e);
}
