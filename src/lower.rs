//! Lowering of the syntax tree into the typed expression tree.
use vstd::prelude::*;
use crate::ir::{
    expr_model, elements_model, exprs_model, fields_model, index_model, opt_model, CircuitFieldDefinition,
    ElementModel, ExprModel, Expression, FieldModel, Identifier, IndexModel, Integer,
    RangeOrExpression, SpreadOrExpression,
};
use crate::syntax as ast;

verus! {

/// Why a syntax tree cannot be lowered.
#[derive(Debug, Clone, Copy, PartialEq, Eq, Structural)]
pub enum LowerError {
    /// A boolean literal whose text is neither `true` nor `false`.
    InvalidBoolean,
    /// An array size whose numeral is not a `usize`.
    InvalidArraySize,
    /// An array size that is not an integer or implicit numeral.
    ArraySizeNotInteger,
}

/// What `str::parse::<bool>` accepts.
pub open spec fn bool_literal(s: Seq<char>) -> Option<bool> {
    if s == "true"@ {
        Some(true)
    } else if s == "false"@ {
        Some(false)
    } else {
        None
    }
}

pub open spec fn is_decimal(d: Seq<char>) -> bool {
    &&& d.len() > 0
    &&& forall|i: int| 0 <= i < d.len() ==> '0' <= #[trigger] d[i] && d[i] <= '9'
}

/// The value of a string of decimal digits.
pub open spec fn decimal_value(d: Seq<char>) -> int
    decreases d.len(),
{
    if d.len() == 0 {
        0
    } else {
        decimal_value(d.drop_last()) * 10 + ((d.last() as u32) as int - ('0' as u32) as int)
    }
}

/// What `str::parse::<usize>` accepts: an optional `+`, then decimal digits
/// whose value fits in a `usize`.
pub open spec fn usize_literal(s: Seq<char>) -> Option<int> {
    let d = if s.len() > 0 && s[0] == '+' {
        s.subrange(1, s.len() as int)
    } else {
        s
    };
    if is_decimal(d) && decimal_value(d) <= usize::MAX {
        Some(decimal_value(d))
    } else {
        None
    }
}

/// The size that an array initializer's count stands for.
pub open spec fn count_of(v: ast::Value) -> Result<int, LowerError> {
    match v {
        ast::Value::Integer(n, _) => match usize_literal(n@) {
            Some(k) => Ok(k),
            None => Err(LowerError::InvalidArraySize),
        },
        ast::Value::Implicit(n) => match usize_literal(n@) {
            Some(k) => Ok(k),
            None => Err(LowerError::InvalidArraySize),
        },
        _ => Err(LowerError::ArraySizeNotInteger),
    }
}

pub open spec fn lower_value(v: ast::Value) -> Result<ExprModel, LowerError> {
    match v {
        ast::Value::Integer(n, t) => Ok(ExprModel::Integer(n@, t)),
        ast::Value::Field(s) => Ok(ExprModel::Field(s@)),
        ast::Value::Group(s) => Ok(ExprModel::Group(s@)),
        ast::Value::Boolean(s) => match bool_literal(s@) {
            Some(b) => Ok(ExprModel::Boolean(b)),
            None => Err(LowerError::InvalidBoolean),
        },
        ast::Value::Implicit(s) => Ok(ExprModel::Implicit(s@)),
    }
}

/// The node for `l op r`; `l != r` becomes `!(l == r)`.
pub open spec fn binary_node(op: ast::BinaryOperation, l: ExprModel, r: ExprModel) -> ExprModel {
    match op {
        ast::BinaryOperation::Or => ExprModel::Or(Box::new(l), Box::new(r)),
        ast::BinaryOperation::And => ExprModel::And(Box::new(l), Box::new(r)),
        ast::BinaryOperation::Eq => ExprModel::Eq(Box::new(l), Box::new(r)),
        ast::BinaryOperation::Ne => ExprModel::Not(Box::new(ExprModel::Eq(Box::new(l), Box::new(r)))),
        ast::BinaryOperation::Ge => ExprModel::Ge(Box::new(l), Box::new(r)),
        ast::BinaryOperation::Gt => ExprModel::Gt(Box::new(l), Box::new(r)),
        ast::BinaryOperation::Le => ExprModel::Le(Box::new(l), Box::new(r)),
        ast::BinaryOperation::Lt => ExprModel::Lt(Box::new(l), Box::new(r)),
        ast::BinaryOperation::Add => ExprModel::Add(Box::new(l), Box::new(r)),
        ast::BinaryOperation::Sub => ExprModel::Sub(Box::new(l), Box::new(r)),
        ast::BinaryOperation::Mul => ExprModel::Mul(Box::new(l), Box::new(r)),
        ast::BinaryOperation::Div => ExprModel::Div(Box::new(l), Box::new(r)),
        ast::BinaryOperation::Pow => ExprModel::Pow(Box::new(l), Box::new(r)),
    }
}

/// `n` plain copies of `m`.
pub open spec fn repeated(m: ExprModel, n: nat) -> Seq<ElementModel> {
    Seq::new(n, |i: int| ElementModel::Plain(m))
}

/// Lowers a list of expressions, left to right; the first failure wins.
pub open spec fn lower_list(s: Seq<ast::Expression>) -> Result<Seq<ExprModel>, LowerError>
    decreases s,
{
    if s.len() == 0 {
        Ok(Seq::empty())
    } else {
        match lower_list(s.drop_last()) {
            Err(er) => Err(er),
            Ok(p) => match lower(s.last()) {
                Err(er) => Err(er),
                Ok(m) => Ok(p.push(m)),
            },
        }
    }
}

pub open spec fn lower_element(e: ast::SpreadOrExpression) -> Result<ElementModel, LowerError>
    decreases e,
{
    match e {
        ast::SpreadOrExpression::Spread(x) => match lower(x) {
            Ok(m) => Ok(ElementModel::Spread(m)),
            Err(er) => Err(er),
        },
        ast::SpreadOrExpression::Expression(x) => match lower(x) {
            Ok(m) => Ok(ElementModel::Plain(m)),
            Err(er) => Err(er),
        },
    }
}

pub open spec fn lower_elements(s: Seq<ast::SpreadOrExpression>) -> Result<Seq<ElementModel>, LowerError>
    decreases s,
{
    if s.len() == 0 {
        Ok(Seq::empty())
    } else {
        match lower_elements(s.drop_last()) {
            Err(er) => Err(er),
            Ok(p) => match lower_element(s.last()) {
                Err(er) => Err(er),
                Ok(m) => Ok(p.push(m)),
            },
        }
    }
}

pub open spec fn lower_fields(s: Seq<ast::CircuitField>) -> Result<Seq<FieldModel>, LowerError>
    decreases s,
{
    if s.len() == 0 {
        Ok(Seq::empty())
    } else {
        match lower_fields(s.drop_last()) {
            Err(er) => Err(er),
            Ok(p) => match lower(s.last().expression) {
                Err(er) => Err(er),
                Ok(m) => Ok(p.push(FieldModel { name: s.last().identifier@, value: m })),
            },
        }
    }
}

pub open spec fn lower_bound(o: Option<ast::Expression>) -> Result<Option<ExprModel>, LowerError>
    decreases o,
{
    match o {
        None => Ok(None),
        Some(x) => match lower(x) {
            Ok(m) => Ok(Some(m)),
            Err(er) => Err(er),
        },
    }
}

pub open spec fn lower_index(r: ast::RangeOrExpression) -> Result<IndexModel, LowerError>
    decreases r,
{
    match r {
        ast::RangeOrExpression::Range(lo, hi) => match lower_bound(lo) {
            Err(er) => Err(er),
            Ok(a) => match lower_bound(hi) {
                Err(er) => Err(er),
                Ok(b) => Ok(IndexModel::Range(a, b)),
            },
        },
        ast::RangeOrExpression::Expression(x) => match lower(x) {
            Ok(m) => Ok(IndexModel::Single(m)),
            Err(er) => Err(er),
        },
    }
}

/// Wraps `acc` in the node that one postfix access makes of it.
pub open spec fn apply_access(acc: ExprModel, a: ast::Access) -> Result<ExprModel, LowerError>
    decreases a,
{
    match a {
        ast::Access::Array(r) => match lower_index(r) {
            Ok(i) => Ok(ExprModel::ArrayAccess(Box::new(acc), Box::new(i))),
            Err(er) => Err(er),
        },
        ast::Access::Call(args) => match lower_list(args@) {
            Ok(s) => Ok(ExprModel::FunctionCall(Box::new(acc), s)),
            Err(er) => Err(er),
        },
        ast::Access::Object(m) => Ok(ExprModel::CircuitMemberAccess(Box::new(acc), m@)),
        ast::Access::StaticObject(m) => Ok(ExprModel::CircuitStaticFunctionAccess(Box::new(acc), m@)),
    }
}

/// Folds the accesses over the variable `base`, from the left.
pub open spec fn lower_chain(base: Seq<char>, s: Seq<ast::Access>) -> Result<ExprModel, LowerError>
    decreases s,
{
    if s.len() == 0 {
        Ok(ExprModel::Identifier(base))
    } else {
        match lower_chain(base, s.drop_last()) {
            Err(er) => Err(er),
            Ok(acc) => apply_access(acc, s.last()),
        }
    }
}

/// Lowering of one expression of the syntax tree.
pub open spec fn lower(e: ast::Expression) -> Result<ExprModel, LowerError>
    decreases e,
{
    match e {
        ast::Expression::Value(v) => lower_value(v),
        ast::Expression::Identifier(i) => Ok(ExprModel::Identifier(i@)),
        ast::Expression::Not(x) => match lower(*x) {
            Ok(m) => Ok(ExprModel::Not(Box::new(m))),
            Err(er) => Err(er),
        },
        ast::Expression::Binary(op, l, r) => match lower(*l) {
            Err(er) => Err(er),
            Ok(a) => match lower(*r) {
                Err(er) => Err(er),
                Ok(b) => Ok(binary_node(op, a, b)),
            },
        },
        ast::Expression::Ternary(c, t, f) => match lower(*c) {
            Err(er) => Err(er),
            Ok(a) => match lower(*t) {
                Err(er) => Err(er),
                Ok(b) => match lower(*f) {
                    Err(er) => Err(er),
                    Ok(d) => Ok(ExprModel::IfElse(Box::new(a), Box::new(b), Box::new(d))),
                },
            },
        },
        ast::Expression::ArrayInline(v) => match lower_elements(v@) {
            Ok(s) => Ok(ExprModel::Array(s)),
            Err(er) => Err(er),
        },
        ast::Expression::ArrayInitializer(x, count) => match count_of(count) {
            Err(er) => Err(er),
            Ok(n) => match lower(*x) {
                Err(er) => Err(er),
                Ok(m) => Ok(ExprModel::Array(repeated(m, n as nat))),
            },
        },
        ast::Expression::CircuitInline(name, v) => match lower_fields(v@) {
            Ok(s) => Ok(ExprModel::Circuit(name@, s)),
            Err(er) => Err(er),
        },
        ast::Expression::Postfix(base, v) => lower_chain(base@, v@),
    }
}

/// Wraps `acc` in the node that one assignee access makes of it.
#[verifier::opaque]
pub open spec fn apply_assignee_access(acc: ExprModel, a: ast::AssigneeAccess) -> Result<ExprModel, LowerError> {
    match a {
        ast::AssigneeAccess::Array(r) => match lower_index(r) {
            Ok(i) => Ok(ExprModel::ArrayAccess(Box::new(acc), Box::new(i))),
            Err(er) => Err(er),
        },
        ast::AssigneeAccess::Member(m) => Ok(ExprModel::CircuitMemberAccess(Box::new(acc), m@)),
    }
}

/// Folds assignee accesses over the variable `base`, from the left.
pub open spec fn lower_assignee_chain(base: Seq<char>, s: Seq<ast::AssigneeAccess>) -> Result<ExprModel, LowerError>
    decreases s.len(),
{
    if s.len() == 0 {
        Ok(ExprModel::Identifier(base))
    } else {
        match lower_assignee_chain(base, s.drop_last()) {
            Err(er) => Err(er),
            Ok(acc) => apply_assignee_access(acc, s.last()),
        }
    }
}

/// Lowering of an assignment target.
pub open spec fn lower_assignee(a: ast::Assignee) -> Result<ExprModel, LowerError> {
    lower_assignee_chain(a.identifier@, a.accesses@)
}

/// The model of a lowering's outcome.
pub open spec fn outcome(r: Result<Expression, LowerError>) -> Result<ExprModel, LowerError> {
    match r {
        Ok(x) => Ok(x@),
        Err(er) => Err(er),
    }
}

/// Relies on `str::parse::<bool>` (`bool`'s `FromStr`): it accepts exactly
/// `true` and `false`.
#[verifier::external_body]
fn parse_bool(s: &str) -> (r: Option<bool>)
    ensures
        r == bool_literal(s@),
{
    s.parse::<bool>().ok()
}

/// Relies on `str::parse::<usize>` (`usize`'s `FromStr`): it accepts an
/// optional `+` followed by decimal digits only, and fails where the value
/// does not fit in a `usize`.
#[verifier::external_body]
fn parse_usize(s: &str) -> (r: Option<usize>)
    ensures
        match r {
            Some(n) => usize_literal(s@) == Some(n as int),
            None => usize_literal(s@) is None,
        },
{
    s.parse::<usize>().ok()
}

proof fn lemma_list_error(s: Seq<ast::Expression>, k: int)
    requires
        0 <= k <= s.len(),
        lower_list(s.subrange(0, k)) is Err,
    ensures
        lower_list(s) == lower_list(s.subrange(0, k)),
    decreases s.len() - k,
{
    if k < s.len() {
        assert(s.subrange(0, k + 1).drop_last() =~= s.subrange(0, k));
        lemma_list_error(s, k + 1);
    } else {
        assert(s.subrange(0, k) =~= s);
    }
}

proof fn lemma_elements_error(s: Seq<ast::SpreadOrExpression>, k: int)
    requires
        0 <= k <= s.len(),
        lower_elements(s.subrange(0, k)) is Err,
    ensures
        lower_elements(s) == lower_elements(s.subrange(0, k)),
    decreases s.len() - k,
{
    if k < s.len() {
        assert(s.subrange(0, k + 1).drop_last() =~= s.subrange(0, k));
        lemma_elements_error(s, k + 1);
    } else {
        assert(s.subrange(0, k) =~= s);
    }
}

proof fn lemma_fields_error(s: Seq<ast::CircuitField>, k: int)
    requires
        0 <= k <= s.len(),
        lower_fields(s.subrange(0, k)) is Err,
    ensures
        lower_fields(s) == lower_fields(s.subrange(0, k)),
    decreases s.len() - k,
{
    if k < s.len() {
        assert(s.subrange(0, k + 1).drop_last() =~= s.subrange(0, k));
        lemma_fields_error(s, k + 1);
    } else {
        assert(s.subrange(0, k) =~= s);
    }
}

proof fn lemma_chain_error(base: Seq<char>, s: Seq<ast::Access>, k: int)
    requires
        0 <= k <= s.len(),
        lower_chain(base, s.subrange(0, k)) is Err,
    ensures
        lower_chain(base, s) == lower_chain(base, s.subrange(0, k)),
    decreases s.len() - k,
{
    if k < s.len() {
        assert(s.subrange(0, k + 1).drop_last() =~= s.subrange(0, k));
        lemma_chain_error(base, s, k + 1);
    } else {
        assert(s.subrange(0, k) =~= s);
    }
}

#[verifier::spinoff_prover]
#[verifier::rlimit(100)]
proof fn lemma_assignee_chain_error(base: Seq<char>, s: Seq<ast::AssigneeAccess>, k: int)
    requires
        0 <= k <= s.len(),
        lower_assignee_chain(base, s.subrange(0, k)) is Err,
    ensures
        lower_assignee_chain(base, s) == lower_assignee_chain(base, s.subrange(0, k)),
    decreases s.len() - k,
{
    if k < s.len() {
        assert(s.subrange(0, k + 1).drop_last() =~= s.subrange(0, k));
        lemma_assignee_chain_error(base, s, k + 1);
    } else {
        assert(s.subrange(0, k) =~= s);
    }
}

#[verifier::spinoff_prover]
#[verifier::rlimit(100)]
fn lower_list_exec(v: &Vec<ast::Expression>) -> (r: Result<Vec<Expression>, LowerError>)
    ensures
        match r {
            Ok(x) => lower_list(v@) == Ok::<Seq<ExprModel>, LowerError>(exprs_model(x@)),
            Err(er) => lower_list(v@) == Err::<Seq<ExprModel>, LowerError>(er),
        },
    decreases v,
{
    let mut out: Vec<Expression> = Vec::new();
    let mut i: usize = 0;
    while i < v.len()
        invariant
            i <= v.len(),
            lower_list(v@.subrange(0, i as int)) == Ok::<Seq<ExprModel>, LowerError>(exprs_model(out@)),
        decreases v.len() - i,
    {
        let ghost prev = out@;
        proof {
            assert(v@.subrange(0, i + 1).drop_last() =~= v@.subrange(0, i as int));
        }
        match Expression::from_expression(&v[i]) {
            Ok(m) => {
                out.push(m);
                proof {
                    assert(out@.drop_last() =~= prev);
                }
            },
            Err(er) => {
                proof {
                    lemma_list_error(v@, i + 1);
                }
                return Err(er);
            },
        }
        i = i + 1;
    }
    proof {
        assert(v@.subrange(0, v.len() as int) =~= v@);
    }
    Ok(out)
}

#[verifier::spinoff_prover]
#[verifier::rlimit(100)]
fn lower_element_exec(e: &ast::SpreadOrExpression) -> (r: Result<SpreadOrExpression, LowerError>)
    ensures
        match r {
            Ok(x) => lower_element(*e) == Ok::<ElementModel, LowerError>(crate::ir::element_model(x)),
            Err(er) => lower_element(*e) == Err::<ElementModel, LowerError>(er),
        },
    decreases e,
{
    match e {
        ast::SpreadOrExpression::Spread(x) => match Expression::from_expression(x) {
            Ok(m) => Ok(SpreadOrExpression::Spread(m)),
            Err(er) => Err(er),
        },
        ast::SpreadOrExpression::Expression(x) => match Expression::from_expression(x) {
            Ok(m) => Ok(SpreadOrExpression::Expression(m)),
            Err(er) => Err(er),
        },
    }
}

#[verifier::spinoff_prover]
#[verifier::rlimit(100)]
fn lower_bound_exec(o: &Option<ast::Expression>) -> (r: Result<Option<Expression>, LowerError>)
    ensures
        match r {
            Ok(x) => lower_bound(*o) == Ok::<Option<ExprModel>, LowerError>(opt_model(x)),
            Err(er) => lower_bound(*o) == Err::<Option<ExprModel>, LowerError>(er),
        },
    decreases o,
{
    match o {
        None => Ok(None),
        Some(x) => match Expression::from_expression(x) {
            Ok(m) => Ok(Some(m)),
            Err(er) => Err(er),
        },
    }
}

#[verifier::spinoff_prover]
#[verifier::rlimit(100)]
fn lower_index_exec(i: &ast::RangeOrExpression) -> (r: Result<RangeOrExpression, LowerError>)
    ensures
        match r {
            Ok(x) => lower_index(*i) == Ok::<IndexModel, LowerError>(index_model(x)),
            Err(er) => lower_index(*i) == Err::<IndexModel, LowerError>(er),
        },
    decreases i,
{
    match i {
        ast::RangeOrExpression::Range(lo, hi) => match lower_bound_exec(lo) {
            Err(er) => Err(er),
            Ok(a) => match lower_bound_exec(hi) {
                Err(er) => Err(er),
                Ok(b) => {
                    let x = RangeOrExpression::Range(a, b);
                    assert(index_model(x) == IndexModel::Range(opt_model(a), opt_model(b)));
                    Ok(x)
                },
            },
        },
        ast::RangeOrExpression::Expression(x) => match Expression::from_expression(x) {
            Ok(m) => Ok(RangeOrExpression::Expression(m)),
            Err(er) => Err(er),
        },
    }
}

#[verifier::spinoff_prover]
#[verifier::rlimit(100)]
fn lower_access(acc: Expression, a: &ast::Access) -> (r: Result<Expression, LowerError>)
    ensures
        outcome(r) == apply_access(acc@, *a),
    decreases a,
{
    match a {
        ast::Access::Array(i) => match lower_index_exec(i) {
            Ok(x) => Ok(Expression::ArrayAccess(Box::new(acc), Box::new(x))),
            Err(er) => Err(er),
        },
        ast::Access::Call(args) => match lower_list_exec(args) {
            Ok(x) => Ok(Expression::FunctionCall(Box::new(acc), x)),
            Err(er) => Err(er),
        },
        ast::Access::Object(m) => Ok(Expression::CircuitMemberAccess(Box::new(acc), m.clone())),
        ast::Access::StaticObject(m) => Ok(Expression::CircuitStaticFunctionAccess(Box::new(acc), m.clone())),
    }
}

fn repeat_element(m: &Expression, n: usize) -> (r: Vec<Box<SpreadOrExpression>>)
    ensures
        elements_model(r@) == repeated(m@, n as nat),
{
    let mut out: Vec<Box<SpreadOrExpression>> = Vec::new();
    let mut i: usize = 0;
    while i < n
        invariant
            i <= n,
            elements_model(out@) == repeated(m@, i as nat),
        decreases n - i,
    {
        let ghost prev = out@;
        let c = m.clone();
        assert(c@ == m@);
        assert(crate::ir::element_model(SpreadOrExpression::Expression(c)) == ElementModel::Plain(c@));
        out.push(Box::new(SpreadOrExpression::Expression(c)));
        proof {
            assert(out@.drop_last() =~= prev);
            assert(*out@.last() == SpreadOrExpression::Expression(c));
            assert(elements_model(out@) == elements_model(prev).push(ElementModel::Plain(m@)));
            assert(elements_model(out@) =~= repeated(m@, (i + 1) as nat));
        }
        i = i + 1;
    }
    out
}

impl Expression {
    /// The node for `l op r`; `l != r` becomes `!(l == r)`.
    pub fn binary(op: ast::BinaryOperation, l: Expression, r: Expression) -> (x: Expression)
        ensures
            x@ == binary_node(op, l@, r@),
    {
        match op {
            ast::BinaryOperation::Or => Expression::Or(Box::new(l), Box::new(r)),
            ast::BinaryOperation::And => Expression::And(Box::new(l), Box::new(r)),
            ast::BinaryOperation::Eq => Expression::Eq(Box::new(l), Box::new(r)),
            ast::BinaryOperation::Ne => {
                let eq = Expression::Eq(Box::new(l), Box::new(r));
                assert(eq@ == ExprModel::Eq(Box::new(l@), Box::new(r@)));
                Expression::Not(Box::new(eq))
            },
            ast::BinaryOperation::Ge => Expression::Ge(Box::new(l), Box::new(r)),
            ast::BinaryOperation::Gt => Expression::Gt(Box::new(l), Box::new(r)),
            ast::BinaryOperation::Le => Expression::Le(Box::new(l), Box::new(r)),
            ast::BinaryOperation::Lt => Expression::Lt(Box::new(l), Box::new(r)),
            ast::BinaryOperation::Add => Expression::Add(Box::new(l), Box::new(r)),
            ast::BinaryOperation::Sub => Expression::Sub(Box::new(l), Box::new(r)),
            ast::BinaryOperation::Mul => Expression::Mul(Box::new(l), Box::new(r)),
            ast::BinaryOperation::Div => Expression::Div(Box::new(l), Box::new(r)),
            ast::BinaryOperation::Pow => Expression::Pow(Box::new(l), Box::new(r)),
        }
    }

    /// The size that an array initializer's count literal stands for.
    pub fn get_count(count: &ast::Value) -> (r: Result<usize, LowerError>)
        ensures
            match r {
                Ok(n) => count_of(*count) == Ok::<int, LowerError>(n as int),
                Err(er) => count_of(*count) == Err::<int, LowerError>(er),
            },
    {
        match count {
            ast::Value::Integer(n, _) => match parse_usize(n.as_str()) {
                Some(k) => Ok(k),
                None => Err(LowerError::InvalidArraySize),
            },
            ast::Value::Implicit(n) => match parse_usize(n.as_str()) {
                Some(k) => Ok(k),
                None => Err(LowerError::InvalidArraySize),
            },
            _ => Err(LowerError::ArraySizeNotInteger),
        }
    }

    /// Lowers a literal; a boolean must read `true` or `false`.
    pub fn from_value(v: &ast::Value) -> (r: Result<Expression, LowerError>)
        ensures
            outcome(r) == lower_value(*v),
    {
        match v {
            ast::Value::Integer(n, t) => Ok(
                Expression::Integer(Integer { number: n.clone(), integer_type: *t }),
            ),
            ast::Value::Field(s) => Ok(Expression::Field(s.clone())),
            ast::Value::Group(s) => Ok(Expression::Group(s.clone())),
            ast::Value::Boolean(s) => match parse_bool(s.as_str()) {
                Some(b) => Ok(Expression::Boolean(b)),
                None => Err(LowerError::InvalidBoolean),
            },
            ast::Value::Implicit(s) => Ok(Expression::Implicit(s.clone())),
        }
    }

    /// Lowers an inline array, element by element, keeping spreads.
    pub fn from_array_inline(v: &Vec<ast::SpreadOrExpression>) -> (r: Result<Expression, LowerError>)
        ensures
            outcome(r) == lower(ast::Expression::ArrayInline(*v)),
        decreases v,
    {
        let mut out: Vec<Box<SpreadOrExpression>> = Vec::new();
        let mut i: usize = 0;
        while i < v.len()
            invariant
                i <= v.len(),
                lower_elements(v@.subrange(0, i as int)) == Ok::<Seq<ElementModel>, LowerError>(
                    elements_model(out@),
                ),
            decreases v.len() - i,
        {
            let ghost prev = out@;
            proof {
                assert(v@.subrange(0, i + 1).drop_last() =~= v@.subrange(0, i as int));
            }
            match lower_element_exec(&v[i]) {
                Ok(m) => {
                    out.push(Box::new(m));
                    proof {
                        assert(out@.drop_last() =~= prev);
                    }
                },
                Err(er) => {
                    proof {
                        lemma_elements_error(v@, i + 1);
                    }
                    return Err(er);
                },
            }
            i = i + 1;
        }
        proof {
            assert(v@.subrange(0, v.len() as int) =~= v@);
        }
        Ok(Expression::Array(out))
    }

    /// Lowers a circuit literal, field by field, in source order.
    pub fn from_circuit_inline(name: &Identifier, v: &Vec<ast::CircuitField>) -> (r: Result<Expression, LowerError>)
        ensures
            outcome(r) == lower(ast::Expression::CircuitInline(*name, *v)),
        decreases v,
    {
        let mut out: Vec<CircuitFieldDefinition> = Vec::new();
        let mut i: usize = 0;
        while i < v.len()
            invariant
                i <= v.len(),
                lower_fields(v@.subrange(0, i as int)) == Ok::<Seq<FieldModel>, LowerError>(
                    fields_model(out@),
                ),
            decreases v.len() - i,
        {
            let ghost prev = out@;
            proof {
                assert(v@.subrange(0, i + 1).drop_last() =~= v@.subrange(0, i as int));
            }
            match Expression::from_expression(&v[i].expression) {
                Ok(m) => {
                    out.push(CircuitFieldDefinition { identifier: v[i].identifier.clone(), expression: m });
                    proof {
                        assert(out@.drop_last() =~= prev);
                    }
                },
                Err(er) => {
                    proof {
                        lemma_fields_error(v@, i + 1);
                    }
                    return Err(er);
                },
            }
            i = i + 1;
        }
        proof {
            assert(v@.subrange(0, v.len() as int) =~= v@);
        }
        Ok(Expression::Circuit(name.clone(), out))
    }

    /// Lowers `base` followed by `accesses`: each access wraps what the ones
    /// before it made, so the chain nests to the left.
    pub fn from_postfix(base: &Identifier, accesses: &Vec<ast::Access>) -> (r: Result<Expression, LowerError>)
        ensures
            outcome(r) == lower_chain(base@, accesses@),
        decreases accesses,
    {
        let mut acc = Expression::Identifier(base.clone());
        let mut i: usize = 0;
        proof {
            assert(accesses@.subrange(0, 0) =~= Seq::<ast::Access>::empty());
        }
        while i < accesses.len()
            invariant
                i <= accesses.len(),
                lower_chain(base@, accesses@.subrange(0, i as int)) == Ok::<ExprModel, LowerError>(acc@),
            decreases accesses.len() - i,
        {
            proof {
                assert(accesses@.subrange(0, i + 1).drop_last() =~= accesses@.subrange(0, i as int));
            }
            match lower_access(acc, &accesses[i]) {
                Ok(x) => {
                    acc = x;
                },
                Err(er) => {
                    proof {
                        lemma_chain_error(base@, accesses@, i + 1);
                    }
                    return Err(er);
                },
            }
            i = i + 1;
        }
        proof {
            assert(accesses@.subrange(0, accesses.len() as int) =~= accesses@);
        }
        Ok(acc)
    }

    /// Lowers an expression of the syntax tree.
    pub fn from_expression(e: &ast::Expression) -> (r: Result<Expression, LowerError>)
        ensures
            outcome(r) == lower(*e),
        decreases e,
    {
        match e {
            ast::Expression::Value(v) => Expression::from_value(v),
            ast::Expression::Identifier(i) => Ok(Expression::Identifier(i.clone())),
            ast::Expression::Not(x) => match Expression::from_expression(x) {
                Ok(m) => Ok(Expression::Not(Box::new(m))),
                Err(er) => Err(er),
            },
            ast::Expression::Binary(op, l, r) => {
                let a = match Expression::from_expression(l) {
                    Ok(a) => a,
                    Err(er) => return Err(er),
                };
                let b = match Expression::from_expression(r) {
                    Ok(b) => b,
                    Err(er) => return Err(er),
                };
                Ok(Expression::binary(*op, a, b))
            },
            ast::Expression::Ternary(c, t, f) => {
                let a = match Expression::from_expression(c) {
                    Ok(a) => a,
                    Err(er) => return Err(er),
                };
                let b = match Expression::from_expression(t) {
                    Ok(b) => b,
                    Err(er) => return Err(er),
                };
                let d = match Expression::from_expression(f) {
                    Ok(d) => d,
                    Err(er) => return Err(er),
                };
                Ok(Expression::IfElse(Box::new(a), Box::new(b), Box::new(d)))
            },
            ast::Expression::ArrayInline(v) => Expression::from_array_inline(v),
            ast::Expression::ArrayInitializer(x, count) => {
                let n = match Expression::get_count(count) {
                    Ok(n) => n,
                    Err(er) => return Err(er),
                };
                let m = match Expression::from_expression(x) {
                    Ok(m) => m,
                    Err(er) => return Err(er),
                };
                Ok(Expression::Array(repeat_element(&m, n)))
            },
            ast::Expression::CircuitInline(name, v) => Expression::from_circuit_inline(name, v),
            ast::Expression::Postfix(base, v) => Expression::from_postfix(base, v),
        }
    }

    /// Lowers an assignment target: array and member accesses folded over
    /// the variable, from the left.
    #[verifier::spinoff_prover]
    #[verifier::rlimit(100)]
    pub fn from_assignee(a: &ast::Assignee) -> (r: Result<Expression, LowerError>)
        ensures
            outcome(r) == lower_assignee(*a),
    {
        let accesses = &a.accesses;
        let mut acc = Expression::Identifier(a.identifier.clone());
        let mut i: usize = 0;
        while i < accesses.len()
            invariant
                i <= accesses.len(),
                accesses == &a.accesses,
                lower_assignee_chain(a.identifier@, accesses@.subrange(0, i as int)) == Ok::<ExprModel, LowerError>(acc@),
            decreases accesses.len() - i,
        {
            proof {
                assert(accesses@.subrange(0, i + 1).drop_last() =~= accesses@.subrange(0, i as int));
            }
            proof {
                reveal(apply_assignee_access);
            }
            match &accesses[i] {
                ast::AssigneeAccess::Array(ix) => match lower_index_exec(ix) {
                    Ok(x) => {
                        acc = Expression::ArrayAccess(Box::new(acc), Box::new(x));
                    },
                    Err(er) => {
                        proof {
                            lemma_assignee_chain_error(a.identifier@, accesses@, i + 1);
                        }
                        return Err(er);
                    },
                },
                ast::AssigneeAccess::Member(m) => {
                    acc = Expression::CircuitMemberAccess(Box::new(acc), m.clone());
                },
            }
            i = i + 1;
        }
        proof {
            assert(accesses@.subrange(0, accesses.len() as int) =~= accesses@);
        }
        Ok(acc)
    }
}

} // verus!
