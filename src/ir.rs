//! The typed expression tree, and its mathematical model.
use vstd::prelude::*;

verus! {

/// A name, as written in the source.
#[derive(Debug, PartialEq, Eq)]
pub struct Identifier {
    pub name: String,
}

/// The width and signedness of an integer literal.
#[derive(Debug, Clone, Copy, PartialEq, Eq, Structural)]
pub enum IntegerType {
    U8,
    U16,
    U32,
    U64,
    U128,
    I8,
    I16,
    I32,
    I64,
    I128,
}

/// An integer literal: its numeral text, not evaluated, and its type.
#[derive(Debug, PartialEq, Eq)]
pub struct Integer {
    pub number: String,
    pub integer_type: IntegerType,
}

/// An expression of the typed tree.
#[derive(Debug, PartialEq, Eq)]
pub enum Expression {
    Identifier(Identifier),
    Integer(Integer),
    Field(String),
    Group(String),
    Boolean(bool),
    Implicit(String),
    Add(Box<Expression>, Box<Expression>),
    Sub(Box<Expression>, Box<Expression>),
    Mul(Box<Expression>, Box<Expression>),
    Div(Box<Expression>, Box<Expression>),
    Pow(Box<Expression>, Box<Expression>),
    Not(Box<Expression>),
    Or(Box<Expression>, Box<Expression>),
    And(Box<Expression>, Box<Expression>),
    Eq(Box<Expression>, Box<Expression>),
    Ge(Box<Expression>, Box<Expression>),
    Gt(Box<Expression>, Box<Expression>),
    Le(Box<Expression>, Box<Expression>),
    Lt(Box<Expression>, Box<Expression>),
    IfElse(Box<Expression>, Box<Expression>, Box<Expression>),
    Array(Vec<Box<SpreadOrExpression>>),
    ArrayAccess(Box<Expression>, Box<RangeOrExpression>),
    Circuit(Identifier, Vec<CircuitFieldDefinition>),
    CircuitMemberAccess(Box<Expression>, Identifier),
    CircuitStaticFunctionAccess(Box<Expression>, Identifier),
    FunctionCall(Box<Expression>, Vec<Expression>),
}

/// An element of an array literal: spread into the array, or placed as is.
#[derive(Debug, PartialEq, Eq)]
pub enum SpreadOrExpression {
    Spread(Expression),
    Expression(Expression),
}

/// The index of an array access: a range with optional bounds, or one index.
#[derive(Debug, PartialEq, Eq)]
pub enum RangeOrExpression {
    Range(Option<Expression>, Option<Expression>),
    Expression(Expression),
}

/// A field of a circuit literal and the expression that initializes it.
#[derive(Debug, PartialEq, Eq)]
pub struct CircuitFieldDefinition {
    pub identifier: Identifier,
    pub expression: Expression,
}

/// Mathematical model of an `Expression`: text as `Seq<char>`, lists as `Seq`.
pub enum ExprModel {
    Identifier(Seq<char>),
    Integer(Seq<char>, IntegerType),
    Field(Seq<char>),
    Group(Seq<char>),
    Boolean(bool),
    Implicit(Seq<char>),
    Add(Box<ExprModel>, Box<ExprModel>),
    Sub(Box<ExprModel>, Box<ExprModel>),
    Mul(Box<ExprModel>, Box<ExprModel>),
    Div(Box<ExprModel>, Box<ExprModel>),
    Pow(Box<ExprModel>, Box<ExprModel>),
    Not(Box<ExprModel>),
    Or(Box<ExprModel>, Box<ExprModel>),
    And(Box<ExprModel>, Box<ExprModel>),
    Eq(Box<ExprModel>, Box<ExprModel>),
    Ge(Box<ExprModel>, Box<ExprModel>),
    Gt(Box<ExprModel>, Box<ExprModel>),
    Le(Box<ExprModel>, Box<ExprModel>),
    Lt(Box<ExprModel>, Box<ExprModel>),
    IfElse(Box<ExprModel>, Box<ExprModel>, Box<ExprModel>),
    Array(Seq<ElementModel>),
    ArrayAccess(Box<ExprModel>, Box<IndexModel>),
    Circuit(Seq<char>, Seq<FieldModel>),
    CircuitMemberAccess(Box<ExprModel>, Seq<char>),
    CircuitStaticFunctionAccess(Box<ExprModel>, Seq<char>),
    FunctionCall(Box<ExprModel>, Seq<ExprModel>),
}

/// Model of a `SpreadOrExpression`.
pub enum ElementModel {
    Spread(ExprModel),
    Plain(ExprModel),
}

/// Model of a `RangeOrExpression`.
pub enum IndexModel {
    Range(Option<ExprModel>, Option<ExprModel>),
    Single(ExprModel),
}

/// Model of a `CircuitFieldDefinition`: the field's name and its initializer.
pub struct FieldModel {
    pub name: Seq<char>,
    pub value: ExprModel,
}

impl View for Identifier {
    type V = Seq<char>;

    open spec fn view(&self) -> Seq<char> {
        self.name@
    }
}

pub open spec fn opt_model(o: Option<Expression>) -> Option<ExprModel>
    decreases o,
{
    match o {
        Some(e) => Some(expr_model(e)),
        None => None,
    }
}

pub open spec fn elements_model(s: Seq<Box<SpreadOrExpression>>) -> Seq<ElementModel>
    decreases s,
{
    if s.len() == 0 {
        Seq::empty()
    } else {
        elements_model(s.drop_last()).push(element_model(*s.last()))
    }
}

pub open spec fn element_model(e: SpreadOrExpression) -> ElementModel
    decreases e,
{
    match e {
        SpreadOrExpression::Spread(x) => ElementModel::Spread(expr_model(x)),
        SpreadOrExpression::Expression(x) => ElementModel::Plain(expr_model(x)),
    }
}

pub open spec fn index_model(r: RangeOrExpression) -> IndexModel
    decreases r,
{
    match r {
        RangeOrExpression::Range(lo, hi) => IndexModel::Range(opt_model(lo), opt_model(hi)),
        RangeOrExpression::Expression(x) => IndexModel::Single(expr_model(x)),
    }
}

pub open spec fn fields_model(s: Seq<CircuitFieldDefinition>) -> Seq<FieldModel>
    decreases s,
{
    if s.len() == 0 {
        Seq::empty()
    } else {
        let f = s.last();
        fields_model(s.drop_last()).push(FieldModel { name: f.identifier@, value: expr_model(f.expression) })
    }
}

pub open spec fn exprs_model(s: Seq<Expression>) -> Seq<ExprModel>
    decreases s,
{
    if s.len() == 0 {
        Seq::empty()
    } else {
        exprs_model(s.drop_last()).push(expr_model(s.last()))
    }
}

pub open spec fn expr_model(e: Expression) -> ExprModel
    decreases e,
{
    match e {
        Expression::Identifier(i) => ExprModel::Identifier(i@),
        Expression::Integer(i) => ExprModel::Integer(i.number@, i.integer_type),
        Expression::Field(s) => ExprModel::Field(s@),
        Expression::Group(s) => ExprModel::Group(s@),
        Expression::Boolean(b) => ExprModel::Boolean(b),
        Expression::Implicit(s) => ExprModel::Implicit(s@),
        Expression::Add(l, r) => ExprModel::Add(Box::new(expr_model(*l)), Box::new(expr_model(*r))),
        Expression::Sub(l, r) => ExprModel::Sub(Box::new(expr_model(*l)), Box::new(expr_model(*r))),
        Expression::Mul(l, r) => ExprModel::Mul(Box::new(expr_model(*l)), Box::new(expr_model(*r))),
        Expression::Div(l, r) => ExprModel::Div(Box::new(expr_model(*l)), Box::new(expr_model(*r))),
        Expression::Pow(l, r) => ExprModel::Pow(Box::new(expr_model(*l)), Box::new(expr_model(*r))),
        Expression::Not(x) => ExprModel::Not(Box::new(expr_model(*x))),
        Expression::Or(l, r) => ExprModel::Or(Box::new(expr_model(*l)), Box::new(expr_model(*r))),
        Expression::And(l, r) => ExprModel::And(Box::new(expr_model(*l)), Box::new(expr_model(*r))),
        Expression::Eq(l, r) => ExprModel::Eq(Box::new(expr_model(*l)), Box::new(expr_model(*r))),
        Expression::Ge(l, r) => ExprModel::Ge(Box::new(expr_model(*l)), Box::new(expr_model(*r))),
        Expression::Gt(l, r) => ExprModel::Gt(Box::new(expr_model(*l)), Box::new(expr_model(*r))),
        Expression::Le(l, r) => ExprModel::Le(Box::new(expr_model(*l)), Box::new(expr_model(*r))),
        Expression::Lt(l, r) => ExprModel::Lt(Box::new(expr_model(*l)), Box::new(expr_model(*r))),
        Expression::IfElse(c, t, f) => ExprModel::IfElse(
            Box::new(expr_model(*c)),
            Box::new(expr_model(*t)),
            Box::new(expr_model(*f)),
        ),
        Expression::Array(v) => ExprModel::Array(elements_model(v@)),
        Expression::ArrayAccess(a, i) => ExprModel::ArrayAccess(Box::new(expr_model(*a)), Box::new(index_model(*i))),
        Expression::Circuit(n, fs) => ExprModel::Circuit(n@, fields_model(fs@)),
        Expression::CircuitMemberAccess(a, m) => ExprModel::CircuitMemberAccess(Box::new(expr_model(*a)), m@),
        Expression::CircuitStaticFunctionAccess(a, m) => ExprModel::CircuitStaticFunctionAccess(
            Box::new(expr_model(*a)),
            m@,
        ),
        Expression::FunctionCall(f, args) => ExprModel::FunctionCall(Box::new(expr_model(*f)), exprs_model(args@)),
    }
}

impl View for Expression {
    type V = ExprModel;

    open spec fn view(&self) -> ExprModel {
        expr_model(*self)
    }
}

pub proof fn lemma_exprs_len(s: Seq<Expression>)
    ensures
        exprs_model(s).len() == s.len(),
    decreases s.len(),
{
    if s.len() > 0 {
        lemma_exprs_len(s.drop_last());
    }
}

pub proof fn lemma_elements_len(s: Seq<Box<SpreadOrExpression>>)
    ensures
        elements_model(s).len() == s.len(),
    decreases s.len(),
{
    if s.len() > 0 {
        lemma_elements_len(s.drop_last());
    }
}

pub proof fn lemma_fields_len(s: Seq<CircuitFieldDefinition>)
    ensures
        fields_model(s).len() == s.len(),
    decreases s.len(),
{
    if s.len() > 0 {
        lemma_fields_len(s.drop_last());
    }
}

impl Clone for Identifier {
    fn clone(&self) -> (r: Self)
        ensures
            r@ == self@,
    {
        Identifier { name: self.name.clone() }
    }
}

impl Clone for Integer {
    fn clone(&self) -> (r: Self)
        ensures
            r.number@ == self.number@,
            r.integer_type == self.integer_type,
    {
        Integer { number: self.number.clone(), integer_type: self.integer_type }
    }
}

fn clone_exprs(v: &Vec<Expression>) -> (r: Vec<Expression>)
    ensures
        exprs_model(r@) == exprs_model(v@),
    decreases v,
{
    let mut r: Vec<Expression> = Vec::new();
    let mut i: usize = 0;
    while i < v.len()
        invariant
            i <= v.len(),
            exprs_model(r@) == exprs_model(v@.subrange(0, i as int)),
        decreases v.len() - i,
    {
        let x = clone_expr(&v[i]);
        let ghost prev = r@;
        r.push(x);
        proof {
            assert(v@.subrange(0, i + 1).drop_last() =~= v@.subrange(0, i as int));
            assert(r@.drop_last() =~= prev);
        }
        i = i + 1;
    }
    proof {
        assert(v@.subrange(0, v.len() as int) =~= v@);
    }
    r
}

fn clone_elements(v: &Vec<Box<SpreadOrExpression>>) -> (r: Vec<Box<SpreadOrExpression>>)
    ensures
        elements_model(r@) == elements_model(v@),
    decreases v,
{
    let mut r: Vec<Box<SpreadOrExpression>> = Vec::new();
    let mut i: usize = 0;
    while i < v.len()
        invariant
            i <= v.len(),
            elements_model(r@) == elements_model(v@.subrange(0, i as int)),
        decreases v.len() - i,
    {
        let x = clone_element(&v[i]);
        let ghost prev = r@;
        r.push(Box::new(x));
        proof {
            assert(v@.subrange(0, i + 1).drop_last() =~= v@.subrange(0, i as int));
            assert(r@.drop_last() =~= prev);
        }
        i = i + 1;
    }
    proof {
        assert(v@.subrange(0, v.len() as int) =~= v@);
    }
    r
}

fn clone_fields(v: &Vec<CircuitFieldDefinition>) -> (r: Vec<CircuitFieldDefinition>)
    ensures
        fields_model(r@) == fields_model(v@),
    decreases v,
{
    let mut r: Vec<CircuitFieldDefinition> = Vec::new();
    let mut i: usize = 0;
    while i < v.len()
        invariant
            i <= v.len(),
            fields_model(r@) == fields_model(v@.subrange(0, i as int)),
        decreases v.len() - i,
    {
        let x = CircuitFieldDefinition {
            identifier: v[i].identifier.clone(),
            expression: clone_expr(&v[i].expression),
        };
        let ghost prev = r@;
        r.push(x);
        proof {
            assert(v@.subrange(0, i + 1).drop_last() =~= v@.subrange(0, i as int));
            assert(r@.drop_last() =~= prev);
        }
        i = i + 1;
    }
    proof {
        assert(v@.subrange(0, v.len() as int) =~= v@);
    }
    r
}

fn clone_element(e: &SpreadOrExpression) -> (r: SpreadOrExpression)
    ensures
        element_model(r) == element_model(*e),
    decreases e,
{
    match e {
        SpreadOrExpression::Spread(x) => SpreadOrExpression::Spread(clone_expr(x)),
        SpreadOrExpression::Expression(x) => SpreadOrExpression::Expression(clone_expr(x)),
    }
}

fn clone_opt(o: &Option<Expression>) -> (r: Option<Expression>)
    ensures
        opt_model(r) == opt_model(*o),
    decreases o,
{
    match o {
        Some(x) => Some(clone_expr(x)),
        None => None,
    }
}

fn clone_index(i: &RangeOrExpression) -> (r: RangeOrExpression)
    ensures
        index_model(r) == index_model(*i),
    decreases i,
{
    match i {
        RangeOrExpression::Range(lo, hi) => RangeOrExpression::Range(clone_opt(lo), clone_opt(hi)),
        RangeOrExpression::Expression(x) => RangeOrExpression::Expression(clone_expr(x)),
    }
}

fn clone_expr(e: &Expression) -> (r: Expression)
    ensures
        r@ == e@,
    decreases e,
{
    match e {
        Expression::Identifier(i) => Expression::Identifier(i.clone()),
        Expression::Integer(i) => Expression::Integer(i.clone()),
        Expression::Field(s) => Expression::Field(s.clone()),
        Expression::Group(s) => Expression::Group(s.clone()),
        Expression::Boolean(b) => Expression::Boolean(*b),
        Expression::Implicit(s) => Expression::Implicit(s.clone()),
        Expression::Add(l, r) => Expression::Add(Box::new(clone_expr(l)), Box::new(clone_expr(r))),
        Expression::Sub(l, r) => Expression::Sub(Box::new(clone_expr(l)), Box::new(clone_expr(r))),
        Expression::Mul(l, r) => Expression::Mul(Box::new(clone_expr(l)), Box::new(clone_expr(r))),
        Expression::Div(l, r) => Expression::Div(Box::new(clone_expr(l)), Box::new(clone_expr(r))),
        Expression::Pow(l, r) => Expression::Pow(Box::new(clone_expr(l)), Box::new(clone_expr(r))),
        Expression::Not(x) => Expression::Not(Box::new(clone_expr(x))),
        Expression::Or(l, r) => Expression::Or(Box::new(clone_expr(l)), Box::new(clone_expr(r))),
        Expression::And(l, r) => Expression::And(Box::new(clone_expr(l)), Box::new(clone_expr(r))),
        Expression::Eq(l, r) => Expression::Eq(Box::new(clone_expr(l)), Box::new(clone_expr(r))),
        Expression::Ge(l, r) => Expression::Ge(Box::new(clone_expr(l)), Box::new(clone_expr(r))),
        Expression::Gt(l, r) => Expression::Gt(Box::new(clone_expr(l)), Box::new(clone_expr(r))),
        Expression::Le(l, r) => Expression::Le(Box::new(clone_expr(l)), Box::new(clone_expr(r))),
        Expression::Lt(l, r) => Expression::Lt(Box::new(clone_expr(l)), Box::new(clone_expr(r))),
        Expression::IfElse(c, t, f) => Expression::IfElse(Box::new(clone_expr(c)), Box::new(clone_expr(t)), Box::new(clone_expr(f))),
        Expression::Array(v) => Expression::Array(clone_elements(v)),
        Expression::ArrayAccess(a, i) => Expression::ArrayAccess(Box::new(clone_expr(a)), Box::new(clone_index(i))),
        Expression::Circuit(n, fs) => Expression::Circuit(n.clone(), clone_fields(fs)),
        Expression::CircuitMemberAccess(a, m) => Expression::CircuitMemberAccess(Box::new(clone_expr(a)), m.clone()),
        Expression::CircuitStaticFunctionAccess(a, m) => Expression::CircuitStaticFunctionAccess(
            Box::new(clone_expr(a)),
            m.clone(),
        ),
        Expression::FunctionCall(f, args) => Expression::FunctionCall(Box::new(clone_expr(f)), clone_exprs(args)),
    }
}

impl Clone for Expression {
    /// A deep copy, with the same model as `self`.
    fn clone(&self) -> (r: Self)
        ensures
            r@ == self@,
    {
        clone_expr(self)
    }
}

impl Clone for SpreadOrExpression {
    fn clone(&self) -> (r: Self)
        ensures
            element_model(r) == element_model(*self),
    {
        clone_element(self)
    }
}

impl Clone for RangeOrExpression {
    fn clone(&self) -> (r: Self)
        ensures
            index_model(r) == index_model(*self),
    {
        clone_index(self)
    }
}

impl Clone for CircuitFieldDefinition {
    fn clone(&self) -> (r: Self)
        ensures
            r.identifier@ == self.identifier@,
            r.expression@ == self.expression@,
    {
        CircuitFieldDefinition { identifier: self.identifier.clone(), expression: clone_expr(&self.expression) }
    }
}

} // verus!
