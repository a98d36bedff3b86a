//! One-line text of an expression, as used in diagnostics.
use vstd::prelude::*;
use vstd::string::StringExecFns;
use crate::ir::{
    lemma_elements_len, lemma_exprs_len, lemma_fields_len, expr_model, elements_model, exprs_model, fields_model, index_model, opt_model, CircuitFieldDefinition,
    ElementModel, ExprModel, Expression, FieldModel, IndexModel, RangeOrExpression,
    SpreadOrExpression,
};

verus! {

/// The texts of `s`, separated by a comma and a space.
pub open spec fn render_list(s: Seq<ExprModel>) -> Seq<char>
    decreases s,
{
    if s.len() == 0 {
        Seq::empty()
    } else if s.len() == 1 {
        render(s[0])
    } else {
        render_list(s.drop_last()) + ", "@ + render(s.last())
    }
}

pub open spec fn render_element(e: ElementModel) -> Seq<char>
    decreases e,
{
    match e {
        ElementModel::Spread(x) => "..."@ + render(x),
        ElementModel::Plain(x) => render(x),
    }
}

/// The texts of the elements of an array literal, separated by a comma and a space.
pub open spec fn render_elements(s: Seq<ElementModel>) -> Seq<char>
    decreases s,
{
    if s.len() == 0 {
        Seq::empty()
    } else if s.len() == 1 {
        render_element(s[0])
    } else {
        render_elements(s.drop_last()) + ", "@ + render_element(s.last())
    }
}

pub open spec fn render_field(f: FieldModel) -> Seq<char>
    decreases f,
{
    f.name + ": "@ + render(f.value)
}

/// The fields of a circuit literal, separated by a comma and a space.
pub open spec fn render_fields(s: Seq<FieldModel>) -> Seq<char>
    decreases s,
{
    if s.len() == 0 {
        Seq::empty()
    } else if s.len() == 1 {
        render_field(s[0])
    } else {
        render_fields(s.drop_last()) + ", "@ + render_field(s.last())
    }
}

pub open spec fn render_bound(o: Option<ExprModel>) -> Seq<char>
    decreases o,
{
    match o {
        Some(x) => render(x),
        None => Seq::empty(),
    }
}

pub open spec fn render_index(i: IndexModel) -> Seq<char>
    decreases i,
{
    match i {
        IndexModel::Range(lo, hi) => render_bound(lo) + ".."@ + render_bound(hi),
        IndexModel::Single(x) => render(x),
    }
}

/// The one-line text of an expression.
pub open spec fn render(e: ExprModel) -> Seq<char>
    decreases e,
{
    match e {
        ExprModel::Identifier(n) => n,
        ExprModel::Integer(n, _) => n,
        ExprModel::Field(s) => s,
        ExprModel::Group(s) => s,
        ExprModel::Boolean(b) => if b {
            "true"@
        } else {
            "false"@
        },
        ExprModel::Implicit(s) => s,
        ExprModel::Add(l, r) => render(*l) + " + "@ + render(*r),
        ExprModel::Sub(l, r) => render(*l) + " - "@ + render(*r),
        ExprModel::Mul(l, r) => render(*l) + " * "@ + render(*r),
        ExprModel::Div(l, r) => render(*l) + " / "@ + render(*r),
        ExprModel::Pow(l, r) => render(*l) + " ** "@ + render(*r),
        ExprModel::Not(x) => "!"@ + render(*x),
        ExprModel::Or(l, r) => render(*l) + " || "@ + render(*r),
        ExprModel::And(l, r) => render(*l) + " && "@ + render(*r),
        ExprModel::Eq(l, r) => render(*l) + " == "@ + render(*r),
        ExprModel::Ge(l, r) => render(*l) + " >= "@ + render(*r),
        ExprModel::Gt(l, r) => render(*l) + " > "@ + render(*r),
        ExprModel::Le(l, r) => render(*l) + " <= "@ + render(*r),
        ExprModel::Lt(l, r) => render(*l) + " < "@ + render(*r),
        ExprModel::IfElse(c, t, f) => "if "@ + render(*c) + " then "@ + render(*t) + " else "@
            + render(*f) + " fi"@,
        ExprModel::Array(s) => "["@ + render_elements(s) + "]"@,
        ExprModel::ArrayAccess(a, i) => render(*a) + "["@ + render_index(*i) + "]"@,
        ExprModel::Circuit(n, fs) => n + " {"@ + render_fields(fs) + "}"@,
        ExprModel::CircuitMemberAccess(a, m) => render(*a) + "."@ + m,
        ExprModel::CircuitStaticFunctionAccess(a, m) => render(*a) + "::"@ + m,
        ExprModel::FunctionCall(f, args) => render(*f) + "("@ + render_list(args) + ")"@,
    }
}

#[verifier::spinoff_prover]
fn write_expr(e: &Expression, out: &mut String)
    ensures
        final(out)@ == old(out)@ + render(e@),
    decreases e,
{
    let ghost start = out@;
    match e {
        Expression::Identifier(i) => {
            out.append(i.name.as_str());
            assert(out@ =~= start + render(e@));
        },
        Expression::Integer(i) => {
            out.append(i.number.as_str());
            assert(out@ =~= start + render(e@));
        },
        Expression::Field(t) => {
            out.append(t.as_str());
            assert(out@ =~= start + render(e@));
        },
        Expression::Group(t) => {
            out.append(t.as_str());
            assert(out@ =~= start + render(e@));
        },
        Expression::Boolean(b) => {
            if *b {
                out.append("true");
            } else {
                out.append("false");
            }
            assert(out@ =~= start + render(e@));
        },
        Expression::Implicit(t) => {
            out.append(t.as_str());
            assert(out@ =~= start + render(e@));
        },
        Expression::Add(l, r) => {
            write_expr(l, out);
            out.append(" + ");
            write_expr(r, out);
            assert(out@ =~= start + render(e@));
        },
        Expression::Sub(l, r) => {
            write_expr(l, out);
            out.append(" - ");
            write_expr(r, out);
            assert(out@ =~= start + render(e@));
        },
        Expression::Mul(l, r) => {
            write_expr(l, out);
            out.append(" * ");
            write_expr(r, out);
            assert(out@ =~= start + render(e@));
        },
        Expression::Div(l, r) => {
            write_expr(l, out);
            out.append(" / ");
            write_expr(r, out);
            assert(out@ =~= start + render(e@));
        },
        Expression::Pow(l, r) => {
            write_expr(l, out);
            out.append(" ** ");
            write_expr(r, out);
            assert(out@ =~= start + render(e@));
        },
        Expression::Not(x) => {
            out.append("!");
            write_expr(x, out);
            assert(out@ =~= start + render(e@));
        },
        Expression::Or(l, r) => {
            write_expr(l, out);
            out.append(" || ");
            write_expr(r, out);
            assert(out@ =~= start + render(e@));
        },
        Expression::And(l, r) => {
            write_expr(l, out);
            out.append(" && ");
            write_expr(r, out);
            assert(out@ =~= start + render(e@));
        },
        Expression::Eq(l, r) => {
            write_expr(l, out);
            out.append(" == ");
            write_expr(r, out);
            assert(out@ =~= start + render(e@));
        },
        Expression::Ge(l, r) => {
            write_expr(l, out);
            out.append(" >= ");
            write_expr(r, out);
            assert(out@ =~= start + render(e@));
        },
        Expression::Gt(l, r) => {
            write_expr(l, out);
            out.append(" > ");
            write_expr(r, out);
            assert(out@ =~= start + render(e@));
        },
        Expression::Le(l, r) => {
            write_expr(l, out);
            out.append(" <= ");
            write_expr(r, out);
            assert(out@ =~= start + render(e@));
        },
        Expression::Lt(l, r) => {
            write_expr(l, out);
            out.append(" < ");
            write_expr(r, out);
            assert(out@ =~= start + render(e@));
        },
        Expression::IfElse(c, t, f) => {
            out.append("if ");
            write_expr(c, out);
            out.append(" then ");
            write_expr(t, out);
            out.append(" else ");
            write_expr(f, out);
            out.append(" fi");
            assert(out@ =~= start + render(e@));
        },
        Expression::Array(v) => {
            out.append("[");
            write_elements(v, out);
            out.append("]");
            assert(out@ =~= start + render(e@));
        },
        Expression::ArrayAccess(a, i) => {
            write_expr(a, out);
            out.append("[");
            write_index(i, out);
            out.append("]");
            assert(out@ =~= start + render(e@));
        },
        Expression::Circuit(n, fs) => {
            out.append(n.name.as_str());
            out.append(" {");
            write_fields(fs, out);
            out.append("}");
            assert(out@ =~= start + render(e@));
        },
        Expression::CircuitMemberAccess(a, m) => {
            write_expr(a, out);
            out.append(".");
            out.append(m.name.as_str());
            assert(out@ =~= start + render(e@));
        },
        Expression::CircuitStaticFunctionAccess(a, m) => {
            write_expr(a, out);
            out.append("::");
            out.append(m.name.as_str());
            assert(out@ =~= start + render(e@));
        },
        Expression::FunctionCall(f, args) => {
            write_expr(f, out);
            out.append("(");
            write_list(args, out);
            out.append(")");
            assert(out@ =~= start + render(e@));
        },
    }
}

fn write_list(v: &Vec<Expression>, out: &mut String)
    ensures
        final(out)@ == old(out)@ + render_list(exprs_model(v@)),
    decreases v,
{
    let ghost start = out@;
    let mut i: usize = 0;
    while i < v.len()
        invariant
            i <= v.len(),
            out@ == start + render_list(exprs_model(v@.subrange(0, i as int))),
        decreases v.len() - i,
    {
        if i > 0 {
            out.append(", ");
        }
        write_expr(&v[i], out);
        proof {
            let prev = v@.subrange(0, i as int);
            let cur = v@.subrange(0, i + 1);
            assert(cur.drop_last() =~= prev);
            let m = exprs_model(cur);
            assert(m == exprs_model(prev).push(expr_model(v@[i as int])));
            assert(m.drop_last() =~= exprs_model(prev));
            lemma_exprs_len(prev);
            if i == 0 {
                assert(out@ =~= start + render_list(m));
            } else {
                assert(out@ =~= start + render_list(m));
            }
        }
        i = i + 1;
    }
    proof {
        assert(v@.subrange(0, v.len() as int) =~= v@);
    }
}

fn write_element(e: &SpreadOrExpression, out: &mut String)
    ensures
        final(out)@ == old(out)@ + render_element(crate::ir::element_model(*e)),
    decreases e,
{
    let ghost start = out@;
    match e {
        SpreadOrExpression::Spread(x) => {
            out.append("...");
            write_expr(x, out);
        },
        SpreadOrExpression::Expression(x) => {
            write_expr(x, out);
        },
    }
    assert(out@ =~= start + render_element(crate::ir::element_model(*e)));
}

fn write_elements(v: &Vec<Box<SpreadOrExpression>>, out: &mut String)
    ensures
        final(out)@ == old(out)@ + render_elements(elements_model(v@)),
    decreases v,
{
    let ghost start = out@;
    let mut i: usize = 0;
    while i < v.len()
        invariant
            i <= v.len(),
            out@ == start + render_elements(elements_model(v@.subrange(0, i as int))),
        decreases v.len() - i,
    {
        if i > 0 {
            out.append(", ");
        }
        write_element(&v[i], out);
        proof {
            let prev = v@.subrange(0, i as int);
            let cur = v@.subrange(0, i + 1);
            assert(cur.drop_last() =~= prev);
            let m = elements_model(cur);
            assert(m == elements_model(prev).push(crate::ir::element_model(*v@[i as int])));
            assert(m.drop_last() =~= elements_model(prev));
            lemma_elements_len(prev);
            if i == 0 {
                assert(out@ =~= start + render_elements(m));
            } else {
                assert(out@ =~= start + render_elements(m));
            }
        }
        i = i + 1;
    }
    proof {
        assert(v@.subrange(0, v.len() as int) =~= v@);
    }
}

fn write_fields(v: &Vec<CircuitFieldDefinition>, out: &mut String)
    ensures
        final(out)@ == old(out)@ + render_fields(fields_model(v@)),
    decreases v,
{
    let ghost start = out@;
    let mut i: usize = 0;
    while i < v.len()
        invariant
            i <= v.len(),
            out@ == start + render_fields(fields_model(v@.subrange(0, i as int))),
        decreases v.len() - i,
    {
        let ghost before = out@;
        if i > 0 {
            out.append(", ");
        }
        out.append(v[i].identifier.name.as_str());
        out.append(": ");
        write_expr(&v[i].expression, out);
        let ghost item = render_field(FieldModel { name: v@[i as int].identifier@, value: v@[i as int].expression@ });
        assert(i > 0 ==> out@ =~= before + ", "@ + item);
        assert(i == 0 ==> out@ =~= before + item);
        proof {
            let prev = v@.subrange(0, i as int);
            let cur = v@.subrange(0, i + 1);
            assert(cur.drop_last() =~= prev);
            let m = fields_model(cur);
            assert(m == fields_model(prev).push((FieldModel { name: v@[i as int].identifier@, value: v@[i as int].expression@ })));
            assert(m.drop_last() =~= fields_model(prev));
            lemma_fields_len(prev);
            if i == 0 {
                assert(out@ =~= start + render_fields(m));
            } else {
                assert(out@ =~= start + render_fields(m));
            }
        }
        i = i + 1;
    }
    proof {
        assert(v@.subrange(0, v.len() as int) =~= v@);
    }
}

fn write_bound(o: &Option<Expression>, out: &mut String)
    ensures
        final(out)@ == old(out)@ + render_bound(opt_model(*o)),
    decreases o,
{
    match o {
        Some(x) => write_expr(x, out),
        None => {
            assert(out@ =~= out@ + render_bound(opt_model(*o)));
        },
    }
}

fn write_index(i: &RangeOrExpression, out: &mut String)
    ensures
        final(out)@ == old(out)@ + render_index(index_model(*i)),
    decreases i,
{
    let ghost start = out@;
    match i {
        RangeOrExpression::Range(lo, hi) => {
            assert(index_model(*i) == IndexModel::Range(opt_model(*lo), opt_model(*hi)));
            write_bound(lo, out);
            out.append("..");
            write_bound(hi, out);
            assert(out@ =~= start + render_index(index_model(*i)));
        },
        RangeOrExpression::Expression(x) => write_expr(x, out),
    }
}

impl Expression {
    /// The one-line text of this expression.
    pub fn to_string(&self) -> (r: String)
        ensures
            r@ == render(self@),
    {
        let mut out = String::new();
        write_expr(self, &mut out);
        proof {
            assert(out@ =~= render(self@));
        }
        out
    }
}

} // verus!
