//! Laws of lowering and rendering.
use vstd::prelude::*;
use crate::ir::{ElementModel, ExprModel, Expression, Identifier};
use crate::lower::{
    apply_access, apply_assignee_access, count_of, lower, lower_assignee_chain, lower_chain,
    repeated,
};
use crate::render::render;
use crate::syntax as ast;

verus! {

/// Rendering is a pure function of the tree: two renderings of one
/// expression give the same text.
pub proof fn render_is_deterministic(e: Expression, first: Seq<char>, second: Seq<char>)
    requires
        first == render(e@),
        second == render(e@),
    ensures
        first == second,
{
}

/// A postfix chain nests to the left: its outermost node wraps the lowering
/// of all accesses but the last, by the kind of the last one.
pub proof fn postfix_nests_left(base: Identifier, accesses: Seq<ast::Access>)
    requires
        accesses.len() > 0,
        lower_chain(base@, accesses) is Ok,
    ensures
        lower_chain(base@, accesses.drop_last()) is Ok,
        apply_access(lower_chain(base@, accesses.drop_last())->Ok_0, accesses.last())
            == lower_chain(base@, accesses),
{
}

/// `[x; n]` lowers to an array of exactly `n` plain copies of the lowering
/// of `x`, in order.
pub proof fn array_initializer_expands(x: ast::Expression, count: ast::Value)
    requires
        count_of(count) is Ok,
        lower(x) is Ok,
    ensures
        lower(ast::Expression::ArrayInitializer(Box::new(x), count)) == Ok::<ExprModel, crate::lower::LowerError>(
            ExprModel::Array(repeated(lower(x)->Ok_0, count_of(count)->Ok_0 as nat)),
        ),
        repeated(lower(x)->Ok_0, count_of(count)->Ok_0 as nat).len() == count_of(count)->Ok_0 as nat,
        forall|i: int|
            0 <= i < count_of(count)->Ok_0 ==> #[trigger] repeated(lower(x)->Ok_0, count_of(count)->Ok_0 as nat)[i]
                == ElementModel::Plain(lower(x)->Ok_0),
{
}

/// `l != r` lowers to `!(l == r)`, and renders as `!` before `l == r`.
pub proof fn not_equal_is_negated_equality(l: ast::Expression, r: ast::Expression)
    requires
        lower(l) is Ok,
        lower(r) is Ok,
    ensures
        lower(ast::Expression::Binary(ast::BinaryOperation::Ne, Box::new(l), Box::new(r)))
            == Ok::<ExprModel, crate::lower::LowerError>(
            ExprModel::Not(Box::new(ExprModel::Eq(Box::new(lower(l)->Ok_0), Box::new(lower(r)->Ok_0)))),
        ),
        render(ExprModel::Not(Box::new(ExprModel::Eq(Box::new(lower(l)->Ok_0), Box::new(lower(r)->Ok_0)))))
            == "!"@ + render(lower(l)->Ok_0) + " == "@ + render(lower(r)->Ok_0),
{
    let (a, b) = (lower(l)->Ok_0, lower(r)->Ok_0);
    let eq = ExprModel::Eq(Box::new(a), Box::new(b));
    assert(render(eq) == render(a) + " == "@ + render(b));
    assert(render(ExprModel::Not(Box::new(eq))) =~= "!"@ + render(a) + " == "@ + render(b));
}

/// The nodes from an expression down its first children to the variable are
/// all array or member accesses.
pub open spec fn is_access_path(e: ExprModel) -> bool
    decreases e,
{
    match e {
        ExprModel::Identifier(_) => true,
        ExprModel::ArrayAccess(b, _) => is_access_path(*b),
        ExprModel::CircuitMemberAccess(b, _) => is_access_path(*b),
        _ => false,
    }
}

/// An assignment target lowers to array and member accesses over its
/// variable: never to a call or a static access.
pub proof fn assignee_is_access_path(base: Seq<char>, accesses: Seq<ast::AssigneeAccess>)
    requires
        lower_assignee_chain(base, accesses) is Ok,
    ensures
        is_access_path(lower_assignee_chain(base, accesses)->Ok_0),
    decreases accesses.len(),
{
    reveal(apply_assignee_access);
    if accesses.len() > 0 {
        assignee_is_access_path(base, accesses.drop_last());
    }
}

} // verus!
