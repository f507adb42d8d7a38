//! An embeddable engine that parses textual algebraic expressions and
//! equations, compiles them into reusable evaluators, accumulates equations
//! into a constrained system, and solves that system for its unknowns with
//! Newton-Raphson iteration.
//!
//! Scalar values are IEEE-754 binary64 numbers, carried everywhere as their
//! bit patterns (`u64`). The operations whose results the engine needs but
//! cannot compute itself (the transcendental functions and the dense-matrix
//! steps) are requested from the caller through explicit host calls: the
//! evaluator and the solvers are suspendable machines that hand such a
//! request out and take the answer back before going on.
pub mod arith;
pub mod compile;
pub mod context;
pub mod errors;
pub mod eval;
pub mod fp;
pub mod newton;
pub mod shunting;
pub mod system;
pub mod variable;

use vstd::prelude::*;
use crate::compile::{all_idents_known_spec, compile_to_fn, compile_to_fn_of_hashmap, var_entry_count_spec, CompiledMulti, CompiledSingle};
use crate::context::{new_context, Context};
use crate::errors::{EngineError, EquationSolverError};
use crate::fp::{F64_NEG_INF, F64_ONE, F64_POS_INF};
use crate::newton::{newton_raphson, ScalarNewton, ScalarPhase};
use crate::system::{equation_unknowns_spec, get_equation_unknowns};

verus! {

/// How often a character occurs in a string.
pub open spec fn count_char_spec(s: Seq<char>, c: char) -> int
    decreases s.len(),
{
    if s.len() == 0 {
        0
    } else {
        count_char_spec(s.drop_last(), c) + (if s.last() == c {
            1int
        } else {
            0int
        })
    }
}

pub(crate) proof fn lemma_count_char_nonneg(s: Seq<char>, c: char)
    ensures
        count_char_spec(s, c) >= 0,
    decreases s.len(),
{
    if s.len() > 0 {
        lemma_count_char_nonneg(s.drop_last(), c);
    }
}

proof fn lemma_count_char_at(s: Seq<char>, c: char, i: int)
    requires
        0 <= i < s.len(),
        s[i] == c,
    ensures
        count_char_spec(s, c) >= 1,
    decreases s.len(),
{
    if i == s.len() - 1 {
        lemma_count_char_nonneg(s.drop_last(), c);
    } else {
        lemma_count_char_at(s.drop_last(), c, i);
        lemma_count_char_nonneg(s, c);
    }
}

proof fn lemma_count_char_two(s: Seq<char>, c: char, i: int, j: int)
    requires
        0 <= i < j < s.len(),
        s[i] == c,
        s[j] == c,
    ensures
        count_char_spec(s, c) >= 2,
    decreases s.len(),
{
    if j == s.len() - 1 {
        lemma_count_char_at(s.drop_last(), c, i);
    } else {
        lemma_count_char_two(s.drop_last(), c, i, j);
    }
}

/// The position of the one `=` sign of an equation.
pub open spec fn eq_sign_index_spec(s: Seq<char>) -> int {
    choose|i: int| 0 <= i < s.len() && s[i] == '='
}

/// Splits an equation on its single `=` sign. Zero signs reject the
/// input as a bare expression; two or more reject it as multiple
/// equations.
pub fn split_equation(equation: &str) -> (r: Result<(String, String), EngineError>)
    ensures
        count_char_spec(equation@, '=') == 0 ==> r == Err::<(String, String), EngineError>(
            EngineError::Equation(EquationSolverError::FoundExpression),
        ),
        count_char_spec(equation@, '=') >= 2 ==> r == Err::<(String, String), EngineError>(
            EngineError::Equation(EquationSolverError::FoundMultipleEquations),
        ),
        count_char_spec(equation@, '=') == 1 ==> r is Ok,
        r matches Ok(p) ==> count_char_spec(equation@, '=') == 1 && p.0@ == equation@.take(
            eq_sign_index_spec(equation@),
        ) && p.1@ == equation@.skip(eq_sign_index_spec(equation@) + 1),
{
    let cs = crate::shunting::str_chars(equation);
    let n = cs.len();
    let mut cnt: usize = 0;
    let mut pos: usize = 0;
    let mut i: usize = 0;
    while i < n
        invariant
            i <= n,
            n == cs@.len(),
            cs@ == equation@,
            cnt == count_char_spec(cs@.take(i as int), '='),
            cnt <= i,
            cnt > 0 ==> pos < i && cs@[pos as int] == '=',
            forall|k: int| 0 <= k < i && cs@[k] == '=' ==> cnt >= 1 && pos <= k,
        decreases n - i,
    {
        proof {
            assert(cs@.take(i + 1).drop_last() =~= cs@.take(i as int));
        }
        if cs[i] == '=' {
            if cnt == 0 {
                pos = i;
            }
            cnt = cnt + 1;
        }
        i = i + 1;
    }
    proof {
        assert(cs@.take(n as int) =~= cs@);
    }
    if cnt == 0 {
        return Err(EngineError::Equation(EquationSolverError::FoundExpression));
    }
    if cnt >= 2 {
        return Err(EngineError::Equation(EquationSolverError::FoundMultipleEquations));
    }
    proof {
        let w = eq_sign_index_spec(equation@);
        assert(equation@[pos as int] == '=');
        assert(0 <= w < equation@.len() && equation@[w] == '=');
        if w != pos {
            if w < pos {
                lemma_count_char_two(equation@, '=', w, pos as int);
            } else {
                lemma_count_char_two(equation@, '=', pos as int, w);
            }
        }
    }
    let lhs = crate::shunting::chars_to_string(&cs, 0, pos);
    let rhs = crate::shunting::chars_to_string(&cs, pos + 1, n);
    proof {
        assert(cs@.subrange(0, pos as int) =~= equation@.take(pos as int));
        assert(cs@.subrange(pos + 1, n as int) =~= equation@.skip(pos + 1));
    }
    Ok((lhs, rhs))
}

/// The residual expression of an equation with one `=` sign:
/// `lhs - (rhs)`, whose root is the equation's solution.
pub open spec fn residual_spec(eq: Seq<char>) -> Seq<char> {
    eq.take(eq_sign_index_spec(eq)) + " - ("@ + eq.skip(eq_sign_index_spec(eq) + 1) + ")"@
}

/// Frames an equation's two sides as the residual expression
/// `lhs - (rhs)`, whose root is the equation's solution.
fn frame_residual(sides: (String, String)) -> (r: String)
    ensures
        r@ == sides.0@ + " - ("@ + sides.1@ + ")"@,
{
    let (lhs, rhs) = sides;
    let mut f = lhs;
    f.append(" - (");
    f.append(rhs.as_str());
    f.append(")");
    f
}

/// Frames a single-unknown equation as a residual and compiles it
/// against the context, which must bind exactly one variable cell.
pub fn compile_equation_to_fn(equation: &str, ctx: &Context) -> (r: Result<
    CompiledSingle,
    EngineError,
>)
    requires
        ctx.wf(),
    ensures
        count_char_spec(equation@, '=') == 0 ==> r == Err::<CompiledSingle, EngineError>(
            EngineError::Equation(EquationSolverError::FoundExpression),
        ),
        count_char_spec(equation@, '=') >= 2 ==> r == Err::<CompiledSingle, EngineError>(
            EngineError::Equation(EquationSolverError::FoundMultipleEquations),
        ),
        r matches Ok(c) ==> c.wf(*ctx) && crate::shunting::rpnify_spec(
            residual_spec(equation@),
            *ctx,
        ) == Ok::<Seq<crate::context::Token>, crate::errors::ShuntingYardError>(c.rpn@),
        count_char_spec(equation@, '=') == 1 && all_idents_known_spec(
            residual_spec(equation@),
            *ctx,
        ) && var_entry_count_spec(ctx.entries@) == 1 && (crate::shunting::rpnify_spec(
            residual_spec(equation@),
            *ctx,
        ) is Ok) ==> r is Ok,
{
    let sides = split_equation(equation)?;
    let framed = frame_residual(sides);
    proof {
        assert(framed@ == residual_spec(equation@));
    }
    compile_to_fn(framed.as_str(), ctx)
}

/// The name is bound to a cell holding the default guess 1.0 on an
/// unbounded domain.
pub open spec fn default_cell_spec(ctx: Context, name: Seq<char>) -> bool {
    match ctx.lookup_spec(name) {
        Some(t) => match t {
            crate::context::Token::Var(i) => i < ctx.vars@.len() && ctx.vars@[i as int] == (
            crate::variable::Variable { value: F64_ONE, min: F64_NEG_INF, max: F64_POS_INF }),
            _ => false,
        },
        None => false,
    }
}

/// Frames an equation as a residual, gives every unknown identifier a
/// default cell - guess 1.0 on an unbounded domain - and compiles the
/// residual against the extended context.
pub fn compile_equation_to_fn_of_hashmap(equation: &str, ctx: &mut Context) -> (r: Result<
    CompiledMulti,
    EngineError,
>)
    requires
        old(ctx).wf(),
    ensures
        final(ctx).wf(),
        final(ctx).vars@.len() >= old(ctx).vars@.len(),
        count_char_spec(equation@, '=') == 0 ==> r == Err::<CompiledMulti, EngineError>(
            EngineError::Equation(EquationSolverError::FoundExpression),
        ) && *final(ctx) == *old(ctx),
        count_char_spec(equation@, '=') >= 2 ==> r == Err::<CompiledMulti, EngineError>(
            EngineError::Equation(EquationSolverError::FoundMultipleEquations),
        ) && *final(ctx) == *old(ctx),
        r matches Ok(c) ==> c.wf(*final(ctx)) && crate::shunting::rpnify_spec(
            residual_spec(equation@),
            *final(ctx),
        ) == Ok::<Seq<crate::context::Token>, crate::errors::ShuntingYardError>(c.rpn@),
        count_char_spec(equation@, '=') == 1 ==> (forall|k: int|
            0 <= k < equation_unknowns_spec(equation@, *old(ctx)).len() ==> default_cell_spec(
                *final(ctx),
                #[trigger] equation_unknowns_spec(equation@, *old(ctx))[k],
            )),
        count_char_spec(equation@, '=') == 1 ==> (forall|s: Seq<char>|
            !equation_unknowns_spec(equation@, *old(ctx)).contains(s)
                ==> (#[trigger] final(ctx).lookup_spec(s)) == old(ctx).lookup_spec(s)),
        count_char_spec(equation@, '=') == 1 && all_idents_known_spec(
            residual_spec(equation@),
            *final(ctx),
        ) && (crate::shunting::rpnify_spec(residual_spec(equation@), *final(ctx)) is Ok) ==> r
            is Ok,
        count_char_spec(equation@, '=') == 1 && equation_unknowns_spec(
            equation@,
            *old(ctx),
        ).len() == 0 ==> *final(ctx) == *old(ctx),
{
    let sides = split_equation(equation)?;
    let unknowns = get_equation_unknowns(equation, ctx);
    proof {
        lemma_unknowns_distinct(crate::shunting::identifiers_spec(equation@), *ctx);
    }
    let ghost uv = unknowns@.map_values(|s: String| s@);
    let n = unknowns.len();
    let mut k: usize = 0;
    while k < n
        invariant
            k <= n,
            n == unknowns@.len(),
            uv == unknowns@.map_values(|s: String| s@),
            uv == equation_unknowns_spec(equation@, *old(ctx)),
            forall|p: int, q: int| 0 <= p < q < uv.len() ==> uv[p] != uv[q],
            ctx.wf(),
            ctx.vars@.len() >= old(ctx).vars@.len(),
            forall|q: int| 0 <= q < k ==> default_cell_spec(*ctx, #[trigger] uv[q]),
            uv.len() == 0 ==> *ctx == *old(ctx),
            forall|s: Seq<char>|
                !uv.contains(s) ==> (#[trigger] ctx.lookup_spec(s)) == old(ctx).lookup_spec(s),
            forall|s: Seq<char>|
                (exists|q: int| k <= q < uv.len() && uv[q] == s) && (forall|q: int|
                    0 <= q < k ==> uv[q] != s) ==> (#[trigger] ctx.lookup_spec(s)) == old(ctx).lookup_spec(s),
        decreases n - k,
    {
        proof {
            assert(unknowns@[k as int]@ == uv[k as int]);
            assert(uv.contains(uv[k as int]));
        }
        let ghost c0 = *ctx;
        let pre_len = ctx.vars.len();
        ctx.add_var_with_domain_to_ctx(unknowns[k].as_str(), F64_ONE, F64_NEG_INF, F64_POS_INF);
        proof {
            assert(c0.vars@.len() == pre_len);
        }
        proof {
            assert forall|q: int| 0 <= q < k + 1 implies default_cell_spec(
                *ctx,
                #[trigger] uv[q],
            ) by {
                if q < k {
                    assert(uv[q] != uv[k as int]);
                    assert(ctx.lookup_spec(uv[q]) == c0.lookup_spec(uv[q]));
                    assert(default_cell_spec(c0, uv[q]));
                    assert(ctx.vars@ == c0.vars@.push(
                        crate::variable::Variable {
                            value: F64_ONE,
                            min: F64_NEG_INF,
                            max: F64_POS_INF,
                        },
                    ));
                    assert(default_cell_spec(*ctx, uv[q]));
                } else {
                    assert(ctx.lookup_spec(uv[k as int]) == Some(
                        crate::context::Token::Var(c0.vars@.len() as usize),
                    ));
                    assert(default_cell_spec(*ctx, uv[q]));
                }
            }
        }
        k = k + 1;
    }
    let framed = frame_residual(sides);
    compile_to_fn_of_hashmap(framed.as_str(), ctx)
}

/// Deduplicated unknowns are pairwise distinct.
proof fn lemma_unknowns_distinct(ids: Seq<Seq<char>>, ctx: Context)
    ensures
        forall|p: int, q: int|
            0 <= p < q < crate::system::unknown_idents_spec(ids, ctx).len()
                ==> crate::system::unknown_idents_spec(ids, ctx)[p]
                != crate::system::unknown_idents_spec(ids, ctx)[q],
        forall|p: int|
            0 <= p < crate::system::unknown_idents_spec(ids, ctx).len()
                ==> crate::system::unknown_idents_spec(ids, ctx).contains(
                #[trigger] crate::system::unknown_idents_spec(ids, ctx)[p],
            ),
    decreases ids.len(),
{
    if ids.len() > 0 {
        lemma_unknowns_distinct(ids.drop_last(), ctx);
        let rest = crate::system::unknown_idents_spec(ids.drop_last(), ctx);
        let whole = crate::system::unknown_idents_spec(ids, ctx);
        if !ctx.contains_key_spec(ids.last()) && !rest.contains(ids.last()) {
            assert(whole == rest.push(ids.last()));
            assert forall|p: int, q: int| 0 <= p < q < whole.len() implies whole[p]
                != whole[q] by {
                if q == whole.len() - 1 {
                    assert(rest.contains(rest[p]));
                }
            }
        }
        assert forall|p: int| 0 <= p < whole.len() implies whole.contains(
            #[trigger] whole[p],
        ) by {}
    }
}

/// Solves a single-unknown equation against the given context: the one
/// identifier absent from the context becomes the unknown, with the
/// given starting value and domain, and a scalar Newton-Raphson solver
/// is returned for the caller to drive, together with the unknown's
/// name.
pub fn solve_equation_with_context(
    equation: &str,
    ctx: &mut Context,
    guess: u64,
    min: u64,
    max: u64,
    margin: u64,
    limit: usize,
) -> (r: Result<(String, ScalarNewton), EngineError>)
    requires
        old(ctx).wf(),
    ensures
        final(ctx).wf(),
        equation_unknowns_spec(equation@, *old(ctx)).len() != 1 ==> (r matches Err(e) && e
            == EngineError::Equation(EquationSolverError::SingleUnknownNotFound) && *final(ctx)
            == *old(ctx)),
        r matches Ok(p) ==> equation_unknowns_spec(equation@, *old(ctx)).len() == 1 && p.0@
            == equation_unknowns_spec(equation@, *old(ctx))[0] && p.1.wf(*final(ctx))
            && p.1.phase == ScalarPhase::Validate && !p.1.eval.waiting && p.1.margin == margin
            && p.1.limit == limit && p.1.guess == F64_ONE,
        equation_unknowns_spec(equation@, *old(ctx)).len() == 1 ==> (final(ctx).lookup_spec(
            equation_unknowns_spec(equation@, *old(ctx))[0],
        ) == Some(
            crate::context::Token::Var(old(ctx).vars@.len() as usize),
        ) && final(ctx).vars@ == old(ctx).vars@.push(
            crate::variable::Variable { value: guess, min: min, max: max },
        ) && (forall|s: Seq<char>|
            s != equation_unknowns_spec(equation@, *old(ctx))[0] ==> (#[trigger] final(ctx).lookup_spec(s)) == old(ctx).lookup_spec(s))),
        equation_unknowns_spec(equation@, *old(ctx)).len() == 1 && count_char_spec(
            equation@,
            '=',
        ) == 1 && all_idents_known_spec(residual_spec(equation@), *final(ctx))
            && var_entry_count_spec(final(ctx).entries@) == 1 && (crate::shunting::rpnify_spec(
            residual_spec(equation@),
            *final(ctx),
        ) is Ok) ==> r is Ok,
{
    let mut unknowns = get_equation_unknowns(equation, ctx);
    if unknowns.len() != 1 {
        return Err(EngineError::Equation(EquationSolverError::SingleUnknownNotFound));
    }
    let ghost u0 = unknowns@;
    let name = unknowns.pop().unwrap();
    ctx.add_var_with_domain_to_ctx(name.as_str(), guess, min, max);
    let f = compile_equation_to_fn(equation, ctx)?;
    proof {
        assert(u0.len() == 1);
        assert(u0.map_values(|s: String| s@) == equation_unknowns_spec(equation@, *old(ctx)));
        assert(u0.map_values(|s: String| s@)[0] == u0[0]@);
        assert(name == u0[0]);
    }
    Ok((name, newton_raphson(f, F64_ONE, margin, limit)))
}

/// Solves a single-unknown equation against a fresh default context,
/// inferring the unknown, with a starting guess of 1.0 on an unbounded
/// domain. Returns the context, the unknown's name and the solver for
/// the caller to drive.
pub fn solve_equation_from_str(equation: &str, margin: u64, limit: usize) -> (r: Result<
    (Context, String, ScalarNewton),
    EngineError,
>)
    ensures
        r matches Ok(t) ==> t.0.wf() && t.2.wf(t.0) && t.2.phase == ScalarPhase::Validate
            && !t.2.eval.waiting && t.2.margin == margin && t.2.limit == limit && t.2.guess
            == F64_ONE,
{
    let mut ctx = new_context();
    let (name, solver) = solve_equation_with_context(
        equation,
        &mut ctx,
        F64_ONE,
        F64_NEG_INF,
        F64_POS_INF,
        margin,
        limit,
    )?;
    Ok((ctx, name, solver))
}

} // verus!
