//! Compilation of expressions into reusable, bound evaluators.
//!
//! Compiling reduces the expression to postfix form once; the result
//! holds the token sequence and is bound, through the context's arena,
//! to the variable cells the expression mentions. Each call of `begin`
//! writes the supplied values into those shared cells - through the
//! domain clamp - and starts a fresh run of the postfix machine, so
//! repeated evaluation never re-parses. Writing into shared cells is an
//! intentional, documented side effect: callers get determinism for the
//! same inputs and the same prior state, not purity.
use vstd::prelude::*;
use crate::context::{Context, Token, has_key_spec, key_index_spec};
use crate::errors::{EngineError, ExpressionCompilationError, CompiledExpressionLookupError, ShuntingYardError};
use crate::eval::Evaluation;
use crate::shunting::{get_legal_variables_iter, identifiers_spec, rpn_wf_tokens, rpnify, rpnify_spec};
use crate::variable::clamp_spec;

verus! {

/// How many entries of the context are bound to variable cells.
pub open spec fn var_entry_count_spec(s: Seq<(String, Token)>) -> int
    decreases s.len(),
{
    if s.len() == 0 {
        0
    } else {
        var_entry_count_spec(s.drop_last()) + (if s.last().1 is Var {
            1int
        } else {
            0int
        })
    }
}

/// Every identifier of the expression occurs in the context.
pub open spec fn all_idents_known_spec(expr: Seq<char>, ctx: Context) -> bool {
    forall|i: int|
        0 <= i < identifiers_spec(expr).len() ==> ctx.contains_key_spec(
            #[trigger] identifiers_spec(expr)[i],
        )
}

/// Checks that every identifier of the expression is present in the
/// context.
fn check_idents_known(expr: &str, context: &Context) -> (r: bool)
    requires
        context.wf(),
    ensures
        r == all_idents_known_spec(expr@, *context),
{
    let idents = get_legal_variables_iter(expr);
    let n = idents.len();
    let mut i: usize = 0;
    while i < n
        invariant
            context.wf(),
            i <= n,
            n == idents@.len(),
            idents@.map_values(|w: String| w@) == identifiers_spec(expr@),
            forall|j: int|
                0 <= j < i ==> context.contains_key_spec(#[trigger] identifiers_spec(expr@)[j]),
        decreases n - i,
    {
        if !context.contains_key(idents[i].as_str()) {
            proof {
                assert(identifiers_spec(expr@)[i as int] == idents@.map_values(|w: String| w@)[i as int]);
            }
            return false;
        }
        proof {
            assert(identifiers_spec(expr@)[i as int] == idents@.map_values(|w: String| w@)[i as int]);
        }
        i = i + 1;
    }
    true
}

/// A compiled expression bound to the single variable cell of its
/// context: evaluate it by supplying one scalar.
pub struct CompiledSingle {
    /// The postfix program.
    pub rpn: Vec<Token>,
    /// The arena index of the one bound variable cell.
    pub var: usize,
}

impl CompiledSingle {
    /// The compiled program fits the context.
    pub open spec fn wf(self, ctx: Context) -> bool {
        &&& rpn_wf_tokens(self.rpn@, ctx.vars@.len() as int)
        &&& self.var < ctx.vars@.len()
    }

    /// Writes the scalar into the bound cell - through the clamp - and
    /// starts a run of the postfix machine.
    pub fn begin(&self, x: u64, ctx: &mut Context) -> (m: Evaluation)
        requires
            self.wf(*old(ctx)),
        ensures
            final(ctx).entries == old(ctx).entries,
            final(ctx).vars@ == old(ctx).vars@.update(
                self.var as int,
                crate::variable::Variable {
                    value: clamp_spec(
                        x,
                        old(ctx).vars@[self.var as int].min,
                        old(ctx).vars@[self.var as int].max,
                    ),
                    min: old(ctx).vars@[self.var as int].min,
                    max: old(ctx).vars@[self.var as int].max,
                },
            ),
            m.rpn@ == self.rpn@,
            m.pos == 0,
            m.stack@.len() == 0,
            !m.waiting,
            m.wf(*final(ctx)),
    {
        ctx.set_var(self.var, x);
        let prog = self.rpn.clone();
        proof {
            assert(prog@ =~= self.rpn@);
        }
        Evaluation::new(prog)
    }
}

/// What supplying a name-to-value mapping does to the arena: each
/// value in turn is written - through the clamp - into the cell its
/// name is bound to, later writes winning.
pub open spec fn apply_inputs_spec(
    entries: Seq<(String, Token)>,
    vars: Seq<crate::variable::Variable>,
    inputs: Seq<(Seq<char>, u64)>,
) -> Seq<crate::variable::Variable>
    decreases inputs.len(),
{
    if inputs.len() == 0 {
        vars
    } else {
        let stepped = match crate::context::lookup_entries_spec(entries, inputs[0].0) {
            Some(Token::Var(i)) => vars.update(
                i as int,
                crate::variable::Variable {
                    value: clamp_spec(inputs[0].1, vars[i as int].min, vars[i as int].max),
                    min: vars[i as int].min,
                    max: vars[i as int].max,
                },
            ),
            _ => vars,
        };
        apply_inputs_spec(entries, stepped, inputs.drop_first())
    }
}

/// A compiled expression bound to many named variable cells: evaluate
/// it by supplying a name-to-value mapping.
pub struct CompiledMulti {
    /// The postfix program.
    pub rpn: Vec<Token>,
}

impl CompiledMulti {
    /// The compiled program fits the context.
    pub open spec fn wf(self, ctx: Context) -> bool {
        rpn_wf_tokens(self.rpn@, ctx.vars@.len() as int)
    }

    /// Writes each supplied value into the cell its name is bound to -
    /// through the clamp - and starts a run of the postfix machine.
    /// Fails if a supplied name is not bound to a variable cell.
    pub fn begin(&self, inputs: &Vec<(String, u64)>, ctx: &mut Context) -> (r: Result<
        Evaluation,
        EngineError,
    >)
        requires
            self.wf(*old(ctx)),
            old(ctx).wf(),
        ensures
            final(ctx).entries == old(ctx).entries,
            final(ctx).vars@.len() == old(ctx).vars@.len(),
            final(ctx).wf(),
            self.wf(*final(ctx)),
            r matches Ok(m) ==> m.rpn@ == self.rpn@ && m.pos == 0 && m.stack@.len() == 0
                && !m.waiting && m.wf(*final(ctx)),
            r is Ok ==> final(ctx).vars@ == apply_inputs_spec(
                old(ctx).entries@,
                old(ctx).vars@,
                inputs@.map_values(|p: (String, u64)| (p.0@, p.1)),
            ),
            r matches Err(e) ==> e == EngineError::Lookup(CompiledExpressionLookupError),
            (r is Ok) <==> (forall|k: int|
                0 <= k < inputs@.len() ==> (#[trigger] old(ctx).lookup_spec(inputs@[k].0@))
                    matches Some(Token::Var(_))),
    {
        let n = inputs.len();
        let ghost iv = inputs@.map_values(|p: (String, u64)| (p.0@, p.1));
        let mut i: usize = 0;
        proof {
            assert(iv.skip(0) =~= iv);
        }
        while i < n
            invariant
                i <= n,
                n == inputs@.len(),
                iv == inputs@.map_values(|p: (String, u64)| (p.0@, p.1)),
                self.wf(*ctx),
                ctx.wf(),
                ctx.entries == old(ctx).entries,
                ctx.vars@.len() == old(ctx).vars@.len(),
                apply_inputs_spec(old(ctx).entries@, ctx.vars@, iv.skip(i as int))
                    == apply_inputs_spec(old(ctx).entries@, old(ctx).vars@, iv),
                forall|k: int|
                    0 <= k < i ==> (#[trigger] old(ctx).lookup_spec(inputs@[k].0@)) matches Some(
                        Token::Var(_),
                    ),
        decreases n - i,
        {
            let name = inputs[i].0.as_str();
            let val = inputs[i].1;
            proof {
                assert(iv.skip(i as int)[0] == iv[i as int]);
                assert(iv[i as int] == (inputs@[i as int].0@, inputs@[i as int].1));
                assert(iv.skip(i as int).drop_first() =~= iv.skip(i + 1));
            }
            match ctx.get(name) {
                Some(Token::Var(vi)) => {
                    proof {
                        let ki = key_index_spec(ctx.entries@, name@);
                        assert(has_key_spec(ctx.entries@, name@));
                        assert(ctx.entries@[ki].1 == Token::Var(vi));
                        assert(crate::context::token_in_arena(
                            ctx.entries@[ki].1,
                            ctx.vars@.len() as int,
                        ));
                    }
                    ctx.set_var(vi, val);
                },
                _ => {
                    proof {
                        assert(old(ctx).lookup_spec(inputs@[i as int].0@) == ctx.lookup_spec(
                            inputs@[i as int].0@,
                        ));
                    }
                    return Err(EngineError::Lookup(CompiledExpressionLookupError));
                },
            }
            i = i + 1;
        }
        let prog = self.rpn.clone();
        proof {
            assert(prog@ =~= self.rpn@);
            assert(iv.skip(n as int) =~= Seq::<(Seq<char>, u64)>::empty());
        }
        Ok(Evaluation::new(prog))
    }
}

/// Compiles an expression against a context that binds exactly one
/// variable cell, producing a single-scalar evaluator.
///
/// Every identifier of the expression must occur in the context; a
/// context without a bound variable fails with no-variables-found, one
/// with more than one fails with the wrong-variable-count error.
pub fn compile_to_fn(expr: &str, context: &Context) -> (r: Result<CompiledSingle, EngineError>)
    requires
        context.wf(),
    ensures
        r matches Ok(c) ==> c.wf(*context),
        r matches Ok(c) ==> rpnify_spec(expr@, *context) == Ok::<Seq<Token>, ShuntingYardError>(
            c.rpn@,
        ),
        r matches Ok(c) ==> exists|j: int|
            0 <= j < context.entries@.len() && context.entries@[j].1 == Token::Var(c.var),
        !all_idents_known_spec(expr@, *context) ==> r == Err::<CompiledSingle, EngineError>(
            EngineError::Compilation(ExpressionCompilationError::VarNotFoundInContext),
        ),
        all_idents_known_spec(expr@, *context) && var_entry_count_spec(context.entries@) == 0
            ==> r == Err::<CompiledSingle, EngineError>(
            EngineError::Compilation(ExpressionCompilationError::NoVarsFound),
        ),
        all_idents_known_spec(expr@, *context) && var_entry_count_spec(context.entries@) > 1
            ==> r == Err::<CompiledSingle, EngineError>(
            EngineError::Compilation(ExpressionCompilationError::WrongVarCount),
        ),
        all_idents_known_spec(expr@, *context) && var_entry_count_spec(context.entries@) == 1
            && (rpnify_spec(expr@, *context) matches Err(e)) ==> r == Err::<
            CompiledSingle,
            EngineError,
        >(EngineError::Shunting(rpnify_spec(expr@, *context)->Err_0)),
        all_idents_known_spec(expr@, *context) && var_entry_count_spec(context.entries@) == 1
            && rpnify_spec(expr@, *context) is Ok ==> r is Ok,
{
    if !check_idents_known(expr, context) {
        return Err(EngineError::Compilation(ExpressionCompilationError::VarNotFoundInContext));
    }
    // count the variable cells bound in the context, keeping the last
    let n = context.entries.len();
    let mut count: usize = 0;
    let mut var_idx: usize = 0;
    let mut i: usize = 0;
    while i < n
        invariant
            context.wf(),
            i <= n,
            n == context.entries@.len(),
            count == var_entry_count_spec(context.entries@.take(i as int)),
            count <= i,
            count > 0 ==> var_idx < context.vars@.len(),
            count > 0 ==> exists|j: int|
                0 <= j < i && context.entries@[j].1 == Token::Var(var_idx),
        decreases n - i,
    {
        proof {
            assert(context.entries@.take(i + 1).drop_last() =~= context.entries@.take(i as int));
            assert(crate::context::token_in_arena(
                context.entries@[i as int].1,
                context.vars@.len() as int,
            ));
        }
        match context.entries[i].1 {
            Token::Var(vi) => {
                count = count + 1;
                var_idx = vi;
            },
            _ => {},
        }
        i = i + 1;
    }
    proof {
        assert(context.entries@.take(n as int) =~= context.entries@);
    }
    if count == 0 {
        return Err(EngineError::Compilation(ExpressionCompilationError::NoVarsFound));
    }
    if count > 1 {
        return Err(EngineError::Compilation(ExpressionCompilationError::WrongVarCount));
    }
    match rpnify(expr, context) {
        Ok(rpn) => Ok(CompiledSingle { rpn, var: var_idx }),
        Err(e) => Err(EngineError::Shunting(e)),
    }
}

/// Compiles an expression whose identifiers must all occur in the
/// context, producing a named-mapping evaluator.
pub fn compile_to_fn_of_hashmap(expr: &str, context: &Context) -> (r: Result<
    CompiledMulti,
    EngineError,
>)
    requires
        context.wf(),
    ensures
        r matches Ok(c) ==> c.wf(*context),
        r matches Ok(c) ==> rpnify_spec(expr@, *context) == Ok::<Seq<Token>, ShuntingYardError>(
            c.rpn@,
        ),
        !all_idents_known_spec(expr@, *context) ==> r == Err::<CompiledMulti, EngineError>(
            EngineError::Compilation(ExpressionCompilationError::VarNotFoundInContext),
        ),
        all_idents_known_spec(expr@, *context) && (rpnify_spec(expr@, *context) matches Err(e))
            ==> r == Err::<CompiledMulti, EngineError>(
            EngineError::Shunting(rpnify_spec(expr@, *context)->Err_0),
        ),
        all_idents_known_spec(expr@, *context) && rpnify_spec(expr@, *context) is Ok ==> r is Ok,
{
    if !check_idents_known(expr, context) {
        return Err(EngineError::Compilation(ExpressionCompilationError::VarNotFoundInContext));
    }
    match rpnify(expr, context) {
        Ok(rpn) => Ok(CompiledMulti { rpn }),
        Err(e) => Err(EngineError::Shunting(e)),
    }
}

} // verus!
