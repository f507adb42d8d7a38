//! The incremental constraint-system builder and the solvable system.
//!
//! A [`SystemBuilder`] accumulates compiled equations and the ordered
//! set of unknown variable names, classifying each candidate equation:
//! useful (it adds at most one new unknown), useless for now (it would
//! add two or more), or over-constraining (the system is already fully
//! constrained). Once the number of equations equals the number of
//! unknowns the builder can be consumed into a [`System`], whose
//! variables may still be re-specified before it is solved.
use vstd::prelude::*;
use crate::compile::CompiledMulti;
use crate::context::{str_eq, Context, Token, key_index_spec};
use crate::errors::EngineError;
use crate::newton::{multivariate_newton_raphson, MvNewton, MvPhase, MvPending};
use crate::shunting::{get_legal_variables_iter, identifiers_spec};
use crate::variable::clamp_spec;

verus! {

/// Why an equation could or could not be added to the system.
#[derive(Clone, Copy, Debug, PartialEq, Eq, Structural)]
pub enum ConstrainResult {
    /// The equation adds at most one new unknown: it was added.
    WillConstrain,
    /// The equation adds two or more new unknowns: nothing changed.
    WillNotConstrain,
    /// The system is already fully constrained: nothing changed.
    WillOverConstrain,
}

/// Of the given identifiers, those absent from the context, first
/// occurrence only, in order.
pub open spec fn unknown_idents_spec(ids: Seq<Seq<char>>, ctx: Context) -> Seq<Seq<char>>
    decreases ids.len(),
{
    if ids.len() == 0 {
        Seq::empty()
    } else {
        let rest = unknown_idents_spec(ids.drop_last(), ctx);
        if !ctx.contains_key_spec(ids.last()) && !rest.contains(ids.last()) {
            rest.push(ids.last())
        } else {
            rest
        }
    }
}

/// The unknowns of an equation: its identifiers that the context does
/// not know, each once, in first-seen order.
pub open spec fn equation_unknowns_spec(eq: Seq<char>, ctx: Context) -> Seq<Seq<char>> {
    unknown_idents_spec(identifiers_spec(eq), ctx)
}

/// Whether one of the strings reads as the given name.
fn contains_name(v: &Vec<String>, name: &str) -> (r: bool)
    ensures
        r == v@.map_values(|s: String| s@).contains(name@),
{
    let n = v.len();
    let mut i: usize = 0;
    while i < n
        invariant
            i <= n,
            n == v@.len(),
            forall|j: int| 0 <= j < i ==> v@[j]@ != name@,
        decreases n - i,
    {
        if str_eq(v[i].as_str(), name) {
            proof {
                let m = v@.map_values(|s: String| s@);
                assert(m[i as int] == name@);
                assert(m.contains(name@));
            }
            return true;
        }
        i = i + 1;
    }
    proof {
        let m = v@.map_values(|s: String| s@);
        assert forall|k: int| 0 <= k < m.len() implies m[k] != name@ by {
            assert(m[k] == v@[k]@);
        }
        assert(!m.contains(name@));
    }
    false
}

/// Returns the unknown variables of an equation: the identifiers that
/// do not occur in the context, deduplicated, in first-seen order.
pub fn get_equation_unknowns(equation: &str, ctx: &Context) -> (r: Vec<String>)
    requires
        ctx.wf(),
    ensures
        r@.map_values(|s: String| s@) == equation_unknowns_spec(equation@, *ctx),
{
    let ids = get_legal_variables_iter(equation);
    let n = ids.len();
    let mut out: Vec<String> = Vec::new();
    let ghost ids_v = ids@.map_values(|s: String| s@);
    proof {
        assert(ids_v.take(0) =~= Seq::<Seq<char>>::empty());
    }
    let mut i: usize = 0;
    while i < n
        invariant
            ctx.wf(),
            i <= n,
            n == ids@.len(),
            ids_v == ids@.map_values(|s: String| s@),
            ids_v == identifiers_spec(equation@),
            out@.map_values(|s: String| s@) == unknown_idents_spec(ids_v.take(i as int), *ctx),
        decreases n - i,
    {
        proof {
            assert(ids_v.take(i + 1).drop_last() =~= ids_v.take(i as int));
            assert(ids_v.take(i + 1).last() == ids_v[i as int]);
            assert(ids_v[i as int] == ids@[i as int]@);
        }
        if !ctx.contains_key(ids[i].as_str()) && !contains_name(&out, ids[i].as_str()) {
            let ghost out0 = out@;
            out.push(ids[i].clone());
            proof {
                assert(out@.map_values(|s: String| s@) =~= out0.map_values(|s: String| s@).push(
                    ids_v[i as int],
                ));
            }
        }
        i = i + 1;
    }
    proof {
        assert(ids_v.take(n as int) =~= ids_v);
    }
    out
}

/// A candidate that must constrain a not yet fully constrained
/// system: it brings no new unknown, frames as one equation, and its
/// residual reduces against the system's context.
pub open spec fn first_candidate_ready_spec(b: SystemBuilder, eqs: Seq<String>) -> bool {
    &&& !b.fully_constrained_spec()
    &&& eqs.len() >= 1
    &&& equation_unknowns_spec(eqs[0]@, b.context).len() == 0
    &&& crate::count_char_spec(eqs[0]@, '=') == 1
    &&& crate::compile::all_idents_known_spec(crate::residual_spec(eqs[0]@), b.context)
    &&& crate::shunting::rpnify_spec(crate::residual_spec(eqs[0]@), b.context) is Ok
}

/// An object for building up a system of equations and ensuring that
/// it is fully constrained prior to solving it.
pub struct SystemBuilder {
    /// The context the equations were compiled against; it owns the
    /// shared variable cells.
    pub context: Context,
    /// The unknowns of the system, in first-seen order.
    pub system_vars: Vec<String>,
    /// The compiled equations of the system.
    pub system_equations: Vec<CompiledMulti>,
}

impl SystemBuilder {
    /// The builder's equations all fit its context.
    pub open spec fn wf(self) -> bool {
        &&& self.context.wf()
        &&& forall|k: int|
            0 <= k < self.system_equations@.len() ==> (
            #[trigger] self.system_equations@[k]).wf(self.context)
    }

    /// Fully constrained: as many equations as unknowns.
    pub open spec fn fully_constrained_spec(self) -> bool {
        self.system_equations@.len() == self.system_vars@.len()
    }

    /// Starts a system from its first equation. The equation's
    /// unknowns become the system's first unknowns.
    pub fn new(equation: &str, ctx: Context) -> (r: Result<SystemBuilder, EngineError>)
        requires
            ctx.wf(),
        ensures
            crate::count_char_spec(equation@, '=') == 0 ==> r == Err::<SystemBuilder, EngineError>(
                EngineError::Equation(crate::errors::EquationSolverError::FoundExpression),
            ),
            crate::count_char_spec(equation@, '=') >= 2 ==> r == Err::<SystemBuilder, EngineError>(
                EngineError::Equation(
                    crate::errors::EquationSolverError::FoundMultipleEquations,
                ),
            ),
            r matches Ok(b) ==> b.wf() && b.system_equations@.len() == 1
                && b.system_vars@.map_values(|s: String| s@) == equation_unknowns_spec(
                equation@,
                ctx,
            ),
            r matches Ok(b) ==> crate::shunting::rpnify_spec(
                crate::residual_spec(equation@),
                b.context,
            ) == Ok::<Seq<crate::context::Token>, crate::errors::ShuntingYardError>(
                b.system_equations@[0].rpn@,
            ) && (forall|k: int|
                0 <= k < equation_unknowns_spec(equation@, ctx).len()
                    ==> crate::default_cell_spec(
                    b.context,
                    #[trigger] equation_unknowns_spec(equation@, ctx)[k],
                )) && (forall|s: Seq<char>|
                !equation_unknowns_spec(equation@, ctx).contains(s) ==> (
                #[trigger] b.context.lookup_spec(s)) == ctx.lookup_spec(s)),
    {
        proof {
            crate::lemma_count_char_nonneg(equation@, '=');
        }
        let system_vars = get_equation_unknowns(equation, &ctx);
        let mut c = ctx;
        match crate::compile_equation_to_fn_of_hashmap(equation, &mut c) {
            Ok(eq) => {
                let mut eqs: Vec<CompiledMulti> = Vec::new();
                eqs.push(eq);
                Ok(SystemBuilder { context: c, system_vars, system_equations: eqs })
            },
            Err(e) => Err(e),
        }
    }

    /// A reference to the unknown variable names of the system.
    pub fn get_vars(&self) -> (r: &Vec<String>)
        ensures
            r == self.system_vars,
    {
        &self.system_vars
    }

    /// True when the system has as many equations as unknowns.
    pub fn is_fully_constrained(&self) -> (r: bool)
        ensures
            r == self.fully_constrained_spec(),
    {
        self.system_equations.len() == self.system_vars.len()
    }

    /// Attempts to constrain the system with one more equation.
    ///
    /// A fully constrained system takes nothing more and stays
    /// unchanged. An equation whose unknowns include two or more names
    /// the system does not yet track is not useful and leaves the
    /// state unchanged. Otherwise the equation is compiled - the at
    /// most one new unknown gets a default cell - and appended, and
    /// the new unknown, if any, is appended to the system's unknowns.
    pub fn try_constrain_with(&mut self, equation: &str) -> (r: Result<
        ConstrainResult,
        EngineError,
    >)
        requires
            old(self).wf(),
        ensures
            final(self).wf(),
            old(self).fully_constrained_spec() ==> r == Ok::<ConstrainResult, EngineError>(
                ConstrainResult::WillOverConstrain,
            ) && *final(self) == *old(self),
            !old(self).fully_constrained_spec() && equation_unknowns_spec(
                equation@,
                old(self).context,
            ).len() > 1 ==> r == Ok::<ConstrainResult, EngineError>(
                ConstrainResult::WillNotConstrain,
            ) && *final(self) == *old(self),
            r == Ok::<ConstrainResult, EngineError>(ConstrainResult::WillConstrain)
                ==> final(self).system_equations@.len() == old(self).system_equations@.len() + 1
                && final(self).system_vars@.len() == old(self).system_vars@.len()
                + equation_unknowns_spec(equation@, old(self).context).len(),
            r matches Err(e) ==> final(self).system_equations == old(self).system_equations
                && final(self).system_vars == old(self).system_vars,
            r == Ok::<ConstrainResult, EngineError>(ConstrainResult::WillOverConstrain)
                ==> *final(self) == *old(self),
            r == Ok::<ConstrainResult, EngineError>(ConstrainResult::WillNotConstrain)
                ==> *final(self) == *old(self),
            !old(self).fully_constrained_spec() && equation_unknowns_spec(
                equation@,
                old(self).context,
            ).len() <= 1 && crate::count_char_spec(equation@, '=') == 0 ==> r == Err::<
                ConstrainResult,
                EngineError,
            >(EngineError::Equation(crate::errors::EquationSolverError::FoundExpression)),
            !old(self).fully_constrained_spec() && equation_unknowns_spec(
                equation@,
                old(self).context,
            ).len() <= 1 && crate::count_char_spec(equation@, '=') >= 2 ==> r == Err::<
                ConstrainResult,
                EngineError,
            >(EngineError::Equation(crate::errors::EquationSolverError::FoundMultipleEquations)),
            !old(self).fully_constrained_spec() && equation_unknowns_spec(
                equation@,
                old(self).context,
            ).len() <= 1 && crate::count_char_spec(equation@, '=') == 1
                && crate::compile::all_idents_known_spec(
                crate::residual_spec(equation@),
                final(self).context,
            ) && (crate::shunting::rpnify_spec(
                crate::residual_spec(equation@),
                final(self).context,
            ) is Ok) ==> r == Ok::<ConstrainResult, EngineError>(ConstrainResult::WillConstrain),
            equation_unknowns_spec(equation@, old(self).context).len() == 0
                && crate::count_char_spec(equation@, '=') == 1 ==> final(self).context
                == old(self).context,
            r == Ok::<ConstrainResult, EngineError>(ConstrainResult::WillConstrain)
                ==> final(self).system_equations@.drop_last() == old(self).system_equations@
                && crate::shunting::rpnify_spec(
                crate::residual_spec(equation@),
                final(self).context,
            ) == Ok::<Seq<crate::context::Token>, crate::errors::ShuntingYardError>(
                final(self).system_equations@.last().rpn@,
            ) && final(self).system_vars@.map_values(|s: String| s@)
                == old(self).system_vars@.map_values(|s: String| s@)
                + equation_unknowns_spec(equation@, old(self).context),
    {
        if self.is_fully_constrained() {
            return Ok(ConstrainResult::WillOverConstrain);
        }
        let mut unknowns = get_equation_unknowns(equation, &self.context);
        if unknowns.len() > 1 {
            return Ok(ConstrainResult::WillNotConstrain);
        }
        let eq = match crate::compile_equation_to_fn_of_hashmap(equation, &mut self.context) {
            Ok(eq) => eq,
            Err(e) => {
                proof {
                    lemma_wf_grows(*old(self), *self);
                }
                return Err(e);
            },
        };
        proof {
            lemma_wf_grows(*old(self), *self);
        }
        self.system_equations.push(eq);
        match unknowns.pop() {
            Some(new_var) => {
                self.system_vars.push(new_var);
            },
            None => {},
        }
        Ok(ConstrainResult::WillConstrain)
    }

    /// Attempts to fully constrain the system with a list of candidate
    /// equations: each pass adds every equation that constrains,
    /// consuming it from the list, skips the ones that would not, and
    /// stops at the first that would over-constrain. The passes stop
    /// when one of them makes no progress or the system is fully
    /// constrained; the result says whether it ended fully
    /// constrained.
    pub fn try_fully_constrain_with(&mut self, equations: Vec<String>) -> (r: Result<
        bool,
        EngineError,
    >)
        requires
            old(self).wf(),
        ensures
            final(self).wf(),
            r matches Ok(b) ==> b == final(self).fully_constrained_spec(),
            final(self).system_equations@.len() >= old(self).system_equations@.len(),
            final(self).system_vars@.len() >= old(self).system_vars@.len(),
            first_candidate_ready_spec(*old(self), equations@) ==> final(self).system_equations@.len() > old(self).system_equations@.len(),
    {
        let mut eqs = equations;
        let mut still_learning = true;
        while still_learning && !self.is_fully_constrained()
            invariant
                self.wf(),
                self.system_equations@.len() >= old(self).system_equations@.len(),
                self.system_vars@.len() >= old(self).system_vars@.len(),
                first_candidate_ready_spec(*old(self), equations@) ==> (still_learning && *self
                    == *old(self) && eqs@ == equations@ || self.system_equations@.len() > old(self).system_equations@.len()),
            decreases eqs@.len(), (if still_learning {
                1int
            } else {
                0int
            }),
        {
            still_learning = false;
            let mut i: usize = 0;
            let n = eqs.len();
            while i < n
                invariant_except_break
                    n == eqs@.len(),
                    !still_learning,
                invariant
                    self.wf(),
                    i <= n,
                    self.system_equations@.len() >= old(self).system_equations@.len(),
                    self.system_vars@.len() >= old(self).system_vars@.len(),
                    first_candidate_ready_spec(*old(self), equations@) ==> (i == 0 && *self
                        == *old(self) && eqs@ == equations@
                        || self.system_equations@.len() > old(self).system_equations@.len()),
                ensures
                    self.wf(),
                    still_learning ==> eqs@.len() + 1 == n,
                    !still_learning ==> eqs@.len() == n,
                    self.system_equations@.len() >= old(self).system_equations@.len(),
                    self.system_vars@.len() >= old(self).system_vars@.len(),
                    first_candidate_ready_spec(*old(self), equations@)
                        ==> self.system_equations@.len() > old(self).system_equations@.len(),
                decreases n - i,
            {
                match self.try_constrain_with(eqs[i].as_str()) {
                    Ok(ConstrainResult::WillNotConstrain) => {},
                    Ok(ConstrainResult::WillConstrain) => {
                        eqs.remove(i);
                        still_learning = true;
                        break ;
                    },
                    Ok(ConstrainResult::WillOverConstrain) => {
                        break ;
                    },
                    Err(e) => {
                        return Err(e);
                    },
                }
                i = i + 1;
            }
        }
        Ok(self.is_fully_constrained())
    }

    /// Consumes the builder and yields a solvable system, if and only
    /// if the system is fully constrained.
    pub fn build_system(self) -> (r: Option<System>)
        requires
            self.wf(),
        ensures
            r is Some <==> self.fully_constrained_spec(),
            r matches Some(s) ==> s.context == self.context && s.system_vars == self.system_vars
                && s.system_equations == self.system_equations && s.wf(),
    {
        if self.is_fully_constrained() {
            Some(
                System {
                    context: self.context,
                    system_vars: self.system_vars,
                    system_equations: self.system_equations,
                },
            )
        } else {
            None
        }
    }
}

/// A builder whose context only gained cells still fits its equations.
proof fn lemma_wf_grows(b0: SystemBuilder, b1: SystemBuilder)
    requires
        b0.wf(),
        b1.context.wf(),
        b1.context.vars@.len() >= b0.context.vars@.len(),
        b1.system_equations == b0.system_equations,
        b1.system_vars == b0.system_vars,
    ensures
        b1.wf(),
{
    assert forall|k: int| 0 <= k < b1.system_equations@.len() implies (
    #[trigger] b1.system_equations@[k]).wf(b1.context) by {
        assert(b0.system_equations@[k].wf(b0.context));
    }
}

/// The seed of a solve: for each entry bound to a variable cell, in
/// entry order, the name and the cell's current value.
pub open spec fn var_guesses_spec(
    entries: Seq<(String, Token)>,
    vars: Seq<crate::variable::Variable>,
) -> Seq<(Seq<char>, u64)>
    decreases entries.len(),
{
    if entries.len() == 0 {
        Seq::empty()
    } else {
        let rest = var_guesses_spec(entries.drop_last(), vars);
        match entries.last().1 {
            Token::Var(i) => rest.push((entries.last().0@, vars[i as int].value)),
            _ => rest,
        }
    }
}

/// A constrained system of equations: it can have more information
/// specified about its variables, or be solved as it stands.
///
/// It can only be built from a [`SystemBuilder`].
pub struct System {
    /// The context the equations were compiled against.
    pub context: Context,
    /// The unknowns of the system, in first-seen order.
    pub system_vars: Vec<String>,
    /// The compiled equations of the system.
    pub system_equations: Vec<CompiledMulti>,
}

impl System {
    /// The system's equations all fit its context.
    pub open spec fn wf(self) -> bool {
        &&& self.context.wf()
        &&& forall|k: int|
            0 <= k < self.system_equations@.len() ==> (
            #[trigger] self.system_equations@[k]).wf(self.context)
    }

    /// Traps the given variable between `min` and `max` and sets a
    /// starting guess for it, through the clamp. Returns false, and
    /// changes nothing, when the name is not an unknown of the system
    /// or is not bound to a cell.
    pub fn specify_variable(&mut self, var: &str, guess: u64, min: u64, max: u64) -> (r: bool)
        requires
            old(self).wf(),
        ensures
            final(self).wf(),
            final(self).system_vars == old(self).system_vars,
            final(self).system_equations == old(self).system_equations,
            final(self).context.entries == old(self).context.entries,
            r == (old(self).system_vars@.map_values(|s: String| s@).contains(var@) && (old(self).context.lookup_spec(var@) matches Some(Token::Var(_)))),
            !(old(self).system_vars@.map_values(|s: String| s@).contains(var@)) ==> r == false
                && *final(self) == *old(self),
            r ==> (old(self).context.lookup_spec(var@) matches Some(t) && t matches Token::Var(i)
                && final(self).context.vars@ == old(self).context.vars@.update(
                i as int,
                crate::variable::Variable { value: clamp_spec(guess, min, max), min, max },
            )),
            !r ==> *final(self) == *old(self),
    {
        if !contains_name(&self.system_vars, var) {
            return false;
        }
        match self.context.get(var) {
            Some(Token::Var(i)) => {
                proof {
                    let ki = key_index_spec(self.context.entries@, var@);
                    assert(self.context.entries@[ki].1 == Token::Var(i));
                    assert(crate::context::token_in_arena(
                        self.context.entries@[ki].1,
                        self.context.vars@.len() as int,
                    ));
                }
                self.context.set_var_bounds(i, min, max);
                self.context.set_var(i, guess);
                proof {
                    assert(final(self).context.vars@ =~= old(self).context.vars@.update(
                        i as int,
                        crate::variable::Variable { value: clamp_spec(guess, min, max), min, max },
                    ));
                }
                true
            },
            _ => false,
        }
    }

    /// Consumes the system into a multivariate Newton-Raphson solver
    /// seeded with the current value of every variable cell the
    /// context binds, returning the context for the caller to drive
    /// the solver with.
    pub fn solve(self, margin: u64, limit: usize) -> (r: (Context, MvNewton))
        requires
            self.wf(),
        ensures
            r.0 == self.context,
            r.0.wf(),
            r.1.wf(r.0),
            r.1.eqs == self.system_equations,
            r.1.names@.map_values(|s: String| s@) == var_guesses_spec(
                self.context.entries@,
                self.context.vars@,
            ).map_values(|p: (Seq<char>, u64)| p.0),
            r.1.guess@ == var_guesses_spec(self.context.entries@, self.context.vars@).map_values(
                |p: (Seq<char>, u64)| p.1,
            ),
            r.1.phase == MvPhase::Validate,
            r.1.pending == MvPending::NotWaiting,
            !r.1.eval.waiting,
            r.1.margin == margin,
            r.1.limit == limit,
            r.1.inv(),
    {
        let mut guess: Vec<(String, u64)> = Vec::new();
        let n = self.context.entries.len();
        let mut k: usize = 0;
        while k < n
            invariant
                self.wf(),
                k <= n,
                n == self.context.entries@.len(),
                guess@.map_values(|p: (String, u64)| (p.0@, p.1)) == var_guesses_spec(
                    self.context.entries@.take(k as int),
                    self.context.vars@,
                ),
            decreases n - k,
        {
            proof {
                assert(self.context.entries@.take(k + 1).drop_last() =~= self.context.entries@.take(
                    k as int,
                ));
            }
            let ghost g0 = guess@;
            match self.context.entries[k].1 {
                Token::Var(i) => {
                    proof {
                        assert(crate::context::token_in_arena(
                            self.context.entries@[k as int].1,
                            self.context.vars@.len() as int,
                        ));
                    }
                    let name = self.context.entries[k].0.clone();
                    let val = self.context.read_var(i);
                    guess.push((name, val));
                    proof {
                        assert(guess@.map_values(|p: (String, u64)| (p.0@, p.1)) =~= g0.map_values(
                            |p: (String, u64)| (p.0@, p.1),
                        ).push((name@, val)));
                    }
                },
                _ => {},
            }
            k = k + 1;
        }
        proof {
            assert(self.context.entries@.take(n as int) =~= self.context.entries@);
        }
        let ghost pairs = var_guesses_spec(self.context.entries@, self.context.vars@);
        let solver = multivariate_newton_raphson(self.system_equations, guess, margin, limit);
        proof {
            assert(guess@.map_values(|p: (String, u64)| p.0@) =~= pairs.map_values(
                |p: (Seq<char>, u64)| p.0,
            ));
            assert(guess@.map_values(|p: (String, u64)| p.1) =~= pairs.map_values(
                |p: (Seq<char>, u64)| p.1,
            ));
        }
        (self.context, solver)
    }
}

} // verus!
