//! Scalar and multivariate Newton-Raphson root finders.
//!
//! Both solvers run as explicit bounded iterations, never as unbounded
//! recursion, and both are suspendable machines: an evaluation that
//! needs a transcendental function, and the dense-matrix inversion,
//! multiplication and the square root of the multivariate convergence
//! test, come back to the caller as [`HostCall`] requests. The
//! validation order is fixed: a margin that is not strictly positive
//! fails before anything is evaluated, an exhausted iteration budget
//! fails next, and only then does any evaluation begin.
use vstd::prelude::*;
use crate::arith::{add_bits_spec, div_bits_spec, f64_add, f64_div, f64_mul, f64_sub, mul_bits_spec, sub_bits_spec};
use crate::compile::{CompiledMulti, CompiledSingle};
use crate::context::Context;
use crate::errors::{EngineError, NewtonRaphsonSolverError};
use crate::eval::{eval_run_spec, EvalSpecResult, EvalStep, Evaluation, HostCall, HostFn1, HostFn2};
use crate::fp::{abs_spec, f64_abs, f64_le, le_spec};
use crate::variable::clamp_spec;

verus! {

/// The fixed finite-difference step, 0.0001 as a binary64 pattern.
pub const F64_DX: u64 = 0x3F1A_36E2_EB1C_432D;

/// What one call of a solver's `advance` comes back with.
#[derive(Clone, Debug, PartialEq, Eq)]
pub enum SolveStep {
    /// The solver needs the result of this call before it can go on.
    Host(HostCall),
    /// The step is taken; call `advance` again.
    Working,
    /// Converged: the root found for the single unknown.
    Done(u64),
    /// The solve failed.
    Failed(EngineError),
}

/// Where the scalar solver stands.
#[derive(Clone, Copy, Debug, PartialEq, Eq, Structural)]
pub enum ScalarPhase {
    /// Checking margin and iteration budget; nothing evaluated yet.
    Validate,
    /// Evaluating `f(guess)`.
    RunY,
    /// Evaluating `f(guess + dx)`.
    RunYdx,
    /// Finished, successfully or not.
    Halted,
}

/// The scalar Newton-Raphson solver. Each iteration evaluates the
/// compiled equation at the guess and at the guess displaced by the
/// fixed step, forms the forward-difference quotient, and accepts the
/// guess once the residual and the update are both within the margin
/// in absolute value.
pub struct ScalarNewton {
    /// The compiled residual, bound to the one unknown cell.
    pub eq: CompiledSingle,
    /// The current guess.
    pub guess: u64,
    /// The convergence margin.
    pub margin: u64,
    /// Iterations left.
    pub limit: usize,
    /// Where the solver stands.
    pub phase: ScalarPhase,
    /// The evaluation currently running.
    pub eval: Evaluation,
    /// The last residual `f(guess)`.
    pub y: u64,
    /// The last update step `y / y'`.
    pub delta: u64,
}

/// Creates a scalar Newton-Raphson solver for a compiled equation.
/// Nothing is checked or evaluated until the solver is advanced.
pub fn newton_raphson(eq: CompiledSingle, guess: u64, margin: u64, limit: usize) -> (m:
    ScalarNewton)
    ensures
        m.eq == eq,
        m.guess == guess,
        m.margin == margin,
        m.limit == limit,
        m.phase == ScalarPhase::Validate,
        !m.eval.waiting,
        m.eval.rpn@.len() == 0,
        m.eval.pos == 0,
{
    ScalarNewton {
        eq,
        guess,
        margin,
        limit,
        phase: ScalarPhase::Validate,
        eval: Evaluation::new(Vec::new()),
        y: 0,
        delta: 0,
    }
}

impl ScalarNewton {
    /// The solver fits the context.
    pub open spec fn wf(self, ctx: Context) -> bool {
        &&& self.eq.wf(ctx)
        &&& self.eval.wf(ctx)
    }

    /// Internal consistency: mid-iteration phases still own at least
    /// one unit of the iteration budget, and the running evaluation is
    /// a run of the solver's own compiled equation.
    pub open spec fn inv(self) -> bool {
        (self.phase == ScalarPhase::RunY || self.phase == ScalarPhase::RunYdx) ==> (self.limit
            >= 1 && self.eval.rpn@ == self.eq.rpn@)
    }

    /// Hands the solver the answer to the host call its evaluation is
    /// waiting on.
    pub fn resume(&mut self, result: u64)
        requires
            old(self).eval.waiting,
        ensures
            final(self).eq == old(self).eq,
            final(self).guess == old(self).guess,
            final(self).margin == old(self).margin,
            final(self).limit == old(self).limit,
            final(self).phase == old(self).phase,
            final(self).y == old(self).y,
            final(self).delta == old(self).delta,
            final(self).eval.rpn == old(self).eval.rpn,
            !final(self).eval.waiting,
    {
        self.eval.resume(result);
    }

    /// Takes the solver through one step: one validation, one
    /// iteration start, or one evaluation run up to its end or its
    /// next host call. `Working` means call again.
    ///
    /// A margin at or below zero fails with the negative-margin error
    /// before any iteration is performed, and a zero iteration budget
    /// fails with the iteration-limit error before anything is
    /// evaluated: in both cases the context is untouched. Each step's
    /// whole effect is stated below: the residual and displaced
    /// residual are runs of the compiled equation per `eval_run_spec`,
    /// the update step is the forward-difference quotient over the
    /// named arithmetic, and convergence requires the residual and
    /// the update step to be within the margin in absolute value.
    pub fn advance(&mut self, ctx: &mut Context) -> (r: SolveStep)
        requires
            old(self).wf(*old(ctx)),
            old(ctx).wf(),
            !old(self).eval.waiting,
            old(self).phase != ScalarPhase::Halted,
            old(self).inv(),
        ensures
            final(self).inv(),
            final(ctx).wf(),
            final(ctx).entries == old(ctx).entries,
            final(ctx).vars@.len() == old(ctx).vars@.len(),
            final(self).wf(*final(ctx)),
            final(self).eq == old(self).eq,
            final(self).margin == old(self).margin,
            final(self).eval.waiting == (r is Host),
            (r is Done || r is Failed) <==> final(self).phase == ScalarPhase::Halted,
            r matches SolveStep::Failed(e) ==> (e is Newton || e is Shunting),
            old(self).phase == ScalarPhase::Validate ==> ({
                if le_spec(old(self).margin, 0) {
                    r == SolveStep::Failed(
                        EngineError::Newton(NewtonRaphsonSolverError::NegativeMargin),
                    ) && *final(ctx) == *old(ctx)
                } else if old(self).limit == 0 {
                    r == SolveStep::Failed(
                        EngineError::Newton(NewtonRaphsonSolverError::ReachedIterationLimit),
                    ) && *final(ctx) == *old(ctx)
                } else {
                    // the first iteration begins: the unknown cell takes the guess
                    r is Working && final(self).phase == ScalarPhase::RunY && final(ctx).vars@
                        == old(ctx).vars@.update(
                        old(self).eq.var as int,
                        crate::variable::Variable {
                            value: clamp_spec(
                                old(self).guess,
                                old(ctx).vars@[old(self).eq.var as int].min,
                                old(ctx).vars@[old(self).eq.var as int].max,
                            ),
                            min: old(ctx).vars@[old(self).eq.var as int].min,
                            max: old(ctx).vars@[old(self).eq.var as int].max,
                        },
                    ) && final(self).eval.rpn@ == old(self).eq.rpn@ && final(self).eval.pos == 0
                        && final(self).eval.stack@.len() == 0 && final(self).guess == old(self).guess && final(self).limit == old(self).limit
                }
            }),
            old(self).phase == ScalarPhase::RunY ==> ({
                match eval_run_spec(
                    old(self).eval.rpn@,
                    old(self).eval.pos as int,
                    old(self).eval.stack@,
                    old(ctx).vars@,
                ) {
                    EvalSpecResult::Fail(e) => r == SolveStep::Failed(EngineError::Shunting(e))
                        && *final(ctx) == *old(ctx),
                    EvalSpecResult::Suspend(c, st, p) => r == SolveStep::Host(c) && *final(ctx)
                        == *old(ctx) && final(self).phase == ScalarPhase::RunY && final(self).eval.rpn@ == old(self).eval.rpn@ && final(self).eval.stack@ == st && final(self).eval.pos == p && final(self).guess == old(self).guess && final(self).limit
                        == old(self).limit && final(self).y == old(self).y,
                    EvalSpecResult::Finish(v) => r is Working && final(self).phase
                        == ScalarPhase::RunYdx && final(self).y == v && final(ctx).vars@ == old(ctx).vars@.update(
                        old(self).eq.var as int,
                        crate::variable::Variable {
                            value: clamp_spec(
                                add_bits_spec(old(self).guess, F64_DX),
                                old(ctx).vars@[old(self).eq.var as int].min,
                                old(ctx).vars@[old(self).eq.var as int].max,
                            ),
                            min: old(ctx).vars@[old(self).eq.var as int].min,
                            max: old(ctx).vars@[old(self).eq.var as int].max,
                        },
                    ) && final(self).eval.rpn@ == old(self).eq.rpn@ && final(self).eval.pos == 0
                        && final(self).eval.stack@.len() == 0 && final(self).guess == old(self).guess && final(self).limit == old(self).limit,
                }
            }),
            old(self).phase == ScalarPhase::RunYdx ==> ({
                match eval_run_spec(
                    old(self).eval.rpn@,
                    old(self).eval.pos as int,
                    old(self).eval.stack@,
                    old(ctx).vars@,
                ) {
                    EvalSpecResult::Fail(e) => r == SolveStep::Failed(EngineError::Shunting(e))
                        && *final(ctx) == *old(ctx),
                    EvalSpecResult::Suspend(c, st, p) => r == SolveStep::Host(c) && *final(ctx)
                        == *old(ctx) && final(self).phase == ScalarPhase::RunYdx && final(self).eval.rpn@ == old(self).eval.rpn@ && final(self).eval.stack@ == st && final(self).eval.pos == p && final(self).guess == old(self).guess && final(self).limit
                        == old(self).limit && final(self).y == old(self).y,
                    EvalSpecResult::Finish(v) => ({
                        let d = div_bits_spec(
                            old(self).y,
                            div_bits_spec(sub_bits_spec(v, old(self).y), F64_DX),
                        );
                        final(self).delta == d && final(self).y == old(self).y && (if le_spec(
                            abs_spec(old(self).y),
                            old(self).margin,
                        ) && le_spec(abs_spec(d), old(self).margin) {
                            r == SolveStep::Done(old(self).guess) && final(self).guess == old(self).guess && *final(ctx) == *old(ctx)
                        } else {
                            final(self).guess == sub_bits_spec(old(self).guess, d) && final(self).limit == old(self).limit - 1 && (if old(self).limit == 1 {
                                r == SolveStep::Failed(
                                    EngineError::Newton(
                                        NewtonRaphsonSolverError::ReachedIterationLimit,
                                    ),
                                ) && *final(ctx) == *old(ctx)
                            } else {
                                // the next iteration begins at the moved guess
                                r is Working && final(self).phase == ScalarPhase::RunY && final(ctx).vars@ == old(ctx).vars@.update(
                                    old(self).eq.var as int,
                                    crate::variable::Variable {
                                        value: clamp_spec(
                                            sub_bits_spec(old(self).guess, d),
                                            old(ctx).vars@[old(self).eq.var as int].min,
                                            old(ctx).vars@[old(self).eq.var as int].max,
                                        ),
                                        min: old(ctx).vars@[old(self).eq.var as int].min,
                                        max: old(ctx).vars@[old(self).eq.var as int].max,
                                    },
                                ) && final(self).eval.rpn@ == old(self).eq.rpn@ && final(self).eval.pos == 0 && final(self).eval.stack@.len() == 0
                            })
                        })
                    }),
                }
            }),
    {
        match self.phase {
            ScalarPhase::Validate => {
                if f64_le(self.margin, 0) {
                    self.phase = ScalarPhase::Halted;
                    return SolveStep::Failed(
                        EngineError::Newton(NewtonRaphsonSolverError::NegativeMargin),
                    );
                }
                if self.limit == 0 {
                    self.phase = ScalarPhase::Halted;
                    return SolveStep::Failed(
                        EngineError::Newton(NewtonRaphsonSolverError::ReachedIterationLimit),
                    );
                }
                self.eval = self.eq.begin(self.guess, ctx);
                self.phase = ScalarPhase::RunY;
                SolveStep::Working
            },
            ScalarPhase::RunY => {
                match self.eval.advance(ctx) {
                    EvalStep::Host(c) => SolveStep::Host(c),
                    EvalStep::Finished(v) => {
                        self.y = v;
                        let gdx = f64_add(self.guess, F64_DX);
                        self.eval = self.eq.begin(gdx, ctx);
                        self.phase = ScalarPhase::RunYdx;
                        SolveStep::Working
                    },
                    EvalStep::Failed(e) => {
                        self.phase = ScalarPhase::Halted;
                        SolveStep::Failed(EngineError::Shunting(e))
                    },
                }
            },
            ScalarPhase::RunYdx => {
                match self.eval.advance(ctx) {
                    EvalStep::Host(c) => SolveStep::Host(c),
                    EvalStep::Finished(v) => {
                        let yprime = f64_div(f64_sub(v, self.y), F64_DX);
                        let delta = f64_div(self.y, yprime);
                        self.delta = delta;
                        if f64_le(f64_abs(self.y), self.margin) && f64_le(
                            f64_abs(delta),
                            self.margin,
                        ) {
                            self.phase = ScalarPhase::Halted;
                            return SolveStep::Done(self.guess);
                        }
                        self.guess = f64_sub(self.guess, delta);
                        self.limit = self.limit - 1;
                        if self.limit == 0 {
                            self.phase = ScalarPhase::Halted;
                            return SolveStep::Failed(
                                EngineError::Newton(NewtonRaphsonSolverError::ReachedIterationLimit),
                            );
                        }
                        self.eval = self.eq.begin(self.guess, ctx);
                        self.phase = ScalarPhase::RunY;
                        SolveStep::Working
                    },
                    EvalStep::Failed(e) => {
                        self.phase = ScalarPhase::Halted;
                        SolveStep::Failed(EngineError::Shunting(e))
                    },
                }
            },
            ScalarPhase::Halted => {
                proof {
                    assert(false);
                }
                SolveStep::Working
            },
        }
    }
}

/// What one call of the multivariate solver's `advance` comes back
/// with.
#[derive(Clone, Debug, PartialEq, Eq)]
pub enum MvStep {
    /// The solver needs the result of this call before it can go on.
    Host(HostCall),
    /// The step is taken; call `advance` again.
    Working,
    /// Converged: the final name-to-value mapping of the unknowns.
    Done(Vec<(String, u64)>),
    /// The solve failed.
    Failed(EngineError),
}

/// Where the multivariate solver stands.
#[derive(Clone, Copy, Debug, PartialEq, Eq, Structural)]
pub enum MvPhase {
    /// Checking margin, budget and the equation/unknown counts.
    Validate,
    /// About to start an iteration.
    IterStart,
    /// About to evaluate the next residual at the base guess.
    BaseBegin,
    /// Evaluating a residual at the base guess.
    RunBase,
    /// About to perturb the next variable for its Jacobian column.
    PerturbBegin,
    /// About to evaluate the next residual at the perturbed guess.
    JacBegin,
    /// Evaluating a residual at the perturbed guess.
    RunJac,
    /// The Jacobian went to the host for inversion.
    AwaitInvert,
    /// About to evaluate the next residual for the error norm.
    YBegin,
    /// Evaluating a residual for the error norm.
    RunY,
    /// The inverse and the residual vector went to the host to be
    /// multiplied.
    AwaitMul,
    /// The update norm went to the host for its square root.
    AwaitSqrt,
    /// Finished, successfully or not.
    Halted,
}

/// Which host answer the multivariate solver is waiting for.
#[derive(Clone, Copy, Debug, PartialEq, Eq, Structural)]
pub enum MvPending {
    NotWaiting,
    /// The running evaluation issued the call.
    EvalCall,
    /// A matrix inversion is out.
    InvertCall,
    /// A matrix-vector multiplication is out.
    MulCall,
    /// A square root is out.
    SqrtCall,
}

/// The named guess vector as name-view/value pairs, in order.
pub open spec fn mv_zip_spec(names: Seq<String>, guess: Seq<u64>) -> Seq<(Seq<char>, u64)> {
    Seq::new(names.len(), |k: int| (names[k]@, guess[k]))
}

/// Every guess name is bound to a variable cell of the context.
pub open spec fn mv_inputs_bound_spec(ctx: Context, names: Seq<String>) -> bool {
    forall|k: int|
        0 <= k < names.len() ==> (#[trigger] ctx.lookup_spec(names[k]@)) matches Some(
            crate::context::Token::Var(_),
        )
}

/// A row-major zero matrix buffer of the given size.
pub open spec fn zeros_spec(n: nat) -> Seq<u64> {
    Seq::new(n, |q: int| 0u64)
}

/// The residual norm: the binary64 sum of the absolute values, folded
/// left to right from zero.
pub open spec fn sum_abs_spec(v: Seq<u64>) -> u64
    decreases v.len(),
{
    if v.len() == 0 {
        0
    } else {
        add_bits_spec(sum_abs_spec(v.drop_last()), abs_spec(v.last()))
    }
}

/// The squared update norm: the binary64 sum of the squares, folded
/// left to right from zero.
pub open spec fn sum_squares_spec(v: Seq<u64>) -> u64
    decreases v.len(),
{
    if v.len() == 0 {
        0
    } else {
        add_bits_spec(sum_squares_spec(v.drop_last()), mul_bits_spec(v.last(), v.last()))
    }
}

/// The multivariate Newton-Raphson solver over a system of compiled
/// residuals and a named guess vector. Each iteration evaluates the
/// residual vector, builds the Jacobian from forward differences
/// column by column, has the host invert it and multiply it onto the
/// residual vector, and accepts the guess once the residual norm (the
/// sum of absolute values) and the Euclidean norm of the update vector
/// are both within the margin.
pub struct MvNewton {
    /// The compiled residuals.
    pub eqs: Vec<CompiledMulti>,
    /// The names of the unknowns, in first-seen order.
    pub names: Vec<String>,
    /// The current guess values, parallel to `names`.
    pub guess: Vec<u64>,
    /// The convergence margin.
    pub margin: u64,
    /// Iterations left.
    pub limit: usize,
    /// The system size, fixed at validation.
    pub dim: usize,
    /// `dim * dim`, fixed at validation.
    pub nn: usize,
    /// Where the solver stands.
    pub phase: MvPhase,
    /// Which host answer is outstanding.
    pub pending: MvPending,
    /// The evaluation currently running.
    pub eval: Evaluation,
    /// The residuals at the base guess of this iteration.
    pub base: Vec<u64>,
    /// The Jacobian, row major; after inversion, its inverse.
    pub jac: Vec<u64>,
    /// The residuals for the error norm.
    pub yvec: Vec<u64>,
    /// The update vector, from the host's multiplication.
    pub deltas: Vec<u64>,
    /// The host's answer to the inversion, if it arrived.
    pub inv_reply: Option<Vec<u64>>,
    /// The residual norm of this iteration.
    pub err_sum: u64,
    /// The update norm of this iteration.
    pub change: u64,
    /// The equation index of the running inner loop.
    pub i: usize,
    /// The variable index of the Jacobian column loop.
    pub j: usize,
}

/// Creates a multivariate Newton-Raphson solver from compiled
/// residuals and a named guess vector. Nothing is checked or evaluated
/// until the solver is advanced.
pub fn multivariate_newton_raphson(
    f: Vec<CompiledMulti>,
    guess: Vec<(String, u64)>,
    margin: u64,
    limit: usize,
) -> (m: MvNewton)
    ensures
        m.eqs == f,
        m.margin == margin,
        m.limit == limit,
        m.phase == MvPhase::Validate,
        m.pending == MvPending::NotWaiting,
        !m.eval.waiting,
        m.eval.rpn@.len() == 0,
        m.eval.pos == 0,
        m.names@.len() == guess@.len(),
        m.guess@.len() == guess@.len(),
        m.names@.map_values(|s: String| s@) == guess@.map_values(|p: (String, u64)| p.0@),
        m.guess@ == guess@.map_values(|p: (String, u64)| p.1),
{
    let n = guess.len();
    let mut names: Vec<String> = Vec::new();
    let mut vals: Vec<u64> = Vec::new();
    let mut k: usize = 0;
    while k < n
        invariant
            k <= n,
            n == guess@.len(),
            names@.len() == k,
            vals@.len() == k,
            forall|q: int| 0 <= q < k ==> (#[trigger] names@[q])@ == guess@[q].0@,
            forall|q: int| 0 <= q < k ==> (#[trigger] vals@[q]) == guess@[q].1,
        decreases n - k,
    {
        let nm = guess[k].0.clone();
        let vl = guess[k].1;
        proof {
            assert(nm@ == guess@[k as int].0@);
        }
        names.push(nm);
        vals.push(vl);
        k = k + 1;
    }
    proof {
        assert(names@.map_values(|s: String| s@) =~= guess@.map_values(|p: (String, u64)| p.0@));
        assert(vals@ =~= guess@.map_values(|p: (String, u64)| p.1));
    }
    MvNewton {
        eqs: f,
        names,
        guess: vals,
        margin,
        limit,
        dim: 0,
        nn: 0,
        phase: MvPhase::Validate,
        pending: MvPending::NotWaiting,
        eval: Evaluation::new(Vec::new()),
        base: Vec::new(),
        jac: Vec::new(),
        yvec: Vec::new(),
        deltas: Vec::new(),
        inv_reply: None,
        err_sum: 0,
        change: 0,
        i: 0,
        j: 0,
    }
}

impl MvNewton {
    /// The solver fits the context.
    pub open spec fn wf(self, ctx: Context) -> bool {
        &&& forall|k: int| 0 <= k < self.eqs@.len() ==> (#[trigger] self.eqs@[k]).wf(ctx)
        &&& self.eval.wf(ctx)
    }

    /// The sizes fixed at validation.
    pub open spec fn sizes_ok(self) -> bool {
        &&& self.names@.len() == self.dim
        &&& self.guess@.len() == self.dim
        &&& self.eqs@.len() == self.dim
        &&& self.nn == self.dim * self.dim
    }

    /// Internal consistency of the machine state: what each phase may
    /// assume about the partial vectors, the loop indices, the budget
    /// and the outstanding host call.
    pub open spec fn inv(self) -> bool {
        &&& (self.pending == MvPending::EvalCall) <==> self.eval.waiting
        &&& (self.pending == MvPending::EvalCall ==> self.phase == MvPhase::RunBase
            || self.phase == MvPhase::RunJac || self.phase == MvPhase::RunY)
        &&& (self.pending == MvPending::InvertCall ==> self.phase == MvPhase::AwaitInvert)
        &&& (self.pending == MvPending::MulCall ==> self.phase == MvPhase::AwaitMul)
        &&& (self.pending == MvPending::SqrtCall ==> self.phase == MvPhase::AwaitSqrt)
        &&& (self.phase != MvPhase::Validate && self.phase != MvPhase::Halted
            ==> self.sizes_ok())
        &&& (self.phase != MvPhase::Validate && self.phase != MvPhase::Halted
            && self.phase != MvPhase::IterStart ==> self.limit >= 1)
        &&& match self.phase {
            MvPhase::BaseBegin => self.i <= self.dim && self.base@.len() == self.i,
            MvPhase::RunBase => self.i < self.dim && self.base@.len() == self.i
                && self.eval.rpn@ == self.eqs@[self.i as int].rpn@,
            MvPhase::PerturbBegin => self.j <= self.dim && self.i == 0 && self.base@.len()
                == self.dim && self.jac@.len() == self.nn,
            MvPhase::JacBegin => self.j < self.dim && self.i <= self.dim && self.base@.len()
                == self.dim && self.jac@.len() == self.nn,
            MvPhase::RunJac => self.j < self.dim && self.i < self.dim && self.base@.len()
                == self.dim && self.jac@.len() == self.nn && self.eval.rpn@ == self.eqs@[
                self.i as int
            ].rpn@,
            MvPhase::AwaitInvert => self.jac@.len() == self.nn && (self.pending
                == MvPending::NotWaiting ==> (self.inv_reply matches Some(m) ==> m@.len()
                == self.nn)),
            MvPhase::YBegin => self.i <= self.dim && self.yvec@.len() == self.i
                && self.jac@.len() == self.nn,
            MvPhase::RunY => self.i < self.dim && self.yvec@.len() == self.i && self.jac@.len()
                == self.nn && self.eval.rpn@ == self.eqs@[self.i as int].rpn@,
            MvPhase::AwaitMul => self.yvec@.len() == self.dim && self.jac@.len() == self.nn && (
            self.pending == MvPending::NotWaiting ==> self.deltas@.len() == self.dim),
            MvPhase::AwaitSqrt => self.deltas@.len() == self.dim,
            _ => true,
        }
    }

    /// Hands the solver a scalar host answer: the value of an
    /// evaluation's call, or the square root it asked for.
    pub fn resume(&mut self, result: u64)
        requires
            old(self).pending == MvPending::EvalCall || old(self).pending
                == MvPending::SqrtCall,
            old(self).inv(),
        ensures
            final(self).inv(),
            final(self).pending == MvPending::NotWaiting,
            !final(self).eval.waiting,
            final(self).phase == old(self).phase,
            final(self).eqs == old(self).eqs,
            final(self).names == old(self).names,
            final(self).guess == old(self).guess,
            final(self).margin == old(self).margin,
            final(self).limit == old(self).limit,
            final(self).dim == old(self).dim,
            final(self).nn == old(self).nn,
            final(self).eval.rpn == old(self).eval.rpn,
            final(self).base == old(self).base,
            final(self).jac == old(self).jac,
            final(self).yvec == old(self).yvec,
            final(self).deltas == old(self).deltas,
            final(self).inv_reply == old(self).inv_reply,
            final(self).err_sum == old(self).err_sum,
            final(self).i == old(self).i,
            final(self).j == old(self).j,
    {
        if matches!(self.pending, MvPending::EvalCall) {
            self.eval.resume(result);
        } else {
            self.change = result;
        }
        self.pending = MvPending::NotWaiting;
    }

    /// Hands the solver the host's answer to the matrix inversion;
    /// `None` reports a singular matrix.
    pub fn resume_invert(&mut self, result: Option<Vec<u64>>)
        requires
            old(self).pending == MvPending::InvertCall,
            old(self).inv(),
            result matches Some(m) ==> m@.len() == old(self).nn,
        ensures
            final(self).inv(),
            final(self).pending == MvPending::NotWaiting,
            !final(self).eval.waiting,
            final(self).phase == old(self).phase,
            final(self).eqs == old(self).eqs,
            final(self).names == old(self).names,
            final(self).guess == old(self).guess,
            final(self).margin == old(self).margin,
            final(self).limit == old(self).limit,
            final(self).dim == old(self).dim,
            final(self).nn == old(self).nn,
            final(self).eval.rpn == old(self).eval.rpn,
            final(self).base == old(self).base,
            final(self).jac == old(self).jac,
            final(self).yvec == old(self).yvec,
            final(self).deltas == old(self).deltas,
            final(self).err_sum == old(self).err_sum,
            final(self).i == old(self).i,
            final(self).j == old(self).j,
    {
        self.inv_reply = result;
        self.pending = MvPending::NotWaiting;
    }

    /// Hands the solver the host's answer to the matrix-vector
    /// multiplication: the update vector.
    pub fn resume_mul(&mut self, result: Vec<u64>)
        requires
            old(self).pending == MvPending::MulCall,
            old(self).inv(),
            result@.len() == old(self).dim,
        ensures
            final(self).inv(),
            final(self).pending == MvPending::NotWaiting,
            !final(self).eval.waiting,
            final(self).phase == old(self).phase,
            final(self).eqs == old(self).eqs,
            final(self).names == old(self).names,
            final(self).guess == old(self).guess,
            final(self).margin == old(self).margin,
            final(self).limit == old(self).limit,
            final(self).dim == old(self).dim,
            final(self).nn == old(self).nn,
            final(self).eval.rpn == old(self).eval.rpn,
            final(self).base == old(self).base,
            final(self).jac == old(self).jac,
            final(self).yvec == old(self).yvec,
            final(self).err_sum == old(self).err_sum,
            final(self).i == old(self).i,
            final(self).j == old(self).j,
    {
        self.deltas = result;
        self.pending = MvPending::NotWaiting;
    }

    /// The current guess as a name-to-value mapping.
    fn make_inputs(&self) -> (r: Vec<(String, u64)>)
        requires
            self.names@.len() == self.guess@.len(),
        ensures
            r@.len() == self.names@.len(),
            forall|k: int|
                0 <= k < r@.len() ==> (#[trigger] r@[k]).0@ == self.names@[k]@ && r@[k].1
                    == self.guess@[k],
            r@.map_values(|p: (String, u64)| (p.0@, p.1)) == mv_zip_spec(
                self.names@,
                self.guess@,
            ),
    {
        let n = self.names.len();
        let mut r: Vec<(String, u64)> = Vec::new();
        let mut k: usize = 0;
        while k < n
            invariant
                k <= n,
                n == self.names@.len(),
                n == self.guess@.len(),
                r@.len() == k,
                forall|q: int|
                    0 <= q < k ==> (#[trigger] r@[q]).0@ == self.names@[q]@ && r@[q].1
                        == self.guess@[q],
            decreases n - k,
        {
            let nm = self.names[k].clone();
            proof {
                assert(nm@ == self.names@[k as int]@);
            }
            r.push((nm, self.guess[k]));
            k = k + 1;
        }
        proof {
            assert(r@.map_values(|p: (String, u64)| (p.0@, p.1)) =~= mv_zip_spec(
                self.names@,
                self.guess@,
            ));
        }
        r
    }

    /// Takes the solver through one step: one validation, one loop
    /// index advanced, one evaluation run up to its end or its next
    /// host call, or one host answer folded in. `Working` means call
    /// again.
    ///
    /// A margin at or below zero fails with the negative-margin error
    /// before any iteration is performed; a zero iteration budget
    /// fails with the iteration-limit error, and a guess vector whose
    /// size differs from the number of residuals fails as improperly
    /// constrained, all before anything is evaluated and with the
    /// context untouched. Each step's whole effect is stated below:
    /// the residual evaluations are runs of the compiled equations
    /// per `eval_run_spec` at the current guess written through the
    /// clamp, the Jacobian entries are forward-difference quotients
    /// over the named arithmetic, the matrix host calls carry exactly
    /// the Jacobian and the residual vector, the residual norm is the
    /// sum of absolute values, the update norm is the square root of
    /// the sum of squares (the Euclidean norm), a singular Jacobian -
    /// the host's `None` - fails the solve, and a non-converged
    /// iteration moves every guess component by its update.
    #[verifier::rlimit(100)]
    #[verifier::spinoff_prover]
    pub fn advance(&mut self, ctx: &mut Context) -> (r: MvStep)
        requires
            old(self).wf(*old(ctx)),
            old(ctx).wf(),
            old(self).pending == MvPending::NotWaiting,
            old(self).phase != MvPhase::Halted,
            old(self).inv(),
        ensures
            final(self).inv(),
            final(ctx).wf(),
            final(ctx).entries == old(ctx).entries,
            final(ctx).vars@.len() == old(ctx).vars@.len(),
            final(self).wf(*final(ctx)),
            final(self).eqs == old(self).eqs,
            final(self).names == old(self).names,
            final(self).margin == old(self).margin,
            old(self).phase != MvPhase::Validate ==> final(self).dim == old(self).dim && final(self).nn == old(self).nn,
            (r is Host) <==> final(self).pending != MvPending::NotWaiting,
            (r is Done || r is Failed) <==> final(self).phase == MvPhase::Halted,
            r matches MvStep::Failed(e) ==> (e is Newton || e is Shunting || e is Lookup || e
                == EngineError::SingularJacobian),
            old(self).phase == MvPhase::Validate ==> ({
                if le_spec(old(self).margin, 0) {
                    r == MvStep::Failed(
                        EngineError::Newton(NewtonRaphsonSolverError::NegativeMargin),
                    ) && *final(ctx) == *old(ctx)
                } else if old(self).limit == 0 {
                    r == MvStep::Failed(
                        EngineError::Newton(NewtonRaphsonSolverError::ReachedIterationLimit),
                    ) && *final(ctx) == *old(ctx)
                } else if old(self).guess@.len() != old(self).eqs@.len() || old(self).names@.len()
                    != old(self).eqs@.len() || old(self).eqs@.len() * old(self).eqs@.len()
                    > usize::MAX {
                    r == MvStep::Failed(
                        EngineError::Newton(NewtonRaphsonSolverError::ImproperlyConstrainedSystem),
                    ) && *final(ctx) == *old(ctx)
                } else {
                    r is Working && final(self).phase == MvPhase::IterStart && final(self).dim
                        == old(self).eqs@.len() && final(self).nn == old(self).eqs@.len() * old(self).eqs@.len() && *final(ctx) == *old(ctx) && final(self).guess == old(self).guess && final(self).limit == old(self).limit
                }
            }),
            old(self).phase == MvPhase::IterStart ==> ({
                if old(self).limit == 0 {
                    r == MvStep::Failed(
                        EngineError::Newton(NewtonRaphsonSolverError::ReachedIterationLimit),
                    ) && *final(ctx) == *old(ctx)
                } else {
                    r is Working && final(self).phase == MvPhase::BaseBegin && final(self).base@.len() == 0 && final(self).i == 0 && *final(ctx) == *old(ctx) && final(self).guess == old(self).guess && final(self).limit == old(self).limit
                }
            }),
            old(self).phase == MvPhase::BaseBegin ==> ({
                if old(self).i == old(self).dim {
                    r is Working && final(self).phase == MvPhase::PerturbBegin && final(self).jac@ == zeros_spec(old(self).nn as nat) && final(self).i == 0
                        && final(self).j == 0 && *final(ctx) == *old(ctx) && final(self).guess
                        == old(self).guess && final(self).limit == old(self).limit && final(self).base == old(self).base
                } else if mv_inputs_bound_spec(*old(ctx), old(self).names@) {
                    r is Working && final(self).phase == MvPhase::RunBase && final(ctx).vars@
                        == crate::compile::apply_inputs_spec(
                        old(ctx).entries@,
                        old(ctx).vars@,
                        mv_zip_spec(old(self).names@, old(self).guess@),
                    ) && final(self).eval.rpn@ == old(self).eqs@[old(self).i as int].rpn@ && final(self).eval.pos == 0 && final(self).eval.stack@.len() == 0 && final(self).i == old(self).i && final(self).base == old(self).base && final(self).guess == old(self).guess && final(self).limit == old(self).limit
                } else {
                    r == MvStep::Failed(
                        EngineError::Lookup(crate::errors::CompiledExpressionLookupError),
                    )
                }
            }),
            old(self).phase == MvPhase::RunBase ==> ({
                match eval_run_spec(
                    old(self).eval.rpn@,
                    old(self).eval.pos as int,
                    old(self).eval.stack@,
                    old(ctx).vars@,
                ) {
                    EvalSpecResult::Fail(e) => r == MvStep::Failed(EngineError::Shunting(e))
                        && *final(ctx) == *old(ctx),
                    EvalSpecResult::Suspend(c, st, p) => r == MvStep::Host(c) && *final(ctx)
                        == *old(ctx) && final(self).phase == MvPhase::RunBase && final(self).eval.rpn@ == old(self).eval.rpn@ && final(self).eval.stack@ == st && final(self).eval.pos == p && final(self).base == old(self).base && final(self).i == old(self).i && final(self).guess == old(self).guess && final(self).limit == old(self).limit,
                    EvalSpecResult::Finish(v) => r is Working && final(self).phase
                        == MvPhase::BaseBegin && final(self).base@ == old(self).base@.push(v)
                        && final(self).i == old(self).i + 1 && *final(ctx) == *old(ctx) && final(self).guess == old(self).guess && final(self).limit == old(self).limit,
                }
            }),
            old(self).phase == MvPhase::PerturbBegin ==> ({
                if old(self).j == old(self).dim {
                    (r matches MvStep::Host(c) && (c matches HostCall::MatInvert(n2, m) && n2
                        == old(self).dim && m@ == old(self).jac@)) && final(self).phase
                        == MvPhase::AwaitInvert && final(self).pending == MvPending::InvertCall
                        && *final(ctx) == *old(ctx) && final(self).jac == old(self).jac && final(self).guess == old(self).guess && final(self).limit == old(self).limit
                } else {
                    r is Working && final(self).phase == MvPhase::JacBegin && final(self).guess@
                        == old(self).guess@.update(
                        old(self).j as int,
                        add_bits_spec(old(self).guess@[old(self).j as int], F64_DX),
                    ) && final(self).i == old(self).i && final(self).j == old(self).j && *final(ctx) == *old(ctx) && final(self).jac == old(self).jac && final(self).limit == old(self).limit && final(self).base == old(self).base
                }
            }),
            old(self).phase == MvPhase::JacBegin ==> ({
                if old(self).i == old(self).dim {
                    r is Working && final(self).phase == MvPhase::PerturbBegin && final(self).guess@ == old(self).guess@.update(
                        old(self).j as int,
                        sub_bits_spec(old(self).guess@[old(self).j as int], F64_DX),
                    ) && final(self).j == old(self).j + 1 && final(self).i == 0 && *final(ctx)
                        == *old(ctx) && final(self).jac == old(self).jac && final(self).limit
                        == old(self).limit && final(self).base == old(self).base
                } else if mv_inputs_bound_spec(*old(ctx), old(self).names@) {
                    r is Working && final(self).phase == MvPhase::RunJac && final(ctx).vars@
                        == crate::compile::apply_inputs_spec(
                        old(ctx).entries@,
                        old(ctx).vars@,
                        mv_zip_spec(old(self).names@, old(self).guess@),
                    ) && final(self).eval.rpn@ == old(self).eqs@[old(self).i as int].rpn@ && final(self).eval.pos == 0 && final(self).eval.stack@.len() == 0 && final(self).i == old(self).i && final(self).j == old(self).j && final(self).jac == old(self).jac
                        && final(self).guess == old(self).guess && final(self).limit == old(self).limit && final(self).base == old(self).base
                } else {
                    r == MvStep::Failed(
                        EngineError::Lookup(crate::errors::CompiledExpressionLookupError),
                    )
                }
            }),
            old(self).phase == MvPhase::RunJac ==> ({
                match eval_run_spec(
                    old(self).eval.rpn@,
                    old(self).eval.pos as int,
                    old(self).eval.stack@,
                    old(ctx).vars@,
                ) {
                    EvalSpecResult::Fail(e) => r == MvStep::Failed(EngineError::Shunting(e))
                        && *final(ctx) == *old(ctx),
                    EvalSpecResult::Suspend(c, st, p) => r == MvStep::Host(c) && *final(ctx)
                        == *old(ctx) && final(self).phase == MvPhase::RunJac && final(self).eval.rpn@ == old(self).eval.rpn@ && final(self).eval.stack@ == st && final(self).eval.pos == p && final(self).jac == old(self).jac && final(self).i == old(self).i && final(self).j == old(self).j && final(self).guess == old(self).guess
                        && final(self).limit == old(self).limit && final(self).base == old(self).base,
                    EvalSpecResult::Finish(v) => r is Working && final(self).phase
                        == MvPhase::JacBegin && final(self).jac@ == old(self).jac@.update(
                        old(self).i * old(self).dim + old(self).j,
                        div_bits_spec(
                            sub_bits_spec(v, old(self).base@[old(self).i as int]),
                            F64_DX,
                        ),
                    ) && final(self).i == old(self).i + 1 && final(self).j == old(self).j
                        && *final(ctx) == *old(ctx) && final(self).guess == old(self).guess
                        && final(self).limit == old(self).limit && final(self).base == old(self).base,
                }
            }),
            old(self).phase == MvPhase::AwaitInvert ==> ({
                match old(self).inv_reply {
                    Option::None => r == MvStep::Failed(EngineError::SingularJacobian) && *final(ctx) == *old(ctx),
                    Option::Some(m) => r is Working && final(self).phase == MvPhase::YBegin
                        && final(self).jac@ == m@ && final(self).i == 0 && final(self).yvec@.len() == 0 && *final(ctx) == *old(ctx) && final(self).guess == old(self).guess && final(self).limit == old(self).limit,
                }
            }),
            old(self).phase == MvPhase::YBegin ==> ({
                if old(self).i == old(self).dim {
                    (r matches MvStep::Host(c) && (c matches HostCall::MatMulVec(n2, a, y) && n2
                        == old(self).dim && a@ == old(self).jac@ && y@ == old(self).yvec@))
                        && final(self).err_sum == sum_abs_spec(old(self).yvec@) && final(self).phase == MvPhase::AwaitMul && final(self).pending == MvPending::MulCall
                        && *final(ctx) == *old(ctx) && final(self).yvec == old(self).yvec && final(self).jac == old(self).jac && final(self).guess == old(self).guess && final(self).limit == old(self).limit
                } else if mv_inputs_bound_spec(*old(ctx), old(self).names@) {
                    r is Working && final(self).phase == MvPhase::RunY && final(ctx).vars@
                        == crate::compile::apply_inputs_spec(
                        old(ctx).entries@,
                        old(ctx).vars@,
                        mv_zip_spec(old(self).names@, old(self).guess@),
                    ) && final(self).eval.rpn@ == old(self).eqs@[old(self).i as int].rpn@ && final(self).eval.pos == 0 && final(self).eval.stack@.len() == 0 && final(self).i == old(self).i && final(self).yvec == old(self).yvec && final(self).jac == old(self).jac
                        && final(self).guess == old(self).guess && final(self).limit == old(self).limit
                } else {
                    r == MvStep::Failed(
                        EngineError::Lookup(crate::errors::CompiledExpressionLookupError),
                    )
                }
            }),
            old(self).phase == MvPhase::RunY ==> ({
                match eval_run_spec(
                    old(self).eval.rpn@,
                    old(self).eval.pos as int,
                    old(self).eval.stack@,
                    old(ctx).vars@,
                ) {
                    EvalSpecResult::Fail(e) => r == MvStep::Failed(EngineError::Shunting(e))
                        && *final(ctx) == *old(ctx),
                    EvalSpecResult::Suspend(c, st, p) => r == MvStep::Host(c) && *final(ctx)
                        == *old(ctx) && final(self).phase == MvPhase::RunY && final(self).eval.rpn@ == old(self).eval.rpn@ && final(self).eval.stack@ == st && final(self).eval.pos == p && final(self).yvec == old(self).yvec && final(self).jac
                        == old(self).jac && final(self).i == old(self).i && final(self).guess
                        == old(self).guess && final(self).limit == old(self).limit,
                    EvalSpecResult::Finish(v) => r is Working && final(self).phase
                        == MvPhase::YBegin && final(self).yvec@ == old(self).yvec@.push(v)
                        && final(self).i == old(self).i + 1 && *final(ctx) == *old(ctx) && final(self).jac == old(self).jac && final(self).guess == old(self).guess && final(self).limit == old(self).limit,
                }
            }),
            old(self).phase == MvPhase::AwaitMul ==> ((r matches MvStep::Host(c) && (c matches
                HostCall::Op1(f, x) && f == HostFn1::Sqrt && x == sum_squares_spec(
                old(self).deltas@,
            ))) && final(self).phase == MvPhase::AwaitSqrt && final(self).pending
                == MvPending::SqrtCall && *final(ctx) == *old(ctx) && final(self).deltas == old(self).deltas && final(self).err_sum == old(self).err_sum && final(self).guess == old(self).guess && final(self).limit == old(self).limit),
            old(self).phase == MvPhase::AwaitSqrt ==> ({
                if le_spec(old(self).err_sum, old(self).margin) && le_spec(
                    old(self).change,
                    old(self).margin,
                ) {
                    (r matches MvStep::Done(sol) && sol@.len() == old(self).names@.len() && (
                    forall|k: int|
                        0 <= k < sol@.len() ==> sol@[k].1 == old(self).guess@[k] && (
                        #[trigger] sol@[k]).0@ == old(self).names@[k]@)) && final(self).guess
                        == old(self).guess && *final(ctx) == *old(ctx)
                } else {
                    r is Working && final(self).phase == MvPhase::IterStart && final(self).guess@
                        == Seq::new(
                        old(self).dim as nat,
                        |k: int| sub_bits_spec(old(self).guess@[k], old(self).deltas@[k]),
                    ) && final(self).limit == old(self).limit - 1 && *final(ctx) == *old(ctx)
                }
            }),
    {
        match self.phase {
            MvPhase::Validate => {
                if f64_le(self.margin, 0) {
                    self.phase = MvPhase::Halted;
                    return MvStep::Failed(
                        EngineError::Newton(NewtonRaphsonSolverError::NegativeMargin),
                    );
                }
                if self.limit == 0 {
                    self.phase = MvPhase::Halted;
                    return MvStep::Failed(
                        EngineError::Newton(NewtonRaphsonSolverError::ReachedIterationLimit),
                    );
                }
                let n = self.eqs.len();
                if self.guess.len() != n || self.names.len() != n {
                    self.phase = MvPhase::Halted;
                    return MvStep::Failed(
                        EngineError::Newton(NewtonRaphsonSolverError::ImproperlyConstrainedSystem),
                    );
                }
                match n.checked_mul(n) {
                    Some(nn) => {
                        self.dim = n;
                        self.nn = nn;
                        self.phase = MvPhase::IterStart;
                        MvStep::Working
                    },
                    None => {
                        // a system too large to index row major
                        self.phase = MvPhase::Halted;
                        MvStep::Failed(
                            EngineError::Newton(
                                NewtonRaphsonSolverError::ImproperlyConstrainedSystem,
                            ),
                        )
                    },
                }
            },
            MvPhase::IterStart => {
                if self.limit == 0 {
                    self.phase = MvPhase::Halted;
                    return MvStep::Failed(
                        EngineError::Newton(NewtonRaphsonSolverError::ReachedIterationLimit),
                    );
                }
                self.base = Vec::new();
                self.i = 0;
                self.phase = MvPhase::BaseBegin;
                MvStep::Working
            },
            MvPhase::BaseBegin => {
                if self.i == self.dim {
                    let mut z: Vec<u64> = Vec::new();
                    let mut k: usize = 0;
                    while k < self.nn
                        invariant
                            k <= self.nn,
                            z@.len() == k,
                            forall|q: int| 0 <= q < k ==> z@[q] == 0u64,
                        decreases self.nn - k,
                    {
                        z.push(0);
                        k = k + 1;
                    }
                    proof {
                        assert(z@ =~= zeros_spec(self.nn as nat));
                    }
                    self.jac = z;
                    self.i = 0;
                    self.j = 0;
                    self.phase = MvPhase::PerturbBegin;
                    MvStep::Working
                } else {
                    let inputs = self.make_inputs();
                    proof {
                        assert forall|k: int| 0 <= k < inputs@.len() implies (
                        #[trigger] old(ctx).lookup_spec(inputs@[k].0@)) == old(ctx).lookup_spec(
                            self.names@[k]@,
                        ) by {
                            assert(inputs@[k].0@ == self.names@[k]@);
                        }
                        assert forall|k: int| 0 <= k < self.names@.len() implies (
                        #[trigger] old(ctx).lookup_spec(self.names@[k]@)) == old(ctx).lookup_spec(
                            inputs@[k].0@,
                        ) by {
                            assert(inputs@[k].0@ == self.names@[k]@);
                        }
                    }
                    let eq = &self.eqs[self.i];
                    match eq.begin(&inputs, ctx) {
                        Ok(ev) => {
                            self.eval = ev;
                            self.phase = MvPhase::RunBase;
                            MvStep::Working
                        },
                        Err(e) => {
                            self.phase = MvPhase::Halted;
                            MvStep::Failed(e)
                        },
                    }
                }
            },
            MvPhase::RunBase => {
                match self.eval.advance(ctx) {
                    EvalStep::Host(c) => {
                        self.pending = MvPending::EvalCall;
                        MvStep::Host(c)
                    },
                    EvalStep::Finished(v) => {
                        self.base.push(v);
                        self.i = self.i + 1;
                        self.phase = MvPhase::BaseBegin;
                        MvStep::Working
                    },
                    EvalStep::Failed(e) => {
                        self.phase = MvPhase::Halted;
                        MvStep::Failed(EngineError::Shunting(e))
                    },
                }
            },
            MvPhase::PerturbBegin => {
                if self.j == self.dim {
                    let m = self.jac.clone();
                    proof {
                        assert(m@ =~= self.jac@);
                    }
                    self.pending = MvPending::InvertCall;
                    self.phase = MvPhase::AwaitInvert;
                    MvStep::Host(HostCall::MatInvert(self.dim, m))
                } else {
                    let g = self.guess[self.j];
                    self.guess[self.j] = f64_add(g, F64_DX);
                    self.phase = MvPhase::JacBegin;
                    MvStep::Working
                }
            },
            MvPhase::JacBegin => {
                if self.i == self.dim {
                    let g = self.guess[self.j];
                    self.guess[self.j] = f64_sub(g, F64_DX);
                    self.i = 0;
                    self.j = self.j + 1;
                    self.phase = MvPhase::PerturbBegin;
                    MvStep::Working
                } else {
                    let inputs = self.make_inputs();
                    proof {
                        assert forall|k: int| 0 <= k < inputs@.len() implies (
                        #[trigger] old(ctx).lookup_spec(inputs@[k].0@)) == old(ctx).lookup_spec(
                            self.names@[k]@,
                        ) by {
                            assert(inputs@[k].0@ == self.names@[k]@);
                        }
                        assert forall|k: int| 0 <= k < self.names@.len() implies (
                        #[trigger] old(ctx).lookup_spec(self.names@[k]@)) == old(ctx).lookup_spec(
                            inputs@[k].0@,
                        ) by {
                            assert(inputs@[k].0@ == self.names@[k]@);
                        }
                    }
                    let eq = &self.eqs[self.i];
                    match eq.begin(&inputs, ctx) {
                        Ok(ev) => {
                            self.eval = ev;
                            self.phase = MvPhase::RunJac;
                            MvStep::Working
                        },
                        Err(e) => {
                            self.phase = MvPhase::Halted;
                            MvStep::Failed(e)
                        },
                    }
                }
            },
            MvPhase::RunJac => {
                match self.eval.advance(ctx) {
                    EvalStep::Host(c) => {
                        self.pending = MvPending::EvalCall;
                        MvStep::Host(c)
                    },
                    EvalStep::Finished(v) => {
                        proof {
                            assert(self.i * self.dim + self.j < self.nn) by (nonlinear_arith)
                                requires
                                    self.i < self.dim,
                                    self.j < self.dim,
                                    self.nn == self.dim * self.dim,
                            ;
                        }
                        let idx = self.i * self.dim + self.j;
                        let b = self.base[self.i];
                        self.jac[idx] = f64_div(f64_sub(v, b), F64_DX);
                        self.i = self.i + 1;
                        self.phase = MvPhase::JacBegin;
                        MvStep::Working
                    },
                    EvalStep::Failed(e) => {
                        self.phase = MvPhase::Halted;
                        MvStep::Failed(EngineError::Shunting(e))
                    },
                }
            },
            MvPhase::AwaitInvert => {
                let reply = self.inv_reply.take();
                match reply {
                    None => {
                        self.phase = MvPhase::Halted;
                        MvStep::Failed(EngineError::SingularJacobian)
                    },
                    Some(m) => {
                        self.jac = m;
                        self.i = 0;
                        self.yvec = Vec::new();
                        self.phase = MvPhase::YBegin;
                        MvStep::Working
                    },
                }
            },
            MvPhase::YBegin => {
                if self.i == self.dim {
                    let mut acc: u64 = 0;
                    let mut k: usize = 0;
                    proof {
                        assert(self.yvec@.take(0) =~= Seq::<u64>::empty());
                    }
                    while k < self.dim
                        invariant
                            k <= self.dim,
                            self.yvec@.len() == self.dim,
                            acc == sum_abs_spec(self.yvec@.take(k as int)),
                        decreases self.dim - k,
                    {
                        proof {
                            assert(self.yvec@.take(k + 1).drop_last() =~= self.yvec@.take(
                                k as int,
                            ));
                        }
                        acc = f64_add(acc, f64_abs(self.yvec[k]));
                        k = k + 1;
                    }
                    proof {
                        assert(self.yvec@.take(self.dim as int) =~= self.yvec@);
                    }
                    self.err_sum = acc;
                    let m = self.jac.clone();
                    let y = self.yvec.clone();
                    proof {
                        assert(m@ =~= self.jac@);
                        assert(y@ =~= self.yvec@);
                    }
                    self.pending = MvPending::MulCall;
                    self.phase = MvPhase::AwaitMul;
                    MvStep::Host(HostCall::MatMulVec(self.dim, m, y))
                } else {
                    let inputs = self.make_inputs();
                    proof {
                        assert forall|k: int| 0 <= k < inputs@.len() implies (
                        #[trigger] old(ctx).lookup_spec(inputs@[k].0@)) == old(ctx).lookup_spec(
                            self.names@[k]@,
                        ) by {
                            assert(inputs@[k].0@ == self.names@[k]@);
                        }
                        assert forall|k: int| 0 <= k < self.names@.len() implies (
                        #[trigger] old(ctx).lookup_spec(self.names@[k]@)) == old(ctx).lookup_spec(
                            inputs@[k].0@,
                        ) by {
                            assert(inputs@[k].0@ == self.names@[k]@);
                        }
                    }
                    let eq = &self.eqs[self.i];
                    match eq.begin(&inputs, ctx) {
                        Ok(ev) => {
                            self.eval = ev;
                            self.phase = MvPhase::RunY;
                            MvStep::Working
                        },
                        Err(e) => {
                            self.phase = MvPhase::Halted;
                            MvStep::Failed(e)
                        },
                    }
                }
            },
            MvPhase::RunY => {
                match self.eval.advance(ctx) {
                    EvalStep::Host(c) => {
                        self.pending = MvPending::EvalCall;
                        MvStep::Host(c)
                    },
                    EvalStep::Finished(v) => {
                        self.yvec.push(v);
                        self.i = self.i + 1;
                        self.phase = MvPhase::YBegin;
                        MvStep::Working
                    },
                    EvalStep::Failed(e) => {
                        self.phase = MvPhase::Halted;
                        MvStep::Failed(EngineError::Shunting(e))
                    },
                }
            },
            MvPhase::AwaitMul => {
                let mut acc: u64 = 0;
                let mut k: usize = 0;
                proof {
                    assert(self.deltas@.take(0) =~= Seq::<u64>::empty());
                }
                while k < self.dim
                    invariant
                        k <= self.dim,
                        self.deltas@.len() == self.dim,
                        acc == sum_squares_spec(self.deltas@.take(k as int)),
                    decreases self.dim - k,
                {
                    proof {
                        assert(self.deltas@.take(k + 1).drop_last() =~= self.deltas@.take(
                            k as int,
                        ));
                    }
                    let d = self.deltas[k];
                    acc = f64_add(acc, f64_mul(d, d));
                    k = k + 1;
                }
                proof {
                    assert(self.deltas@.take(self.dim as int) =~= self.deltas@);
                }
                self.pending = MvPending::SqrtCall;
                self.phase = MvPhase::AwaitSqrt;
                MvStep::Host(HostCall::Op1(HostFn1::Sqrt, acc))
            },
            MvPhase::AwaitSqrt => {
                if f64_le(self.err_sum, self.margin) && f64_le(self.change, self.margin) {
                    self.phase = MvPhase::Halted;
                    let n = self.names.len();
                    let mut sol: Vec<(String, u64)> = Vec::new();
                    let mut k: usize = 0;
                    while k < n
                        invariant
                            k <= n,
                            n == self.names@.len(),
                            n == self.guess@.len(),
                            sol@.len() == k,
                            forall|q: int|
                                0 <= q < k ==> sol@[q].1 == self.guess@[q] && (
                                #[trigger] sol@[q]).0@ == self.names@[q]@,
                        decreases n - k,
                    {
                        sol.push((self.names[k].clone(), self.guess[k]));
                        k = k + 1;
                    }
                    return MvStep::Done(sol);
                }
                let ghost g0 = self.guess@;
                let mut k: usize = 0;
                while k < self.dim
                    invariant
                        k <= self.dim,
                        self.inv(),
                        self.wf(*ctx),
                        self.phase == MvPhase::AwaitSqrt,
                        self.pending == MvPending::NotWaiting,
                        !self.eval.waiting,
                        self.limit >= 1,
                        self.margin == old(self).margin,
                        self.eqs == old(self).eqs,
                        self.names == old(self).names,
                        self.deltas == old(self).deltas,
                        self.limit == old(self).limit,
                        self.guess@.len() == self.dim,
                        g0 == old(self).guess@,
                        forall|q: int|
                            0 <= q < k ==> self.guess@[q] == sub_bits_spec(
                                g0[q],
                                old(self).deltas@[q],
                            ),
                        forall|q: int| k <= q < self.dim ==> self.guess@[q] == g0[q],
                    decreases self.dim - k,
                {
                    let g = self.guess[k];
                    let d = self.deltas[k];
                    self.guess[k] = f64_sub(g, d);
                    k = k + 1;
                }
                proof {
                    assert(self.guess@ =~= Seq::new(
                        self.dim as nat,
                        |q: int| sub_bits_spec(g0[q], old(self).deltas@[q]),
                    ));
                }
                self.limit = self.limit - 1;
                self.phase = MvPhase::IterStart;
                MvStep::Working
            },
            MvPhase::Halted => {
                proof {
                    assert(false);
                }
                MvStep::Working
            },
        }
    }
}

} // verus!