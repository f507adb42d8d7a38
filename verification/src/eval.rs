//! The postfix evaluator: a stack machine over binary64 bit patterns.
//!
//! The machine executes everything it can by itself: literals, variable
//! reads, the four arithmetic operators, the absolute value and the
//! conditional function. What it cannot compute - the transcendental
//! functions and the `^` operator - it requests from its caller as an
//! explicit [`HostCall`]; the caller computes the value and hands it
//! back through [`Evaluation::resume`]. The machine's contracts pin the
//! stack discipline down exactly: which token fails with which error,
//! and in particular that a division whose right operand is zero stops
//! with the division-by-zero error instead of producing a value.
use vstd::prelude::*;
use crate::arith::{f64_add, f64_sub, f64_mul, f64_div, add_bits_spec, sub_bits_spec, mul_bits_spec, div_bits_spec};
use crate::context::{arity, arity_spec, Context, FuncKind, Token};
use crate::errors::ShuntingYardError;
use crate::fp::{abs_spec, eq_spec, f64_abs, f64_eq, f64_is_zero, f64_le, f64_lt, f64_round_as_u64, is_zero_spec, le_spec, lt_spec, round_as_u64_spec};
use crate::shunting::{rpn_wf_tokens, rpnify};

verus! {

/// A one-argument operation only the host can compute.
#[derive(Clone, Copy, Debug, PartialEq, Eq, Structural)]
pub enum HostFn1 {
    Sin,
    Cos,
    Tan,
    Arcsin,
    Arccos,
    Arctan,
    Sinh,
    Cosh,
    Tanh,
    Ln,
    Log10,
    Sqrt,
}

/// A two-argument operation only the host can compute.
#[derive(Clone, Copy, Debug, PartialEq, Eq, Structural)]
pub enum HostFn2 {
    /// `Pow(l, r)` asks for `l` raised to the power `r`.
    Pow,
    /// `Log(x, base)` asks for the logarithm of `x` in the given base.
    Log,
}

/// A request for outside work: a numeric operation, or a step of the
/// dense-matrix component. All scalars are binary64 bit patterns.
#[derive(Clone, Debug, PartialEq, Eq)]
pub enum HostCall {
    Op1(HostFn1, u64),
    Op2(HostFn2, u64, u64),
    /// Invert the square matrix of the given dimension, stored row
    /// major; the answer is `None` when the matrix is singular.
    MatInvert(usize, Vec<u64>),
    /// Multiply the square matrix of the given dimension by the column
    /// vector.
    MatMulVec(usize, Vec<u64>, Vec<u64>),
}

/// What one call of [`Evaluation::advance`] comes back with.
#[derive(Clone, Debug, PartialEq, Eq)]
pub enum EvalStep {
    /// The machine needs the result of this call before it can go on.
    Host(HostCall),
    /// The run is over; the expression's value.
    Finished(u64),
    /// The run failed.
    Failed(ShuntingYardError),
}

/// The comparison-code semantics of the conditional function
/// `if(a, op, b, then, else)`: `op` rounds to a code choosing the
/// comparison of `a` with `b` - 1 is `==`, 2 is `<=`, 3 is `>=`, 4 is
/// `<`, 5 is `>`, anything else is `!=` - and the matching branch is
/// returned. The arguments stand in the order the evaluator pops them:
/// the else branch was pushed last.
pub open spec fn conditional_spec(els: u64, then: u64, b: u64, op: u64, a: u64) -> u64 {
    let code = round_as_u64_spec(op);
    let pred = if code == 1 {
        eq_spec(a, b)
    } else if code == 2 {
        le_spec(a, b)
    } else if code == 3 {
        le_spec(b, a)
    } else if code == 4 {
        lt_spec(a, b)
    } else if code == 5 {
        lt_spec(b, a)
    } else {
        !eq_spec(a, b)
    };
    if pred {
        then
    } else {
        els
    }
}

/// Executable conditional function.
fn conditional_bits(els: u64, then: u64, b: u64, op: u64, a: u64) -> (r: u64)
    ensures
        r == conditional_spec(els, then, b, op, a),
{
    let code = f64_round_as_u64(op);
    let pred: bool = if code == 1 {
        f64_eq(a, b)
    } else if code == 2 {
        f64_le(a, b)
    } else if code == 3 {
        f64_le(b, a)
    } else if code == 4 {
        f64_lt(a, b)
    } else if code == 5 {
        f64_lt(b, a)
    } else {
        !f64_eq(a, b)
    };
    if pred {
        then
    } else {
        els
    }
}

/// How many stack values the token at hand consumes.
pub open spec fn needed_args_spec(t: Token) -> int {
    match t {
        Token::Exp => 2,
        Token::Mul => 2,
        Token::Div => 2,
        Token::Plus => 2,
        Token::Minus => 2,
        Token::Func(k) => arity_spec(k),
        _ => 0,
    }
}

/// The one-argument host operation a built-in function stands for.
pub open spec fn host_fn1_of_spec(k: FuncKind) -> HostFn1 {
    match k {
        FuncKind::Sin => HostFn1::Sin,
        FuncKind::Cos => HostFn1::Cos,
        FuncKind::Tan => HostFn1::Tan,
        FuncKind::Arcsin => HostFn1::Arcsin,
        FuncKind::Arccos => HostFn1::Arccos,
        FuncKind::Arctan => HostFn1::Arctan,
        FuncKind::Sinh => HostFn1::Sinh,
        FuncKind::Cosh => HostFn1::Cosh,
        FuncKind::Tanh => HostFn1::Tanh,
        FuncKind::Ln => HostFn1::Ln,
        _ => HostFn1::Log10,
    }
}

/// Where a run of the stack machine from a given state must end up.
pub ghost enum EvalSpecResult {
    /// The run reaches a host call: the call, and the stack and
    /// position at the suspension.
    Suspend(HostCall, Seq<u64>, int),
    /// The run finishes with this value.
    Finish(u64),
    /// The run fails with this error.
    Fail(ShuntingYardError),
}

/// The meaning of one run of the postfix stack machine: executes
/// every token it can by itself and stops at the first host call,
/// the end of the tokens, or a failure. `vars` is the variable arena
/// the run reads.
pub open spec fn eval_run_spec(
    rpn: Seq<Token>,
    pos: int,
    stack: Seq<u64>,
    vars: Seq<crate::variable::Variable>,
) -> EvalSpecResult
    decreases rpn.len() - pos,
    when 0 <= pos <= rpn.len()
{
    if pos == rpn.len() {
        if stack.len() == 1 {
            EvalSpecResult::Finish(stack[0])
        } else if stack.len() == 0 {
            EvalSpecResult::Fail(ShuntingYardError::NoTokens)
        } else {
            EvalSpecResult::Fail(ShuntingYardError::LeftoverToken)
        }
    } else {
        let n = stack.len() as int;
        match rpn[pos] {
            Token::Num(b) => eval_run_spec(rpn, pos + 1, stack.push(b), vars),
            Token::Var(i) => eval_run_spec(rpn, pos + 1, stack.push(vars[i as int].value), vars),
            Token::Plus => if n < 2 {
                EvalSpecResult::Fail(ShuntingYardError::ExpectedArg)
            } else {
                eval_run_spec(
                    rpn,
                    pos + 1,
                    stack.drop_last().drop_last().push(add_bits_spec(stack[n - 2], stack[n - 1])),
                    vars,
                )
            },
            Token::Minus => if n < 2 {
                EvalSpecResult::Fail(ShuntingYardError::ExpectedArg)
            } else {
                eval_run_spec(
                    rpn,
                    pos + 1,
                    stack.drop_last().drop_last().push(sub_bits_spec(stack[n - 2], stack[n - 1])),
                    vars,
                )
            },
            Token::Mul => if n < 2 {
                EvalSpecResult::Fail(ShuntingYardError::ExpectedArg)
            } else {
                eval_run_spec(
                    rpn,
                    pos + 1,
                    stack.drop_last().drop_last().push(mul_bits_spec(stack[n - 2], stack[n - 1])),
                    vars,
                )
            },
            Token::Div => if n < 2 {
                EvalSpecResult::Fail(ShuntingYardError::ExpectedArg)
            } else if is_zero_spec(stack[n - 1]) {
                EvalSpecResult::Fail(ShuntingYardError::DivisionByZero)
            } else {
                eval_run_spec(
                    rpn,
                    pos + 1,
                    stack.drop_last().drop_last().push(div_bits_spec(stack[n - 2], stack[n - 1])),
                    vars,
                )
            },
            Token::Exp => if n < 2 {
                EvalSpecResult::Fail(ShuntingYardError::ExpectedArg)
            } else {
                EvalSpecResult::Suspend(
                    HostCall::Op2(HostFn2::Pow, stack[n - 2], stack[n - 1]),
                    stack.drop_last().drop_last(),
                    pos + 1,
                )
            },
            Token::Func(k) => if n < arity_spec(k) {
                EvalSpecResult::Fail(ShuntingYardError::ExpectedArg)
            } else {
                match k {
                    FuncKind::If => eval_run_spec(
                        rpn,
                        pos + 1,
                        stack.drop_last().drop_last().drop_last().drop_last().drop_last().push(
                            conditional_spec(
                                stack[n - 1],
                                stack[n - 2],
                                stack[n - 3],
                                stack[n - 4],
                                stack[n - 5],
                            ),
                        ),
                        vars,
                    ),
                    FuncKind::Abs => eval_run_spec(
                        rpn,
                        pos + 1,
                        stack.drop_last().push(abs_spec(stack[n - 1])),
                        vars,
                    ),
                    FuncKind::Log => EvalSpecResult::Suspend(
                        HostCall::Op2(HostFn2::Log, stack[n - 2], stack[n - 1]),
                        stack.drop_last().drop_last(),
                        pos + 1,
                    ),
                    _ => EvalSpecResult::Suspend(
                        HostCall::Op1(host_fn1_of_spec(k), stack[n - 1]),
                        stack.drop_last(),
                        pos + 1,
                    ),
                }
            },
            _ => EvalSpecResult::Fail(ShuntingYardError::LeftoverToken),
        }
    }
}

/// The machine stands at a division whose right operand is zero.
pub open spec fn div_zero_state(m: Evaluation) -> bool {
    &&& !m.waiting
    &&& m.pos < m.rpn@.len()
    &&& m.rpn@[m.pos as int] is Div
    &&& m.stack@.len() >= 2
    &&& is_zero_spec(m.stack@[m.stack@.len() - 1])
}

/// The machine stands at a token that needs more stack values than
/// there are.
pub open spec fn missing_args_state(m: Evaluation) -> bool {
    &&& !m.waiting
    &&& m.pos < m.rpn@.len()
    &&& m.stack@.len() < needed_args_spec(m.rpn@[m.pos as int])
}

/// A single pass of the postfix stack machine over an RPN token
/// sequence, suspendable at host calls.
pub struct Evaluation {
    /// The program: the postfix token sequence.
    pub rpn: Vec<Token>,
    /// The next token to execute.
    pub pos: usize,
    /// The value stack.
    pub stack: Vec<u64>,
    /// True while a host call is outstanding.
    pub waiting: bool,
}

impl Evaluation {
    /// The machine fits the context: its tokens are evaluable and its
    /// variable indices point into the context's arena.
    pub open spec fn wf(self, ctx: Context) -> bool {
        &&& rpn_wf_tokens(self.rpn@, ctx.vars@.len() as int)
        &&& self.pos <= self.rpn@.len()
    }

    /// A fresh machine at the start of the token sequence.
    pub fn new(rpn: Vec<Token>) -> (m: Evaluation)
        ensures
            m.rpn == rpn,
            m.pos == 0,
            m.stack@.len() == 0,
            !m.waiting,
    {
        Evaluation { rpn, pos: 0, stack: Vec::new(), waiting: false }
    }

    /// Hands the machine the answer to the host call it is waiting on.
    pub fn resume(&mut self, result: u64)
        requires
            old(self).waiting,
        ensures
            final(self).rpn == old(self).rpn,
            final(self).pos == old(self).pos,
            final(self).stack@ == old(self).stack@.push(result),
            !final(self).waiting,
    {
        self.stack.push(result);
        self.waiting = false;
    }

    /// Runs the machine until it finishes, fails, or needs the host.
    ///
    /// Numbers and variable reads push their value; each binary
    /// operator pops its right then its left operand; a function pops
    /// exactly its arity, the first-popped argument being the last
    /// pushed. A division by an exactly-zero right operand fails with
    /// the division-by-zero error - the contract states that this error
    /// comes back if and only if the machine stands at such a division,
    /// so a zero divisor can never produce a value. An empty final
    /// stack is the no-tokens error; more than one final value is the
    /// leftover-token error; an operator or function short of arguments
    /// is the expected-argument error.
    pub fn advance(&mut self, ctx: &Context) -> (r: EvalStep)
        requires
            !old(self).waiting,
            old(self).wf(*ctx),
        ensures
            final(self).rpn == old(self).rpn,
            final(self).wf(*ctx),
            final(self).waiting == (r is Host),
            (r is Finished) <==> (!final(self).waiting && final(self).pos
                == final(self).rpn@.len() && final(self).stack@.len() == 1),
            r matches EvalStep::Finished(v) ==> final(self).stack@ == seq![v],
            (r == EvalStep::Failed(ShuntingYardError::DivisionByZero)) <==> div_zero_state(
                *final(self),
            ),
            (r == EvalStep::Failed(ShuntingYardError::ExpectedArg)) <==> missing_args_state(
                *final(self),
            ),
            (r == EvalStep::Failed(ShuntingYardError::NoTokens)) <==> (!final(self).waiting
                && final(self).pos == final(self).rpn@.len() && final(self).stack@.len() == 0),
            (r == EvalStep::Failed(ShuntingYardError::LeftoverToken)) <==> (!final(self).waiting
                && final(self).pos == final(self).rpn@.len() && final(self).stack@.len() > 1),
            r matches EvalStep::Failed(e) ==> (e == ShuntingYardError::DivisionByZero || e
                == ShuntingYardError::ExpectedArg || e == ShuntingYardError::NoTokens || e
                == ShuntingYardError::LeftoverToken),
            ({
                let spec_r = eval_run_spec(
                    old(self).rpn@,
                    old(self).pos as int,
                    old(self).stack@,
                    ctx.vars@,
                );
                match r {
                    EvalStep::Host(c) => spec_r == EvalSpecResult::Suspend(
                        c,
                        final(self).stack@,
                        final(self).pos as int,
                    ),
                    EvalStep::Finished(v) => spec_r == EvalSpecResult::Finish(v),
                    EvalStep::Failed(e) => spec_r == EvalSpecResult::Fail(e),
                }
            }),
    {
        loop
            invariant
                !self.waiting,
                self.rpn == old(self).rpn,
                self.wf(*ctx),
                eval_run_spec(self.rpn@, self.pos as int, self.stack@, ctx.vars@)
                    == eval_run_spec(
                    old(self).rpn@,
                    old(self).pos as int,
                    old(self).stack@,
                    ctx.vars@,
                ),
            decreases self.rpn@.len() - self.pos,
        {
            let len = self.rpn.len();
            if self.pos >= len {
                if self.stack.len() == 1 {
                    return EvalStep::Finished(self.stack[0]);
                } else if self.stack.len() == 0 {
                    return EvalStep::Failed(ShuntingYardError::NoTokens);
                } else {
                    return EvalStep::Failed(ShuntingYardError::LeftoverToken);
                }
            }
            let t = self.rpn[self.pos];
            proof {
                assert(!(self.rpn@[self.pos as int] is LeftParenthesis) && !(
                self.rpn@[self.pos as int] is Comma) && crate::context::token_in_arena(
                    self.rpn@[self.pos as int],
                    ctx.vars@.len() as int,
                ));
            }
            match t {
                Token::Num(b) => {
                    self.stack.push(b);
                    self.pos = self.pos + 1;
                },
                Token::Var(i) => {
                    let v = ctx.read_var(i);
                    self.stack.push(v);
                    self.pos = self.pos + 1;
                },
                Token::Plus => {
                    if self.stack.len() < 2 {
                        return EvalStep::Failed(ShuntingYardError::ExpectedArg);
                    }
                    let rv = self.stack.pop().unwrap();
                    let lv = self.stack.pop().unwrap();
                    self.stack.push(f64_add(lv, rv));
                    self.pos = self.pos + 1;
                },
                Token::Minus => {
                    if self.stack.len() < 2 {
                        return EvalStep::Failed(ShuntingYardError::ExpectedArg);
                    }
                    let rv = self.stack.pop().unwrap();
                    let lv = self.stack.pop().unwrap();
                    self.stack.push(f64_sub(lv, rv));
                    self.pos = self.pos + 1;
                },
                Token::Mul => {
                    if self.stack.len() < 2 {
                        return EvalStep::Failed(ShuntingYardError::ExpectedArg);
                    }
                    let rv = self.stack.pop().unwrap();
                    let lv = self.stack.pop().unwrap();
                    self.stack.push(f64_mul(lv, rv));
                    self.pos = self.pos + 1;
                },
                Token::Div => {
                    if self.stack.len() < 2 {
                        return EvalStep::Failed(ShuntingYardError::ExpectedArg);
                    }
                    let rv = self.stack[self.stack.len() - 1];
                    if f64_is_zero(rv) {
                        return EvalStep::Failed(ShuntingYardError::DivisionByZero);
                    }
                    let rv = self.stack.pop().unwrap();
                    let lv = self.stack.pop().unwrap();
                    self.stack.push(f64_div(lv, rv));
                    self.pos = self.pos + 1;
                },
                Token::Exp => {
                    if self.stack.len() < 2 {
                        return EvalStep::Failed(ShuntingYardError::ExpectedArg);
                    }
                    let rv = self.stack.pop().unwrap();
                    let lv = self.stack.pop().unwrap();
                    self.waiting = true;
                    self.pos = self.pos + 1;
                    return EvalStep::Host(HostCall::Op2(HostFn2::Pow, lv, rv));
                },
                Token::Func(k) => {
                    let n_args = arity(k);
                    if self.stack.len() < n_args {
                        return EvalStep::Failed(ShuntingYardError::ExpectedArg);
                    }
                    match k {
                        FuncKind::If => {
                            let els = self.stack.pop().unwrap();
                            let then = self.stack.pop().unwrap();
                            let b = self.stack.pop().unwrap();
                            let op = self.stack.pop().unwrap();
                            let a = self.stack.pop().unwrap();
                            self.stack.push(conditional_bits(els, then, b, op, a));
                            self.pos = self.pos + 1;
                        },
                        FuncKind::Abs => {
                            let x = self.stack.pop().unwrap();
                            self.stack.push(f64_abs(x));
                            self.pos = self.pos + 1;
                        },
                        FuncKind::Log => {
                            let base = self.stack.pop().unwrap();
                            let x = self.stack.pop().unwrap();
                            self.waiting = true;
                            self.pos = self.pos + 1;
                            return EvalStep::Host(HostCall::Op2(HostFn2::Log, x, base));
                        },
                        _ => {
                            let x = self.stack.pop().unwrap();
                            let f = match k {
                                FuncKind::Sin => HostFn1::Sin,
                                FuncKind::Cos => HostFn1::Cos,
                                FuncKind::Tan => HostFn1::Tan,
                                FuncKind::Arcsin => HostFn1::Arcsin,
                                FuncKind::Arccos => HostFn1::Arccos,
                                FuncKind::Arctan => HostFn1::Arctan,
                                FuncKind::Sinh => HostFn1::Sinh,
                                FuncKind::Cosh => HostFn1::Cosh,
                                FuncKind::Tanh => HostFn1::Tanh,
                                FuncKind::Ln => HostFn1::Ln,
                                _ => HostFn1::Log10,
                            };
                            self.waiting = true;
                            self.pos = self.pos + 1;
                            return EvalStep::Host(HostCall::Op1(f, x));
                        },
                    }
                },
                Token::LeftParenthesis => {
                    proof {
                        assert(false);
                    }
                },
                Token::Comma => {
                    proof {
                        assert(false);
                    }
                },
            }
        }
    }
}

/// Reduces an expression and wraps it in a fresh evaluation machine,
/// using the given context.
pub fn eval_str_with_context(expr: &str, context: &Context) -> (r: Result<
    Evaluation,
    ShuntingYardError,
>)
    requires
        context.wf(),
    ensures
        r matches Ok(m) ==> m.wf(*context) && !m.waiting && m.pos == 0 && m.stack@.len() == 0,
        r matches Ok(m) ==> crate::shunting::rpnify_spec(expr@, *context) == Ok::<
            Seq<Token>,
            ShuntingYardError,
        >(m.rpn@),
        r matches Err(e) ==> crate::shunting::rpnify_spec(expr@, *context) == Err::<
            Seq<Token>,
            ShuntingYardError,
        >(e),
{
    let rpn = rpnify(expr, context)?;
    Ok(Evaluation::new(rpn))
}

/// Reduces an expression against a fresh default context and returns
/// that context together with the evaluation machine.
pub fn eval_str(expr: &str) -> (r: Result<(Context, Evaluation), ShuntingYardError>)
    ensures
        r matches Ok(p) ==> p.0.wf() && p.1.wf(p.0) && !p.1.waiting && p.1.pos == 0
            && p.1.stack@.len() == 0 && crate::context::default_context_spec(p.0)
            && crate::shunting::rpnify_spec(expr@, p.0) == Ok::<
            Seq<Token>,
            ShuntingYardError,
        >(p.1.rpn@),
        r matches Err(e) ==> exists|c: crate::context::Context|
            c.wf() && crate::context::default_context_spec(c) && crate::shunting::rpnify_spec(
                expr@,
                c,
            ) == Err::<Seq<Token>, ShuntingYardError>(e),
{
    let ctx = crate::context::new_context();
    let m = eval_str_with_context(expr, &ctx)?;
    Ok((ctx, m))
}

} // verus!
