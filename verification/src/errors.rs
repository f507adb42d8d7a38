//! Error types for the expression compiler and the equation solvers.
//!
//! Every fallible operation reports one of these typed failures to its
//! caller; there is no local recovery anywhere in the engine.
use vstd::prelude::*;

verus! {

/// Failures raised while reducing an expression to postfix form or while
/// executing the postfix stack machine.
#[derive(Clone, Copy, Debug, PartialEq, Eq, Structural)]
pub enum ShuntingYardError {
    /// A closing parenthesis had no matching opening parenthesis.
    UnclosedParenthesis,
    /// A token was found where none was expected.
    LeftoverToken,
    /// A word was neither numeric nor present in the context.
    UnknownToken,
    /// A context entry held a structural token under a user identifier.
    ContextMutation,
    /// An operator or function found too few arguments on the stack.
    ExpectedArg,
    /// A division had an exactly-zero right operand.
    DivisionByZero,
    /// The postfix evaluation finished with an empty stack.
    NoTokens,
}

/// A compiled expression was handed a value for a name that is not bound
/// to a variable cell.
#[derive(Clone, Copy, Debug, PartialEq, Eq, Structural)]
pub struct CompiledExpressionLookupError;

/// Failures raised while compiling an expression into a bound evaluator.
#[derive(Clone, Copy, Debug, PartialEq, Eq, Structural)]
pub enum ExpressionCompilationError {
    /// No unknown variable was bound in the context.
    NoVarsFound,
    /// More than one variable was bound where exactly one was required.
    WrongVarCount,
    /// An identifier in the expression was absent from the context.
    VarNotFoundInContext,
}

/// Failures raised by the Newton-Raphson solvers.
#[derive(Clone, Copy, Debug, PartialEq, Eq, Structural)]
pub enum NewtonRaphsonSolverError {
    /// The convergence margin was not strictly positive.
    NegativeMargin,
    /// The iteration budget ran out before convergence.
    ReachedIterationLimit,
    /// The number of equations did not match the number of unknowns.
    ImproperlyConstrainedSystem,
}

/// Failures raised while framing and solving whole equations.
#[derive(Clone, Copy, Debug, PartialEq, Eq, Structural)]
pub enum EquationSolverError {
    /// No single unknown variable could be identified.
    SingleUnknownNotFound,
    /// A bare expression was given where an equation was required.
    FoundExpression,
    /// More than one `=` sign was found in one equation.
    FoundMultipleEquations,
}

/// Any failure of the engine, as the compound operations report it.
#[derive(Clone, Copy, Debug, PartialEq, Eq, Structural)]
pub enum EngineError {
    Shunting(ShuntingYardError),
    Compilation(ExpressionCompilationError),
    Lookup(CompiledExpressionLookupError),
    Newton(NewtonRaphsonSolverError),
    Equation(EquationSolverError),
    /// The dense-matrix component reported a singular Jacobian.
    SingularJacobian,
}

} // verus!
