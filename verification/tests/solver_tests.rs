use geqslib::context::{new_context, Context};
use geqslib::errors::{EngineError, EquationSolverError, NewtonRaphsonSolverError};
use geqslib::eval::{HostCall, HostFn1, HostFn2};
use geqslib::newton::{multivariate_newton_raphson, MvNewton, MvStep, ScalarNewton, SolveStep, F64_DX};
use geqslib::system::{ConstrainResult, SystemBuilder};
use geqslib::{solve_equation_from_str, solve_equation_with_context};
use gmatlib::Matrix;

fn host_op1(f: HostFn1, x: u64) -> u64 {
    let v = f64::from_bits(x);
    let r = match f {
        HostFn1::Sin => v.sin(),
        HostFn1::Cos => v.cos(),
        HostFn1::Tan => v.tan(),
        HostFn1::Arcsin => v.asin(),
        HostFn1::Arccos => v.acos(),
        HostFn1::Arctan => v.atan(),
        HostFn1::Sinh => v.sinh(),
        HostFn1::Cosh => v.cosh(),
        HostFn1::Tanh => v.tanh(),
        HostFn1::Ln => v.ln(),
        HostFn1::Log10 => v.log10(),
        HostFn1::Sqrt => v.sqrt(),
    };
    r.to_bits()
}

fn host_op2(f: HostFn2, a: u64, b: u64) -> u64 {
    let x = f64::from_bits(a);
    let y = f64::from_bits(b);
    let r = match f {
        HostFn2::Pow => x.powf(y),
        HostFn2::Log => x.log(y),
    };
    r.to_bits()
}

fn run_scalar(m: &mut ScalarNewton, ctx: &mut Context) -> Result<f64, EngineError> {
    loop {
        match m.advance(ctx) {
            SolveStep::Working => {},
            SolveStep::Host(HostCall::Op1(f, x)) => m.resume(host_op1(f, x)),
            SolveStep::Host(HostCall::Op2(f, a, b)) => m.resume(host_op2(f, a, b)),
            SolveStep::Host(_) => panic!("the scalar solver asked for matrix work"),
            SolveStep::Done(g) => return Ok(f64::from_bits(g)),
            SolveStep::Failed(e) => return Err(e),
        }
    }
}

fn run_system(m: &mut MvNewton, ctx: &mut Context) -> Result<Vec<(String, f64)>, EngineError> {
    loop {
        match m.advance(ctx) {
            MvStep::Working => {},
            MvStep::Host(HostCall::Op1(f, x)) => m.resume(host_op1(f, x)),
            MvStep::Host(HostCall::Op2(f, a, b)) => m.resume(host_op2(f, a, b)),
            MvStep::Host(HostCall::MatInvert(n, elems)) => {
                let vals: Vec<f64> = elems.iter().map(|&b| f64::from_bits(b)).collect();
                let mut mat = Matrix::from_vec(n, vals).expect("a square matrix");
                match mat.try_inplace_invert() {
                    Ok(()) => {
                        let bits: Vec<u64> = mat.iter().map(|v| v.to_bits()).collect();
                        m.resume_invert(Some(bits));
                    },
                    Err(_) => m.resume_invert(None),
                }
            },
            MvStep::Host(HostCall::MatMulVec(n, a, y)) => {
                let am = Matrix::from_vec(n, a.iter().map(|&b| f64::from_bits(b)).collect())
                    .expect("a square matrix");
                let ym = Matrix::from_col_vec(y.iter().map(|&b| f64::from_bits(b)).collect());
                let prod: Vec<f64> = (am * ym).into();
                m.resume_mul(prod.iter().map(|v| v.to_bits()).collect());
            },
            MvStep::Done(sol) => {
                return Ok(sol
                    .into_iter()
                    .map(|(name, bits)| (name, f64::from_bits(bits)))
                    .collect());
            },
            MvStep::Failed(e) => return Err(e),
        }
    }
}

#[test]
fn the_finite_difference_step_is_the_fixed_constant() {
    assert_eq!(f64::from_bits(F64_DX), 0.0001);
}

#[test]
fn a_non_positive_margin_fails_before_any_iteration() {
    // scalar variant, margin negative and margin zero
    for margin in [-1.0f64, 0.0] {
        let (mut ctx, _name, mut solver) =
            solve_equation_from_str("x + 4 = 12", margin.to_bits(), 10).unwrap();
        assert_eq!(
            run_scalar(&mut solver, &mut ctx),
            Err(EngineError::Newton(NewtonRaphsonSolverError::NegativeMargin))
        );
        // multivariate variant
        let mut mv = multivariate_newton_raphson(Vec::new(), Vec::new(), margin.to_bits(), 10);
        let mut ctx = new_context();
        assert_eq!(
            run_system(&mut mv, &mut ctx),
            Err(EngineError::Newton(NewtonRaphsonSolverError::NegativeMargin))
        );
    }
}

#[test]
fn a_zero_iteration_limit_fails_without_evaluating() {
    let (mut ctx, _name, mut solver) =
        solve_equation_from_str("x + 4 = 12", 0.0001f64.to_bits(), 0).unwrap();
    assert_eq!(
        run_scalar(&mut solver, &mut ctx),
        Err(EngineError::Newton(NewtonRaphsonSolverError::ReachedIterationLimit))
    );
    let mut mv = multivariate_newton_raphson(Vec::new(), Vec::new(), 0.0001f64.to_bits(), 0);
    let mut ctx = new_context();
    assert_eq!(
        run_system(&mut mv, &mut ctx),
        Err(EngineError::Newton(NewtonRaphsonSolverError::ReachedIterationLimit))
    );
}

#[test]
fn a_mismatched_guess_vector_is_improperly_constrained() {
    let guess = vec![("x".to_string(), 1.0f64.to_bits())];
    let mut mv = multivariate_newton_raphson(Vec::new(), guess, 0.0001f64.to_bits(), 10);
    let mut ctx = new_context();
    assert_eq!(
        run_system(&mut mv, &mut ctx),
        Err(EngineError::Newton(NewtonRaphsonSolverError::ImproperlyConstrainedSystem))
    );
}

#[test]
fn solving_a_single_unknown_equation_converges() {
    let (mut ctx, name, mut solver) =
        solve_equation_from_str("x + 4 = 12", 0.0001f64.to_bits(), 10).unwrap();
    assert_eq!(name, "x");
    let soln = run_scalar(&mut solver, &mut ctx).unwrap();
    assert!((soln - 8.0).abs() < 0.001);
}

#[test]
fn an_equation_with_two_unknowns_has_no_single_one() {
    let mut ctx = new_context();
    let r = solve_equation_with_context(
        "x + y = 9",
        &mut ctx,
        1.0f64.to_bits(),
        f64::NEG_INFINITY.to_bits(),
        f64::INFINITY.to_bits(),
        0.0001f64.to_bits(),
        10,
    );
    assert_eq!(
        r.err(),
        Some(EngineError::Equation(EquationSolverError::SingleUnknownNotFound))
    );
}

#[test]
fn ensure_that_single_unknown_solver_can_solve_equation_with_if_statement() {
    let mut ctx = new_context();
    ctx.add_const_to_ctx("x", 6.5f64.to_bits());
    ctx.add_const_to_ctx("y", 2.5f64.to_bits());

    let (name, mut solver) = solve_equation_with_context(
        "if(x,4.0,y,i-(1),i-(-1)) = 0",
        &mut ctx,
        (-1.0f64).to_bits(),
        f64::NEG_INFINITY.to_bits(),
        f64::INFINITY.to_bits(),
        0.0001f64.to_bits(),
        100,
    )
    .unwrap();

    let soln = run_scalar(&mut solver, &mut ctx).unwrap();
    assert_eq!(name, "i".to_owned());
    assert!(soln - 1.0 < 0.001);
}

#[test]
fn an_equation_with_two_new_unknowns_will_not_constrain() {
    let ctx = Context::new();
    let mut sys = SystemBuilder::new("x + y = 9", ctx).unwrap();
    assert_eq!(sys.get_vars().len(), 2);

    // too many unknowns to be useful to the system
    let res = sys.try_constrain_with("i - j = 4").unwrap();
    assert_eq!(res, ConstrainResult::WillNotConstrain);
    assert_eq!(sys.get_vars().len(), 2);
    assert!(!sys.is_fully_constrained());

    // adds no unknowns and one equation
    let res = sys.try_constrain_with("x - y = 4").unwrap();
    assert_eq!(res, ConstrainResult::WillConstrain);
    assert!(sys.is_fully_constrained());
}

#[test]
fn a_fully_constrained_system_takes_nothing_more() {
    let ctx = Context::new();
    let mut sys = SystemBuilder::new("x + y = 9", ctx).unwrap();
    sys.try_constrain_with("x - y = 4").unwrap();
    assert!(sys.is_fully_constrained());
    let vars_before = sys.get_vars().clone();

    let res = sys.try_constrain_with("x - y = 1").unwrap();
    assert_eq!(res, ConstrainResult::WillOverConstrain);
    assert_eq!(sys.get_vars(), &vars_before);
    assert!(sys.is_fully_constrained());

    let res = sys.try_constrain_with("x + 2 * y = 1").unwrap();
    assert_eq!(res, ConstrainResult::WillOverConstrain);
}

#[test]
fn a_two_by_two_system_solves_end_to_end() {
    let ctx = new_context();
    let mut builder = SystemBuilder::new("x + y = 9", ctx).unwrap();
    let res = builder.try_constrain_with("x - y = 4").unwrap();
    assert_eq!(res, ConstrainResult::WillConstrain);
    assert_eq!(builder.get_vars().len(), 2);
    assert!(builder.is_fully_constrained());

    let sys = builder.build_system().unwrap();
    let (mut ctx, mut solver) = sys.solve(0.0001f64.to_bits(), 10);
    let soln = run_system(&mut solver, &mut ctx).unwrap();

    let x = soln.iter().find(|p| p.0 == "x").unwrap().1;
    let y = soln.iter().find(|p| p.0 == "y").unwrap().1;
    assert!((6.5 - x).abs() < 0.001);
    assert!((2.5 - y).abs() < 0.001);
}

#[test]
fn candidates_constrain_in_whatever_order_works() {
    let ctx = Context::new();
    let mut builder = SystemBuilder::new("x + y + z = 9", ctx).unwrap();
    assert_eq!(builder.get_vars().len(), 3);
    let done = builder
        .try_fully_constrain_with(vec![
            "(4 * x) + (5 * y) + (6 * z) = 7".to_string(),
            "(8 * x) + (9 * y) - (10 * z) = 11".to_string(),
        ])
        .unwrap();
    assert!(done);
    assert!(builder.is_fully_constrained());
}

#[test]
fn a_singular_jacobian_is_reported() {
    let ctx = Context::new();
    let mut builder = SystemBuilder::new("x + y = 9", ctx).unwrap();
    // the same equation twice: the Jacobian cannot be inverted
    builder.try_constrain_with("x + y = 9").unwrap();
    let sys = builder.build_system().unwrap();
    let (mut ctx, mut solver) = sys.solve(0.0001f64.to_bits(), 10);
    assert_eq!(run_system(&mut solver, &mut ctx), Err(EngineError::SingularJacobian));
}

#[test]
fn an_unconstrained_builder_yields_no_system() {
    let ctx = Context::new();
    let builder = SystemBuilder::new("x + y = 9", ctx).unwrap();
    assert!(builder.build_system().is_none());
}

#[test]
fn specifying_a_variable_traps_and_seeds_it() {
    let ctx = new_context();
    let mut builder = SystemBuilder::new("x + y = 9", ctx).unwrap();
    builder.try_constrain_with("x - y = 4").unwrap();
    let mut sys = builder.build_system().unwrap();

    assert!(sys.specify_variable(
        "x",
        6.0f64.to_bits(),
        0.0f64.to_bits(),
        7.0f64.to_bits()
    ));
    assert!(!sys.specify_variable(
        "q",
        6.0f64.to_bits(),
        0.0f64.to_bits(),
        7.0f64.to_bits()
    ));

    let (mut ctx, mut solver) = sys.solve(0.0001f64.to_bits(), 10);
    let soln = run_system(&mut solver, &mut ctx).unwrap();
    let x = soln.iter().find(|p| p.0 == "x").unwrap().1;
    assert!((6.5 - x).abs() < 0.001);
}
