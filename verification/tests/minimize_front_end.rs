use itofin_py::common::{CallbackArg, ErrorKind};
use itofin_py::optimize::{
    bounds_from_pairs, constraint_descriptor, constraint_values, method_from_name, minimize_plan,
    objective_gradient, option_key, ConstraintLayout, ConstraintOutput, ConstraintType,
    JacobianOutput, MinimizeMethod, OptimizeError, OptionKey, PyStatus,
};

#[test]
fn method_names_ignore_case() {
    assert_eq!(method_from_name("Nelder-Mead"), Some(MinimizeMethod::NelderMead));
    assert_eq!(method_from_name("NELDER-MEAD"), Some(MinimizeMethod::NelderMead));
    assert_eq!(method_from_name("bfgs"), Some(MinimizeMethod::Bfgs));
    assert_eq!(method_from_name("l-bfgs-B"), Some(MinimizeMethod::LBfgsB));
    assert_eq!(method_from_name("SlSqP"), Some(MinimizeMethod::Slsqp));
    assert_eq!(method_from_name("lbfgsb"), None);
    assert_eq!(method_from_name("nelder mead"), None);
    assert_eq!(method_from_name(""), None);
}

#[test]
fn plan_checks_bounds_then_constraints_then_method() {
    assert_eq!(minimize_plan("Nelder-Mead", false, false, false), Ok(MinimizeMethod::NelderMead));
    assert_eq!(minimize_plan("Nelder-Mead", true, false, false), Err(OptimizeError::BoundsUnsupported));
    assert_eq!(minimize_plan("BFGS", true, true, true), Err(OptimizeError::BoundsUnsupported));
    assert_eq!(minimize_plan("L-BFGS-B", true, false, true), Ok(MinimizeMethod::LBfgsB));
    assert_eq!(minimize_plan("L-BFGS-B", true, true, false), Err(OptimizeError::ConstraintsUnsupported));
    assert_eq!(minimize_plan("SLSQP", true, true, true), Ok(MinimizeMethod::Slsqp));
    assert_eq!(minimize_plan("nelder-mead", false, false, true), Err(OptimizeError::JacUnsupported));
    assert_eq!(minimize_plan("BFGS", false, false, true), Ok(MinimizeMethod::Bfgs));
    // an unknown method with bounds is refused for the bounds first
    assert_eq!(minimize_plan("Powell", true, false, false), Err(OptimizeError::BoundsUnsupported));
    assert_eq!(minimize_plan("Powell", false, false, false), Err(OptimizeError::UnknownMethod));
    assert_eq!(OptimizeError::UnknownMethod.kind(), ErrorKind::Itofin);
    assert_eq!(OptimizeError::BoundsUnsupported.kind(), ErrorKind::Value);
}

#[test]
fn option_tables() {
    assert_eq!(option_key(MinimizeMethod::NelderMead, "adaptive"), Ok(OptionKey::Adaptive));
    assert_eq!(option_key(MinimizeMethod::NelderMead, "xatol"), Ok(OptionKey::XAtol));
    assert_eq!(option_key(MinimizeMethod::NelderMead, "gtol"), Err(OptimizeError::UnsupportedOption(MinimizeMethod::NelderMead)));
    assert_eq!(option_key(MinimizeMethod::Bfgs, "maxiter"), Ok(OptionKey::MaxIter));
    assert_eq!(option_key(MinimizeMethod::Bfgs, "maxfev"), Err(OptimizeError::UnsupportedOption(MinimizeMethod::Bfgs)));
    assert_eq!(option_key(MinimizeMethod::Bfgs, "eps"), Ok(OptionKey::Eps));
    assert_eq!(option_key(MinimizeMethod::LBfgsB, "maxcor"), Ok(OptionKey::MaxCor));
    assert_eq!(option_key(MinimizeMethod::LBfgsB, "ftol"), Ok(OptionKey::FTol));
    assert_eq!(option_key(MinimizeMethod::Slsqp, "ftol"), Ok(OptionKey::FTol));
    assert_eq!(option_key(MinimizeMethod::Slsqp, "gtol"), Err(OptimizeError::UnsupportedOption(MinimizeMethod::Slsqp)));
    assert_eq!(option_key(MinimizeMethod::Slsqp, "MAXITER"), Err(OptimizeError::UnsupportedOption(MinimizeMethod::Slsqp)));
    assert_eq!(OptimizeError::UnsupportedOption(MinimizeMethod::NelderMead).kind(), ErrorKind::Itofin);
    assert_eq!(OptimizeError::UnsupportedOption(MinimizeMethod::Bfgs).kind(), ErrorKind::Value);
}

#[test]
fn bounds_split_with_open_sides() {
    let pairs = vec![(Some(-1.0), None), (None, Some(2.5)), (Some(0.0), Some(1.0))];
    let (lower, upper) = bounds_from_pairs(&pairs, 3, f64::NEG_INFINITY, f64::INFINITY).unwrap();
    assert_eq!(lower, vec![-1.0, f64::NEG_INFINITY, 0.0]);
    assert_eq!(upper, vec![f64::INFINITY, 2.5, 1.0]);
    assert_eq!(
        bounds_from_pairs(&pairs, 2, f64::NEG_INFINITY, f64::INFINITY),
        Err(OptimizeError::BoundsLength)
    );
}

#[test]
fn constraint_descriptors() {
    assert_eq!(constraint_descriptor(Some("eq"), CallbackArg::Callable, CallbackArg::Absent), Ok(ConstraintType::Eq));
    assert_eq!(constraint_descriptor(Some("ineq"), CallbackArg::Callable, CallbackArg::Callable), Ok(ConstraintType::Ineq));
    assert_eq!(constraint_descriptor(Some("EQ"), CallbackArg::Callable, CallbackArg::Absent), Err(OptimizeError::ConstraintType));
    assert_eq!(constraint_descriptor(None, CallbackArg::Absent, CallbackArg::Absent), Err(OptimizeError::ConstraintType));
    assert_eq!(constraint_descriptor(Some("eq"), CallbackArg::Absent, CallbackArg::NotCallable), Err(OptimizeError::ConstraintFunRequired));
    assert_eq!(constraint_descriptor(Some("eq"), CallbackArg::NotCallable, CallbackArg::Absent), Err(OptimizeError::ConstraintFunNotCallable));
    assert_eq!(constraint_descriptor(Some("ineq"), CallbackArg::Callable, CallbackArg::NotCallable), Err(OptimizeError::ConstraintJacNotCallable));
}

#[test]
fn constraint_outputs() {
    assert_eq!(constraint_values(ConstraintOutput::Scalar(2.0)), Ok(vec![2.0]));
    assert_eq!(constraint_values(ConstraintOutput::Vector(vec![1.0, 3.0])), Ok(vec![1.0, 3.0]));
    assert_eq!(constraint_values::<f64>(ConstraintOutput::Vector(vec![])), Err(OptimizeError::EmptyConstraintValues));
    assert_eq!(objective_gradient(vec![1.0, 2.0], 2), Ok(vec![1.0, 2.0]));
    assert_eq!(objective_gradient(vec![1.0], 2), Err(OptimizeError::GradientLength));
}

#[test]
fn layout_flattens_components() {
    let layout = ConstraintLayout::new(vec![2, 0, 3]);
    assert_eq!(layout.constraint_count(), 5);
    let all: Vec<(usize, usize)> = (0..5).map(|i| layout.component(i)).collect();
    assert_eq!(all, vec![(0, 0), (0, 1), (2, 0), (2, 1), (2, 2)]);
    assert_eq!(ConstraintLayout::new(vec![]).constraint_count(), 0);
}

#[test]
fn layout_reads_component_values() {
    let layout = ConstraintLayout::new(vec![1, 2]);
    assert_eq!(layout.component_value(0, &vec![7.0]), Ok(7.0));
    assert_eq!(layout.component_value(2, &vec![4.0, 5.0]), Ok(5.0));
    assert_eq!(layout.component_value(1, &vec![4.0, 5.0, 6.0]), Err(OptimizeError::ConstraintDimensionChanged));
}

#[test]
fn layout_reads_component_gradients() {
    let layout = ConstraintLayout::new(vec![1, 2]);
    assert_eq!(layout.component_gradient(0, JacobianOutput::Gradient(vec![1.0, 2.0]), 2), Ok(vec![1.0, 2.0]));
    assert_eq!(layout.component_gradient(0, JacobianOutput::Gradient(vec![1.0]), 2), Err(OptimizeError::ConstraintGradientLength));
    assert_eq!(layout.component_gradient(1, JacobianOutput::Gradient(vec![1.0, 2.0]), 2), Err(OptimizeError::JacobianNeedsRows));
    let rows = vec![vec![1.0, 2.0], vec![3.0, 4.0]];
    assert_eq!(layout.component_gradient(2, JacobianOutput::Rows(rows.clone()), 2), Ok(vec![3.0, 4.0]));
    assert_eq!(layout.component_gradient(1, JacobianOutput::Rows(rows), 2), Ok(vec![1.0, 2.0]));
    assert_eq!(layout.component_gradient(1, JacobianOutput::Rows(vec![vec![1.0, 2.0]]), 2), Err(OptimizeError::JacobianRowCount));
    assert_eq!(layout.component_gradient(2, JacobianOutput::Rows(vec![vec![1.0, 2.0], vec![3.0]]), 2), Err(OptimizeError::ConstraintGradientLength));
    assert_eq!(layout.component_gradient(0, JacobianOutput::Rows(vec![vec![9.0, 8.0]]), 2), Ok(vec![9.0, 8.0]));
}

#[test]
fn status_codes_are_fixed() {
    let all = [
        PyStatus::ConvergedXTol,
        PyStatus::ConvergedFTol,
        PyStatus::ConvergedGTol,
        PyStatus::MaxIterations,
        PyStatus::MaxEvaluations,
        PyStatus::Cancelled,
        PyStatus::Nonfinite,
        PyStatus::LineSearchFailed,
        PyStatus::Infeasible,
    ];
    for (i, s) in all.iter().enumerate() {
        assert_eq!(s.code() as usize, i);
    }
}

#[test]
fn plan_is_the_same_in_any_case() {
    for (a, b) in [("SLSQP", "sLsQp"), ("Nelder-Mead", "nELDER-mEAD"), ("L-BFGS-B", "l-bfgs-b"), ("Powell", "POWELL")] {
        for bounds in [false, true] {
            for constraints in [false, true] {
                for jac in [false, true] {
                    assert_eq!(
                        minimize_plan(a, bounds, constraints, jac),
                        minimize_plan(b, bounds, constraints, jac)
                    );
                }
            }
        }
    }
}
