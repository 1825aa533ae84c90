use itofin_py::common::{CallbackArg, ErrorKind};
use itofin_py::curve::{
    convex_monotone_bootstrap, AdditionalOptions, ConvexMonotoneBootstrap, CurveError,
    DiscountCurveInterpolation, PiecewiseInterpolation, PiecewiseYieldCurvePlan, PyDiscountCurve,
    PyPiecewiseYieldCurve, PyZeroCurve, VariablesArg, YieldBootstrap, ZeroCurveInterpolation,
};

fn no_extras() -> AdditionalOptions {
    AdditionalOptions {
        helpers: 0,
        penalties: CallbackArg::Absent,
        dates: CallbackArg::Absent,
        variables: VariablesArg::Absent,
    }
}

#[test]
fn zero_curve_interpolations() {
    assert_eq!(PyZeroCurve::interpolation("Linear"), Ok(ZeroCurveInterpolation::Linear));
    assert_eq!(PyZeroCurve::interpolation("Cubic"), Ok(ZeroCurveInterpolation::Cubic));
    assert_eq!(PyZeroCurve::interpolation("linear"), Err(CurveError::UnknownInterpolation));
    assert_eq!(PyZeroCurve::interpolation("LogLinear"), Err(CurveError::UnknownInterpolation));
    assert_eq!(PyZeroCurve::interpolation(""), Err(CurveError::UnknownInterpolation));
}

#[test]
fn discount_curve_interpolations() {
    assert_eq!(PyDiscountCurve::interpolation("LogLinear"), Ok(DiscountCurveInterpolation::LogLinear));
    assert_eq!(PyDiscountCurve::interpolation("Cubic"), Ok(DiscountCurveInterpolation::Cubic));
    assert_eq!(PyDiscountCurve::interpolation("Linear"), Err(CurveError::UnknownInterpolation));
}

#[test]
fn piecewise_iterative_plans() {
    for (name, interp) in [
        ("LogLinear", PiecewiseInterpolation::LogLinear),
        ("Linear", PiecewiseInterpolation::Linear),
        ("Cubic", PiecewiseInterpolation::Cubic),
    ] {
        assert_eq!(
            PyPiecewiseYieldCurve::plan(name, "iterative", no_extras()),
            Ok(PiecewiseYieldCurvePlan { bootstrap: YieldBootstrap::Iterative, interpolation: interp })
        );
    }
    assert_eq!(
        PyPiecewiseYieldCurve::plan("Spline", "iterative", no_extras()),
        Err(CurveError::UnknownInterpolation)
    );
}

#[test]
fn piecewise_iterative_refuses_global_options() {
    let mut extra = no_extras();
    extra.helpers = 2;
    assert_eq!(
        PyPiecewiseYieldCurve::plan("LogLinear", "iterative", extra),
        Err(CurveError::AdditionalOptionsRequireGlobal)
    );
    let mut extra = no_extras();
    extra.dates = CallbackArg::Callable;
    // the options are refused before the interpolation is read
    assert_eq!(
        PyPiecewiseYieldCurve::plan("Spline", "iterative", extra),
        Err(CurveError::AdditionalOptionsRequireGlobal)
    );
    let mut extra = no_extras();
    extra.variables = VariablesArg::Accepted;
    assert_eq!(
        PyPiecewiseYieldCurve::plan("Linear", "iterative", extra),
        Err(CurveError::AdditionalOptionsRequireGlobal)
    );
}

#[test]
fn piecewise_global_plans() {
    let extra = AdditionalOptions {
        helpers: 3,
        penalties: CallbackArg::Callable,
        dates: CallbackArg::Callable,
        variables: VariablesArg::Accepted,
    };
    assert_eq!(
        PyPiecewiseYieldCurve::plan("Linear", "global", extra),
        Ok(PiecewiseYieldCurvePlan { bootstrap: YieldBootstrap::Global, interpolation: PiecewiseInterpolation::Linear })
    );
    assert_eq!(
        PyPiecewiseYieldCurve::plan("LogLinear", "global", no_extras()),
        Ok(PiecewiseYieldCurvePlan { bootstrap: YieldBootstrap::Global, interpolation: PiecewiseInterpolation::LogLinear })
    );
    assert_eq!(
        PyPiecewiseYieldCurve::plan("Cubic", "global", no_extras()),
        Err(CurveError::GlobalRequiresLinearOrLogLinear)
    );
    assert_eq!(
        PyPiecewiseYieldCurve::plan("Spline", "global", no_extras()),
        Err(CurveError::UnknownInterpolation)
    );
}

#[test]
fn piecewise_global_checks_callbacks_in_order() {
    let extra = AdditionalOptions {
        helpers: 0,
        penalties: CallbackArg::NotCallable,
        dates: CallbackArg::NotCallable,
        variables: VariablesArg::Rejected,
    };
    assert_eq!(PyPiecewiseYieldCurve::plan("Cubic", "global", extra), Err(CurveError::PenaltiesNotCallable));
    let extra = AdditionalOptions { penalties: CallbackArg::Callable, ..extra };
    assert_eq!(PyPiecewiseYieldCurve::plan("Cubic", "global", extra), Err(CurveError::DatesNotCallable));
    let extra = AdditionalOptions { dates: CallbackArg::Absent, ..extra };
    assert_eq!(PyPiecewiseYieldCurve::plan("Cubic", "global", extra), Err(CurveError::VariablesRejected));
}

#[test]
fn piecewise_unknown_bootstrap_comes_first() {
    let mut extra = no_extras();
    extra.helpers = 1;
    assert_eq!(PyPiecewiseYieldCurve::plan("Spline", "local", extra), Err(CurveError::UnknownBootstrap));
    assert_eq!(PyPiecewiseYieldCurve::plan("Linear", "Global", no_extras()), Err(CurveError::UnknownBootstrap));
    assert_eq!(CurveError::UnknownBootstrap.kind(), ErrorKind::Itofin);
}

#[test]
fn global_matches_iterative_without_extras() {
    for name in ["LogLinear", "Linear"] {
        let iterative = PyPiecewiseYieldCurve::plan(name, "iterative", no_extras()).unwrap();
        let global = PyPiecewiseYieldCurve::plan(name, "global", no_extras()).unwrap();
        assert_eq!(iterative.interpolation, global.interpolation);
        assert_eq!(global.bootstrap, YieldBootstrap::Global);
    }
}

#[test]
fn convex_monotone_bootstraps() {
    assert_eq!(convex_monotone_bootstrap("iterative"), Ok(ConvexMonotoneBootstrap::Iterative));
    assert_eq!(convex_monotone_bootstrap("local"), Ok(ConvexMonotoneBootstrap::Local));
    assert_eq!(convex_monotone_bootstrap("global"), Err(CurveError::UnknownBootstrap));
}
