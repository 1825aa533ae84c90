//! Which yield curve a facade builds, decided from its option strings.
//!
//! The node curves take an interpolation name; the bootstrapped curve takes an
//! interpolation and a bootstrap name and a set of options that only the global
//! bootstrap accepts.
use vstd::prelude::*;

use crate::common::{CallbackArg, ErrorKind};
use crate::text::str_eq;

verus! {

/// Why a curve facade refused its options.
#[derive(Debug, Clone, Copy, PartialEq, Eq)]
pub enum CurveError {
    /// The interpolation name is not one the curve offers.
    UnknownInterpolation,
    /// The bootstrap name is not one the curve offers.
    UnknownBootstrap,
    /// Additional helpers, penalties, dates or variables were given to the
    /// iterative bootstrap.
    AdditionalOptionsRequireGlobal,
    /// An additional-penalties callback that is not callable.
    PenaltiesNotCallable,
    /// An additional-dates callback that is not callable.
    DatesNotCallable,
    /// The core refused the external variables.
    VariablesRejected,
    /// The global bootstrap was asked for a cubic interpolation.
    GlobalRequiresLinearOrLogLinear,
}

impl CurveError {
    /// Every curve rejection is an `ItofinError`.
    pub fn kind(&self) -> (k: ErrorKind)
        ensures
            k == ErrorKind::Itofin,
    {
        ErrorKind::Itofin
    }
}

/// Interpolations of the zero-rate node curve.
#[derive(Debug, Clone, Copy, PartialEq, Eq)]
pub enum ZeroCurveInterpolation {
    Linear,
    Cubic,
}

/// Interpolations of the discount-factor node curve.
#[derive(Debug, Clone, Copy, PartialEq, Eq)]
pub enum DiscountCurveInterpolation {
    LogLinear,
    Cubic,
}

/// Interpolations of the bootstrapped discount curve.
#[derive(Debug, Clone, Copy, PartialEq, Eq)]
pub enum PiecewiseInterpolation {
    LogLinear,
    Linear,
    Cubic,
}

/// Bootstrap algorithms of the bootstrapped discount curve.
#[derive(Debug, Clone, Copy, PartialEq, Eq)]
pub enum YieldBootstrap {
    Iterative,
    Global,
}

/// Bootstrap algorithms of the convex-monotone forward curve.
#[derive(Debug, Clone, Copy, PartialEq, Eq)]
pub enum ConvexMonotoneBootstrap {
    Iterative,
    Local,
}

/// The external-variables argument: absent, or present and accepted or
/// refused by the core when its variables were built.
#[derive(Debug, Clone, Copy, PartialEq, Eq)]
pub enum VariablesArg {
    Absent,
    Accepted,
    Rejected,
}

/// The options of the bootstrapped curve that only the global bootstrap takes.
#[derive(Debug, Clone, Copy, PartialEq, Eq)]
pub struct AdditionalOptions {
    /// How many additional helpers were given (none is the same as an empty list).
    pub helpers: usize,
    pub penalties: CallbackArg,
    pub dates: CallbackArg,
    pub variables: VariablesArg,
}

/// The curve the bootstrapped facade builds.
#[derive(Debug, Clone, Copy, PartialEq, Eq)]
pub struct PiecewiseYieldCurvePlan {
    pub bootstrap: YieldBootstrap,
    pub interpolation: PiecewiseInterpolation,
}

/// The zero-rate node curve: `"Linear"` or `"Cubic"`.
pub open spec fn zero_curve_interpolation_spec(name: Seq<char>) -> Result<ZeroCurveInterpolation, CurveError> {
    if name == "Linear"@ {
        Ok(ZeroCurveInterpolation::Linear)
    } else if name == "Cubic"@ {
        Ok(ZeroCurveInterpolation::Cubic)
    } else {
        Err(CurveError::UnknownInterpolation)
    }
}

/// The discount-factor node curve: `"LogLinear"` or `"Cubic"`.
pub open spec fn discount_curve_interpolation_spec(name: Seq<char>) -> Result<DiscountCurveInterpolation, CurveError> {
    if name == "LogLinear"@ {
        Ok(DiscountCurveInterpolation::LogLinear)
    } else if name == "Cubic"@ {
        Ok(DiscountCurveInterpolation::Cubic)
    } else {
        Err(CurveError::UnknownInterpolation)
    }
}

/// The bootstrapped curve's interpolation names.
pub open spec fn piecewise_interpolation_spec(name: Seq<char>) -> Option<PiecewiseInterpolation> {
    if name == "LogLinear"@ {
        Some(PiecewiseInterpolation::LogLinear)
    } else if name == "Linear"@ {
        Some(PiecewiseInterpolation::Linear)
    } else if name == "Cubic"@ {
        Some(PiecewiseInterpolation::Cubic)
    } else {
        None
    }
}

/// Whether any option reserved to the global bootstrap was given.
pub open spec fn has_additional_options(extra: AdditionalOptions) -> bool {
    ||| extra.helpers > 0
    ||| extra.penalties != CallbackArg::Absent
    ||| extra.dates != CallbackArg::Absent
    ||| extra.variables != VariablesArg::Absent
}

/// The bootstrapped curve's decision, checked in this order: the bootstrap
/// name; under `"iterative"` the absence of global-only options, then the
/// interpolation; under `"global"` the callbacks being callable (penalties
/// first), the variables being accepted, then an interpolation other than
/// `"Cubic"`.
pub open spec fn piecewise_yield_curve_plan_spec(
    interpolation: Seq<char>,
    bootstrap: Seq<char>,
    extra: AdditionalOptions,
) -> Result<PiecewiseYieldCurvePlan, CurveError> {
    if bootstrap == "iterative"@ {
        if has_additional_options(extra) {
            Err(CurveError::AdditionalOptionsRequireGlobal)
        } else {
            match piecewise_interpolation_spec(interpolation) {
                Some(i) => Ok(PiecewiseYieldCurvePlan { bootstrap: YieldBootstrap::Iterative, interpolation: i }),
                None => Err(CurveError::UnknownInterpolation),
            }
        }
    } else if bootstrap == "global"@ {
        if extra.penalties == CallbackArg::NotCallable {
            Err(CurveError::PenaltiesNotCallable)
        } else if extra.dates == CallbackArg::NotCallable {
            Err(CurveError::DatesNotCallable)
        } else if extra.variables == VariablesArg::Rejected {
            Err(CurveError::VariablesRejected)
        } else {
            match piecewise_interpolation_spec(interpolation) {
                Some(PiecewiseInterpolation::Cubic) => Err(CurveError::GlobalRequiresLinearOrLogLinear),
                Some(i) => Ok(PiecewiseYieldCurvePlan { bootstrap: YieldBootstrap::Global, interpolation: i }),
                None => Err(CurveError::UnknownInterpolation),
            }
        }
    } else {
        Err(CurveError::UnknownBootstrap)
    }
}

/// The convex-monotone forward curve: `"iterative"` or `"local"`.
pub open spec fn convex_monotone_bootstrap_spec(name: Seq<char>) -> Result<ConvexMonotoneBootstrap, CurveError> {
    if name == "iterative"@ {
        Ok(ConvexMonotoneBootstrap::Iterative)
    } else if name == "local"@ {
        Ok(ConvexMonotoneBootstrap::Local)
    } else {
        Err(CurveError::UnknownBootstrap)
    }
}

fn piecewise_interpolation(name: &str) -> (r: Option<PiecewiseInterpolation>)
    ensures
        r == piecewise_interpolation_spec(name@),
{
    if str_eq(name, "LogLinear") {
        Some(PiecewiseInterpolation::LogLinear)
    } else if str_eq(name, "Linear") {
        Some(PiecewiseInterpolation::Linear)
    } else if str_eq(name, "Cubic") {
        Some(PiecewiseInterpolation::Cubic)
    } else {
        None
    }
}

/// The zero-rate node curve facade (`ZeroCurve`).
pub struct PyZeroCurve;

impl PyZeroCurve {
    /// The interpolation the facade builds the curve with.
    pub fn interpolation(name: &str) -> (r: Result<ZeroCurveInterpolation, CurveError>)
        ensures
            r == zero_curve_interpolation_spec(name@),
    {
        if str_eq(name, "Linear") {
            Ok(ZeroCurveInterpolation::Linear)
        } else if str_eq(name, "Cubic") {
            Ok(ZeroCurveInterpolation::Cubic)
        } else {
            Err(CurveError::UnknownInterpolation)
        }
    }
}

/// The discount-factor node curve facade (`DiscountCurve`).
pub struct PyDiscountCurve;

impl PyDiscountCurve {
    /// The interpolation the facade builds the curve with.
    pub fn interpolation(name: &str) -> (r: Result<DiscountCurveInterpolation, CurveError>)
        ensures
            r == discount_curve_interpolation_spec(name@),
    {
        if str_eq(name, "LogLinear") {
            Ok(DiscountCurveInterpolation::LogLinear)
        } else if str_eq(name, "Cubic") {
            Ok(DiscountCurveInterpolation::Cubic)
        } else {
            Err(CurveError::UnknownInterpolation)
        }
    }
}

/// The bootstrapped discount curve facade (`PiecewiseYieldCurve`).
pub struct PyPiecewiseYieldCurve;

impl PyPiecewiseYieldCurve {
    /// The bootstrap and interpolation the facade builds the curve with, or
    /// the first of its options that it refuses.
    pub fn plan(interpolation: &str, bootstrap: &str, extra: AdditionalOptions) -> (r: Result<
        PiecewiseYieldCurvePlan,
        CurveError,
    >)
        ensures
            r == piecewise_yield_curve_plan_spec(interpolation@, bootstrap@, extra),
    {
        if str_eq(bootstrap, "iterative") {
            if extra.helpers > 0 || !matches!(extra.penalties, CallbackArg::Absent) || !matches!(
                extra.dates,
                CallbackArg::Absent
            ) || !matches!(extra.variables, VariablesArg::Absent) {
                return Err(CurveError::AdditionalOptionsRequireGlobal);
            }
            match piecewise_interpolation(interpolation) {
                Some(i) => Ok(
                    PiecewiseYieldCurvePlan { bootstrap: YieldBootstrap::Iterative, interpolation: i },
                ),
                None => Err(CurveError::UnknownInterpolation),
            }
        } else if str_eq(bootstrap, "global") {
            if matches!(extra.penalties, CallbackArg::NotCallable) {
                return Err(CurveError::PenaltiesNotCallable);
            }
            if matches!(extra.dates, CallbackArg::NotCallable) {
                return Err(CurveError::DatesNotCallable);
            }
            if matches!(extra.variables, VariablesArg::Rejected) {
                return Err(CurveError::VariablesRejected);
            }
            match piecewise_interpolation(interpolation) {
                Some(PiecewiseInterpolation::Cubic) => Err(
                    CurveError::GlobalRequiresLinearOrLogLinear,
                ),
                Some(i) => Ok(
                    PiecewiseYieldCurvePlan { bootstrap: YieldBootstrap::Global, interpolation: i },
                ),
                None => Err(CurveError::UnknownInterpolation),
            }
        } else {
            Err(CurveError::UnknownBootstrap)
        }
    }
}

/// The bootstrap the convex-monotone forward curve facade
/// (`PiecewiseConvexMonotoneForward`) runs.
pub fn convex_monotone_bootstrap(name: &str) -> (r: Result<ConvexMonotoneBootstrap, CurveError>)
    ensures
        r == convex_monotone_bootstrap_spec(name@),
{
    if str_eq(name, "iterative") {
        Ok(ConvexMonotoneBootstrap::Iterative)
    } else if str_eq(name, "local") {
        Ok(ConvexMonotoneBootstrap::Local)
    } else {
        Err(CurveError::UnknownBootstrap)
    }
}

/// The name of each zero-curve interpolation.
pub open spec fn zero_curve_interpolation_name(i: ZeroCurveInterpolation) -> Seq<char> {
    match i {
        ZeroCurveInterpolation::Linear => "Linear"@,
        ZeroCurveInterpolation::Cubic => "Cubic"@,
    }
}

/// The name of each discount-curve interpolation.
pub open spec fn discount_curve_interpolation_name(i: DiscountCurveInterpolation) -> Seq<char> {
    match i {
        DiscountCurveInterpolation::LogLinear => "LogLinear"@,
        DiscountCurveInterpolation::Cubic => "Cubic"@,
    }
}

/// The name of each bootstrapped-curve interpolation.
pub open spec fn piecewise_interpolation_name(i: PiecewiseInterpolation) -> Seq<char> {
    match i {
        PiecewiseInterpolation::LogLinear => "LogLinear"@,
        PiecewiseInterpolation::Linear => "Linear"@,
        PiecewiseInterpolation::Cubic => "Cubic"@,
    }
}

/// The name of each bootstrap of the bootstrapped discount curve.
pub open spec fn yield_bootstrap_name(b: YieldBootstrap) -> Seq<char> {
    match b {
        YieldBootstrap::Iterative => "iterative"@,
        YieldBootstrap::Global => "global"@,
    }
}

/// The name of each bootstrap of the convex-monotone forward curve.
pub open spec fn convex_monotone_bootstrap_name(b: ConvexMonotoneBootstrap) -> Seq<char> {
    match b {
        ConvexMonotoneBootstrap::Iterative => "iterative"@,
        ConvexMonotoneBootstrap::Local => "local"@,
    }
}

proof fn reveal_curve_names()
    ensures
        "LogLinear"@.len() == 9,
        "Linear"@.len() == 6,
        "Cubic"@.len() == 5,
        "iterative"@.len() == 9,
        "global"@.len() == 6,
        "local"@.len() == 5,
{
    reveal_strlit("LogLinear");
    reveal_strlit("Linear");
    reveal_strlit("Cubic");
    reveal_strlit("iterative");
    reveal_strlit("global");
    reveal_strlit("local");
}

/// Each node curve builds the interpolation its name names, and refuses a
/// name that names none.
pub proof fn lemma_node_curve_names(name: Seq<char>)
    ensures
        forall|i: ZeroCurveInterpolation|
            zero_curve_interpolation_spec(name) == Ok::<ZeroCurveInterpolation, CurveError>(i)
                <==> name == #[trigger] zero_curve_interpolation_name(i),
        forall|i: DiscountCurveInterpolation|
            discount_curve_interpolation_spec(name) == Ok::<DiscountCurveInterpolation, CurveError>(
                i,
            ) <==> name == #[trigger] discount_curve_interpolation_name(i),
        forall|b: ConvexMonotoneBootstrap|
            convex_monotone_bootstrap_spec(name) == Ok::<ConvexMonotoneBootstrap, CurveError>(b)
                <==> name == #[trigger] convex_monotone_bootstrap_name(b),
        forall|i: PiecewiseInterpolation|
            piecewise_interpolation_spec(name) == Some(i) <==> name
                == #[trigger] piecewise_interpolation_name(i),
{
    reveal_curve_names();
}

/// An accepted bootstrapped-curve plan runs the bootstrap and interpolation
/// its two names name, whatever additional options it was given.
pub proof fn lemma_plan_follows_names(
    interpolation: Seq<char>,
    bootstrap: Seq<char>,
    extra: AdditionalOptions,
)
    requires
        piecewise_yield_curve_plan_spec(interpolation, bootstrap, extra) is Ok,
    ensures
        interpolation == piecewise_interpolation_name(
            piecewise_yield_curve_plan_spec(interpolation, bootstrap, extra)->Ok_0.interpolation,
        ),
        bootstrap == yield_bootstrap_name(
            piecewise_yield_curve_plan_spec(interpolation, bootstrap, extra)->Ok_0.bootstrap,
        ),
{
    reveal_curve_names();
}

/// The bootstrapped curve accepts every pair of names it offers: the
/// iterative bootstrap any interpolation when no global-only option is given,
/// the global bootstrap LogLinear or Linear with callable callbacks and
/// accepted variables, however many additional helpers.
pub proof fn lemma_plan_complete(
    i: PiecewiseInterpolation,
    b: YieldBootstrap,
    extra: AdditionalOptions,
)
    requires
        b == YieldBootstrap::Iterative ==> !has_additional_options(extra),
        b == YieldBootstrap::Global ==> {
            &&& i != PiecewiseInterpolation::Cubic
            &&& extra.penalties != CallbackArg::NotCallable
            &&& extra.dates != CallbackArg::NotCallable
            &&& extra.variables != VariablesArg::Rejected
        },
    ensures
        piecewise_yield_curve_plan_spec(
            piecewise_interpolation_name(i),
            yield_bootstrap_name(b),
            extra,
        ) == Ok::<PiecewiseYieldCurvePlan, CurveError>(
            PiecewiseYieldCurvePlan { bootstrap: b, interpolation: i },
        ),
{
    reveal_curve_names();
}

/// The global-only options are refused by the iterative bootstrap: no
/// accepted iterative plan carries any of them.
pub proof fn lemma_iterative_plan_has_no_additional_options(
    interpolation: Seq<char>,
    bootstrap: Seq<char>,
    extra: AdditionalOptions,
)
    requires
        piecewise_yield_curve_plan_spec(interpolation, bootstrap, extra) is Ok,
        piecewise_yield_curve_plan_spec(interpolation, bootstrap, extra)->Ok_0.bootstrap
            == YieldBootstrap::Iterative,
    ensures
        !has_additional_options(extra),
{
}

/// The global bootstrap never runs a cubic interpolation.
pub proof fn lemma_global_plan_is_not_cubic(
    interpolation: Seq<char>,
    bootstrap: Seq<char>,
    extra: AdditionalOptions,
)
    requires
        piecewise_yield_curve_plan_spec(interpolation, bootstrap, extra) is Ok,
        piecewise_yield_curve_plan_spec(interpolation, bootstrap, extra)->Ok_0.bootstrap
            == YieldBootstrap::Global,
    ensures
        piecewise_yield_curve_plan_spec(interpolation, bootstrap, extra)->Ok_0.interpolation
            != PiecewiseInterpolation::Cubic,
{
}

/// Without global-only options the two bootstraps accept the same linear and
/// log-linear interpolations: a global plan is the iterative one with only the
/// algorithm changed.
pub proof fn lemma_global_extends_iterative(interpolation: Seq<char>, extra: AdditionalOptions)
    requires
        !has_additional_options(extra),
        piecewise_yield_curve_plan_spec(interpolation, "iterative"@, extra) is Ok,
        piecewise_yield_curve_plan_spec(interpolation, "iterative"@, extra)->Ok_0.interpolation
            != PiecewiseInterpolation::Cubic,
    ensures
        piecewise_yield_curve_plan_spec(interpolation, "global"@, extra) == Ok::<
            PiecewiseYieldCurvePlan,
            CurveError,
        >(
            PiecewiseYieldCurvePlan {
                bootstrap: YieldBootstrap::Global,
                interpolation: piecewise_yield_curve_plan_spec(
                    interpolation,
                    "iterative"@,
                    extra,
                )->Ok_0.interpolation,
            },
        ),
{
    reveal_strlit("iterative");
    reveal_strlit("global");
    assert("global"@.len() != "iterative"@.len());
}

} // verus!
