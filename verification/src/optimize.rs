//! The `itofin.optimize.minimize` front end: which method runs, which options
//! and bounds it takes, and how vector constraints are laid out as scalar
//! components.
use vstd::prelude::*;

use crate::common::{CallbackArg, ErrorKind};
use crate::text::{
    eq_ignore_ascii_case, eq_ignore_ascii_case_spec, lemma_eq_ignore_ascii_case_congruent, str_eq,
};

verus! {

/// The minimization methods, named case-insensitively `"Nelder-Mead"`,
/// `"BFGS"`, `"L-BFGS-B"` and `"SLSQP"`.
#[derive(Debug, Clone, Copy, PartialEq, Eq)]
pub enum MinimizeMethod {
    NelderMead,
    Bfgs,
    LBfgsB,
    Slsqp,
}

/// The options a method may be given.
#[derive(Debug, Clone, Copy, PartialEq, Eq)]
pub enum OptionKey {
    MaxIter,
    MaxFev,
    XAtol,
    FAtol,
    Adaptive,
    GTol,
    Eps,
    MaxCor,
    FTol,
}

/// The two kinds of constraint: `fun(x) == 0` and `fun(x) >= 0`.
#[derive(Debug, Clone, Copy, PartialEq, Eq)]
pub enum ConstraintType {
    Eq,
    Ineq,
}

/// Why `minimize` refused its arguments or a callback's answer.
#[derive(Debug, Clone, Copy, PartialEq, Eq)]
pub enum OptimizeError {
    /// Bounds given to a method other than L-BFGS-B and SLSQP.
    BoundsUnsupported,
    /// Constraints given to a method other than SLSQP.
    ConstraintsUnsupported,
    /// An analytic gradient given to Nelder-Mead.
    JacUnsupported,
    /// A method name matching none of the four.
    UnknownMethod,
    /// An option the method does not take.
    UnsupportedOption(MinimizeMethod),
    /// A bounds list whose length differs from the starting point's.
    BoundsLength,
    /// A constraint whose type is neither `"eq"` nor `"ineq"`.
    ConstraintType,
    /// A constraint without `fun`.
    ConstraintFunRequired,
    /// A constraint whose `fun` is not callable.
    ConstraintFunNotCallable,
    /// A constraint whose `jac` is neither None nor callable.
    ConstraintJacNotCallable,
    /// A constraint `fun` that returned an empty vector.
    EmptyConstraintValues,
    /// A constraint `fun` whose output length changed since the probe.
    ConstraintDimensionChanged,
    /// A flat constraint gradient for a constraint of several components.
    JacobianNeedsRows,
    /// A constraint Jacobian with a row count other than the dimension.
    JacobianRowCount,
    /// A constraint Jacobian row of the wrong length.
    ConstraintGradientLength,
    /// An objective gradient of the wrong length.
    GradientLength,
}

impl OptimizeError {
    /// An unknown method, and an option Nelder-Mead does not take, raise
    /// `ItofinError`; every other refusal raises `ValueError`.
    pub fn kind(&self) -> (k: ErrorKind)
        ensures
            k == optimize_error_kind_spec(*self),
    {
        match self {
            OptimizeError::UnknownMethod => ErrorKind::Itofin,
            OptimizeError::UnsupportedOption(MinimizeMethod::NelderMead) => ErrorKind::Itofin,
            _ => ErrorKind::Value,
        }
    }
}

/// The exception class of each refusal.
pub open spec fn optimize_error_kind_spec(e: OptimizeError) -> ErrorKind {
    match e {
        OptimizeError::UnknownMethod => ErrorKind::Itofin,
        OptimizeError::UnsupportedOption(MinimizeMethod::NelderMead) => ErrorKind::Itofin,
        _ => ErrorKind::Value,
    }
}

/// The method a name selects, ignoring ASCII case.
pub open spec fn method_spec(name: Seq<char>) -> Option<MinimizeMethod> {
    if eq_ignore_ascii_case_spec(name, "nelder-mead"@) {
        Some(MinimizeMethod::NelderMead)
    } else if eq_ignore_ascii_case_spec(name, "bfgs"@) {
        Some(MinimizeMethod::Bfgs)
    } else if eq_ignore_ascii_case_spec(name, "l-bfgs-b"@) {
        Some(MinimizeMethod::LBfgsB)
    } else if eq_ignore_ascii_case_spec(name, "slsqp"@) {
        Some(MinimizeMethod::Slsqp)
    } else {
        None
    }
}

/// `minimize`'s first decision, in this order: bounds need L-BFGS-B or
/// SLSQP, constraints need SLSQP, Nelder-Mead refuses an analytic gradient,
/// and the name must select a method.
pub open spec fn minimize_plan_spec(
    name: Seq<char>,
    has_bounds: bool,
    has_constraints: bool,
    has_jac: bool,
) -> Result<MinimizeMethod, OptimizeError> {
    let is_lbfgsb = eq_ignore_ascii_case_spec(name, "l-bfgs-b"@);
    let is_slsqp = eq_ignore_ascii_case_spec(name, "slsqp"@);
    if has_bounds && !is_lbfgsb && !is_slsqp {
        Err(OptimizeError::BoundsUnsupported)
    } else if has_constraints && !is_slsqp {
        Err(OptimizeError::ConstraintsUnsupported)
    } else {
        match method_spec(name) {
            Some(MinimizeMethod::NelderMead) => if has_jac {
                Err(OptimizeError::JacUnsupported)
            } else {
                Ok(MinimizeMethod::NelderMead)
            },
            Some(m) => Ok(m),
            None => Err(OptimizeError::UnknownMethod),
        }
    }
}

/// The options each method takes, by exact name: Nelder-Mead `maxiter`,
/// `maxfev`, `xatol`, `fatol`, `adaptive`; BFGS `maxiter`, `gtol`, `eps`;
/// L-BFGS-B `maxiter`, `maxfev`, `maxcor`, `ftol`, `gtol`, `eps`; SLSQP
/// `maxiter`, `maxfev`, `ftol`.
pub open spec fn option_key_spec(method: MinimizeMethod, key: Seq<char>) -> Option<OptionKey> {
    if key == "maxiter"@ {
        Some(OptionKey::MaxIter)
    } else if key == "maxfev"@ && method != MinimizeMethod::Bfgs {
        Some(OptionKey::MaxFev)
    } else if key == "xatol"@ && method == MinimizeMethod::NelderMead {
        Some(OptionKey::XAtol)
    } else if key == "fatol"@ && method == MinimizeMethod::NelderMead {
        Some(OptionKey::FAtol)
    } else if key == "adaptive"@ && method == MinimizeMethod::NelderMead {
        Some(OptionKey::Adaptive)
    } else if key == "gtol"@ && (method == MinimizeMethod::Bfgs || method == MinimizeMethod::LBfgsB) {
        Some(OptionKey::GTol)
    } else if key == "eps"@ && (method == MinimizeMethod::Bfgs || method == MinimizeMethod::LBfgsB) {
        Some(OptionKey::Eps)
    } else if key == "maxcor"@ && method == MinimizeMethod::LBfgsB {
        Some(OptionKey::MaxCor)
    } else if key == "ftol"@ && (method == MinimizeMethod::LBfgsB || method == MinimizeMethod::Slsqp) {
        Some(OptionKey::FTol)
    } else {
        None
    }
}

/// The method a name selects, ignoring ASCII case.
pub fn method_from_name(name: &str) -> (r: Option<MinimizeMethod>)
    ensures
        r == method_spec(name@),
{
    if eq_ignore_ascii_case(name, "nelder-mead") {
        Some(MinimizeMethod::NelderMead)
    } else if eq_ignore_ascii_case(name, "bfgs") {
        Some(MinimizeMethod::Bfgs)
    } else if eq_ignore_ascii_case(name, "l-bfgs-b") {
        Some(MinimizeMethod::LBfgsB)
    } else if eq_ignore_ascii_case(name, "slsqp") {
        Some(MinimizeMethod::Slsqp)
    } else {
        None
    }
}

/// The method `minimize` runs, or the first argument it refuses.
pub fn minimize_plan(name: &str, has_bounds: bool, has_constraints: bool, has_jac: bool) -> (r:
    Result<MinimizeMethod, OptimizeError>)
    ensures
        r == minimize_plan_spec(name@, has_bounds, has_constraints, has_jac),
{
    let is_lbfgsb = eq_ignore_ascii_case(name, "l-bfgs-b");
    let is_slsqp = eq_ignore_ascii_case(name, "slsqp");
    if has_bounds && !is_lbfgsb && !is_slsqp {
        return Err(OptimizeError::BoundsUnsupported);
    }
    if has_constraints && !is_slsqp {
        return Err(OptimizeError::ConstraintsUnsupported);
    }
    match method_from_name(name) {
        Some(MinimizeMethod::NelderMead) => {
            if has_jac {
                Err(OptimizeError::JacUnsupported)
            } else {
                Ok(MinimizeMethod::NelderMead)
            }
        },
        Some(m) => Ok(m),
        None => Err(OptimizeError::UnknownMethod),
    }
}

/// The option a key names for `method`, or the refusal of a key it does not take.
pub fn option_key(method: MinimizeMethod, key: &str) -> (r: Result<OptionKey, OptimizeError>)
    ensures
        r == match option_key_spec(method, key@) {
            Some(k) => Ok(k),
            None => Err(OptimizeError::UnsupportedOption(method)),
        },
{
    let nm = matches!(method, MinimizeMethod::NelderMead);
    let bfgs = matches!(method, MinimizeMethod::Bfgs);
    let lbfgsb = matches!(method, MinimizeMethod::LBfgsB);
    let slsqp = matches!(method, MinimizeMethod::Slsqp);
    if str_eq(key, "maxiter") {
        Ok(OptionKey::MaxIter)
    } else if str_eq(key, "maxfev") && !bfgs {
        Ok(OptionKey::MaxFev)
    } else if str_eq(key, "xatol") && nm {
        Ok(OptionKey::XAtol)
    } else if str_eq(key, "fatol") && nm {
        Ok(OptionKey::FAtol)
    } else if str_eq(key, "adaptive") && nm {
        Ok(OptionKey::Adaptive)
    } else if str_eq(key, "gtol") && (bfgs || lbfgsb) {
        Ok(OptionKey::GTol)
    } else if str_eq(key, "eps") && (bfgs || lbfgsb) {
        Ok(OptionKey::Eps)
    } else if str_eq(key, "maxcor") && lbfgsb {
        Ok(OptionKey::MaxCor)
    } else if str_eq(key, "ftol") && (lbfgsb || slsqp) {
        Ok(OptionKey::FTol)
    } else {
        Err(OptimizeError::UnsupportedOption(method))
    }
}

/// A bound of a `(lower, upper)` pair, `None` standing for the open side.
pub open spec fn bound_or<T>(b: Option<T>, open: T) -> T {
    match b {
        Some(v) => v,
        None => open,
    }
}

/// A given bound is kept; an absent one is the open value.
pub proof fn lemma_bound_or(v: Option<int>, open: int)
    ensures
        v matches Some(x) ==> bound_or(v, open) == x,
        v is None ==> bound_or(v, open) == open,
{
}

/// Splits the `(lower, upper)` pairs into lower and upper bound vectors, an
/// absent side taking `open_lower` or `open_upper`; the pairs must be as many
/// as the starting point's coordinates.
pub fn bounds_from_pairs<T: Copy>(
    pairs: &Vec<(Option<T>, Option<T>)>,
    x0_len: usize,
    open_lower: T,
    open_upper: T,
) -> (r: Result<(Vec<T>, Vec<T>), OptimizeError>)
    ensures
        r is Err <==> pairs@.len() != x0_len,
        r is Err ==> r == Err::<(Vec<T>, Vec<T>), OptimizeError>(OptimizeError::BoundsLength),
        r matches Ok((lower, upper)) ==> {
            &&& lower@.len() == pairs@.len()
            &&& upper@.len() == pairs@.len()
            &&& forall|i: int|
                0 <= i < pairs@.len() ==> #[trigger] lower@[i] == bound_or(pairs@[i].0, open_lower)
            &&& forall|i: int|
                0 <= i < pairs@.len() ==> #[trigger] upper@[i] == bound_or(pairs@[i].1, open_upper)
        },
{
    if pairs.len() != x0_len {
        return Err(OptimizeError::BoundsLength);
    }
    let mut lower: Vec<T> = Vec::new();
    let mut upper: Vec<T> = Vec::new();
    let n = pairs.len();
    for i in 0..n
        invariant
            n == pairs@.len(),
            lower@.len() == i,
            upper@.len() == i,
            forall|j: int| 0 <= j < i ==> #[trigger] lower@[j] == bound_or(pairs@[j].0, open_lower),
            forall|j: int| 0 <= j < i ==> #[trigger] upper@[j] == bound_or(pairs@[j].1, open_upper),
    {
        let pair = pairs[i];
        let lo = match pair.0 {
            Some(v) => v,
            None => open_lower,
        };
        let hi = match pair.1 {
            Some(v) => v,
            None => open_upper,
        };
        lower.push(lo);
        upper.push(hi);

    }
    Ok((lower, upper))
}

/// The type name of each constraint kind.
pub open spec fn constraint_type_name(t: ConstraintType) -> Seq<char> {
    match t {
        ConstraintType::Eq => "eq"@,
        ConstraintType::Ineq => "ineq"@,
    }
}

/// A descriptor is accepted, as the kind its type names, exactly when its
/// type is that kind's name, its `fun` is callable and its `jac` is absent
/// or callable.
pub proof fn lemma_constraint_descriptor_accepts(
    declared_type: Option<Seq<char>>,
    fun: CallbackArg,
    jac: CallbackArg,
    t: ConstraintType,
)
    ensures
        constraint_descriptor_spec(declared_type, fun, jac) == Ok::<ConstraintType, OptimizeError>(t)
            <==> (declared_type == Some(constraint_type_name(t)) && fun == CallbackArg::Callable
            && jac != CallbackArg::NotCallable),
{
    reveal_strlit("eq");
    reveal_strlit("ineq");
    assert("eq"@.len() != "ineq"@.len());
}

/// One constraint descriptor's decision, in this order: its type (`"eq"` or
/// `"ineq"`), the presence of `fun`, `fun` being callable, `jac` being None or
/// callable.
pub open spec fn constraint_descriptor_spec(
    declared_type: Option<Seq<char>>,
    fun: CallbackArg,
    jac: CallbackArg,
) -> Result<ConstraintType, OptimizeError> {
    let kind = match declared_type {
        Some(t) => if t == "eq"@ {
            Some(ConstraintType::Eq)
        } else if t == "ineq"@ {
            Some(ConstraintType::Ineq)
        } else {
            None
        },
        None => None,
    };
    match kind {
        None => Err(OptimizeError::ConstraintType),
        Some(k) => if fun == CallbackArg::Absent {
            Err(OptimizeError::ConstraintFunRequired)
        } else if fun == CallbackArg::NotCallable {
            Err(OptimizeError::ConstraintFunNotCallable)
        } else if jac == CallbackArg::NotCallable {
            Err(OptimizeError::ConstraintJacNotCallable)
        } else {
            Ok(k)
        },
    }
}

/// The kind of one `minimize` constraint, or the first fault of its descriptor;
/// `declared_type` is `None` where the `"type"` entry is missing or not a string.
pub fn constraint_descriptor(declared_type: Option<&str>, fun: CallbackArg, jac: CallbackArg) -> (r:
    Result<ConstraintType, OptimizeError>)
    ensures
        r == constraint_descriptor_spec(
            match declared_type {
                Some(t) => Some(t@),
                None => None,
            },
            fun,
            jac,
        ),
{
    let kind = match declared_type {
        Some(t) => {
            if str_eq(t, "eq") {
                ConstraintType::Eq
            } else if str_eq(t, "ineq") {
                ConstraintType::Ineq
            } else {
                return Err(OptimizeError::ConstraintType);
            }
        },
        None => return Err(OptimizeError::ConstraintType),
    };
    match fun {
        CallbackArg::Absent => return Err(OptimizeError::ConstraintFunRequired),
        CallbackArg::NotCallable => return Err(OptimizeError::ConstraintFunNotCallable),
        CallbackArg::Callable => {},
    }
    if matches!(jac, CallbackArg::NotCallable) {
        return Err(OptimizeError::ConstraintJacNotCallable);
    }
    Ok(kind)
}

/// The scalar components of vector constraints of the given dimensions, in
/// order: `(constraint, row)` for every row of every constraint.
pub open spec fn components_spec(dimensions: Seq<usize>) -> Seq<(usize, usize)>
    decreases dimensions.len(),
{
    if dimensions.len() == 0 {
        Seq::empty()
    } else {
        let last = dimensions.len() - 1;
        components_spec(dimensions.drop_last()) + Seq::new(
            dimensions[last] as nat,
            |row: int| (last as usize, row as usize),
        )
    }
}

/// The total of the dimensions.
pub open spec fn dimension_sum(dimensions: Seq<usize>) -> nat
    decreases dimensions.len(),
{
    if dimensions.len() == 0 {
        0
    } else {
        dimension_sum(dimensions.drop_last()) + dimensions.last() as nat
    }
}

/// What a constraint's `fun` returned: a scalar or a vector.
pub enum ConstraintOutput<T> {
    Scalar(T),
    Vector(Vec<T>),
}

/// What a constraint's `jac` returned: one gradient or one row per component.
pub enum JacobianOutput<T> {
    Gradient(Vec<T>),
    Rows(Vec<Vec<T>>),
}

/// A constraint's values: a scalar as a one-element vector, a vector as it
/// is unless empty.
pub fn constraint_values<T>(output: ConstraintOutput<T>) -> (r: Result<Vec<T>, OptimizeError>)
    ensures
        match output {
            ConstraintOutput::Scalar(s) => r matches Ok(v) && v@ == seq![s],
            ConstraintOutput::Vector(v) => if v@.len() == 0 {
                r == Err::<Vec<T>, OptimizeError>(OptimizeError::EmptyConstraintValues)
            } else {
                r matches Ok(w) && w@ == v@
            },
        },
{
    match output {
        ConstraintOutput::Scalar(s) => {
            let mut v = Vec::new();
            v.push(s);
            Ok(v)
        },
        ConstraintOutput::Vector(v) => {
            if v.len() == 0 {
                Err(OptimizeError::EmptyConstraintValues)
            } else {
                Ok(v)
            }
        },
    }
}

/// An objective gradient, accepted only at the length the optimizer asked for.
pub fn objective_gradient<T>(values: Vec<T>, out_len: usize) -> (r: Result<Vec<T>, OptimizeError>)
    ensures
        values@.len() != out_len ==> r == Err::<Vec<T>, OptimizeError>(OptimizeError::GradientLength),
        values@.len() == out_len ==> (r matches Ok(v) && v@ == values@),
{
    if values.len() != out_len {
        Err(OptimizeError::GradientLength)
    } else {
        Ok(values)
    }
}

/// The constraints of one `minimize` run, flattened into scalar components.
pub struct ConstraintLayout {
    dimensions: Vec<usize>,
    components: Vec<(usize, usize)>,
}

impl ConstraintLayout {
    #[verifier::type_invariant]
    spec fn layout_matches(self) -> bool {
        &&& self.dimensions@.len() <= usize::MAX
        &&& self.components@ == components_spec(self.dimensions@)
    }

    /// The dimension of each constraint, in order.
    pub closed spec fn dimensions(self) -> Seq<usize> {
        self.dimensions@
    }

    /// The `(constraint, row)` of each scalar component, in order.
    pub closed spec fn components(self) -> Seq<(usize, usize)> {
        self.components@
    }

    /// Lays out constraints of the given dimensions, each dimension being the
    /// length of the values its `fun` returned at the probe point.
    pub fn new(dimensions: Vec<usize>) -> (layout: Self)
        ensures
            layout.dimensions() == dimensions@,
            layout.components() == components_spec(dimensions@),
    {
        let mut components: Vec<(usize, usize)> = Vec::new();
        let n = dimensions.len();
        for index in 0..n
            invariant
                n == dimensions@.len(),
                components@ == components_spec(dimensions@.take(index as int)),
        {
            let d = dimensions[index];
            let ghost before = components@;
            for row in 0..d
                invariant
                    components@ == before + Seq::new(row as nat, |r: int| (index, r as usize)),
            {
                components.push((index, row));
                assert(components@ =~= before + Seq::new((row + 1) as nat, |r: int| (index, r as usize)));
            }
            assert(dimensions@.take(index + 1).drop_last() =~= dimensions@.take(index as int));
            assert(components@ =~= components_spec(dimensions@.take(index + 1)));
        }
        assert(dimensions@.take(n as int) =~= dimensions@);
        ConstraintLayout { dimensions, components }
    }

    /// The number of scalar components.
    pub fn constraint_count(&self) -> (n: usize)
        ensures
            n == self.components().len(),
    {
        self.components.len()
    }

    /// The `(constraint, row)` of component `i`.
    pub fn component(&self, i: usize) -> (c: (usize, usize))
        requires
            i < self.components().len(),
        ensures
            c == self.components()[i as int],
    {
        self.components[i]
    }

    /// The value of component `i`, read from the values its constraint's
    /// `fun` returned; refused where their count is not the constraint's
    /// dimension.
    pub fn component_value<T: Copy>(&self, i: usize, values: &Vec<T>) -> (r: Result<T, OptimizeError>)
        requires
            i < self.components().len(),
        ensures
            ({
                let (index, row) = self.components()[i as int];
                if values@.len() != self.dimensions()[index as int] {
                    r == Err::<T, OptimizeError>(OptimizeError::ConstraintDimensionChanged)
                } else {
                    r == Ok::<T, OptimizeError>(values@[row as int])
                }
            }),
    {
        proof {
            use_type_invariant(self);
            lemma_components_in_range(self.dimensions@);
        }
        let (index, row) = self.components[i];
        if values.len() != self.dimensions[index] {
            Err(OptimizeError::ConstraintDimensionChanged)
        } else {
            Ok(values[row])
        }
    }

    /// The gradient of component `i`, read from what its constraint's `jac`
    /// returned: a flat gradient serves a one-dimensional constraint only, a
    /// list of rows must hold one row per dimension, and the gradient must
    /// have the length the optimizer asked for.
    pub fn component_gradient<T>(&self, i: usize, output: JacobianOutput<T>, out_len: usize) -> (r:
        Result<Vec<T>, OptimizeError>)
        requires
            i < self.components().len(),
        ensures
            ({
                let (index, row) = self.components()[i as int];
                let dimension = self.dimensions()[index as int];
                match output {
                    JacobianOutput::Gradient(g) => if dimension != 1 {
                        r == Err::<Vec<T>, OptimizeError>(OptimizeError::JacobianNeedsRows)
                    } else if g@.len() != out_len {
                        r == Err::<Vec<T>, OptimizeError>(OptimizeError::ConstraintGradientLength)
                    } else {
                        r matches Ok(v) && v@ == g@
                    },
                    JacobianOutput::Rows(rows) => if rows@.len() != dimension {
                        r == Err::<Vec<T>, OptimizeError>(OptimizeError::JacobianRowCount)
                    } else if rows@[row as int]@.len() != out_len {
                        r == Err::<Vec<T>, OptimizeError>(OptimizeError::ConstraintGradientLength)
                    } else {
                        r matches Ok(v) && v@ == rows@[row as int]@
                    },
                }
            }),
    {
        proof {
            use_type_invariant(self);
            lemma_components_in_range(self.dimensions@);
        }
        let (index, row) = self.components[i];
        let dimension = self.dimensions[index];
        let values = match output {
            JacobianOutput::Gradient(g) => {
                if dimension != 1 {
                    return Err(OptimizeError::JacobianNeedsRows);
                }
                g
            },
            JacobianOutput::Rows(mut rows) => {
                if rows.len() != dimension {
                    return Err(OptimizeError::JacobianRowCount);
                }
                rows.swap_remove(row)
            },
        };
        if values.len() != out_len {
            return Err(OptimizeError::ConstraintGradientLength);
        }
        Ok(values)
    }
}

/// Every component names an existing constraint and one of its rows, and
/// there are as many components as the dimensions add up to.
pub proof fn lemma_components_in_range(dimensions: Seq<usize>)
    requires
        dimensions.len() <= usize::MAX,
    ensures
        components_spec(dimensions).len() == dimension_sum(dimensions),
        forall|k: int|
            0 <= k < components_spec(dimensions).len() ==> {
                let (index, row) = #[trigger] components_spec(dimensions)[k];
                &&& index < dimensions.len()
                &&& row < dimensions[index as int]
            },
    decreases dimensions.len(),
{
    if dimensions.len() > 0 {
        let prefix = dimensions.drop_last();
        lemma_components_in_range(prefix);
        let last = dimensions.len() - 1;
        let head = components_spec(prefix);
        let tail = Seq::new(dimensions[last] as nat, |row: int| (last as usize, row as usize));
        assert(components_spec(dimensions) == head + tail);
        assert forall|k: int| 0 <= k < components_spec(dimensions).len() implies {
            let (index, row) = #[trigger] components_spec(dimensions)[k];
            &&& index < dimensions.len()
            &&& row < dimensions[index as int]
        } by {
            if k < head.len() {
                assert(components_spec(dimensions)[k] == head[k]);

                assert(prefix[head[k].0 as int] == dimensions[head[k].0 as int]);
            } else {
                assert(components_spec(dimensions)[k] == tail[k - head.len()]);

            }
        }
    }
}

/// The running total of the dimensions before constraint `i` grows by the
/// dimension of each constraint it passes.
proof fn lemma_prefix_sum_step(dimensions: Seq<usize>, i: int)
    requires
        0 <= i < dimensions.len(),
    ensures
        dimension_sum(dimensions.take(i + 1)) == dimension_sum(dimensions.take(i)) + dimensions[i],
{
    assert(dimensions.take(i + 1).drop_last() =~= dimensions.take(i));
}

/// The running total of the dimensions never decreases.
proof fn lemma_prefix_sum_monotone(dimensions: Seq<usize>, i: int, j: int)
    requires
        0 <= i <= j <= dimensions.len(),
    ensures
        dimension_sum(dimensions.take(i)) <= dimension_sum(dimensions.take(j)),
    decreases j - i,
{
    if i < j {
        lemma_prefix_sum_step(dimensions, j - 1);
        lemma_prefix_sum_monotone(dimensions, i, j - 1);
    }
}

/// Row `r` of constraint `i` is the component at position
/// `dimensions[0] + ... + dimensions[i - 1] + r`, and that component is
/// `(i, r)`: every row of every constraint appears, once, in order.
pub proof fn lemma_component_position(dimensions: Seq<usize>, i: int, r: int)
    requires
        dimensions.len() <= usize::MAX,
        0 <= i < dimensions.len(),
        0 <= r < dimensions[i],
    ensures
        dimension_sum(dimensions.take(i)) + r < components_spec(dimensions).len(),
        components_spec(dimensions)[dimension_sum(dimensions.take(i)) + r] == (i as usize, r as usize),
    decreases dimensions.len(),
{
    let n = dimensions.len();
    let last = n - 1;
    let prefix = dimensions.drop_last();
    lemma_components_in_range(dimensions);
    lemma_components_in_range(prefix);
    let head = components_spec(prefix);
    let tail = Seq::new(dimensions[last] as nat, |row: int| (last as usize, row as usize));
    assert(components_spec(dimensions) == head + tail);
    assert(dimensions.take(last) =~= prefix);
    assert(dimensions.take(n as int) =~= dimensions);
    assert(dimension_sum(prefix) + dimensions[last as int] == dimension_sum(dimensions));
    if i < last {
        assert(prefix.take(i) =~= dimensions.take(i));
        lemma_component_position(prefix, i, r);
        lemma_prefix_sum_step(prefix, i);
        lemma_prefix_sum_monotone(prefix, i + 1, prefix.len() as int);
        assert(prefix.take(prefix.len() as int) =~= prefix);
    } else {
        assert(components_spec(dimensions)[dimension_sum(dimensions.take(i)) + r] == tail[r]);
    }
}

/// The name of each method, in the lower case the comparison folds to.
pub open spec fn method_name(m: MinimizeMethod) -> Seq<char> {
    match m {
        MinimizeMethod::NelderMead => "nelder-mead"@,
        MinimizeMethod::Bfgs => "bfgs"@,
        MinimizeMethod::LBfgsB => "l-bfgs-b"@,
        MinimizeMethod::Slsqp => "slsqp"@,
    }
}

/// A name selects a method exactly when it is that method's name up to
/// ASCII case.
pub proof fn lemma_method_names(name: Seq<char>, m: MinimizeMethod)
    ensures
        method_spec(name) == Some(m) <==> eq_ignore_ascii_case_spec(name, method_name(m)),
{
    reveal_strlit("nelder-mead");
    reveal_strlit("bfgs");
    reveal_strlit("l-bfgs-b");
    reveal_strlit("slsqp");
}

/// A method named in any case runs whenever it is given only what it takes:
/// bounds only for L-BFGS-B and SLSQP, constraints only for SLSQP, an
/// analytic gradient for anything but Nelder-Mead. A name that selects no
/// method is refused, for its bounds or constraints when it has them.
pub proof fn lemma_minimize_plan_complete(
    name: Seq<char>,
    m: MinimizeMethod,
    has_bounds: bool,
    has_constraints: bool,
    has_jac: bool,
)
    requires
        eq_ignore_ascii_case_spec(name, method_name(m)),
        has_bounds ==> (m == MinimizeMethod::LBfgsB || m == MinimizeMethod::Slsqp),
        has_constraints ==> m == MinimizeMethod::Slsqp,
        !(m == MinimizeMethod::NelderMead && has_jac),
    ensures
        minimize_plan_spec(name, has_bounds, has_constraints, has_jac) == Ok::<
            MinimizeMethod,
            OptimizeError,
        >(m),
{
    lemma_method_names(name, m);
    reveal_strlit("nelder-mead");
    reveal_strlit("bfgs");
    reveal_strlit("l-bfgs-b");
    reveal_strlit("slsqp");
}

/// A name that is none of the four is refused.
pub proof fn lemma_minimize_plan_unknown(
    name: Seq<char>,
    has_bounds: bool,
    has_constraints: bool,
    has_jac: bool,
)
    requires
        forall|m: MinimizeMethod| !eq_ignore_ascii_case_spec(name, #[trigger] method_name(m)),
    ensures
        minimize_plan_spec(name, has_bounds, has_constraints, has_jac) is Err,
{
    assert(!eq_ignore_ascii_case_spec(name, method_name(MinimizeMethod::NelderMead)));
    assert(!eq_ignore_ascii_case_spec(name, method_name(MinimizeMethod::Bfgs)));
    assert(!eq_ignore_ascii_case_spec(name, method_name(MinimizeMethod::LBfgsB)));
    assert(!eq_ignore_ascii_case_spec(name, method_name(MinimizeMethod::Slsqp)));
}

/// The key each option is given under.
pub open spec fn option_name(o: OptionKey) -> Seq<char> {
    match o {
        OptionKey::MaxIter => "maxiter"@,
        OptionKey::MaxFev => "maxfev"@,
        OptionKey::XAtol => "xatol"@,
        OptionKey::FAtol => "fatol"@,
        OptionKey::Adaptive => "adaptive"@,
        OptionKey::GTol => "gtol"@,
        OptionKey::Eps => "eps"@,
        OptionKey::MaxCor => "maxcor"@,
        OptionKey::FTol => "ftol"@,
    }
}

/// The options each method documents: Nelder-Mead maxiter, maxfev, xatol,
/// fatol, adaptive; BFGS maxiter, gtol, eps; L-BFGS-B maxiter, maxfev,
/// maxcor, ftol, gtol, eps; SLSQP maxiter, maxfev, ftol.
pub open spec fn method_takes(m: MinimizeMethod, o: OptionKey) -> bool {
    match m {
        MinimizeMethod::NelderMead => o == OptionKey::MaxIter || o == OptionKey::MaxFev || o
            == OptionKey::XAtol || o == OptionKey::FAtol || o == OptionKey::Adaptive,
        MinimizeMethod::Bfgs => o == OptionKey::MaxIter || o == OptionKey::GTol || o
            == OptionKey::Eps,
        MinimizeMethod::LBfgsB => o == OptionKey::MaxIter || o == OptionKey::MaxFev || o
            == OptionKey::MaxCor || o == OptionKey::FTol || o == OptionKey::GTol || o
            == OptionKey::Eps,
        MinimizeMethod::Slsqp => o == OptionKey::MaxIter || o == OptionKey::MaxFev || o
            == OptionKey::FTol,
    }
}

/// A key is accepted for a method, as an option, exactly when it is that
/// option's name and the method takes that option.
pub proof fn lemma_option_table(m: MinimizeMethod, key: Seq<char>, o: OptionKey)
    ensures
        option_key_spec(m, key) == Some(o) <==> (key == option_name(o) && method_takes(m, o)),
{
    reveal_strlit("maxiter");
    reveal_strlit("maxfev");
    reveal_strlit("xatol");
    reveal_strlit("fatol");
    reveal_strlit("adaptive");
    reveal_strlit("gtol");
    reveal_strlit("eps");
    reveal_strlit("maxcor");
    reveal_strlit("ftol");
    assert("maxiter"@.len() != "maxfev"@.len());
    assert("maxiter"@.len() != "xatol"@.len());
    assert("maxiter"@.len() != "fatol"@.len());
    assert("maxiter"@.len() != "adaptive"@.len());
    assert("maxiter"@.len() != "gtol"@.len());
    assert("maxiter"@.len() != "eps"@.len());
    assert("maxiter"@.len() != "maxcor"@.len());
    assert("maxiter"@.len() != "ftol"@.len());
    assert("maxfev"@.len() != "xatol"@.len());
    assert("maxfev"@.len() != "fatol"@.len());
    assert("maxfev"@.len() != "adaptive"@.len());
    assert("maxfev"@.len() != "gtol"@.len());
    assert("maxfev"@.len() != "eps"@.len());
    assert("maxfev"@[3] != "maxcor"@[3]);
    assert("maxfev"@.len() != "ftol"@.len());
    assert("xatol"@[0] != "fatol"@[0]);
    assert("xatol"@.len() != "adaptive"@.len());
    assert("xatol"@.len() != "gtol"@.len());
    assert("xatol"@.len() != "eps"@.len());
    assert("xatol"@.len() != "maxcor"@.len());
    assert("xatol"@.len() != "ftol"@.len());
    assert("fatol"@.len() != "adaptive"@.len());
    assert("fatol"@.len() != "gtol"@.len());
    assert("fatol"@.len() != "eps"@.len());
    assert("fatol"@.len() != "maxcor"@.len());
    assert("fatol"@.len() != "ftol"@.len());
    assert("adaptive"@.len() != "gtol"@.len());
    assert("adaptive"@.len() != "eps"@.len());
    assert("adaptive"@.len() != "maxcor"@.len());
    assert("adaptive"@.len() != "ftol"@.len());
    assert("gtol"@.len() != "eps"@.len());
    assert("gtol"@.len() != "maxcor"@.len());
    assert("gtol"@[0] != "ftol"@[0]);
    assert("eps"@.len() != "maxcor"@.len());
    assert("eps"@.len() != "ftol"@.len());
    assert("maxcor"@.len() != "ftol"@.len());
}

/// Method names are read in any case: two names equal up to ASCII case lead
/// `minimize` to the same decision.
pub proof fn lemma_minimize_plan_ignores_case(
    a: Seq<char>,
    b: Seq<char>,
    has_bounds: bool,
    has_constraints: bool,
    has_jac: bool,
)
    requires
        eq_ignore_ascii_case_spec(a, b),
    ensures
        minimize_plan_spec(a, has_bounds, has_constraints, has_jac) == minimize_plan_spec(
            b,
            has_bounds,
            has_constraints,
            has_jac,
        ),
{
    lemma_eq_ignore_ascii_case_congruent(a, b, "nelder-mead"@);
    lemma_eq_ignore_ascii_case_congruent(a, b, "bfgs"@);
    lemma_eq_ignore_ascii_case_congruent(a, b, "l-bfgs-b"@);
    lemma_eq_ignore_ascii_case_congruent(a, b, "slsqp"@);
}

/// Only L-BFGS-B and SLSQP run with bounds, only SLSQP runs with
/// constraints, and Nelder-Mead never runs with an analytic gradient.
pub proof fn lemma_minimize_plan_respects_capabilities(
    name: Seq<char>,
    has_bounds: bool,
    has_constraints: bool,
    has_jac: bool,
)
    requires
        minimize_plan_spec(name, has_bounds, has_constraints, has_jac) is Ok,
    ensures
        ({
            let m = minimize_plan_spec(name, has_bounds, has_constraints, has_jac)->Ok_0;
            &&& has_bounds ==> (m == MinimizeMethod::LBfgsB || m == MinimizeMethod::Slsqp)
            &&& has_constraints ==> m == MinimizeMethod::Slsqp
            &&& m == MinimizeMethod::NelderMead ==> !has_jac
            &&& method_spec(name) == Some(m)
        }),
{
    reveal_strlit("nelder-mead");
    reveal_strlit("bfgs");
    reveal_strlit("l-bfgs-b");
    reveal_strlit("slsqp");
}

/// Why a minimize run stopped; the integer values are fixed and append-only.
#[derive(Debug, Clone, Copy, PartialEq, Eq)]
pub enum PyStatus {
    ConvergedXTol,
    ConvergedFTol,
    ConvergedGTol,
    MaxIterations,
    MaxEvaluations,
    Cancelled,
    Nonfinite,
    LineSearchFailed,
    Infeasible,
}

/// The fixed integer value of each status, in declaration order from 0.
pub open spec fn status_code_spec(s: PyStatus) -> u8 {
    match s {
        PyStatus::ConvergedXTol => 0,
        PyStatus::ConvergedFTol => 1,
        PyStatus::ConvergedGTol => 2,
        PyStatus::MaxIterations => 3,
        PyStatus::MaxEvaluations => 4,
        PyStatus::Cancelled => 5,
        PyStatus::Nonfinite => 6,
        PyStatus::LineSearchFailed => 7,
        PyStatus::Infeasible => 8,
    }
}

impl PyStatus {
    /// The status's integer value.
    pub fn code(&self) -> (c: u8)
        ensures
            c == status_code_spec(*self),
    {
        match self {
            PyStatus::ConvergedXTol => 0,
            PyStatus::ConvergedFTol => 1,
            PyStatus::ConvergedGTol => 2,
            PyStatus::MaxIterations => 3,
            PyStatus::MaxEvaluations => 4,
            PyStatus::Cancelled => 5,
            PyStatus::Nonfinite => 6,
            PyStatus::LineSearchFailed => 7,
            PyStatus::Infeasible => 8,
        }
    }
}

/// Distinct statuses have distinct integer values.
pub proof fn lemma_status_codes_distinct(s: PyStatus, t: PyStatus)
    ensures
        status_code_spec(s) == status_code_spec(t) ==> s == t,
{
}
} // verus!
