use itofin_py::bootstrap::{CallbackDepth, QuoteMutationRefused, ResidualCount, ResidualCountChanged};
use itofin_py::calibration::{fix_reversion_mask, resolve_fix_parameters, FixConflict};
use itofin_py::common::ErrorKind;
use itofin_py::creditdensity::{density_interpolation, pair_nodes, DensityInterpolation, UnknownDensityInterpolation};
use itofin_py::fdengine::{check_fd_grid, FdGridError, PyFdScheme};
use itofin_py::makeswaption::{swaption_start, ExactlyOneStart, SwaptionStart};
use itofin_py::poissonrng::{check_sequence_dimension, DimensionOutOfRange, MAX_SEQUENCE_DIMENSION};

#[test]
fn callback_depth_guards_quotes() {
    let mut depth = CallbackDepth::new();
    assert_eq!(depth.ensure_quote_mutation_allowed(), Ok(()));
    depth.enter();
    assert_eq!(depth.ensure_quote_mutation_allowed(), Err(QuoteMutationRefused));
    depth.enter();
    assert_eq!(depth.current(), 2);
    depth.leave();
    assert_eq!(depth.ensure_quote_mutation_allowed(), Err(QuoteMutationRefused));
    depth.leave();
    assert_eq!(depth.current(), 0);
    assert_eq!(depth.ensure_quote_mutation_allowed(), Ok(()));
    assert_eq!(QuoteMutationRefused.kind(), ErrorKind::Itofin);
}

#[test]
fn residual_count_is_fixed_per_calculation() {
    let mut count = ResidualCount::new();
    assert_eq!(count.observe(3), Ok(()));
    assert_eq!(count.observe(3), Ok(()));
    assert_eq!(count.observe(4), Err(ResidualCountChanged { expected: 3, found: 4 }));
    assert_eq!(count.observe(3), Ok(()));
    count.reset();
    assert_eq!(count.observe(4), Ok(()));
    assert_eq!(count.observe(0), Err(ResidualCountChanged { expected: 4, found: 0 }));
}

#[test]
fn fix_parameter_masks() {
    assert_eq!(fix_reversion_mask(true), vec![true, false]);
    assert_eq!(fix_reversion_mask(false), Vec::<bool>::new());
    assert_eq!(resolve_fix_parameters(None, false), Ok(vec![]));
    assert_eq!(resolve_fix_parameters(None, true), Ok(vec![true, false]));
    assert_eq!(resolve_fix_parameters(Some(vec![false, true, true]), false), Ok(vec![false, true, true]));
    assert_eq!(resolve_fix_parameters(Some(vec![]), true), Ok(vec![true, false]));
    assert_eq!(resolve_fix_parameters(Some(vec![true]), true), Err(FixConflict));
    assert_eq!(FixConflict.kind(), ErrorKind::Value);
}

#[test]
fn density_curve_options() {
    assert_eq!(density_interpolation("BackwardFlat"), Ok(DensityInterpolation::BackwardFlat));
    assert_eq!(density_interpolation("Linear"), Ok(DensityInterpolation::Linear));
    assert_eq!(density_interpolation("LogLinear"), Err(UnknownDensityInterpolation));
    assert_eq!(UnknownDensityInterpolation.kind(), ErrorKind::Value);
    let nodes = pair_nodes(&vec![10, 20, 30], &vec![0.5, 0.25, 0.125]);
    assert_eq!(nodes, vec![(10, 0.5), (20, 0.25), (30, 0.125)]);
    assert_eq!(pair_nodes(&vec![1, 2], &vec![9.0]), vec![(1, 9.0)]);
}

#[test]
fn fd_grid_bounds() {
    assert_eq!(check_fd_grid(100, 100, 0), Ok(()));
    assert_eq!(check_fd_grid(1, 3, 0), Ok(()));
    assert_eq!(check_fd_grid(0, 100, 0), Err(FdGridError));
    assert_eq!(check_fd_grid(100, 2, 0), Err(FdGridError));
    assert_eq!(check_fd_grid(usize::MAX, 3, 1), Err(FdGridError));
    assert_eq!(check_fd_grid(usize::MAX, 3, 0), Ok(()));
    assert_eq!(FdGridError.kind(), ErrorKind::Value);
    assert_eq!(PyFdScheme::Douglas.code(), 0);
    assert_eq!(PyFdScheme::ImplicitEuler.code(), 1);
}

#[test]
fn swaption_start_needs_exactly_one() {
    assert_eq!(swaption_start::<u32, i64>(Some(5), None), Ok(SwaptionStart::OptionTenor(5)));
    assert_eq!(swaption_start::<u32, i64>(None, Some(45000)), Ok(SwaptionStart::FixingDate(45000)));
    assert_eq!(swaption_start::<u32, i64>(None, None), Err(ExactlyOneStart));
    assert_eq!(swaption_start::<u32, i64>(Some(5), Some(45000)), Err(ExactlyOneStart));
    assert_eq!(ExactlyOneStart.kind(), ErrorKind::Value);
}

#[test]
fn sequence_dimensions() {
    assert_eq!(check_sequence_dimension(0), Err(DimensionOutOfRange));
    assert_eq!(check_sequence_dimension(1), Ok(()));
    assert_eq!(check_sequence_dimension(16 * 1024 * 1024), Ok(()));
    assert_eq!(check_sequence_dimension(MAX_SEQUENCE_DIMENSION + 1), Err(DimensionOutOfRange));
    assert_eq!(DimensionOutOfRange.kind(), ErrorKind::Itofin);
}
