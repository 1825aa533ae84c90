use itofin_py::capfloortermvol::{check_grid, matrix_from_rows, GridError};
use itofin_py::cashflows::{resolve_index, LegIndexError, PyLeg};
use itofin_py::common::ErrorKind;

#[test]
fn grid_checks() {
    let empty: Vec<Vec<f64>> = vec![];
    assert_eq!(check_grid(&empty), Err(GridError::NoRows));
    assert_eq!(check_grid(&vec![Vec::<f64>::new(), vec![1.0]]), Err(GridError::NoColumns));
    assert_eq!(check_grid(&vec![vec![1.0, 2.0], vec![3.0]]), Err(GridError::Ragged));
    assert_eq!(check_grid(&vec![vec![1.0, 2.0], vec![3.0, 4.0], vec![5.0, 6.0]]), Ok(2));
    assert_eq!(GridError::Ragged.kind(), ErrorKind::Itofin);
}

#[test]
fn matrix_keeps_rows() {
    let rows = vec![vec![0.1, 0.2, 0.3], vec![0.4, 0.5, 0.6]];
    let m = matrix_from_rows(&rows).unwrap();
    assert_eq!(m.rows(), 2);
    assert_eq!(m.columns(), 3);
    for i in 0..2 {
        for j in 0..3 {
            assert_eq!(*m.get(i, j), rows[i][j]);
        }
    }
    assert!(matrix_from_rows(&vec![vec![1.0], vec![1.0, 2.0]]).is_err());
}

#[test]
fn indices_resolve_from_both_ends() {
    assert_eq!(resolve_index(0, 3), Some(0));
    assert_eq!(resolve_index(2, 3), Some(2));
    assert_eq!(resolve_index(3, 3), None);
    assert_eq!(resolve_index(-1, 3), Some(2));
    assert_eq!(resolve_index(-3, 3), Some(0));
    assert_eq!(resolve_index(-4, 3), None);
    assert_eq!(resolve_index(0, 0), None);
    assert_eq!(resolve_index(-1, 0), None);
    assert_eq!(resolve_index(isize::MIN, 5), None);
    assert_eq!(resolve_index(isize::MAX, 5), None);
}

#[test]
fn leg_indexing() {
    let leg = PyLeg::new(vec!["a", "b", "c"]);
    assert_eq!(leg.__len__(), 3);
    assert_eq!(leg.__getitem__(0), Ok(&"a"));
    assert_eq!(leg.__getitem__(-1), Ok(&"c"));
    assert_eq!(leg.__getitem__(-3), Ok(&"a"));
    for k in 0..3isize {
        assert_eq!(leg.__getitem__(k), leg.__getitem__(k - 3));
    }
    let err = leg.__getitem__(3).unwrap_err();
    assert_eq!(err, LegIndexError { index: 3, len: 3 });
    assert_eq!(err.kind(), ErrorKind::Index);
    assert_eq!(leg.__getitem__(-4), Err(LegIndexError { index: -4, len: 3 }));
    let empty: PyLeg<u8> = PyLeg::new(vec![]);
    assert_eq!(empty.__len__(), 0);
    assert!(empty.__getitem__(0).is_err());
}
