use fdgrad::{Error, Fixed, Matrix, Scalar};

#[derive(Clone, Copy, Debug, PartialEq)]
struct Real(f64);

impl Scalar for Real {
    fn from_count_spec(n: u64) -> Real {
        Real(n as f64)
    }
    fn plus_spec(self, rhs: Real) -> Real {
        Real(self.0 + rhs.0)
    }
    fn minus_spec(self, rhs: Real) -> Real {
        Real(self.0 - rhs.0)
    }
    fn times_spec(self, rhs: Real) -> Real {
        Real(self.0 * rhs.0)
    }
    fn over_spec(self, rhs: Real) -> Real {
        Real(self.0 / rhs.0)
    }
    fn negated_spec(self) -> Real {
        Real(-self.0)
    }
    fn exp_spec(self) -> Real {
        Real(self.0.exp())
    }
    fn less_than_spec(self, rhs: Real) -> bool {
        self.0 < rhs.0
    }
    fn from_count(n: u64) -> Real {
        Real(n as f64)
    }
    fn plus(self, rhs: Real) -> Real {
        Real(self.0 + rhs.0)
    }
    fn minus(self, rhs: Real) -> Real {
        Real(self.0 - rhs.0)
    }
    fn times(self, rhs: Real) -> Real {
        Real(self.0 * rhs.0)
    }
    fn over(self, rhs: Real) -> Real {
        Real(self.0 / rhs.0)
    }
    fn negated(self) -> Real {
        Real(-self.0)
    }
    fn exp(self) -> Real {
        Real(self.0.exp())
    }
    fn less_than(self, rhs: Real) -> bool {
        self.0 < rhs.0
    }
}

fn filled(rows: usize, cols: usize, values: &[f64]) -> Matrix<Real> {
    assert_eq!(values.len(), rows * cols);
    let mut m: Matrix<Real> = Matrix::new(rows, cols);
    for r in 0..rows {
        for c in 0..cols {
            *m.get_as_mut_ref(r, c).unwrap() = Real(values[r * cols + c]);
        }
    }
    m
}

fn whole(n: i64) -> Fixed {
    Fixed { raw: n * 65536 }
}

#[test]
fn new_matrix_is_all_zero() {
    let m: Matrix<Real> = Matrix::new(2, 3);
    assert_eq!(m.rows(), 2);
    assert_eq!(m.cols(), 3);
    for r in 0..2 {
        for c in 0..3 {
            assert_eq!(m.get(r, c), Ok(Real(0.0)));
        }
    }
}

#[test]
fn empty_shapes_are_allowed() {
    let m: Matrix<Real> = Matrix::new(0, 5);
    assert_eq!(m.rows(), 0);
    assert_eq!(m.cols(), 5);
    assert_eq!(m.get(0, 0), Err(Error::OutOfBounds));
    let n: Matrix<Real> = Matrix::new(4, 0);
    assert_eq!(n.get(0, 0), Err(Error::OutOfBounds));
}

#[test]
fn fill_sets_every_entry() {
    let mut m: Matrix<Real> = Matrix::new(3, 2);
    m.fill(Real(7.5));
    assert_eq!(m.rows(), 3);
    assert_eq!(m.cols(), 2);
    for r in 0..3 {
        for c in 0..2 {
            assert_eq!(m.get(r, c), Ok(Real(7.5)));
        }
    }
}

#[test]
fn get_outside_the_shape_is_out_of_bounds() {
    let m: Matrix<Real> = Matrix::new(2, 3);
    assert_eq!(m.get(2, 0), Err(Error::OutOfBounds));
    assert_eq!(m.get(0, 3), Err(Error::OutOfBounds));
    assert_eq!(m.get(2, 3), Err(Error::OutOfBounds));
    assert_eq!(m.get(usize::MAX, 0), Err(Error::OutOfBounds));
    assert_eq!(m.get_as_ref(2, 0), Err(Error::OutOfBounds));
    assert_eq!(m.get_as_ref(1, 2), Ok(&Real(0.0)));
}

#[test]
fn entries_are_stored_row_by_row() {
    let m = filled(2, 3, &[1.0, 2.0, 3.0, 4.0, 5.0, 6.0]);
    assert_eq!(m.get(0, 0), Ok(Real(1.0)));
    assert_eq!(m.get(0, 2), Ok(Real(3.0)));
    assert_eq!(m.get(1, 0), Ok(Real(4.0)));
    assert_eq!(m.get(1, 2), Ok(Real(6.0)));
}

#[test]
fn get_as_mut_ref_writes_one_entry() {
    let mut m: Matrix<Real> = Matrix::new(2, 2);
    m.fill(Real(1.0));
    {
        let cell = m.get_as_mut_ref(1, 0).unwrap();
        assert_eq!(*cell, Real(1.0));
        *cell = Real(9.0);
    }
    assert_eq!(m.get(0, 0), Ok(Real(1.0)));
    assert_eq!(m.get(0, 1), Ok(Real(1.0)));
    assert_eq!(m.get(1, 0), Ok(Real(9.0)));
    assert_eq!(m.get(1, 1), Ok(Real(1.0)));
}

#[test]
fn get_as_mut_ref_outside_the_shape_changes_nothing() {
    let mut m = filled(2, 2, &[1.0, 2.0, 3.0, 4.0]);
    let before = m.clone();
    assert!(matches!(m.get_as_mut_ref(2, 0), Err(Error::OutOfBounds)));
    assert!(matches!(m.get_as_mut_ref(0, 2), Err(Error::OutOfBounds)));
    assert_eq!(m, before);
}

#[test]
fn twos_times_twos_is_eights() {
    let mut mat1: Matrix<Real> = Matrix::new(2, 2);
    mat1.fill(Real(2.0));
    let mut mat2: Matrix<Real> = Matrix::new(2, 2);
    mat2.fill(Real(2.0));
    let product = mat1.mult(mat2).unwrap();
    assert_eq!(product.rows(), 2);
    assert_eq!(product.cols(), 2);
    for r in 0..2 {
        for c in 0..2 {
            assert_eq!(product.get(r, c), Ok(Real(8.0)));
        }
    }
}

#[test]
fn mult_follows_the_product_formula() {
    let a = filled(2, 3, &[1.0, 2.0, 3.0, 4.0, 5.0, 6.0]);
    let b = filled(3, 2, &[7.0, 8.0, 9.0, 10.0, 11.0, 12.0]);
    let product = a.mult(b).unwrap();
    assert_eq!(product.rows(), 2);
    assert_eq!(product.cols(), 2);
    assert_eq!(product.get(0, 0), Ok(Real(58.0)));
    assert_eq!(product.get(0, 1), Ok(Real(64.0)));
    assert_eq!(product.get(1, 0), Ok(Real(139.0)));
    assert_eq!(product.get(1, 1), Ok(Real(154.0)));
}

#[test]
fn mult_has_rows_of_left_and_cols_of_right() {
    let a: Matrix<Real> = Matrix::new(3, 1);
    let b: Matrix<Real> = Matrix::new(1, 4);
    let product = a.mult(b).unwrap();
    assert_eq!(product.rows(), 3);
    assert_eq!(product.cols(), 4);
}

#[test]
fn mult_adds_the_terms_from_the_left() {
    let big = 9007199254740992.0;
    let a = filled(1, 3, &[big, 1.0, 1.0]);
    let b = filled(3, 1, &[1.0, 1.0, 1.0]);
    let product = a.mult(b).unwrap();
    assert_eq!(product.get(0, 0), Ok(Real(((0.0 + big) + 1.0) + 1.0)));
    assert_eq!(product.get(0, 0), Ok(Real(big)));
}

#[test]
fn mult_with_unfitting_shapes_is_a_dimension_mismatch() {
    let a: Matrix<Real> = Matrix::new(2, 3);
    let b: Matrix<Real> = Matrix::new(2, 3);
    assert_eq!(a.mult(b), Err(Error::DimensionMismatch));
    let c: Matrix<Real> = Matrix::new(2, 2);
    let d: Matrix<Real> = Matrix::new(3, 2);
    assert_eq!(c.mult(d), Err(Error::DimensionMismatch));
}

#[test]
fn mult_over_an_empty_inner_dimension_is_zero() {
    let a: Matrix<Real> = Matrix::new(2, 0);
    let b: Matrix<Real> = Matrix::new(0, 2);
    let product = a.mult(b).unwrap();
    assert_eq!(product.rows(), 2);
    assert_eq!(product.cols(), 2);
    assert_eq!(product.get(1, 1), Ok(Real(0.0)));
}

#[test]
fn mult_leaves_its_left_operand_alone() {
    let a = filled(2, 2, &[1.0, 2.0, 3.0, 4.0]);
    let before = a.clone();
    let b = filled(2, 2, &[0.0, 1.0, 1.0, 0.0]);
    let product = a.mult(b).unwrap();
    assert_eq!(a, before);
    assert_eq!(product, filled(2, 2, &[2.0, 1.0, 4.0, 3.0]));
}

#[test]
fn sum_adds_entry_by_entry() {
    let a = filled(2, 3, &[1.0, 2.0, 3.0, 4.0, 5.0, 6.0]);
    let b = filled(2, 3, &[10.0, 20.0, 30.0, 40.0, 50.0, 60.0]);
    let total = a.sum(b).unwrap();
    assert_eq!(total, filled(2, 3, &[11.0, 22.0, 33.0, 44.0, 55.0, 66.0]));
}

#[test]
fn sum_with_another_shape_is_a_dimension_mismatch() {
    let a: Matrix<Real> = Matrix::new(2, 3);
    let b: Matrix<Real> = Matrix::new(3, 2);
    assert_eq!(a.sum(b), Err(Error::DimensionMismatch));
    let c: Matrix<Real> = Matrix::new(2, 3);
    let d: Matrix<Real> = Matrix::new(2, 4);
    assert_eq!(c.sum(d), Err(Error::DimensionMismatch));
    let e: Matrix<Real> = Matrix::new(2, 3);
    let f: Matrix<Real> = Matrix::new(1, 6);
    assert_eq!(e.sum(f), Err(Error::DimensionMismatch));
}

#[test]
fn fixed_point_matrices_multiply_exactly() {
    let mut a: Matrix<Fixed> = Matrix::new(2, 2);
    a.fill(whole(2));
    let mut b: Matrix<Fixed> = Matrix::new(2, 2);
    b.fill(whole(2));
    let product = a.mult(b).unwrap();
    for r in 0..2 {
        for c in 0..2 {
            assert_eq!(product.get(r, c), Ok(whole(8)));
        }
    }
}

#[test]
fn a_cloned_matrix_is_equal_and_apart() {
    let m = filled(2, 3, &[1.0, 2.0, 3.0, 4.0, 5.0, 6.0]);
    let mut copy = m.clone();
    assert_eq!(copy, m);
    assert_eq!(copy.rows(), 2);
    assert_eq!(copy.cols(), 3);
    copy.fill(Real(0.0));
    assert_eq!(m, filled(2, 3, &[1.0, 2.0, 3.0, 4.0, 5.0, 6.0]));
    assert_eq!(copy, filled(2, 3, &[0.0; 6]));
}
