use matops::ger::{ger_checked, ger_generic, Ger};
use matops::view::{MatView, VecView};

fn row_major(rows: &[&[i64]]) -> MatView<i64> {
    let m = rows.len();
    let n = if m == 0 { 0 } else { rows[0].len() };
    let mut data: Vec<i64> = Vec::new();
    for r in rows {
        assert_eq!(r.len(), n);
        data.extend_from_slice(r);
    }
    MatView::try_new(data, 0, m, n, n as isize, 1).unwrap()
}

fn col_major(rows: &[&[i64]]) -> MatView<i64> {
    let m = rows.len();
    let n = if m == 0 { 0 } else { rows[0].len() };
    let mut data: Vec<i64> = Vec::new();
    for j in 0..n {
        for i in 0..m {
            data.push(rows[i][j]);
        }
    }
    MatView::try_new(data, 0, m, n, 1, m as isize).unwrap()
}

fn plain_vec(v: &[i64]) -> VecView<i64> {
    VecView::try_new(v.to_vec(), 0, v.len(), 1).unwrap()
}

fn entries(z: &MatView<i64>, m: usize, n: usize) -> Vec<Vec<i64>> {
    let mut out = Vec::new();
    for i in 0..m {
        let mut row = Vec::new();
        for j in 0..n {
            row.push(z.read_entry(i, j));
        }
        out.push(row);
    }
    out
}

const EXPECTED_3X5: [[i64; 5]; 3] = [
    [3, 5, 7, 9, 11],
    [6, 10, 14, 18, 22],
    [9, 15, 21, 27, 33],
];

#[test]
fn ger_row_major() {
    let mut z = row_major(&[&[0; 5], &[0; 5], &[0; 5]]);
    let x = plain_vec(&[1, 2, 3]);
    let y = plain_vec(&[3, 5, 7, 9, 11]);
    z.ger(1, &x, &y);
    let got = entries(&z, 3, 5);
    for i in 0..3 {
        for j in 0..5 {
            assert_eq!(got[i][j], EXPECTED_3X5[i][j]);
        }
    }
}

#[test]
fn ger_col_major_matches_row_major() {
    let zero: &[&[i64]] = &[&[0; 5], &[0; 5], &[0; 5]];
    let mut zr = row_major(zero);
    let mut zc = col_major(zero);
    let x = plain_vec(&[1, 2, 3]);
    let y = plain_vec(&[3, 5, 7, 9, 11]);
    zr.ger(1, &x, &y);
    zc.ger(1, &x, &y);
    let got_r = entries(&zr, 3, 5);
    let got_c = entries(&zc, 3, 5);
    for i in 0..3 {
        for j in 0..5 {
            assert_eq!(got_r[i][j], EXPECTED_3X5[i][j]);
            assert_eq!(got_c[i][j], EXPECTED_3X5[i][j]);
        }
    }
}

#[test]
fn ger_accumulates_into_existing_values() {
    let mut z = row_major(&[&[1, 2], &[3, 4]]);
    let x = plain_vec(&[10, 100]);
    let y = plain_vec(&[1, -1]);
    z.ger(2, &x, &y);
    // z[i][j] + 2 * x[i] * y[j]
    assert_eq!(entries(&z, 2, 2), vec![vec![21, -18], vec![203, -196]]);
}

#[test]
fn ger_strided_views() {
    // A 3x5 logical matrix over a 3x10 buffer, using every other column,
    // and vectors read with stride 2 from longer buffers.
    let mut data = vec![0i64; 30];
    for k in 0..30 {
        data[k] = -1; // holes keep this value; the kernel must not touch them
    }
    let mut z = MatView::try_new(data, 0, 3, 5, 10, 2).unwrap();
    for i in 0..3 {
        for j in 0..5 {
            z.write_entry(i, j, 0);
        }
    }
    let x = VecView::try_new(vec![1, 9, 2, 9, 3, 9], 0, 3, 2).unwrap();
    let y = VecView::try_new(vec![3, 9, 5, 9, 7, 9, 9, 9, 11, 9], 0, 5, 2).unwrap();
    z.ger(1, &x, &y);
    let got = entries(&z, 3, 5);
    for i in 0..3 {
        for j in 0..5 {
            assert_eq!(got[i][j], EXPECTED_3X5[i][j]);
        }
    }
    // the buffer holes stayed untouched
    for i in 0..3 {
        for j in 0..5 {
            assert_eq!(z.data[10 * i + 2 * j + 1], -1);
        }
    }
}

#[test]
fn ger_negative_stride_x_matches_reversed_copy() {
    let x_rev = VecView::try_new(vec![3, 2, 1], 2, 3, -1).unwrap();
    assert_eq!(x_rev.get(0), 1);
    assert_eq!(x_rev.get(2), 3);
    let x_fwd = plain_vec(&[1, 2, 3]);
    let y = plain_vec(&[3, 5, 7, 9, 11]);
    let zero: &[&[i64]] = &[&[0; 5], &[0; 5], &[0; 5]];
    let mut z1 = row_major(zero);
    let mut z2 = row_major(zero);
    z1.ger(1, &x_rev, &y);
    z2.ger(1, &x_fwd, &y);
    assert_eq!(entries(&z1, 3, 5), entries(&z2, 3, 5));
}

#[test]
fn ger_negative_stride_y_matches_reversed_copy() {
    let y_rev = VecView::try_new(vec![11, 9, 7, 5, 3], 4, 5, -1).unwrap();
    let y_fwd = plain_vec(&[3, 5, 7, 9, 11]);
    let x = plain_vec(&[1, 2, 3]);
    let zero: &[&[i64]] = &[&[0; 5], &[0; 5], &[0; 5]];
    let mut z1 = row_major(zero);
    let mut z2 = row_major(zero);
    z1.ger(1, &x, &y_rev);
    z2.ger(1, &x, &y_fwd);
    assert_eq!(entries(&z1, 3, 5), entries(&z2, 3, 5));
}

#[test]
fn ger_single_row_and_single_column() {
    let mut z = row_major(&[&[0, 0, 0]]);
    let x = plain_vec(&[5]);
    let y = plain_vec(&[1, 2, 3]);
    z.ger(2, &x, &y);
    assert_eq!(entries(&z, 1, 3), vec![vec![10, 20, 30]]);

    let mut z = row_major(&[&[0], &[0], &[0]]);
    let x = plain_vec(&[1, 2, 3]);
    let y = plain_vec(&[5]);
    z.ger(2, &x, &y);
    assert_eq!(entries(&z, 3, 1), vec![vec![10], vec![20], vec![30]]);
}

#[test]
fn ger_zero_length_is_a_no_op() {
    // 0 columns: y is empty, nothing to add, nothing crashes.
    let mut z = MatView::try_new(vec![0i64; 0], 0, 3, 0, 1, 1).unwrap();
    let x = plain_vec(&[1, 2, 3]);
    let y = plain_vec(&[]);
    z.ger(7, &x, &y);

    // 0 rows: x is empty.
    let mut z = MatView::try_new(vec![0i64; 0], 0, 0, 4, 1, 1).unwrap();
    let x = plain_vec(&[]);
    let y = plain_vec(&[1, 2, 3, 4]);
    z.ger(7, &x, &y);
}

#[test]
fn ger_shape_mismatch_is_rejected() {
    let zero: &[&[i64]] = &[&[0, 0], &[0, 0]];
    let mut z = row_major(zero);
    let x_bad = plain_vec(&[1, 2, 3]);
    let y = plain_vec(&[1, 2]);
    assert!(!ger_checked(&mut z, 1, &x_bad, &y));
    // rejected deterministically, every time
    assert!(!ger_checked(&mut z, 1, &x_bad, &y));
    let x = plain_vec(&[1, 2]);
    let y_bad = plain_vec(&[1]);
    assert!(!ger_checked(&mut z, 1, &x, &y_bad));
    // the matrix stayed untouched
    assert_eq!(entries(&z, 2, 2), vec![vec![0, 0], vec![0, 0]]);
    // and with agreeing shapes the same call goes through
    assert!(ger_checked(&mut z, 1, &x, &y));
    assert_eq!(entries(&z, 2, 2), vec![vec![1, 2], vec![2, 4]]);
}

#[test]
fn ger_generic_handles_indeterminate_layout() {
    // strides (4, 2): neither axis has unit stride, layout is indeterminate,
    // and the generic kernel still updates exactly the right entries.
    let mut z = MatView::try_new(vec![0i64; 8], 0, 2, 2, 4, 2).unwrap();
    let x = plain_vec(&[1, 2]);
    let y = plain_vec(&[10, 20]);
    ger_generic(&mut z, 3, &x, &y);
    assert_eq!(entries(&z, 2, 2), vec![vec![30, 60], vec![60, 120]]);
}

#[test]
fn ger_wraps_on_i64_overflow() {
    let mut z = row_major(&[&[i64::MAX]]);
    let x = plain_vec(&[1]);
    let y = plain_vec(&[1]);
    z.ger(1, &x, &y);
    assert_eq!(z.read_entry(0, 0), i64::MIN);
}

#[test]
fn ger_i32_elements() {
    let mut z = MatView::try_new(vec![0i32; 4], 0, 2, 2, 2, 1).unwrap();
    let x = VecView::try_new(vec![1i32, 2], 0, 2, 1).unwrap();
    let y = VecView::try_new(vec![3i32, 4], 0, 2, 1).unwrap();
    z.ger(2, &x, &y);
    assert_eq!(z.read_entry(0, 0), 6);
    assert_eq!(z.read_entry(0, 1), 8);
    assert_eq!(z.read_entry(1, 0), 12);
    assert_eq!(z.read_entry(1, 1), 16);
}
