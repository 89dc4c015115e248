//! Plane fitting exercised end to end: a concrete 3-dimensional point type,
//! a concrete vector type, and a factorization backend that diagonalizes the
//! covariance of the centered cloud by Jacobi rotations.

use theon::array::{svd_ev_plane, SvdBackend, SvdFactors};
use theon::query::Plane;
use theon::space::{EuclideanSpace, InnerSpace};
use theon::{Composite, FromItems, IntoItems};

#[derive(Clone, Copy, Debug, PartialEq)]
struct E3 {
    x: f64,
    y: f64,
    z: f64,
}

#[derive(Clone, Copy, Debug, PartialEq)]
struct V3(f64, f64, f64);

fn e3(x: f64, y: f64, z: f64) -> E3 {
    E3 { x, y, z }
}

impl Composite for V3 {
    type Item = f64;
}

impl IntoItems for V3 {
    fn into_items(self) -> Vec<f64> {
        vec![self.0, self.1, self.2]
    }
}

impl FromItems for V3 {
    fn from_items(items: Vec<f64>) -> Option<V3> {
        if items.len() >= 3 {
            Some(V3(items[0], items[1], items[2]))
        } else {
            None
        }
    }
}

impl InnerSpace for V3 {
    fn normalize(self) -> Option<V3> {
        let norm = (self.0 * self.0 + self.1 * self.1 + self.2 * self.2).sqrt();
        if !norm.is_finite() || norm == 0.0 {
            return None;
        }
        let v = V3(self.0 / norm, self.1 / norm, self.2 / norm);
        let check = (v.0 * v.0 + v.1 * v.1 + v.2 * v.2).sqrt();
        if (check - 1.0).abs() <= 1.0e-9 {
            Some(v)
        } else {
            None
        }
    }
}

impl EuclideanSpace for E3 {
    type Scalar = f64;
    type Vector = V3;

    fn centroid(points: &Vec<E3>) -> Option<E3> {
        if points.is_empty() {
            return None;
        }
        let n = points.len() as f64;
        let mut sx = 0.0;
        let mut sy = 0.0;
        let mut sz = 0.0;
        for p in points {
            sx += p.x;
            sy += p.y;
            sz += p.z;
        }
        Some(e3(sx / n, sy / n, sz / n))
    }

    fn minus(&self, other: &E3) -> V3 {
        V3(self.x - other.x, self.y - other.y, self.z - other.z)
    }
}

/// Diagonalizes a symmetric 3x3 matrix; returns (eigenvalues, eigenvectors),
/// the eigenvector of `values[i]` being `vectors[0][i], vectors[1][i],
/// vectors[2][i]`.
fn jacobi(mut a: [[f64; 3]; 3]) -> ([f64; 3], [[f64; 3]; 3]) {
    let mut v = [[1.0, 0.0, 0.0], [0.0, 1.0, 0.0], [0.0, 0.0, 1.0]];
    for _ in 0..100 {
        let mut p = 0;
        let mut q = 1;
        let mut off = 0.0;
        for i in 0..3 {
            for j in 0..3 {
                if i != j && a[i][j].abs() > off {
                    off = a[i][j].abs();
                    p = i;
                    q = j;
                }
            }
        }
        if off <= 1.0e-300 {
            break;
        }
        let apq = a[p][q];
        let phi = 0.5 * (a[q][q] - a[p][p]) / apq;
        let t = if phi >= 0.0 {
            1.0 / (phi + (phi * phi + 1.0).sqrt())
        } else {
            1.0 / (phi - (phi * phi + 1.0).sqrt())
        };
        let c = 1.0 / (t * t + 1.0).sqrt();
        let s = t * c;
        for k in 0..3 {
            let akp = a[k][p];
            let akq = a[k][q];
            a[k][p] = c * akp - s * akq;
            a[k][q] = s * akp + c * akq;
        }
        for k in 0..3 {
            let apk = a[p][k];
            let aqk = a[q][k];
            a[p][k] = c * apk - s * aqk;
            a[q][k] = s * apk + c * aqk;
        }
        for k in 0..3 {
            let vkp = v[k][p];
            let vkq = v[k][q];
            v[k][p] = c * vkp - s * vkq;
            v[k][q] = s * vkp + c * vkq;
        }
    }
    ([a[0][0], a[1][1], a[2][2]], v)
}

/// A factorization backend over the covariance of the centered cloud. The
/// buffer holds one point per three consecutive scalars; columns come out
/// ordered by ascending singular value (the reverse of the conventional
/// descending order), each flipped so that its component of largest
/// magnitude is positive.
struct Jacobi;

impl SvdBackend<f64> for Jacobi {
    fn svd(rows: usize, cols: usize, data: &Vec<f64>) -> Option<SvdFactors<f64>> {
        if cols != 3 || data.len() != rows * cols {
            return None;
        }
        let mut cov = [[0.0f64; 3]; 3];
        for p in 0..rows {
            let v = [data[3 * p], data[3 * p + 1], data[3 * p + 2]];
            for i in 0..3 {
                for j in 0..3 {
                    cov[i][j] += v[i] * v[j];
                }
            }
        }
        let (values, vectors) = jacobi(cov);
        let mut order = [0usize, 1, 2];
        // Stable descending sort by eigenvalue, then reversed: ascending,
        // with equal values keeping the reverse of their conventional order.
        order.sort_by(|&i, &j| values[j].partial_cmp(&values[i]).unwrap());
        order.reverse();
        let mut u = Vec::new();
        let mut sigma = Vec::new();
        for &k in order.iter() {
            let mut col = [vectors[0][k], vectors[1][k], vectors[2][k]];
            let mut dominant = 0;
            for i in 1..3 {
                if col[i].abs() > col[dominant].abs() {
                    dominant = i;
                }
            }
            if col[dominant] < 0.0 {
                for value in col.iter_mut() {
                    *value = -*value;
                }
            }
            u.extend_from_slice(&col);
            sigma.push(values[k].max(0.0).sqrt());
        }
        Some(SvdFactors {
            u,
            u_rows: 3,
            u_cols: 3,
            sigma,
        })
    }
}

fn fit(points: &Vec<E3>) -> Option<Plane<E3>> {
    svd_ev_plane::<E3, Jacobi>(points)
}

fn cross(a: V3, b: V3) -> V3 {
    V3(
        a.1 * b.2 - a.2 * b.1,
        a.2 * b.0 - a.0 * b.2,
        a.0 * b.1 - a.1 * b.0,
    )
}

fn dot(a: V3, b: V3) -> f64 {
    a.0 * b.0 + a.1 * b.1 + a.2 * b.2
}

fn approx(a: f64, b: f64) -> bool {
    (a - b).abs() <= 1.0e-9
}

fn approx_v(a: V3, b: V3) -> bool {
    approx(a.0, b.0) && approx(a.1, b.1) && approx(a.2, b.2)
}

/// Equal up to the sign ambiguity of a normal.
fn approx_v_signed(a: V3, b: V3) -> bool {
    approx_v(a, b) || approx_v(a, V3(-b.0, -b.1, -b.2))
}

#[test]
fn svd_ev_plane_e3() {
    // Form a determined plane from a triangle.
    let plane = Plane::<E3>::from_points::<Jacobi>(&vec![
        e3(1.0, 0.0, 0.0),
        e3(0.5, 0.5, 0.0),
        e3(0.0, 1.0, 0.0),
    ])
    .unwrap();
    assert_eq!(V3(0.0, 0.0, 1.0), plane.normal.get().clone());
}

#[test]
fn fit_triangle_centroid_and_normal() {
    let plane = fit(&vec![
        e3(1.0, 0.0, 0.0),
        e3(0.5, 0.5, 0.0),
        e3(0.0, 1.0, 0.0),
    ])
    .unwrap();
    assert_eq!(plane.origin, e3(0.5, 0.5, 0.0));
    let normal = *plane.normal.get();
    assert!(approx_v_signed(normal, V3(0.0, 0.0, 1.0)));
}

#[test]
fn fit_normal_parallel_to_edge_cross_product() {
    let a = e3(0.0, 0.0, 0.0);
    let b = e3(2.0, 0.5, 0.25);
    let c = e3(-0.5, 1.5, 1.0);
    let points = vec![a, b, c];
    let plane = fit(&points).unwrap();
    let edge1 = b.minus(&a);
    let edge2 = c.minus(&a);
    let n = cross(edge1, edge2).normalize().unwrap();
    let fitted = *plane.normal.get();
    assert!(approx(dot(n, fitted).abs(), 1.0));
    let mean = e3(
        (a.x + b.x + c.x) / 3.0,
        (a.y + b.y + c.y) / 3.0,
        (a.z + b.z + c.z) / 3.0,
    );
    assert!(approx(plane.origin.x, mean.x));
    assert!(approx(plane.origin.y, mean.y));
    assert!(approx(plane.origin.z, mean.z));
}

#[test]
fn fit_translation_equivariance() {
    let points = vec![
        e3(0.0, 0.0, 0.0),
        e3(2.0, 0.5, 0.25),
        e3(-0.5, 1.5, 1.0),
        e3(1.0, 1.0, 0.625),
    ];
    let t = (3.5, -2.25, 0.75);
    let moved: Vec<E3> = points
        .iter()
        .map(|p| e3(p.x + t.0, p.y + t.1, p.z + t.2))
        .collect();
    let plane = fit(&points).unwrap();
    let plane_moved = fit(&moved).unwrap();
    assert!(approx(plane_moved.origin.x, plane.origin.x + t.0));
    assert!(approx(plane_moved.origin.y, plane.origin.y + t.1));
    assert!(approx(plane_moved.origin.z, plane.origin.z + t.2));
    assert!(approx_v_signed(*plane_moved.normal.get(), *plane.normal.get()));
}

fn rotate(m: [[f64; 3]; 3], v: V3) -> V3 {
    V3(
        m[0][0] * v.0 + m[0][1] * v.1 + m[0][2] * v.2,
        m[1][0] * v.0 + m[1][1] * v.1 + m[1][2] * v.2,
        m[2][0] * v.0 + m[2][1] * v.1 + m[2][2] * v.2,
    )
}

#[test]
fn fit_rotation_equivariance() {
    let points = vec![
        e3(0.0, 0.0, 0.0),
        e3(2.0, 0.5, 0.25),
        e3(-0.5, 1.5, 1.0),
        e3(1.0, 1.0, 0.625),
    ];
    // Rotation about the z axis composed with one about the x axis.
    let (az, ax) = (0.7f64, -0.4f64);
    let (cz, sz) = (az.cos(), az.sin());
    let (cx, sx) = (ax.cos(), ax.sin());
    let rz = [[cz, -sz, 0.0], [sz, cz, 0.0], [0.0, 0.0, 1.0]];
    let rx = [[1.0, 0.0, 0.0], [0.0, cx, -sx], [0.0, sx, cx]];
    let mut r = [[0.0f64; 3]; 3];
    for i in 0..3 {
        for j in 0..3 {
            for k in 0..3 {
                r[i][j] += rx[i][k] * rz[k][j];
            }
        }
    }
    let c = E3::centroid(&points).unwrap();
    let rotated: Vec<E3> = points
        .iter()
        .map(|p| {
            let d = rotate(r, p.minus(&c));
            e3(c.x + d.0, c.y + d.1, c.z + d.2)
        })
        .collect();
    let plane = fit(&points).unwrap();
    let plane_rotated = fit(&rotated).unwrap();
    assert!(approx(plane_rotated.origin.x, plane.origin.x));
    assert!(approx(plane_rotated.origin.y, plane.origin.y));
    assert!(approx(plane_rotated.origin.z, plane.origin.z));
    let expected = rotate(r, *plane.normal.get());
    assert!(approx_v_signed(*plane_rotated.normal.get(), expected));
}

#[test]
fn fit_is_idempotent() {
    let points = vec![
        e3(0.0, 0.0, 0.0),
        e3(2.0, 0.5, 0.25),
        e3(-0.5, 1.5, 1.0),
        e3(1.0, 1.0, 0.625),
    ];
    let first = fit(&points).unwrap();
    let second = fit(&points).unwrap();
    assert_eq!(first.origin, second.origin);
    assert_eq!(*first.normal.get(), *second.normal.get());
}

#[test]
fn fit_empty_input_fails() {
    assert!(fit(&Vec::new()).is_none());
}

struct Failing;

impl SvdBackend<f64> for Failing {
    fn svd(_rows: usize, _cols: usize, _data: &Vec<f64>) -> Option<SvdFactors<f64>> {
        None
    }
}

#[test]
fn fit_factorization_failure_fails() {
    let points = vec![e3(1.0, 2.0, 3.0)];
    assert!(svd_ev_plane::<E3, Failing>(&points).is_none());
}

struct NanSigma;

impl SvdBackend<f64> for NanSigma {
    fn svd(rows: usize, _cols: usize, _data: &Vec<f64>) -> Option<SvdFactors<f64>> {
        Some(SvdFactors {
            u: vec![1.0; 3 * rows],
            u_rows: rows,
            u_cols: 3,
            sigma: vec![1.0, f64::NAN, 0.5],
        })
    }
}

#[test]
fn fit_incomparable_singular_values_fail() {
    let points = vec![e3(1.0, 2.0, 3.0)];
    assert!(svd_ev_plane::<E3, NanSigma>(&points).is_none());
}

struct NarrowU;

impl SvdBackend<f64> for NarrowU {
    fn svd(rows: usize, _cols: usize, _data: &Vec<f64>) -> Option<SvdFactors<f64>> {
        // The least singular value is paired with a column beyond the buffer.
        Some(SvdFactors {
            u: vec![1.0; rows],
            u_rows: rows,
            u_cols: 1,
            sigma: vec![2.0, 1.0, 0.5],
        })
    }
}

#[test]
fn fit_out_of_range_column_fails() {
    let points = vec![e3(1.0, 2.0, 3.0)];
    assert!(svd_ev_plane::<E3, NarrowU>(&points).is_none());
}

struct ZeroColumn;

impl SvdBackend<f64> for ZeroColumn {
    fn svd(rows: usize, _cols: usize, _data: &Vec<f64>) -> Option<SvdFactors<f64>> {
        Some(SvdFactors {
            u: vec![0.0; 3 * rows],
            u_rows: rows,
            u_cols: 3,
            sigma: vec![2.0, 1.0, 0.5],
        })
    }
}

#[test]
fn fit_degenerate_normal_fails() {
    let points = vec![e3(1.0, 2.0, 3.0), e3(4.0, 5.0, 6.0), e3(7.0, 8.0, 10.0)];
    assert!(svd_ev_plane::<E3, ZeroColumn>(&points).is_none());
}

struct ShortColumns;

impl SvdBackend<f64> for ShortColumns {
    fn svd(_rows: usize, _cols: usize, _data: &Vec<f64>) -> Option<SvdFactors<f64>> {
        // Columns of two entries cannot fill a three-component vector.
        Some(SvdFactors {
            u: vec![1.0; 6],
            u_rows: 2,
            u_cols: 3,
            sigma: vec![2.0, 1.0, 0.5],
        })
    }
}

#[test]
fn fit_short_columns_fail() {
    let points = vec![e3(1.0, 2.0, 3.0)];
    assert!(svd_ev_plane::<E3, ShortColumns>(&points).is_none());
}
