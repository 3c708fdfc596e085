//! Matrix arithmetic, column-major throughout.

use linalg::matrices::{Mat3, Mat4};
use linalg::vectors::Vec3;

fn bits(x: f64) -> u64 {
    x.to_bits()
}

fn fl(u: u64) -> f64 {
    f64::from_bits(u)
}

fn v3(x: f64, y: f64, z: f64) -> Vec3 {
    Vec3::new(bits(x), bits(y), bits(z))
}

#[test]
fn test_mat3_mul() {
    //
    // | 3  3  4 |
    // | 1  5  2 |
    // | 4  8  6 |
    //
    let mat1 = Mat3::from_cols(
        v3(3.0, 1.0, 4.0),
        v3(3.0, 5.0, 8.0),
        v3(4.0, 2.0, 6.0),
    );

    //
    // | 2  3  9 |
    // | 3  5  6 |
    // | 4  6  1 |
    //
    let mat2 = Mat3::from_cols(
        v3(2.0, 3.0, 4.0),
        v3(3.0, 5.0, 6.0),
        v3(9.0, 6.0, 1.0),
    );

    assert_eq!(
        mat1.mul_mat3(&mat2),
        Mat3::from_cols(
            v3(
                3.0 * 2.0 + 3.0 * 3.0 + 4.0 * 4.0,
                1.0 * 2.0 + 5.0 * 3.0 + 2.0 * 4.0,
                4.0 * 2.0 + 8.0 * 3.0 + 6.0 * 4.0
            ),
            v3(
                3.0 * 3.0 + 3.0 * 5.0 + 4.0 * 6.0,
                1.0 * 3.0 + 5.0 * 5.0 + 2.0 * 6.0,
                4.0 * 3.0 + 8.0 * 5.0 + 6.0 * 6.0
            ),
            v3(
                3.0 * 9.0 + 3.0 * 6.0 + 4.0 * 1.0,
                1.0 * 9.0 + 5.0 * 6.0 + 2.0 * 1.0,
                4.0 * 9.0 + 8.0 * 6.0 + 6.0 * 1.0
            )
        )
    );
}

#[test]
fn test_mat3_mul_vec3() {
    // Columns (3,1,4), (3,5,8), (4,2,6): as rows, | 3 3 4 | 1 5 2 | 4 8 6 |.
    let mat = Mat3::from_cols(
        v3(3.0, 1.0, 4.0),
        v3(3.0, 5.0, 8.0),
        v3(4.0, 2.0, 6.0),
    );
    let v = v3(1.0, 2.0, 3.0);
    assert_eq!(
        mat.mul(v),
        v3(
            3.0 * 1.0 + 3.0 * 2.0 + 4.0 * 3.0,
            1.0 * 1.0 + 5.0 * 2.0 + 2.0 * 3.0,
            4.0 * 1.0 + 8.0 * 2.0 + 6.0 * 3.0
        )
    );
}

#[test]
fn test_mat3_mul_mat3_is_columnwise() {
    // Each column of the product is the left matrix applied to the matching
    // column of the right one.
    let mat1 = Mat3::from_cols(
        v3(3.0, 1.0, 4.0),
        v3(3.0, 5.0, 8.0),
        v3(4.0, 2.0, 6.0),
    );
    let mat2 = Mat3::from_cols(
        v3(2.0, 3.0, 4.0),
        v3(3.0, 5.0, 6.0),
        v3(9.0, 6.0, 1.0),
    );
    let product = mat1.mul_mat3(&mat2);
    assert_eq!(product.x_axis, mat1.mul(mat2.x_axis));
    assert_eq!(product.y_axis, mat1.mul(mat2.y_axis));
    assert_eq!(product.z_axis, mat1.mul(mat2.z_axis));
}

#[test]
fn test_mat3_addition() {
    let mat1 = Mat3::from_cols(
        v3(1.0, 2.0, 3.0),
        v3(4.0, 5.0, 6.0),
        v3(7.0, 8.0, 9.0),
    );
    let mat2 = Mat3::from_cols(
        v3(9.0, 8.0, 7.0),
        v3(6.0, 5.0, 4.0),
        v3(3.0, 2.0, 1.0),
    );
    assert_eq!(
        mat1.add_mat3(&mat2),
        Mat3::from_cols(
            v3(10.0, 10.0, 10.0),
            v3(10.0, 10.0, 10.0),
            v3(10.0, 10.0, 10.0)
        )
    );
}

#[test]
fn test_mat3_add_zero_matrix() {
    // Adding a matrix of all-zero columns leaves any matrix unchanged.
    let mat = Mat3::from_cols(
        v3(3.0, 1.0, 4.0),
        v3(3.0, 5.0, 8.0),
        v3(4.0, 2.0, 6.0),
    );
    let zero = Mat3::from_cols(
        v3(0.0, 0.0, 0.0),
        v3(0.0, 0.0, 0.0),
        v3(0.0, 0.0, 0.0),
    );
    assert_eq!(mat.add_mat3(&zero), mat);
}

#[test]
fn test_mat4_mul_vec3() {
    // The fourth column holds three components, like the others, and takes
    // no part in the matrix-vector product: this matches the source shape,
    // not a true 4x4 homogeneous transform.
    let mat = Mat4::from_cols(
        v3(3.0, 1.0, 4.0),
        v3(3.0, 5.0, 8.0),
        v3(4.0, 2.0, 6.0),
        v3(100.0, 200.0, 300.0),
    );
    let v = v3(1.0, 2.0, 3.0);
    assert_eq!(
        mat.mul(v),
        v3(
            3.0 * 1.0 + 3.0 * 2.0 + 4.0 * 3.0,
            1.0 * 1.0 + 5.0 * 2.0 + 2.0 * 3.0,
            4.0 * 1.0 + 8.0 * 2.0 + 6.0 * 3.0
        )
    );

    let other_last_col = Mat4::from_cols(
        v3(3.0, 1.0, 4.0),
        v3(3.0, 5.0, 8.0),
        v3(4.0, 2.0, 6.0),
        v3(-1.0, -2.0, -3.0),
    );
    assert_eq!(other_last_col.mul(v), mat.mul(v));
}

#[test]
fn test_mat4_mul_mat4_is_columnwise() {
    let mat1 = Mat4::from_cols(
        v3(3.0, 1.0, 4.0),
        v3(3.0, 5.0, 8.0),
        v3(4.0, 2.0, 6.0),
        v3(1.0, 1.0, 1.0),
    );
    let mat2 = Mat4::from_cols(
        v3(2.0, 3.0, 4.0),
        v3(3.0, 5.0, 6.0),
        v3(9.0, 6.0, 1.0),
        v3(1.0, 2.0, 3.0),
    );
    let product = mat1.mul_mat4(&mat2);
    assert_eq!(product.x_axis, mat1.mul(mat2.x_axis));
    assert_eq!(product.y_axis, mat1.mul(mat2.y_axis));
    assert_eq!(product.z_axis, mat1.mul(mat2.z_axis));
    assert_eq!(product.w_axis, mat1.mul(mat2.w_axis));
}

#[test]
fn test_mat4_addition_and_zero_matrix() {
    let mat = Mat4::from_cols(
        v3(1.0, 2.0, 3.0),
        v3(4.0, 5.0, 6.0),
        v3(7.0, 8.0, 9.0),
        v3(10.0, 11.0, 12.0),
    );
    let ones = Mat4::from_cols(
        v3(1.0, 1.0, 1.0),
        v3(1.0, 1.0, 1.0),
        v3(1.0, 1.0, 1.0),
        v3(1.0, 1.0, 1.0),
    );
    assert_eq!(
        mat.add_mat4(&ones),
        Mat4::from_cols(
            v3(2.0, 3.0, 4.0),
            v3(5.0, 6.0, 7.0),
            v3(8.0, 9.0, 10.0),
            v3(11.0, 12.0, 13.0)
        )
    );

    let zero = Mat4::from_cols(
        v3(0.0, 0.0, 0.0),
        v3(0.0, 0.0, 0.0),
        v3(0.0, 0.0, 0.0),
        v3(0.0, 0.0, 0.0),
    );
    assert_eq!(mat.add_mat4(&zero), mat);
}

#[test]
fn test_mat3_entries_survive_construction() {
    let mat = Mat3::from_cols(
        v3(3.0, 1.0, 4.0),
        v3(3.0, 5.0, 8.0),
        v3(4.0, 2.0, 6.0),
    );
    assert_eq!(fl(mat.x_axis.y), 1.0);
    assert_eq!(fl(mat.y_axis.x), 3.0);
    assert_eq!(fl(mat.z_axis.z), 6.0);
}
