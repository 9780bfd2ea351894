use vstd::prelude::*;
use crate::device::SimulatedCamera;
use crate::config::CameraConfig;

verus! {

/// Flat length of the synthetic payload: one sample per colour plane per
/// pixel.
pub open spec fn payload_len(cfg: CameraConfig) -> int {
    cfg.camera_xsize * cfg.camera_ysize * cfg.color_planes
}

/// The synthetic payload in logical (row-major) order: every sample is the
/// configured constant.
pub open spec fn payload_seq(cfg: CameraConfig) -> Seq<i32> {
    Seq::new(payload_len(cfg) as nat, |i: int| cfg.sample_value)
}

/// A three-dimensional sample array. The field is an `ndarray::Array3`,
/// which Verus cannot take in a signature, so the whole struct is opaque;
/// `cube_elems` and `cube_dims` name what it holds.
#[verifier::external_body]
pub struct ImageCube {
    inner: ndarray::Array3<i32>,
}

/// The samples a cube holds, flattened in logical (row-major) order.
pub uninterp spec fn cube_elems(c: ImageCube) -> Seq<i32>;

/// The axis lengths of a cube.
pub uninterp spec fn cube_dims(c: ImageCube) -> (usize, usize, usize);

#[verifier::external_type_specification]
#[verifier::external_body]
pub struct ExImageArray(ascom_alpaca::api::camera::ImageArray);

/// The samples an image array holds, flattened in logical (row-major)
/// order.
pub uninterp spec fn image_array_elems(a: ascom_alpaca::api::camera::ImageArray) -> Seq<i32>;

/// The axis lengths of an image array.
pub uninterp spec fn image_array_dims(a: ascom_alpaca::api::camera::ImageArray) -> (usize, usize, usize);

/// Relies on ndarray's `ArrayBase::from_shape_vec`: for a contiguous
/// row-major shape with positive axes whose element count equals the
/// vector's length and fits in `isize`, it succeeds and uses the vector as
/// the array's data in logical (row-major) order. The axes must be
/// positive: with a zero axis the remaining axes' product is still checked
/// and could overflow.
#[verifier::external_body]
fn shape_cube(width: usize, height: usize, planes: usize, data: Vec<i32>) -> (c: ImageCube)
    requires
        0 < width,
        0 < height,
        0 < planes,
        data@.len() == width * height * planes,
        width * height * planes <= 0x7fff_ffff,
    ensures
        cube_dims(c) == (width, height, planes),
        cube_elems(c) == data@,
{
    ImageCube {
        inner: ndarray::Array3::from_shape_vec((width, height, planes), data).unwrap(),
    }
}

/// Relies on ascom-alpaca's `From<Array3<i32>> for ImageArray`: it converts
/// each sample with the identity `i32` conversion and keeps the shape.
#[verifier::external_body]
fn cube_into_image_array(c: ImageCube) -> (a: ascom_alpaca::api::camera::ImageArray)
    ensures
        image_array_dims(a) == cube_dims(c),
        image_array_elems(a) == cube_elems(c),
{
    ascom_alpaca::api::camera::ImageArray::from(c.inner)
}

impl SimulatedCamera {
    /// The synthetic image as a flat buffer in row-major order: a constant
    /// sample for every plane of every pixel. Independent of the exposure
    /// state; only the fixed geometry determines the result.
    pub fn image_payload(&self) -> (v: Vec<i32>)
        requires
            self.wf(),
        ensures
            v@ == payload_seq(self.config),
            v@.len() == payload_len(self.config),
    {
        let width: usize = self.config.camera_xsize as usize;
        let height: usize = self.config.camera_ysize as usize;
        let planes: usize = self.config.color_planes as usize;
        proof {
            assert(width * height <= width * height * planes) by (nonlinear_arith)
                requires
                    1 <= planes,
                    0 <= width,
                    0 <= height,
            ;
        }
        let n: usize = width * height * planes;
        let mut v: Vec<i32> = Vec::new();
        while v.len() < n
            invariant
                n == payload_len(self.config),
                v@.len() <= n,
                forall|i: int| 0 <= i < v@.len() ==> v@[i] == self.config.sample_value,
            decreases n - v@.len(),
        {
            v.push(self.config.sample_value);
        }
        proof {
            assert(v@ =~= payload_seq(self.config));
        }
        v
    }

    /// The synthetic image shaped as width x height x colour-planes — the
    /// shape the device advertises — whatever the exposure state.
    pub fn image_array(&self) -> (a: ascom_alpaca::api::camera::ImageArray)
        requires
            self.wf(),
        ensures
            image_array_dims(a) == (
                self.config.camera_xsize as usize,
                self.config.camera_ysize as usize,
                self.config.color_planes as usize,
            ),
            image_array_elems(a) == payload_seq(self.config),
    {
        let data = self.image_payload();
        let cube = shape_cube(
            self.config.camera_xsize as usize,
            self.config.camera_ysize as usize,
            self.config.color_planes as usize,
            data,
        );
        cube_into_image_array(cube)
    }
}

} // verus!
