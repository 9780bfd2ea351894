use vstd::prelude::*;

verus! {

/// Colour-filter arrangement of the simulated sensor.
#[derive(Clone, Copy, Debug, PartialEq, Eq, Structural)]
pub enum SensorKind {
    Monochrome,
    Color,
}

/// Fixed capability description of the simulated camera.
///
/// Exposure durations are whole microseconds. Sensor geometry is the shape of
/// the synthetic payload: `camera_xsize` x `camera_ysize` pixels with
/// `color_planes` samples per pixel, each sample equal to `sample_value`.
/// The state machine consults this record and never mutates it.
#[derive(Clone, Copy, Debug, PartialEq, Eq, Structural)]
pub struct CameraConfig {
    pub camera_xsize: i32,
    pub camera_ysize: i32,
    pub color_planes: i32,
    pub sample_value: i32,
    pub max_adu: i32,
    pub bin_x: i32,
    pub bin_y: i32,
    pub bayer_offset_x: i32,
    pub bayer_offset_y: i32,
    pub exposure_min_micros: i64,
    pub exposure_max_micros: i64,
    pub exposure_resolution_micros: i64,
    pub has_shutter: bool,
    pub sensor_kind: SensorKind,
}

impl CameraConfig {
    /// The geometry is positive and small enough that the flat payload length
    /// fits in a 31-bit count, so index arithmetic cannot overflow.
    pub open spec fn wf(self) -> bool {
        &&& 0 < self.camera_xsize
        &&& 0 < self.camera_ysize
        &&& 0 < self.color_planes
        &&& self.camera_xsize * self.camera_ysize * self.color_planes <= 0x7fff_ffff
    }

    /// The capabilities the simulated device advertises: a 1000 x 1000 sensor
    /// with three colour planes, 16-bit sample range, unity binning, and
    /// exposures from one microsecond up to two minutes.
    pub open spec fn standard_spec() -> CameraConfig {
        CameraConfig {
            camera_xsize: 1000,
            camera_ysize: 1000,
            color_planes: 3,
            sample_value: 1000,
            max_adu: 65535,
            bin_x: 1,
            bin_y: 1,
            bayer_offset_x: 0,
            bayer_offset_y: 0,
            exposure_min_micros: 1,
            exposure_max_micros: 120_000_000,
            exposure_resolution_micros: 100,
            has_shutter: false,
            sensor_kind: SensorKind::Color,
        }
    }

    pub fn standard() -> (c: CameraConfig)
        ensures
            c == CameraConfig::standard_spec(),
            c.wf(),
    {
        CameraConfig {
            camera_xsize: 1000,
            camera_ysize: 1000,
            color_planes: 3,
            sample_value: 1000,
            max_adu: 65535,
            bin_x: 1,
            bin_y: 1,
            bayer_offset_x: 0,
            bayer_offset_y: 0,
            exposure_min_micros: 1,
            exposure_max_micros: 120_000_000,
            exposure_resolution_micros: 100,
            has_shutter: false,
            sensor_kind: SensorKind::Color,
        }
    }
}

} // verus!
