use vstd::prelude::*;
use crate::config::CameraConfig;

verus! {

/// Lifecycle phase of the simulated device.
#[derive(Clone, Copy, Debug, PartialEq, Eq, Structural)]
pub enum OperationalState {
    Idle,
    Exposing,
    ImageReady,
    Error,
}

/// Failures an operation can report. `LockUnavailable` is surfaced by the
/// hosting layer when it cannot acquire the device lock; the state machine
/// itself only ever reports `InvalidParameter`.
#[derive(Clone, Copy, Debug, PartialEq, Eq, Structural)]
pub enum CameraError {
    LockUnavailable,
    InvalidParameter,
}

/// Mutable state of one simulated device. Timestamps are microseconds since
/// an arbitrary epoch and never negative; `requested_exposure_micros` is the
/// duration of the most recently started exposure.
#[derive(Clone, Copy, Debug, PartialEq, Eq, Structural)]
pub struct DeviceState {
    pub operational_state: OperationalState,
    pub requested_exposure_micros: i64,
    pub exposure_start_micros: i64,
    pub image_ready_flag: bool,
}

impl DeviceState {
    /// Durations and timestamps are non-negative, and a sticky readiness flag
    /// implies the exposure has already been consumed: the device rests in
    /// `Idle`.
    pub open spec fn wf(self) -> bool {
        &&& 0 <= self.requested_exposure_micros
        &&& 0 <= self.exposure_start_micros
        &&& self.image_ready_flag ==> self.operational_state == OperationalState::Idle
    }

    /// The state of a freshly constructed device: idle, no prior exposure.
    pub open spec fn initial() -> DeviceState {
        DeviceState {
            operational_state: OperationalState::Idle,
            requested_exposure_micros: 0,
            exposure_start_micros: 0,
            image_ready_flag: false,
        }
    }

    /// State after an exposure of `duration_micros` starts at `now_micros`:
    /// the readiness flag is cleared, the timer restarts. Any exposure in
    /// progress is simply interrupted.
    pub open spec fn after_start(self, duration_micros: i64, now_micros: i64) -> DeviceState {
        DeviceState {
            operational_state: OperationalState::Exposing,
            requested_exposure_micros: duration_micros,
            exposure_start_micros: now_micros,
            image_ready_flag: false,
        }
    }

    /// Whether a readiness poll at `now_micros` reports true: either the flag
    /// is already sticky-true, or the device is exposing and strictly more
    /// than the requested duration has elapsed.
    pub open spec fn ready_at(self, now_micros: i64) -> bool {
        ||| self.image_ready_flag
        ||| (self.operational_state == OperationalState::Exposing
            && now_micros - self.exposure_start_micros > self.requested_exposure_micros)
    }

    /// State after a readiness poll at `now_micros`. A poll that first
    /// observes readiness consumes the exposure: the flag latches true and
    /// the device returns to `Idle`. Every other poll leaves the state as it
    /// was.
    pub open spec fn after_check(self, now_micros: i64) -> DeviceState {
        if self.image_ready_flag {
            self
        } else if self.operational_state == OperationalState::Exposing
            && now_micros - self.exposure_start_micros > self.requested_exposure_micros {
            DeviceState {
                operational_state: OperationalState::Idle,
                image_ready_flag: true,
                ..self
            }
        } else {
            self
        }
    }
}

/// One simulated camera: its fixed capabilities and its mutable exposure
/// state. The hosting layer guards each instance with a lock and calls these
/// operations one at a time.
#[derive(Debug)]
pub struct SimulatedCamera {
    pub config: CameraConfig,
    pub state: DeviceState,
}

impl SimulatedCamera {
    pub open spec fn wf(self) -> bool {
        &&& self.config.wf()
        &&& self.state.wf()
    }

    /// A new device with the standard capabilities, idle, with no exposure
    /// ever started.
    pub fn new_idle_camera() -> (c: SimulatedCamera)
        ensures
            c.wf(),
            c.state == DeviceState::initial(),
            c.config == CameraConfig::standard_spec(),
    {
        SimulatedCamera {
            config: CameraConfig::standard(),
            state: DeviceState {
                operational_state: OperationalState::Idle,
                requested_exposure_micros: 0,
                exposure_start_micros: 0,
                image_ready_flag: false,
            },
        }
    }

    /// Begin a new exposure of `duration_micros` at instant `now_micros`.
    ///
    /// A negative duration is rejected with `InvalidParameter` and the state
    /// is left untouched. Otherwise the call always succeeds: the readiness
    /// flag is cleared and the timer restarts, even if an exposure was
    /// already in progress. `is_light_frame` selects a light or dark frame;
    /// the simulation exposes both the same way, so it is accepted and
    /// ignored.
    #[allow(unused_variables)]
    pub fn start_exposure(
        &mut self,
        duration_micros: i64,
        is_light_frame: bool,
        now_micros: i64,
    ) -> (r: Result<(), CameraError>)
        requires
            old(self).wf(),
            0 <= now_micros,
        ensures
            final(self).wf(),
            final(self).config == old(self).config,
            duration_micros < 0 ==> r == Err::<(), CameraError>(CameraError::InvalidParameter)
                && final(self).state == old(self).state,
            0 <= duration_micros ==> r == Ok::<(), CameraError>(())
                && final(self).state == old(self).state.after_start(duration_micros, now_micros),
    {
        if duration_micros < 0 {
            return Err(CameraError::InvalidParameter);
        }
        self.state.image_ready_flag = false;
        self.state.operational_state = OperationalState::Exposing;
        self.state.requested_exposure_micros = duration_micros;
        self.state.exposure_start_micros = now_micros;
        Ok(())
    }

    /// The current lifecycle phase. Read-only.
    pub fn camera_state(&self) -> (r: OperationalState)
        ensures
            r == self.state.operational_state,
    {
        self.state.operational_state
    }

    /// Poll whether the image is ready at instant `now_micros`.
    ///
    /// A sticky-true flag answers true immediately. Otherwise the image is
    /// ready exactly when the device is exposing and strictly more than the
    /// requested duration has elapsed; the first poll that observes this
    /// latches the flag and returns the device to `Idle`.
    pub fn image_ready(&mut self, now_micros: i64) -> (r: bool)
        requires
            old(self).wf(),
            0 <= now_micros,
        ensures
            final(self).wf(),
            final(self).config == old(self).config,
            r == old(self).state.ready_at(now_micros),
            final(self).state == old(self).state.after_check(now_micros),
    {
        if self.state.image_ready_flag {
            return true;
        }
        let elapsed: i64 = now_micros - self.state.exposure_start_micros;
        let newly_ready: bool = self.state.operational_state == OperationalState::Exposing
            && elapsed > self.state.requested_exposure_micros;
        self.state.image_ready_flag = newly_ready;
        if newly_ready {
            self.state.operational_state = OperationalState::Idle;
        }
        newly_ready
    }
}

/// Static capability reporting: every value comes straight from the fixed
/// configuration (or is a constant of the device's identity) and no call
/// here touches the exposure state.
impl SimulatedCamera {
    pub fn static_name() -> (r: &'static str)
        ensures
            r@ == "Fake CCD Camera"@,
    {
        "Fake CCD Camera"
    }

    pub fn unique_id() -> (r: &'static str)
        ensures
            r@ == "f2ac654a-a710-41ab-9484-33f4e73b180b"@,
    {
        "f2ac654a-a710-41ab-9484-33f4e73b180b"
    }

    /// The simulated device is always connected.
    pub fn connected(&self) -> (r: bool)
        ensures
            r,
    {
        true
    }

    /// Connecting and disconnecting are accepted and ignored.
    #[allow(unused_variables)]
    pub fn set_connected(&mut self, connected: bool)
        ensures
            *final(self) == *old(self),
    {
    }

    pub fn description() -> (r: &'static str)
        ensures
            r@ == "fake CCD camera"@,
    {
        "fake CCD camera"
    }

    pub fn driver_info() -> (r: &'static str)
        ensures
            r@ == ""@,
    {
        ""
    }

    pub fn driver_version() -> (r: &'static str)
        ensures
            r@ == ""@,
    {
        ""
    }

    pub fn bayer_offset_x(&self) -> (r: i32)
        ensures
            r == self.config.bayer_offset_x,
    {
        self.config.bayer_offset_x
    }

    pub fn bayer_offset_y(&self) -> (r: i32)
        ensures
            r == self.config.bayer_offset_y,
    {
        self.config.bayer_offset_y
    }

    pub fn exposure_max_micros(&self) -> (r: i64)
        ensures
            r == self.config.exposure_max_micros,
    {
        self.config.exposure_max_micros
    }

    pub fn exposure_min_micros(&self) -> (r: i64)
        ensures
            r == self.config.exposure_min_micros,
    {
        self.config.exposure_min_micros
    }

    pub fn exposure_resolution_micros(&self) -> (r: i64)
        ensures
            r == self.config.exposure_resolution_micros,
    {
        self.config.exposure_resolution_micros
    }

    pub fn has_shutter(&self) -> (r: bool)
        ensures
            r == self.config.has_shutter,
    {
        self.config.has_shutter
    }

    pub fn max_adu(&self) -> (r: i32)
        ensures
            r == self.config.max_adu,
    {
        self.config.max_adu
    }

    /// Subframe origin: the simulation always exposes the full frame.
    pub fn start_x(&self) -> (r: i32)
        ensures
            r == 0,
    {
        0
    }

    /// Subframe configuration is accepted and ignored.
    #[allow(unused_variables)]
    pub fn set_start_x(&mut self, start_x: i32)
        ensures
            *final(self) == *old(self),
    {
    }

    pub fn start_y(&self) -> (r: i32)
        ensures
            r == 0,
    {
        0
    }

    /// Subframe configuration is accepted and ignored.
    #[allow(unused_variables)]
    pub fn set_start_y(&mut self, start_y: i32)
        ensures
            *final(self) == *old(self),
    {
    }

    pub fn bin_x(&self) -> (r: i32)
        ensures
            r == self.config.bin_x,
    {
        self.config.bin_x
    }

    pub fn bin_y(&self) -> (r: i32)
        ensures
            r == self.config.bin_y,
    {
        self.config.bin_y
    }

    /// Binning is accepted and ignored: the simulation always reports unity.
    #[allow(unused_variables)]
    pub fn set_bin_x(&mut self, bin_x: i32)
        ensures
            *final(self) == *old(self),
    {
    }

    /// Binning is accepted and ignored: the simulation always reports unity.
    #[allow(unused_variables)]
    pub fn set_bin_y(&mut self, bin_y: i32)
        ensures
            *final(self) == *old(self),
    {
    }

    pub fn camera_xsize(&self) -> (r: i32)
        ensures
            r == self.config.camera_xsize,
    {
        self.config.camera_xsize
    }

    pub fn camera_ysize(&self) -> (r: i32)
        ensures
            r == self.config.camera_ysize,
    {
        self.config.camera_ysize
    }

    /// Subframe width: always the full sensor width.
    pub fn num_x(&self) -> (r: i32)
        ensures
            r == self.config.camera_xsize,
    {
        self.config.camera_xsize
    }

    /// Subframe height: always the full sensor height.
    pub fn num_y(&self) -> (r: i32)
        ensures
            r == self.config.camera_ysize,
    {
        self.config.camera_ysize
    }

    /// Subframe configuration is accepted and ignored.
    #[allow(unused_variables)]
    pub fn set_num_x(&mut self, num_x: i32)
        ensures
            *final(self) == *old(self),
    {
    }

    /// Subframe configuration is accepted and ignored.
    #[allow(unused_variables)]
    pub fn set_num_y(&mut self, num_y: i32)
        ensures
            *final(self) == *old(self),
    {
    }

    pub fn sensor_type(&self) -> (r: crate::config::SensorKind)
        ensures
            r == self.config.sensor_kind,
    {
        self.config.sensor_kind
    }
}

} // verus!
