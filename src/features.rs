use vstd::prelude::*;

verus! {

/// Gyroscope sensitivity.
#[derive(Debug, Clone, Copy, PartialEq, Eq, Structural, Hash)]
pub enum GyroscopeSensitivity {
    PM250dps,
    PM500dps,
    PM1000dps,
    PM2000dps,
}

impl GyroscopeSensitivity {
    pub open spec fn spec_byte(self) -> u8 {
        match self {
            GyroscopeSensitivity::PM250dps => 0,
            GyroscopeSensitivity::PM500dps => 1,
            GyroscopeSensitivity::PM1000dps => 2,
            GyroscopeSensitivity::PM2000dps => 3,
        }
    }

    #[verifier::when_used_as_spec(spec_byte)]
    pub fn byte(self) -> (r: u8)
        ensures
            r == self.spec_byte(),
    {
        match self {
            GyroscopeSensitivity::PM250dps => 0,
            GyroscopeSensitivity::PM500dps => 1,
            GyroscopeSensitivity::PM1000dps => 2,
            GyroscopeSensitivity::PM2000dps => 3,
        }
    }
}

impl Default for GyroscopeSensitivity {
    fn default() -> (r: Self)
        ensures
            r == GyroscopeSensitivity::PM2000dps,
    {
        GyroscopeSensitivity::PM2000dps
    }
}

/// Accelerometer sensitivity.
#[derive(Debug, Clone, Copy, PartialEq, Eq, Structural, Hash)]
pub enum AccelerometerSensitivity {
    PM8G,
    PM4G,
    PM2G,
    PM16G,
}

impl AccelerometerSensitivity {
    pub open spec fn spec_byte(self) -> u8 {
        match self {
            AccelerometerSensitivity::PM8G => 0,
            AccelerometerSensitivity::PM4G => 1,
            AccelerometerSensitivity::PM2G => 2,
            AccelerometerSensitivity::PM16G => 3,
        }
    }

    #[verifier::when_used_as_spec(spec_byte)]
    pub fn byte(self) -> (r: u8)
        ensures
            r == self.spec_byte(),
    {
        match self {
            AccelerometerSensitivity::PM8G => 0,
            AccelerometerSensitivity::PM4G => 1,
            AccelerometerSensitivity::PM2G => 2,
            AccelerometerSensitivity::PM16G => 3,
        }
    }
}

impl Default for AccelerometerSensitivity {
    fn default() -> (r: Self)
        ensures
            r == AccelerometerSensitivity::PM8G,
    {
        AccelerometerSensitivity::PM8G
    }
}

/// Gyroscope performance rate.
#[derive(Debug, Clone, Copy, PartialEq, Eq, Structural, Hash)]
pub enum GyroscopePerformanceRate {
    F833Hz,
    F208Hz,
}

impl GyroscopePerformanceRate {
    pub open spec fn spec_byte(self) -> u8 {
        match self {
            GyroscopePerformanceRate::F833Hz => 0,
            GyroscopePerformanceRate::F208Hz => 1,
        }
    }

    #[verifier::when_used_as_spec(spec_byte)]
    pub fn byte(self) -> (r: u8)
        ensures
            r == self.spec_byte(),
    {
        match self {
            GyroscopePerformanceRate::F833Hz => 0,
            GyroscopePerformanceRate::F208Hz => 1,
        }
    }
}

impl Default for GyroscopePerformanceRate {
    fn default() -> (r: Self)
        ensures
            r == GyroscopePerformanceRate::F208Hz,
    {
        GyroscopePerformanceRate::F208Hz
    }
}

/// Accelerometer anti-aliasing filter bandwidth.
#[derive(Debug, Clone, Copy, PartialEq, Eq, Structural, Hash)]
pub enum AccelerometerAntiAliasingFilterBandwidth {
    F200Hz,
    F100Hz,
}

impl AccelerometerAntiAliasingFilterBandwidth {
    pub open spec fn spec_byte(self) -> u8 {
        match self {
            AccelerometerAntiAliasingFilterBandwidth::F200Hz => 0,
            AccelerometerAntiAliasingFilterBandwidth::F100Hz => 1,
        }
    }

    #[verifier::when_used_as_spec(spec_byte)]
    pub fn byte(self) -> (r: u8)
        ensures
            r == self.spec_byte(),
    {
        match self {
            AccelerometerAntiAliasingFilterBandwidth::F200Hz => 0,
            AccelerometerAntiAliasingFilterBandwidth::F100Hz => 1,
        }
    }
}

impl Default for AccelerometerAntiAliasingFilterBandwidth {
    fn default() -> (r: Self)
        ensures
            r == AccelerometerAntiAliasingFilterBandwidth::F100Hz,
    {
        AccelerometerAntiAliasingFilterBandwidth::F100Hz
    }
}

/// Configuration of the 6-axis sensor.
#[derive(Debug, Clone, Copy, PartialEq, Eq, Structural, Hash)]
pub struct IMUConfig {
    pub gyroscope_sensitivity: GyroscopeSensitivity,
    pub accelerometer_sensitivity: AccelerometerSensitivity,
    pub gyroscope_performance_rate: GyroscopePerformanceRate,
    pub accelerometer_anti_aliasing_filter_bandwidth: AccelerometerAntiAliasingFilterBandwidth,
}

impl IMUConfig {
    pub open spec fn spec_default() -> IMUConfig {
        IMUConfig {
            gyroscope_sensitivity: GyroscopeSensitivity::PM2000dps,
            accelerometer_sensitivity: AccelerometerSensitivity::PM8G,
            gyroscope_performance_rate: GyroscopePerformanceRate::F208Hz,
            accelerometer_anti_aliasing_filter_bandwidth:
                AccelerometerAntiAliasingFilterBandwidth::F100Hz,
        }
    }

    /// The four argument bytes of the sensitivity sub-command.
    pub open spec fn spec_to_bytes(self) -> Seq<u8> {
        seq![
            self.gyroscope_sensitivity.spec_byte(),
            self.accelerometer_sensitivity.spec_byte(),
            self.gyroscope_performance_rate.spec_byte(),
            self.accelerometer_anti_aliasing_filter_bandwidth.spec_byte(),
        ]
    }

    pub fn to_bytes(self) -> (r: [u8; 4])
        ensures
            r@ == self.spec_to_bytes(),
    {
        let r = [
            self.gyroscope_sensitivity.byte(),
            self.accelerometer_sensitivity.byte(),
            self.gyroscope_performance_rate.byte(),
            self.accelerometer_anti_aliasing_filter_bandwidth.byte(),
        ];
        assert(r@ =~= self.spec_to_bytes());
        r
    }
}

impl Default for IMUConfig {
    fn default() -> (r: Self)
        ensures
            r == IMUConfig::spec_default(),
    {
        IMUConfig {
            gyroscope_sensitivity: GyroscopeSensitivity::PM2000dps,
            accelerometer_sensitivity: AccelerometerSensitivity::PM8G,
            gyroscope_performance_rate: GyroscopePerformanceRate::F208Hz,
            accelerometer_anti_aliasing_filter_bandwidth:
                AccelerometerAntiAliasingFilterBandwidth::F100Hz,
        }
    }
}

/// Features of a controller that have to be switched on before use.
#[derive(Debug, Clone, Copy, PartialEq, Eq, Structural, Hash)]
pub enum JoyConFeature {
    IMUFeature(IMUConfig),
    Vibration,
}

} // verus!
