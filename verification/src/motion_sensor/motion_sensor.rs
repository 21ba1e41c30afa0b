//! The motion sensor: three axes, each read from a file of its own. The values
//! themselves are fractions and stay with the caller; what is decided here is which
//! failure a reading reports, and whether a reading shows motion.

use vstd::prelude::*;
use vstd::string::StringExecFns;
use crate::file::WriteError;
use crate::motion_sensor::errors::{MotionSensorError, MotionSensorErrorCodes, MotionSensorErrorView};

verus! {

/// An axis of the sensor.
#[derive(Debug, Clone, Copy, PartialEq, Eq, Structural)]
pub enum Axis {
    X,
    Y,
    Z,
}

impl Axis {
    /// How the failure of this axis is introduced.
    pub open spec fn failure_prefix(self) -> Seq<char> {
        match self {
            Axis::X => "unable to read x axis value: "@,
            Axis::Y => "unable to read y axis value: "@,
            Axis::Z => "unable to read z axis value: "@,
        }
    }
}

/// Why the value of an axis could not be had, with the cause.
#[derive(Debug, Clone, PartialEq, Eq)]
pub enum ValueError {
    /// The axis's file could not be opened.
    Open(String),
    /// The file holds no line.
    Empty,
    /// The line could not be read.
    Read(String),
    /// The line does not write a number.
    Parse(String),
}

/// Which axes of a reading differ from zero.
#[derive(Debug, Clone, Copy, PartialEq, Eq, Structural)]
pub struct Moved {
    pub x: bool,
    pub y: bool,
    pub z: bool,
}

/// The files of the three axes.
#[derive(Debug)]
pub struct MotionSensor {
    x_axis_path: String,
    y_axis_path: String,
    z_axis_path: String,
}

/// The sensor as plain values.
pub struct MotionSensorView {
    pub x_axis_path: Seq<char>,
    pub y_axis_path: Seq<char>,
    pub z_axis_path: Seq<char>,
}

impl MotionSensorView {
    /// The file of an axis.
    pub open spec fn path(self, axis: Axis) -> Seq<char> {
        match axis {
            Axis::X => self.x_axis_path,
            Axis::Y => self.y_axis_path,
            Axis::Z => self.z_axis_path,
        }
    }
}

impl View for MotionSensor {
    type V = MotionSensorView;

    closed spec fn view(&self) -> MotionSensorView {
        MotionSensorView {
            x_axis_path: self.x_axis_path@,
            y_axis_path: self.y_axis_path@,
            z_axis_path: self.z_axis_path@,
        }
    }
}

/// The failure that a value that could not be had is reported as.
pub open spec fn value_failure(failure: ValueError) -> MotionSensorErrorView {
    match failure {
        ValueError::Open(cause) => MotionSensorErrorView {
            code: MotionSensorErrorCodes::UnableToOpenFile,
            message: "unable to open file value: "@ + cause@,
        },
        ValueError::Empty => MotionSensorErrorView {
            code: MotionSensorErrorCodes::UnableToOpenFile,
            message: "unable to open file"@,
        },
        ValueError::Read(cause) => MotionSensorErrorView {
            code: MotionSensorErrorCodes::UnableToParseValue,
            message: "unable to parse value: "@ + cause@,
        },
        ValueError::Parse(cause) => MotionSensorErrorView {
            code: MotionSensorErrorCodes::UnableToParseValue,
            message: "unable to parse value: "@ + cause@,
        },
    }
}

/// The failure of a reading whose `axis` failed with `failure`.
pub open spec fn axis_failure(axis: Axis, failure: MotionSensorErrorView) -> MotionSensorErrorView {
    MotionSensorErrorView {
        code: MotionSensorErrorCodes::UnableToReadMotionSensor,
        message: axis.failure_prefix() + failure.text(),
    }
}

/// The outcome of a reading, from the outcomes of its three axes: the failure of the
/// first axis that failed, in the order x, y, z.
pub open spec fn reading_result(
    x: Result<(), MotionSensorErrorView>,
    y: Result<(), MotionSensorErrorView>,
    z: Result<(), MotionSensorErrorView>,
) -> Result<(), MotionSensorErrorView> {
    match x {
        Err(failure) => Err(axis_failure(Axis::X, failure)),
        Ok(_) => match y {
            Err(failure) => Err(axis_failure(Axis::Y, failure)),
            Ok(_) => match z {
                Err(failure) => Err(axis_failure(Axis::Z, failure)),
                Ok(_) => Ok(()),
            },
        },
    }
}

/// The failure to detect motion when the reading failed with `failure`.
pub open spec fn detection_failure(failure: MotionSensorErrorView) -> MotionSensorErrorView {
    MotionSensorErrorView {
        code: MotionSensorErrorCodes::UnableToReadMotionSensor,
        message: "unable to read motion sensor value: "@ + failure.text(),
    }
}

/// The failure that a value that could not be written is reported as.
pub open spec fn write_failure(failure: WriteError) -> MotionSensorErrorView {
    match failure {
        WriteError::Create(cause) => MotionSensorErrorView {
            code: MotionSensorErrorCodes::UnableToOpenFile,
            message: "unable to open file value: "@ + cause@,
        },
        WriteError::Write(cause) => MotionSensorErrorView {
            code: MotionSensorErrorCodes::UnableToParseValue,
            message: "unable to write data to sensor "@ + cause@,
        },
    }
}

/// The view of an axis's outcome.
pub open spec fn outcome_view(outcome: Result<(), MotionSensorError>) -> Result<
    (),
    MotionSensorErrorView,
> {
    match outcome {
        Ok(_) => Ok(()),
        Err(error) => Err(error@),
    }
}

impl MotionSensor {
    pub fn new(x_path: &str, y_path: &str, z_path: &str) -> (sensor: Self)
        ensures
            sensor@ == (MotionSensorView {
                x_axis_path: x_path@,
                y_axis_path: y_path@,
                z_axis_path: z_path@,
            }),
    {
        MotionSensor {
            x_axis_path: String::from_str(x_path),
            y_axis_path: String::from_str(y_path),
            z_axis_path: String::from_str(z_path),
        }
    }

    /// The file of an axis.
    pub fn axis_path(&self, axis: Axis) -> (path: &str)
        ensures
            path@ == self@.path(axis),
    {
        match axis {
            Axis::X => self.x_axis_path.as_str(),
            Axis::Y => self.y_axis_path.as_str(),
            Axis::Z => self.z_axis_path.as_str(),
        }
    }

    /// The failure that a value that could not be had is reported as.
    pub fn read_value_from_file(&self, failure: ValueError) -> (error: MotionSensorError)
        ensures
            error@ == value_failure(failure),
    {
        match failure {
            ValueError::Open(cause) => MotionSensorError::because(
                MotionSensorErrorCodes::UnableToOpenFile,
                "unable to open file value: ",
                cause.as_str(),
            ),
            ValueError::Empty => MotionSensorError::new(
                MotionSensorErrorCodes::UnableToOpenFile,
                String::from_str("unable to open file"),
            ),
            ValueError::Read(cause) => MotionSensorError::because(
                MotionSensorErrorCodes::UnableToParseValue,
                "unable to parse value: ",
                cause.as_str(),
            ),
            ValueError::Parse(cause) => MotionSensorError::because(
                MotionSensorErrorCodes::UnableToParseValue,
                "unable to parse value: ",
                cause.as_str(),
            ),
        }
    }

    /// The failure that a value that could not be written is reported as.
    pub fn write_value_to_file(&self, failure: WriteError) -> (error: MotionSensorError)
        ensures
            error@ == write_failure(failure),
    {
        match failure {
            WriteError::Create(cause) => MotionSensorError::because(
                MotionSensorErrorCodes::UnableToOpenFile,
                "unable to open file value: ",
                cause.as_str(),
            ),
            WriteError::Write(cause) => MotionSensorError::because(
                MotionSensorErrorCodes::UnableToParseValue,
                "unable to write data to sensor ",
                cause.as_str(),
            ),
        }
    }

    /// The outcome of a reading, from the outcomes of its three axes.
    pub fn read_motion_sensor_value(
        &self,
        x: Result<(), MotionSensorError>,
        y: Result<(), MotionSensorError>,
        z: Result<(), MotionSensorError>,
    ) -> (outcome: Result<(), MotionSensorError>)
        ensures
            outcome_view(outcome) == reading_result(
                outcome_view(x),
                outcome_view(y),
                outcome_view(z),
            ),
    {
        match x {
            Err(failure) => Err(Self::axis_failed("unable to read x axis value: ", &failure)),
            Ok(()) => match y {
                Err(failure) => Err(Self::axis_failed("unable to read y axis value: ", &failure)),
                Ok(()) => match z {
                    Err(failure) => Err(
                        Self::axis_failed("unable to read z axis value: ", &failure),
                    ),
                    Ok(()) => Ok(()),
                },
            },
        }
    }

    fn axis_failed(prefix: &str, failure: &MotionSensorError) -> (error: MotionSensorError)
        ensures
            error@ == (MotionSensorErrorView {
                code: MotionSensorErrorCodes::UnableToReadMotionSensor,
                message: prefix@ + failure@.text(),
            }),
    {
        MotionSensorError::because(
            MotionSensorErrorCodes::UnableToReadMotionSensor,
            prefix,
            failure.to_string().as_str(),
        )
    }

    /// Whether a reading shows motion: it does when any axis differs from zero. A reading
    /// that failed shows nothing, and its failure is reported.
    pub fn detect_motion_sensor_event(&self, reading: Result<Moved, MotionSensorError>) -> (outcome:
        Result<bool, MotionSensorError>)
        ensures
            match reading {
                Ok(moved) => outcome is Ok && outcome->Ok_0 == (moved.x || moved.y || moved.z),
                Err(failure) => outcome is Err && outcome->Err_0@ == detection_failure(failure@),
            },
    {
        match reading {
            Ok(moved) => Ok(moved.x || moved.y || moved.z),
            Err(failure) => Err(
                Self::axis_failed("unable to read motion sensor value: ", &failure),
            ),
        }
    }
}

} // verus!
