//! The CPU's frequency governor and clock, set and read through the files of the
//! frequency-scaling directory.

use vstd::prelude::*;
use vstd::string::StringExecFns;
use crate::cpu_governor_ctrl::errors::{CpuCtrlError, CpuCtrlErrorCodes, CpuCtrlErrorView};
use crate::file::{FileWrite, FileWriteView, WriteError};

verus! {

/// The clock frequencies that can be asked for.
#[derive(Debug, Clone, Copy, PartialEq, Eq, Structural)]
pub enum CpuFrequency {
    Freq1200000,
    Freq1600000,
    Freq1800000,
}

impl CpuFrequency {
    /// The frequency in kilohertz, as it is written to the scaling files.
    pub open spec fn text(self) -> Seq<char> {
        match self {
            CpuFrequency::Freq1200000 => "1200000"@,
            CpuFrequency::Freq1600000 => "1600000"@,
            CpuFrequency::Freq1800000 => "1800000"@,
        }
    }

    /// The frequency that a request's text stands for: megahertz, one of three values.
    pub open spec fn of_request(text: Seq<char>) -> Option<CpuFrequency> {
        if text == "1200"@ {
            Some(CpuFrequency::Freq1200000)
        } else if text == "1600"@ {
            Some(CpuFrequency::Freq1600000)
        } else if text == "1800"@ {
            Some(CpuFrequency::Freq1800000)
        } else {
            None
        }
    }

    /// Reads a request's frequency; any text but `1200`, `1600` and `1800` is none.
    pub fn from_request(text: &str) -> (frequency: Option<CpuFrequency>)
        ensures
            frequency == CpuFrequency::of_request(text@),
    {
        if text.eq("1200") {
            Some(CpuFrequency::Freq1200000)
        } else if text.eq("1600") {
            Some(CpuFrequency::Freq1600000)
        } else if text.eq("1800") {
            Some(CpuFrequency::Freq1800000)
        } else {
            None
        }
    }
}

/// The frequency-scaling directory of the CPU.
#[derive(Debug)]
pub struct CpuCtrl {
    pub cpu_frequency_path: String,
}

/// The frequency-scaling directory of the first CPU.
pub open spec fn default_frequency_path() -> Seq<char> {
    "/sys/devices/system/cpu/cpu0/cpufreq"@
}

/// A failure of the given class whose message is `prefix` and the system's cause.
pub open spec fn failed(code: CpuCtrlErrorCodes, prefix: Seq<char>, cause: Seq<char>) -> CpuCtrlErrorView {
    CpuCtrlErrorView { code, message: prefix + cause }
}

/// The outcome of setting the governor, from the outcome of the write.
pub open spec fn set_governor_result(written: Result<(), WriteError>) -> Result<
    (),
    CpuCtrlErrorView,
> {
    match written {
        Ok(_) => Ok(()),
        Err(WriteError::Create(cause)) => Err(
            failed(
                CpuCtrlErrorCodes::FailedToSetCpuGovernorPath,
                "failed to set CPU governor: "@,
                cause@,
            ),
        ),
        Err(WriteError::Write(cause)) => Err(
            failed(
                CpuCtrlErrorCodes::FailedToSetCpuGovernor,
                "failed to set CPU governor: "@,
                cause@,
            ),
        ),
    }
}

/// The outcome of setting the frequency, from the outcome of the write.
pub open spec fn set_frequency_result(written: Result<(), WriteError>) -> Result<
    (),
    CpuCtrlErrorView,
> {
    match written {
        Ok(_) => Ok(()),
        Err(WriteError::Create(cause)) => Err(
            failed(
                CpuCtrlErrorCodes::FailedToSetCpuFrequencyPath,
                "failed to set CPU frequency: "@,
                cause@,
            ),
        ),
        Err(WriteError::Write(cause)) => Err(
            failed(
                CpuCtrlErrorCodes::FailedToSetCpuFrequency,
                "failed to set CPU frequency: "@,
                cause@,
            ),
        ),
    }
}

impl CpuCtrl {
    pub fn new() -> (ctrl: Self)
        ensures
            ctrl.cpu_frequency_path@ == default_frequency_path(),
    {
        CpuCtrl { cpu_frequency_path: String::from_str("/sys/devices/system/cpu/cpu0/cpufreq") }
    }

    /// The file that holds the governor.
    pub fn governor_path(&self) -> (path: String)
        ensures
            path@ == self.cpu_frequency_path@ + "/scaling_governor"@,
    {
        self.cpu_frequency_path.clone().concat("/scaling_governor")
    }

    /// The file that holds the current frequency.
    pub fn frequency_path(&self) -> (path: String)
        ensures
            path@ == self.cpu_frequency_path@ + "/scaling_cur_freq"@,
    {
        self.cpu_frequency_path.clone().concat("/scaling_cur_freq")
    }

    /// The write that hands the frequency over to user space: `userspace` to the governor
    /// file.
    pub fn governor_write(&self) -> (write: FileWrite)
        ensures
            write@ == (FileWriteView {
                path: self.cpu_frequency_path@ + "/scaling_governor"@,
                contents: "userspace"@,
            }),
    {
        FileWrite { path: self.governor_path(), contents: String::from_str("userspace") }
    }

    /// The write that sets the frequency: its kilohertz to the set-speed file.
    pub fn frequency_write(&self, frequency: CpuFrequency) -> (write: FileWrite)
        ensures
            write@ == (FileWriteView {
                path: self.cpu_frequency_path@ + "/scaling_setspeed"@,
                contents: frequency.text(),
            }),
    {
        let contents = match frequency {
            CpuFrequency::Freq1200000 => String::from_str("1200000"),
            CpuFrequency::Freq1600000 => String::from_str("1600000"),
            CpuFrequency::Freq1800000 => String::from_str("1800000"),
        };
        FileWrite { path: self.cpu_frequency_path.clone().concat("/scaling_setspeed"), contents }
    }

    /// The outcome of setting the governor, from the outcome of its write.
    pub fn set_cpu_governor(&self, written: Result<(), WriteError>) -> (outcome: Result<
        (),
        CpuCtrlError,
    >)
        ensures
            match outcome {
                Ok(()) => set_governor_result(written) == Ok::<(), CpuCtrlErrorView>(()),
                Err(error) => set_governor_result(written) == Err::<(), _>(error@),
            },
    {
        match written {
            Ok(()) => Ok(()),
            Err(WriteError::Create(cause)) => Err(
                CpuCtrlError::because(
                    CpuCtrlErrorCodes::FailedToSetCpuGovernorPath,
                    "failed to set CPU governor: ",
                    cause.as_str(),
                ),
            ),
            Err(WriteError::Write(cause)) => Err(
                CpuCtrlError::because(
                    CpuCtrlErrorCodes::FailedToSetCpuGovernor,
                    "failed to set CPU governor: ",
                    cause.as_str(),
                ),
            ),
        }
    }

    /// The governor, from the outcome of reading its file: the file's text as it is.
    pub fn get_cpu_governor(&self, read: Result<String, String>) -> (outcome: Result<
        String,
        CpuCtrlError,
    >)
        ensures
            match read {
                Ok(content) => outcome == Ok::<_, CpuCtrlError>(content),
                Err(cause) => outcome is Err && outcome->Err_0@ == failed(
                    CpuCtrlErrorCodes::FailedToGetCpuGovernor,
                    "failed to get CPU governor: "@,
                    cause@,
                ),
            },
    {
        match read {
            Ok(content) => Ok(content),
            Err(cause) => Err(
                CpuCtrlError::because(
                    CpuCtrlErrorCodes::FailedToGetCpuGovernor,
                    "failed to get CPU governor: ",
                    cause.as_str(),
                ),
            ),
        }
    }

    /// The current frequency, from the outcome of reading its file: the file's text as it
    /// is.
    pub fn get_cpu_frequency(&self, read: Result<String, String>) -> (outcome: Result<
        String,
        CpuCtrlError,
    >)
        ensures
            match read {
                Ok(content) => outcome == Ok::<_, CpuCtrlError>(content),
                Err(cause) => outcome is Err && outcome->Err_0@ == failed(
                    CpuCtrlErrorCodes::FailedToGetCpuFrequency,
                    "failed to get CPU frequency: "@,
                    cause@,
                ),
            },
    {
        match read {
            Ok(content) => Ok(content),
            Err(cause) => Err(
                CpuCtrlError::because(
                    CpuCtrlErrorCodes::FailedToGetCpuFrequency,
                    "failed to get CPU frequency: ",
                    cause.as_str(),
                ),
            ),
        }
    }

    /// The outcome of setting the frequency, from the outcome of its write.
    pub fn set_cpu_frequency(&self, written: Result<(), WriteError>) -> (outcome: Result<
        (),
        CpuCtrlError,
    >)
        ensures
            match outcome {
                Ok(()) => set_frequency_result(written) == Ok::<(), CpuCtrlErrorView>(()),
                Err(error) => set_frequency_result(written) == Err::<(), _>(error@),
            },
    {
        match written {
            Ok(()) => Ok(()),
            Err(WriteError::Create(cause)) => Err(
                CpuCtrlError::because(
                    CpuCtrlErrorCodes::FailedToSetCpuFrequencyPath,
                    "failed to set CPU frequency: ",
                    cause.as_str(),
                ),
            ),
            Err(WriteError::Write(cause)) => Err(
                CpuCtrlError::because(
                    CpuCtrlErrorCodes::FailedToSetCpuFrequency,
                    "failed to set CPU frequency: ",
                    cause.as_str(),
                ),
            ),
        }
    }
}

} // verus!
