//! What the device is made of: memory, processor and disks, from what the system
//! reports of them.

use vstd::prelude::*;
use vstd::string::StringExecFns;
use crate::device_info::errors::{DeviceInfoError, DeviceInfoErrorCodes, DeviceInfoErrorView};

verus! {

/// The memory of the device, in bytes.
#[derive(Debug, PartialEq, Eq)]
pub struct MemoryInfo {
    pub total_memory: u64,
    pub available_memory: u64,
    pub free_memory: u64,
}

impl Default for MemoryInfo {
    fn default() -> (info: Self)
        ensures
            info == (MemoryInfo { total_memory: 0, available_memory: 0, free_memory: 0 }),
    {
        MemoryInfo { total_memory: 0, available_memory: 0, free_memory: 0 }
    }
}

/// The processor of the device.
#[derive(Debug, PartialEq, Eq)]
pub struct CpuInfo {
    pub cpu_name: String,
    pub cpu_frequency: u64,
    pub number_of_cores: usize,
}

impl Default for CpuInfo {
    fn default() -> (info: Self)
        ensures
            info.cpu_name@ == Seq::<char>::empty(),
            info.cpu_frequency == 0,
            info.number_of_cores == 0,
    {
        CpuInfo { cpu_name: String::new(), cpu_frequency: 0, number_of_cores: 0 }
    }
}

/// One disk of the device.
#[derive(Debug, PartialEq, Eq)]
pub struct DiskInfo {
    pub name: String,
    pub fs: String,
    pub removable: bool,
    pub mount_point: String,
    pub used_space: u64,
    pub total_space: u64,
}

impl Default for DiskInfo {
    fn default() -> (info: Self)
        ensures
            info.name@ == Seq::<char>::empty(),
            info.fs@ == Seq::<char>::empty(),
            !info.removable,
            info.mount_point@ == Seq::<char>::empty(),
            info.used_space == 0,
            info.total_space == 0,
    {
        DiskInfo {
            name: String::new(),
            fs: String::new(),
            removable: false,
            mount_point: String::new(),
            used_space: 0,
            total_space: 0,
        }
    }
}

/// What the system reports of the first processor.
#[derive(Debug, PartialEq, Eq)]
pub struct CpuReading {
    pub brand: String,
    pub frequency: u64,
}

/// What the system reports of one disk.
#[derive(Debug, PartialEq, Eq)]
pub struct DiskReading {
    pub name: String,
    pub fs: String,
    pub removable: bool,
    pub mount_point: String,
    pub total_space: u64,
    pub available_space: u64,
}

impl DiskReading {
    /// No more space is available than there is.
    pub open spec fn consistent(self) -> bool {
        self.available_space <= self.total_space
    }

    /// A disk's information says the same of the disk as this reading, with the space in
    /// use for the space available.
    pub open spec fn describes(self, info: DiskInfo) -> bool {
        &&& info.name@ == self.name@
        &&& info.fs@ == self.fs@
        &&& info.removable == self.removable
        &&& info.mount_point@ == self.mount_point@
        &&& info.used_space == self.total_space - self.available_space
        &&& info.total_space == self.total_space
    }
}

/// The failure to tell the processor.
pub open spec fn cpu_info_failed() -> DeviceInfoErrorView {
    DeviceInfoErrorView {
        code: DeviceInfoErrorCodes::FailedToGetCpuUsage,
        message: "failed to get CPU info"@,
    }
}

/// The failure to tell the disks.
pub open spec fn disk_info_failed() -> DeviceInfoErrorView {
    DeviceInfoErrorView {
        code: DeviceInfoErrorCodes::FailedToGetDiskUsage,
        message: "failed to get disk info"@,
    }
}

/// The source of the device's information.
#[derive(Debug)]
pub struct DeviceInfo {}

impl Default for DeviceInfo {
    fn default() -> (info: Self) {
        DeviceInfo {  }
    }
}

impl DeviceInfo {
    pub fn new() -> (info: Self) {
        DeviceInfo {  }
    }

    /// The memory of the device, from the three amounts that the system reports. This
    /// never fails.
    pub fn get_memory_info(&self, total_memory: u64, free_memory: u64, available_memory: u64) -> (outcome:
        Result<MemoryInfo, DeviceInfoError>)
        ensures
            outcome is Ok,
            outcome->Ok_0 == (MemoryInfo { total_memory, available_memory, free_memory }),
    {
        Ok(MemoryInfo { total_memory, free_memory, available_memory })
    }

    /// The processor, from the first processor that the system reports and the number of
    /// physical cores: both must be there.
    pub fn get_cpu_info(&self, first_cpu: Option<CpuReading>, physical_cores: Option<usize>) -> (outcome:
        Result<CpuInfo, DeviceInfoError>)
        ensures
            match (first_cpu, physical_cores) {
                (Some(cpu), Some(cores)) => outcome is Ok && outcome->Ok_0.cpu_name == cpu.brand
                    && outcome->Ok_0.cpu_frequency == cpu.frequency
                    && outcome->Ok_0.number_of_cores == cores,
                _ => outcome is Err && outcome->Err_0@ == cpu_info_failed(),
            },
    {
        match first_cpu {
            Some(cpu) => match physical_cores {
                Some(cores) => Ok(
                    CpuInfo {
                        cpu_name: cpu.brand,
                        cpu_frequency: cpu.frequency,
                        number_of_cores: cores,
                    },
                ),
                None => Err(
                    DeviceInfoError::new(
                        DeviceInfoErrorCodes::FailedToGetCpuUsage,
                        String::from_str("failed to get CPU info"),
                    ),
                ),
            },
            None => Err(
                DeviceInfoError::new(
                    DeviceInfoErrorCodes::FailedToGetCpuUsage,
                    String::from_str("failed to get CPU info"),
                ),
            ),
        }
    }

    /// The disks, from what the system reports of each, in the same order; a device
    /// without any disk is a failure.
    pub fn get_disk_info(&self, disks: &Vec<DiskReading>) -> (outcome: Result<
        Vec<DiskInfo>,
        DeviceInfoError,
    >)
        requires
            forall|i: int| 0 <= i < disks.len() ==> (#[trigger] disks[i]).consistent(),
        ensures
            match outcome {
                Ok(infos) => disks.len() > 0 && infos.len() == disks.len() && forall|i: int|
                    0 <= i < disks.len() ==> (#[trigger] disks[i]).describes(infos[i]),
                Err(error) => disks.len() == 0 && error@ == disk_info_failed(),
            },
    {
        let mut infos: Vec<DiskInfo> = Vec::new();
        let mut i: usize = 0;
        while i < disks.len()
            invariant
                i <= disks.len(),
                infos.len() == i,
                forall|k: int| 0 <= k < disks.len() ==> (#[trigger] disks[k]).consistent(),
                forall|k: int| 0 <= k < i ==> (#[trigger] disks[k]).describes(infos[k]),
            decreases disks.len() - i,
        {
            let disk = &disks[i];
            assert(disks[i as int].consistent());
            infos.push(
                DiskInfo {
                    name: disk.name.clone(),
                    fs: disk.fs.clone(),
                    removable: disk.removable,
                    mount_point: disk.mount_point.clone(),
                    used_space: disk.total_space - disk.available_space,
                    total_space: disk.total_space,
                },
            );
            i += 1;
        }
        if infos.len() == 0 {
            Err(
                DeviceInfoError::new(
                    DeviceInfoErrorCodes::FailedToGetDiskUsage,
                    String::from_str("failed to get disk info"),
                ),
            )
        } else {
            Ok(infos)
        }
    }
}

} // verus!
