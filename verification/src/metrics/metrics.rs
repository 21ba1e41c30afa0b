//! What the device uses right now: memory and disk, from a snapshot of what the system
//! reports.

use vstd::prelude::*;
use vstd::string::StringExecFns;
use crate::metrics::errors::{DeviceMetricsError, DeviceMetricsErrorCodes, DeviceMetricsErrorView};

verus! {

/// The space of one disk, in bytes.
#[derive(Debug, Clone, Copy, PartialEq, Eq, Structural)]
pub struct DiskSpace {
    pub total_space: u64,
    pub available_space: u64,
}

/// A snapshot as plain values.
pub struct DeviceMetricsView {
    pub used_memory: u64,
    pub primary_disk: Option<DiskSpace>,
}

impl DeviceMetricsView {
    /// No more space is available on the primary disk than there is.
    pub open spec fn consistent(self) -> bool {
        match self.primary_disk {
            Some(disk) => disk.available_space <= disk.total_space,
            None => true,
        }
    }
}

/// A snapshot of the system's memory and of its first disk, if it has one.
#[derive(Debug)]
pub struct DeviceMetrics {
    used_memory: u64,
    primary_disk: Option<DiskSpace>,
}

impl View for DeviceMetrics {
    type V = DeviceMetricsView;

    closed spec fn view(&self) -> DeviceMetricsView {
        DeviceMetricsView { used_memory: self.used_memory, primary_disk: self.primary_disk }
    }
}

/// The failure to tell the disk usage.
pub open spec fn disk_usage_failed() -> DeviceMetricsErrorView {
    DeviceMetricsErrorView {
        code: DeviceMetricsErrorCodes::FailedToGetDiskUsage,
        message: "failed to get disk usage"@,
    }
}

impl DeviceMetrics {
    #[verifier::type_invariant]
    spec fn consistent(self) -> bool {
        self@.consistent()
    }

    /// Takes the snapshot.
    pub fn new(used_memory: u64, primary_disk: Option<DiskSpace>) -> (metrics: Self)
        requires
            (DeviceMetricsView { used_memory, primary_disk }).consistent(),
        ensures
            metrics@ == (DeviceMetricsView { used_memory, primary_disk }),
    {
        DeviceMetrics { used_memory, primary_disk }
    }

    /// The memory in use, in bytes. This never fails.
    pub fn get_memory_usage(&self) -> (outcome: Result<u64, DeviceMetricsError>)
        ensures
            outcome is Ok,
            outcome->Ok_0 == self@.used_memory,
    {
        Ok(self.used_memory)
    }

    /// The space in use on the primary disk, in bytes; a device without a disk is a
    /// failure.
    pub fn get_disk_usage(&self) -> (outcome: Result<u64, DeviceMetricsError>)
        ensures
            match self@.primary_disk {
                Some(disk) => outcome is Ok && outcome->Ok_0 == disk.total_space
                    - disk.available_space,
                None => outcome is Err && outcome->Err_0@ == disk_usage_failed(),
            },
    {
        proof {
            use_type_invariant(self);
        }
        match self.primary_disk {
            Some(disk) => Ok(disk.total_space - disk.available_space),
            None => Err(
                DeviceMetricsError::new(
                    DeviceMetricsErrorCodes::FailedToGetDiskUsage,
                    String::from_str("failed to get disk usage"),
                ),
            ),
        }
    }
}

} // verus!
