//! How one run of a virtual machine instance ended.

use vstd::prelude::*;

verus! {

/// The terminal classification of one run.
#[derive(Debug, Clone, Copy, PartialEq, Eq, Structural)]
pub enum VmiOutcome {
    /// The instance has succeeded.
    Succeeded,
    /// The instance has failed, which usually means that it did not shut
    /// down within the grace period.
    Failed,
    /// The instance was deleted by something else.
    Deleted,
    /// The watch ended, or the process was told to stop, before the
    /// instance reached a terminal phase.
    WatchInterrupted,
}

impl VmiOutcome {
    /// Every outcome but `Succeeded` is abnormal.
    pub open spec fn abnormal(self) -> bool {
        self != VmiOutcome::Succeeded
    }

    /// The process exit code that reports this outcome.
    pub open spec fn exit_code_spec(self) -> int {
        if self == VmiOutcome::Succeeded { 0 } else { 1 }
    }

    /// The name of the variant, as `Debug` prints it.
    pub open spec fn name_spec(self) -> Seq<char> {
        match self {
            VmiOutcome::Succeeded => "Succeeded"@,
            VmiOutcome::Failed => "Failed"@,
            VmiOutcome::Deleted => "Deleted"@,
            VmiOutcome::WatchInterrupted => "WatchInterrupted"@,
        }
    }

    pub fn is_abnormal(&self) -> (r: bool)
        ensures
            r == self.abnormal(),
    {
        matches!(self, Self::Failed | Self::Deleted | Self::WatchInterrupted)
    }

    /// 0 for `Succeeded`, 1 for every abnormal outcome.
    pub fn exit_code(&self) -> (r: u8)
        ensures
            r as int == self.exit_code_spec(),
            (r == 0) <==> !self.abnormal(),
    {
        if self.is_abnormal() { 1 } else { 0 }
    }

    pub fn name(&self) -> (r: &'static str)
        ensures
            r@ == self.name_spec(),
    {
        match self {
            VmiOutcome::Succeeded => "Succeeded",
            VmiOutcome::Failed => "Failed",
            VmiOutcome::Deleted => "Deleted",
            VmiOutcome::WatchInterrupted => "WatchInterrupted",
        }
    }
}

} // verus!
