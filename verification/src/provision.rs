//! Descriptor provisioning: one routine that, given a device path and a
//! count, acquires that many independent descriptors against the same node,
//! and on any failure releases every descriptor it acquired before the
//! error propagates.
//!
//! Opening a device node is a kernel call, so the routine is a small state
//! machine: it asks its driver to open or close one descriptor at a time and
//! is told the outcome. All decisions — how many to open, which to close,
//! when the run is complete — are made here.

use vstd::prelude::*;
use vstd::string::StringExecFns;

use crate::flow::FlowAction;
use crate::numstr::dec_digits;
use crate::numstr::u64_dec_str;

verus! {

/// The phase of one provisioning run.
#[derive(Debug, Clone, Copy, PartialEq, Eq, Structural)]
pub enum RunPhase {
    /// Descriptors are still being acquired.
    Opening,
    /// The run failed or was cancelled; acquired descriptors are being
    /// released, last first.
    Unwinding,
    /// The run is over: either every wanted descriptor is held, or none is.
    Complete,
}

/// One provisioning run against a single device node. Runs share no state,
/// so concurrently provisioning endpoints cannot interfere.
#[derive(Debug)]
pub struct FdRun {
    /// The device node every descriptor is opened against.
    pub path: String,
    /// How many descriptors the run is to acquire.
    pub wanted: usize,
    /// The descriptors currently held, in acquisition order.
    pub got: Vec<i32>,
    pub phase: RunPhase,
    /// Whether the run will deliver no descriptors (it failed or was
    /// cancelled).
    pub failed: bool,
}

impl FdRun {
    /// The run invariant: a complete run holds either everything it wanted
    /// or nothing, and an unwinding run still has something to release.
    pub open spec fn wf(&self) -> bool {
        &&& self.got@.len() <= self.wanted
        &&& (self.phase == RunPhase::Opening ==> !self.failed && self.got@.len() < self.wanted)
        &&& (self.phase == RunPhase::Unwinding ==> self.failed && self.got@.len() >= 1)
        &&& (self.phase == RunPhase::Complete ==> (if self.failed {
            self.got@.len() == 0
        } else {
            self.got@.len() == self.wanted
        }))
    }

    /// A run that completed with every wanted descriptor in hand.
    pub open spec fn done_ok(&self) -> bool {
        self.phase == RunPhase::Complete && !self.failed
    }

    /// Starts a run: nothing is held yet, and a run for zero descriptors is
    /// complete at once.
    pub fn begin(path: String, wanted: usize) -> (r: FdRun)
        ensures
            r.wf(),
            r.path == path,
            r.wanted == wanted,
            r.got@.len() == 0,
            !r.failed,
            r.phase == (if wanted == 0 {
                RunPhase::Complete
            } else {
                RunPhase::Opening
            }),
    {
        FdRun {
            path,
            wanted,
            got: Vec::new(),
            phase: if wanted == 0 {
                RunPhase::Complete
            } else {
                RunPhase::Opening
            },
            failed: false,
        }
    }

    /// What the driver should do next for this run: open one more
    /// descriptor, or close the most recently acquired one.
    pub fn next_action(&self) -> (a: FlowAction)
        requires
            self.wf(),
            self.phase != RunPhase::Complete,
        ensures
            self.phase == RunPhase::Opening ==> (a matches FlowAction::OpenDevice { path }
                && path@ == self.path@),
            self.phase == RunPhase::Unwinding ==> (a matches FlowAction::CloseHandle { fd }
                && fd == self.got@.last()),
    {
        match self.phase {
            RunPhase::Opening => FlowAction::OpenDevice { path: self.path.clone() },
            _ => FlowAction::CloseHandle { fd: self.got[self.got.len() - 1] },
        }
    }

    /// One descriptor was opened: record it; the run is complete once every
    /// wanted descriptor is held.
    pub fn on_opened(&mut self, fd: i32)
        requires
            old(self).wf(),
            old(self).phase == RunPhase::Opening,
        ensures
            final(self).wf(),
            final(self).path == old(self).path,
            final(self).wanted == old(self).wanted,
            final(self).got@ == old(self).got@.push(fd),
            !final(self).failed,
            final(self).phase == (if old(self).got@.len() + 1 == old(self).wanted {
                RunPhase::Complete
            } else {
                RunPhase::Opening
            }),
    {
        self.got.push(fd);
        if self.got.len() == self.wanted {
            self.phase = RunPhase::Complete;
        }
    }

    /// The open failed: the run will deliver nothing, and every descriptor
    /// acquired so far must be released before the run is complete.
    pub fn on_open_failed(&mut self)
        requires
            old(self).wf(),
            old(self).phase == RunPhase::Opening,
        ensures
            final(self).wf(),
            final(self).path == old(self).path,
            final(self).wanted == old(self).wanted,
            final(self).got@ == old(self).got@,
            final(self).failed,
            final(self).phase == (if old(self).got@.len() == 0 {
                RunPhase::Complete
            } else {
                RunPhase::Unwinding
            }),
    {
        self.failed = true;
        self.phase = if self.got.len() == 0 {
            RunPhase::Complete
        } else {
            RunPhase::Unwinding
        };
    }

    /// The most recently acquired descriptor was closed.
    pub fn on_closed(&mut self)
        requires
            old(self).wf(),
            old(self).phase == RunPhase::Unwinding,
        ensures
            final(self).wf(),
            final(self).path == old(self).path,
            final(self).wanted == old(self).wanted,
            final(self).got@ == old(self).got@.drop_last(),
            final(self).failed,
            final(self).phase == (if old(self).got@.len() == 1 {
                RunPhase::Complete
            } else {
                RunPhase::Unwinding
            }),
    {
        let _ = self.got.pop();
        if self.got.len() == 0 {
            self.phase = RunPhase::Complete;
        }
    }

    /// Cancels the run, from acquisition or after completion: whatever it
    /// holds must now be released. Releasing descriptors on cancellation is
    /// part of the no-leak guarantee.
    pub fn abort(&mut self)
        requires
            old(self).wf(),
            old(self).phase != RunPhase::Unwinding,
        ensures
            final(self).wf(),
            final(self).path == old(self).path,
            final(self).wanted == old(self).wanted,
            final(self).got@ == old(self).got@,
            final(self).failed,
            final(self).phase == (if old(self).got@.len() == 0 {
                RunPhase::Complete
            } else {
                RunPhase::Unwinding
            }),
    {
        self.failed = true;
        self.phase = if self.got.len() == 0 {
            RunPhase::Complete
        } else {
            RunPhase::Unwinding
        };
    }
}

/// The device node multiplexing the tap interface with the given link
/// index.
pub open spec fn tap_path_spec(idx: nat) -> Seq<char> {
    "/dev/tap"@ + dec_digits(idx)
}

/// Formats the tap device node path for a link index.
pub fn tap_device_path(idx: u64) -> (s: String)
    ensures
        s@ == tap_path_spec(idx as nat),
{
    let mut s = String::from_str("/dev/tap");
    s.append(u64_dec_str(idx).as_str());
    s
}

/// Starts a provisioning run of `num_fds` descriptors against `device`.
pub fn create_fds(device: String, num_fds: usize) -> (r: FdRun)
    ensures
        r.wf(),
        r.path == device,
        r.wanted == num_fds,
        r.got@.len() == 0,
        !r.failed,
        r.phase == (if num_fds == 0 {
            RunPhase::Complete
        } else {
            RunPhase::Opening
        }),
{
    FdRun::begin(device, num_fds)
}

/// Starts a provisioning run of one tap descriptor per queue against
/// `/dev/tap<link_index>`.
pub fn create_mac_vtap_fds(link_index: u64, queues: usize) -> (r: FdRun)
    ensures
        r.wf(),
        r.path@ == tap_path_spec(link_index as nat),
        r.wanted == queues,
        r.got@.len() == 0,
        !r.failed,
        r.phase == (if queues == 0 {
            RunPhase::Complete
        } else {
            RunPhase::Opening
        }),
{
    create_fds(tap_device_path(link_index), queues)
}

/// Starts a provisioning run of `num_fds` descriptors against
/// `/dev/vhost-net`.
pub fn create_vhost_fds(num_fds: usize) -> (r: FdRun)
    ensures
        r.wf(),
        r.path@ == "/dev/vhost-net"@,
        r.wanted == num_fds,
        r.got@.len() == 0,
        !r.failed,
        r.phase == (if num_fds == 0 {
            RunPhase::Complete
        } else {
            RunPhase::Opening
        }),
{
    create_fds(String::from_str("/dev/vhost-net"), num_fds)
}

} // verus!
