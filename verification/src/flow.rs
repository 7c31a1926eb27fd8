//! Attach and detach as event-driven flows.
//!
//! Opening device nodes and talking to the hypervisor gateway are kernel
//! and process boundaries, so a flow makes every decision here — what to
//! open, what to close, when to register or unregister the device, and how
//! to roll back — while its driver only performs the one action the flow
//! asks for and reports the outcome. Whatever the outcomes, a finished
//! attach flow either holds every descriptor it wanted and has registered
//! the device once, or holds none and has asked for every opened descriptor
//! to be closed again.

use vstd::prelude::*;
use vstd::string::StringExecFns;

use crate::config::NetworkConfig;
use crate::endpoint::MacVTapEndpoint;
use crate::mac::mac_str_wf;
use crate::provision::create_mac_vtap_fds;
use crate::provision::create_vhost_fds;
use crate::provision::tap_path_spec;
use crate::provision::FdRun;
use crate::provision::RunPhase;
use crate::NetError;

verus! {

/// What a flow asks its driver to do next.
#[derive(Debug)]
pub enum FlowAction {
    /// Open one descriptor against the device node at `path`, with
    /// read+write, create-if-absent, and owner+group read/write permission
    /// bits only.
    OpenDevice { path: String },
    /// Close the descriptor `fd`.
    CloseHandle { fd: i32 },
    /// Register the flow's device configuration with the hypervisor
    /// gateway.
    AddDevice,
    /// Unregister the flow's device configuration from the hypervisor
    /// gateway.
    RemoveDevice,
    /// The flow is finished; hand it back to the endpoint.
    Finished,
}

/// The hypervisor settings attach reads: how many vCPUs (and so queues) a
/// device gets, and whether vhost-net is disabled.
#[derive(Debug, Clone, Copy, PartialEq, Eq, Structural)]
pub struct HypervisorConfig {
    pub default_vcpus: u32,
    pub disable_vhost_net: bool,
}

#[derive(Debug, Clone, Copy, PartialEq, Eq, Structural)]
pub enum AttachPhase {
    /// Opening one tap descriptor per queue.
    Taps,
    /// Opening one vhost descriptor per queue.
    Vhost,
    /// Waiting for the hypervisor gateway to accept the device.
    Register,
    /// A later step failed: releasing descriptors of the earlier steps.
    Unwind,
    Done,
}

/// One attach in progress: an all-or-nothing acquisition of tap
/// descriptors, vhost descriptors, and one device registration.
pub struct AttachFlow {
    /// The device configuration derived before anything was acquired.
    pub config: NetworkConfig,
    /// The tap-descriptor provisioning run.
    pub tap_run: FdRun,
    /// The vhost-descriptor provisioning run; it wants zero descriptors
    /// when vhost-net is disabled.
    pub vhost_run: FdRun,
    pub phase: AttachPhase,
    /// The first failure observed, if any; a flow that finishes with a
    /// failure holds no descriptors.
    pub failure: Option<NetError>,
    /// The endpoint this flow was started from.
    pub src: Ghost<MacVTapEndpoint>,
}

impl AttachFlow {
    /// The negotiated queue count: one descriptor per vCPU.
    pub open spec fn queues(&self) -> nat {
        self.tap_run.wanted as nat
    }

    pub open spec fn vhost_enabled(&self) -> bool {
        self.vhost_run.wanted > 0
    }

    pub open spec fn succeeded(&self) -> bool {
        self.phase == AttachPhase::Done && self.failure is None
    }

    /// The flow expects its driver to report an open outcome next.
    pub open spec fn expecting_open(&self) -> bool {
        ||| (self.phase == AttachPhase::Taps && self.tap_run.phase == RunPhase::Opening)
        ||| (self.phase == AttachPhase::Vhost && self.vhost_run.phase == RunPhase::Opening)
    }

    /// The flow expects its driver to report a close next.
    pub open spec fn expecting_close(&self) -> bool {
        ||| (self.phase == AttachPhase::Taps && self.tap_run.phase == RunPhase::Unwinding)
        ||| (self.phase == AttachPhase::Vhost && self.vhost_run.phase == RunPhase::Unwinding)
        ||| self.phase == AttachPhase::Unwind
    }

    /// The flow invariant, phase by phase.
    pub open spec fn wf(&self) -> bool {
        &&& self.tap_run.wf()
        &&& self.vhost_run.wf()
        &&& self.tap_run.wanted >= 1
        &&& (self.vhost_run.wanted == self.tap_run.wanted || self.vhost_run.wanted == 0)
        &&& self.src@.wf()
        &&& !self.src@.attached
        &&& mac_str_wf(self.src@.net_pair.tap_iface.hard_addr@)
        &&& self.config@ == self.src@.config_spec()
        &&& self.tap_run.path@ == tap_path_spec(self.src@.net_pair.link_index as nat)
        &&& self.vhost_run.path@ == "/dev/vhost-net"@
        &&& (self.failure matches Some(e) ==> (e is ResourceExhaustion || e is HypervisorRejection))
        &&& match self.phase {
            AttachPhase::Taps => {
                &&& self.tap_run.phase != RunPhase::Complete
                &&& (self.tap_run.phase == RunPhase::Opening ==> self.failure is None)
                &&& (self.tap_run.phase == RunPhase::Unwinding ==> self.failure is Some)
                &&& self.vhost_run.got@.len() == 0
                &&& !self.vhost_run.failed
                &&& self.vhost_run.phase == (if self.vhost_enabled() {
                    RunPhase::Opening
                } else {
                    RunPhase::Complete
                })
            },
            AttachPhase::Vhost => {
                &&& self.vhost_enabled()
                &&& self.tap_run.done_ok()
                &&& self.vhost_run.phase != RunPhase::Complete
                &&& (self.vhost_run.phase == RunPhase::Opening ==> self.failure is None)
                &&& (self.vhost_run.phase == RunPhase::Unwinding ==> self.failure is Some)
            },
            AttachPhase::Register => {
                &&& self.tap_run.done_ok()
                &&& self.vhost_run.done_ok()
                &&& self.failure is None
            },
            AttachPhase::Unwind => {
                &&& self.failure is Some
                &&& self.tap_run.failed
                &&& self.vhost_run.failed
                &&& self.tap_run.phase != RunPhase::Opening
                &&& self.vhost_run.phase != RunPhase::Opening
                &&& !(self.tap_run.phase == RunPhase::Complete && self.vhost_run.phase
                    == RunPhase::Complete)
            },
            AttachPhase::Done => {
                &&& self.tap_run.phase == RunPhase::Complete
                &&& self.vhost_run.phase == RunPhase::Complete
                &&& (self.failure is None ==> self.tap_run.done_ok() && self.vhost_run.done_ok())
                &&& (self.failure is Some ==> self.tap_run.failed && self.vhost_run.failed)
            },
        }
    }

    /// What parts of a flow never change while it runs.
    pub open spec fn same_shape(&self, other: AttachFlow) -> bool {
        &&& self.config == other.config
        &&& self.src == other.src
        &&& self.tap_run.path == other.tap_run.path
        &&& self.tap_run.wanted == other.tap_run.wanted
        &&& self.vhost_run.path == other.vhost_run.path
        &&& self.vhost_run.wanted == other.vhost_run.wanted
    }

    /// The device configuration this flow registers.
    pub fn network_config(&self) -> (r: &NetworkConfig)
        ensures
            *r == self.config,
    {
        &self.config
    }

    /// What the driver should do next. Exactly one action is asked for in
    /// every phase; `Finished` means the flow should be handed back to the
    /// endpoint.
    pub fn next_action(&self) -> (a: FlowAction)
        requires
            self.wf(),
        ensures
            (a matches FlowAction::OpenDevice { .. }) <==> self.expecting_open(),
            (a matches FlowAction::CloseHandle { .. }) <==> self.expecting_close(),
            (a == FlowAction::AddDevice) <==> self.phase == AttachPhase::Register,
            (a == FlowAction::Finished) <==> self.phase == AttachPhase::Done,
            self.phase == AttachPhase::Taps && self.tap_run.phase == RunPhase::Opening ==> (
            a matches FlowAction::OpenDevice { path } && path@ == self.tap_run.path@),
            self.phase == AttachPhase::Vhost && self.vhost_run.phase == RunPhase::Opening ==> (
            a matches FlowAction::OpenDevice { path } && path@ == self.vhost_run.path@),
            self.phase == AttachPhase::Taps && self.tap_run.phase == RunPhase::Unwinding ==> (
            a matches FlowAction::CloseHandle { fd } && fd == self.tap_run.got@.last()),
            self.phase == AttachPhase::Vhost && self.vhost_run.phase == RunPhase::Unwinding ==> (
            a matches FlowAction::CloseHandle { fd } && fd == self.vhost_run.got@.last()),
            self.phase == AttachPhase::Unwind ==> (a matches FlowAction::CloseHandle { fd } && fd
                == (if self.vhost_run.phase == RunPhase::Unwinding {
                self.vhost_run.got@.last()
            } else {
                self.tap_run.got@.last()
            })),
    {
        match self.phase {
            AttachPhase::Taps => self.tap_run.next_action(),
            AttachPhase::Vhost => self.vhost_run.next_action(),
            AttachPhase::Register => FlowAction::AddDevice,
            AttachPhase::Unwind => {
                if self.vhost_run.phase == RunPhase::Unwinding {
                    self.vhost_run.next_action()
                } else {
                    self.tap_run.next_action()
                }
            },
            AttachPhase::Done => FlowAction::Finished,
        }
    }

    /// One descriptor was opened for the step in progress.
    pub fn on_opened(&mut self, fd: i32)
        requires
            old(self).wf(),
            old(self).expecting_open(),
        ensures
            final(self).wf(),
            final(self).same_shape(*old(self)),
            final(self).failure is None,
            old(self).phase == AttachPhase::Taps ==> {
                &&& final(self).tap_run.got@ == old(self).tap_run.got@.push(fd)
                &&& final(self).vhost_run == old(self).vhost_run
                &&& final(self).phase == (if old(self).tap_run.got@.len() + 1 < old(self).tap_run.wanted {
                    AttachPhase::Taps
                } else if old(self).vhost_enabled() {
                    AttachPhase::Vhost
                } else {
                    AttachPhase::Register
                })
            },
            old(self).phase == AttachPhase::Vhost ==> {
                &&& final(self).vhost_run.got@ == old(self).vhost_run.got@.push(fd)
                &&& final(self).tap_run == old(self).tap_run
                &&& final(self).phase == (if old(self).vhost_run.got@.len() + 1 < old(self).vhost_run.wanted {
                    AttachPhase::Vhost
                } else {
                    AttachPhase::Register
                })
            },
    {
        match self.phase {
            AttachPhase::Taps => {
                self.tap_run.on_opened(fd);
                if self.tap_run.phase == RunPhase::Complete {
                    self.phase = if self.vhost_run.wanted > 0 {
                        AttachPhase::Vhost
                    } else {
                        AttachPhase::Register
                    };
                }
            },
            _ => {
                self.vhost_run.on_opened(fd);
                if self.vhost_run.phase == RunPhase::Complete {
                    self.phase = AttachPhase::Register;
                }
            },
        }
    }

    /// The open failed: the flow starts rolling back. Descriptors already
    /// acquired by this step and by earlier steps will all be asked to
    /// close before the flow finishes.
    pub fn on_open_failed(&mut self, detail: String)
        requires
            old(self).wf(),
            old(self).expecting_open(),
        ensures
            final(self).wf(),
            final(self).same_shape(*old(self)),
            final(self).failure matches Some(e) && e is ResourceExhaustion && e.detail_spec()
                == detail,
            final(self).tap_run.got@ == old(self).tap_run.got@,
            final(self).vhost_run.got@ == old(self).vhost_run.got@,
            final(self).phase == (if old(self).phase == AttachPhase::Taps && old(self).tap_run.got@.len() == 0 {
                AttachPhase::Done
            } else if old(self).phase == AttachPhase::Taps {
                AttachPhase::Taps
            } else if old(self).vhost_run.got@.len() == 0 {
                AttachPhase::Unwind
            } else {
                AttachPhase::Vhost
            }),
    {
        self.failure = Some(NetError::ResourceExhaustion(detail));
        match self.phase {
            AttachPhase::Taps => {
                self.tap_run.on_open_failed();
                if self.tap_run.phase == RunPhase::Complete {
                    self.vhost_run.abort();
                    self.phase = AttachPhase::Done;
                }
            },
            _ => {
                self.vhost_run.on_open_failed();
                if self.vhost_run.phase == RunPhase::Complete {
                    self.tap_run.abort();
                    self.phase = AttachPhase::Unwind;
                }
            },
        }
    }

    /// One descriptor was closed during rollback.
    pub fn on_closed(&mut self)
        requires
            old(self).wf(),
            old(self).expecting_close(),
        ensures
            final(self).wf(),
            final(self).same_shape(*old(self)),
            final(self).failure == old(self).failure,
            final(self).failure is Some,
            final(self).tap_run.got@.len() + final(self).vhost_run.got@.len() + 1 == old(self).tap_run.got@.len() + old(self).vhost_run.got@.len(),
            final(self).phase == AttachPhase::Done <==> (final(self).tap_run.got@.len() == 0
                && final(self).vhost_run.got@.len() == 0),
    {
        match self.phase {
            AttachPhase::Taps => {
                self.tap_run.on_closed();
                if self.tap_run.phase == RunPhase::Complete {
                    self.vhost_run.abort();
                    self.phase = AttachPhase::Done;
                }
            },
            AttachPhase::Vhost => {
                self.vhost_run.on_closed();
                if self.vhost_run.phase == RunPhase::Complete {
                    self.tap_run.abort();
                    self.phase = AttachPhase::Unwind;
                }
            },
            _ => {
                if self.vhost_run.phase == RunPhase::Unwinding {
                    self.vhost_run.on_closed();
                } else {
                    self.tap_run.on_closed();
                }
                if self.vhost_run.phase == RunPhase::Complete && self.tap_run.phase == RunPhase::Complete {
                    self.phase = AttachPhase::Done;
                }
            },
        }
    }

    /// The hypervisor gateway accepted the device: the flow succeeds with
    /// every descriptor in hand.
    pub fn on_device_added(&mut self)
        requires
            old(self).wf(),
            old(self).phase == AttachPhase::Register,
        ensures
            final(self).wf(),
            final(self).same_shape(*old(self)),
            final(self).succeeded(),
            final(self).tap_run == old(self).tap_run,
            final(self).vhost_run == old(self).vhost_run,
            final(self).tap_run.got@.len() == final(self).queues(),
            final(self).vhost_run.got@.len() == (if final(self).vhost_enabled() {
                final(self).queues()
            } else {
                0nat
            }),
    {
        self.phase = AttachPhase::Done;
    }

    /// The hypervisor gateway rejected the device: the gateway's device
    /// list is unchanged, and every descriptor is asked to close.
    pub fn on_device_rejected(&mut self, detail: String)
        requires
            old(self).wf(),
            old(self).phase == AttachPhase::Register,
        ensures
            final(self).wf(),
            final(self).same_shape(*old(self)),
            final(self).failure matches Some(e) && e is HypervisorRejection && e.detail_spec()
                == detail,
            final(self).tap_run.got@ == old(self).tap_run.got@,
            final(self).vhost_run.got@ == old(self).vhost_run.got@,
            final(self).phase == AttachPhase::Unwind,
    {
        self.failure = Some(NetError::HypervisorRejection(detail));
        self.vhost_run.abort();
        self.tap_run.abort();
        self.phase = AttachPhase::Unwind;
    }

    /// Abandons an attach that has not failed yet: the enclosing workflow
    /// was cancelled. Every descriptor opened so far is asked to close
    /// before the flow finishes, so cancellation leaks nothing; the driver
    /// keeps serving actions until `Finished`.
    pub fn cancel(&mut self, detail: String)
        requires
            old(self).wf(),
            old(self).expecting_open() || old(self).phase == AttachPhase::Register,
        ensures
            final(self).wf(),
            final(self).same_shape(*old(self)),
            final(self).failure matches Some(e) && e is ResourceExhaustion && e.detail_spec()
                == detail,
            final(self).tap_run.got@ == old(self).tap_run.got@,
            final(self).vhost_run.got@ == old(self).vhost_run.got@,
            final(self).phase == (if old(self).tap_run.got@.len() == 0 && old(
                self).vhost_run.got@.len() == 0 {
                AttachPhase::Done
            } else {
                AttachPhase::Unwind
            }),
    {
        self.failure = Some(NetError::ResourceExhaustion(detail));
        self.vhost_run.abort();
        self.tap_run.abort();
        self.phase = if self.tap_run.phase == RunPhase::Complete && self.vhost_run.phase
            == RunPhase::Complete {
            AttachPhase::Done
        } else {
            AttachPhase::Unwind
        };
    }
}

/// Law: a successful attach holds exactly one vm descriptor per queue, and
/// one vhost descriptor per queue when vhost is enabled, none otherwise.
pub proof fn lemma_attach_success_counts(flow: AttachFlow)
    requires
        flow.wf(),
        flow.phase == AttachPhase::Done,
        flow.failure is None,
    ensures
        flow.tap_run.got@.len() == flow.queues(),
        flow.vhost_enabled() ==> flow.vhost_run.got@.len() == flow.queues(),
        !flow.vhost_enabled() ==> flow.vhost_run.got@.len() == 0,
{
}

/// Law: a failed attach holds nothing once it finishes — every descriptor
/// either was never opened or has been asked to close again.
pub proof fn lemma_attach_failure_holds_nothing(flow: AttachFlow)
    requires
        flow.wf(),
        flow.phase == AttachPhase::Done,
        flow.failure is Some,
    ensures
        flow.tap_run.got@.len() == 0,
        flow.vhost_run.got@.len() == 0,
{
}

#[derive(Debug, Clone, Copy, PartialEq, Eq, Structural)]
pub enum DetachPhase {
    /// Waiting for the hypervisor gateway to remove the device.
    Removing,
    /// Closing every retained descriptor, most recently acquired first.
    Closing,
    Done,
}

/// One detach in progress: it unregisters the device once, then closes
/// every descriptor the endpoint holds — even when the gateway refused the
/// removal.
///
/// Whether removing an already-absent device is a refusal is the gateway's
/// choice; this layer defines the outcome either way: a refusal is
/// surfaced as a rejection, and only after every descriptor was closed.
pub struct DetachFlow {
    /// The device configuration recomputed for the removal call.
    pub config: NetworkConfig,
    /// The descriptors still to close: the endpoint's vm descriptors
    /// followed by its vhost descriptors, closed from the back.
    pub to_close: Vec<i32>,
    pub phase: DetachPhase,
    /// The gateway's refusal, if it refused; descriptors are closed either
    /// way.
    pub failure: Option<NetError>,
    /// The endpoint this flow was started from.
    pub src: Ghost<MacVTapEndpoint>,
}

impl DetachFlow {
    pub open spec fn wf(&self) -> bool {
        &&& self.src@.wf()
        &&& self.src@.attached
        &&& self.config@ == self.src@.config_spec()
        &&& (self.failure matches Some(e) ==> e is HypervisorRejection)
        &&& match self.phase {
            DetachPhase::Removing => {
                &&& self.to_close@ == self.src@.vm_fds@ + self.src@.vhost_fds@
                &&& self.failure is None
            },
            DetachPhase::Closing => {
                &&& self.to_close@.len() >= 1
                &&& self.to_close@.len() <= self.src@.vm_fds@.len() + self.src@.vhost_fds@.len()
                &&& self.to_close@ == (self.src@.vm_fds@ + self.src@.vhost_fds@).take(
                    self.to_close@.len() as int,
                )
            },
            DetachPhase::Done => self.to_close@.len() == 0,
        }
    }

    /// The device configuration this flow unregisters.
    pub fn network_config(&self) -> (r: &NetworkConfig)
        ensures
            *r == self.config,
    {
        &self.config
    }

    /// What the driver should do next: remove the device first, then close
    /// descriptors one at a time.
    pub fn next_action(&self) -> (a: FlowAction)
        requires
            self.wf(),
        ensures
            (a == FlowAction::RemoveDevice) <==> self.phase == DetachPhase::Removing,
            (a matches FlowAction::CloseHandle { .. }) <==> self.phase == DetachPhase::Closing,
            (a == FlowAction::Finished) <==> self.phase == DetachPhase::Done,
            self.phase == DetachPhase::Closing ==> (a matches FlowAction::CloseHandle { fd } && fd
                == self.to_close@.last()),
    {
        match self.phase {
            DetachPhase::Removing => FlowAction::RemoveDevice,
            DetachPhase::Closing => FlowAction::CloseHandle {
                fd: self.to_close[self.to_close.len() - 1],
            },
            DetachPhase::Done => FlowAction::Finished,
        }
    }

    /// The gateway removed the device; descriptor closing begins.
    pub fn on_device_removed(&mut self)
        requires
            old(self).wf(),
            old(self).phase == DetachPhase::Removing,
        ensures
            final(self).wf(),
            final(self).src == old(self).src,
            final(self).config == old(self).config,
            final(self).to_close@ == old(self).to_close@,
            final(self).failure is None,
            final(self).phase == DetachPhase::Closing,
    {
        proof {
            assert(old(self).to_close@.len() >= 1);
            assert(old(self).to_close@ =~= (self.src@.vm_fds@ + self.src@.vhost_fds@).take(
                old(self).to_close@.len() as int,
            ));
        }
        self.phase = DetachPhase::Closing;
    }

    /// The gateway refused the removal. The refusal is retained and
    /// surfaced when the flow finishes, but every descriptor is still
    /// closed: release must happen on all exit paths.
    pub fn on_remove_failed(&mut self, detail: String)
        requires
            old(self).wf(),
            old(self).phase == DetachPhase::Removing,
        ensures
            final(self).wf(),
            final(self).src == old(self).src,
            final(self).config == old(self).config,
            final(self).to_close@ == old(self).to_close@,
            final(self).failure matches Some(e) && e is HypervisorRejection && e.detail_spec()
                == detail,
            final(self).phase == DetachPhase::Closing,
    {
        proof {
            assert(old(self).to_close@.len() >= 1);
            assert(old(self).to_close@ =~= (self.src@.vm_fds@ + self.src@.vhost_fds@).take(
                old(self).to_close@.len() as int,
            ));
        }
        self.failure = Some(NetError::HypervisorRejection(detail));
        self.phase = DetachPhase::Closing;
    }

    /// The most recently acquired descriptor still held was closed.
    pub fn on_closed(&mut self)
        requires
            old(self).wf(),
            old(self).phase == DetachPhase::Closing,
        ensures
            final(self).wf(),
            final(self).src == old(self).src,
            final(self).config == old(self).config,
            final(self).failure == old(self).failure,
            final(self).to_close@ == old(self).to_close@.drop_last(),
            final(self).phase == (if old(self).to_close@.len() == 1 {
                DetachPhase::Done
            } else {
                DetachPhase::Closing
            }),
    {
        let _ = self.to_close.pop();
        if self.to_close.len() == 0 {
            self.phase = DetachPhase::Done;
        } else {
            proof {
                let full = self.src@.vm_fds@ + self.src@.vhost_fds@;
                let n = old(self).to_close@.len() as int;
                assert(old(self).to_close@ == full.take(n));
                assert(self.to_close@ == old(self).to_close@.subrange(0, n - 1));
                assert forall|i: int| 0 <= i < n - 1 implies self.to_close@[i] == full[i] by {
                    assert(old(self).to_close@[i] == full.take(n)[i]);
                }
                assert(self.to_close@ =~= full.take(n - 1));
            }
        }
    }
}

/// Law: a finished detach has had every descriptor the endpoint held asked
/// to close — none remains.
pub proof fn lemma_detach_closes_all(flow: DetachFlow)
    requires
        flow.wf(),
        flow.phase == DetachPhase::Done,
    ensures
        flow.to_close@.len() == 0,
{
}

/// Appends every element of `src` to `dst`, in order.
fn push_all(dst: &mut Vec<i32>, src: &Vec<i32>)
    ensures
        final(dst)@ == old(dst)@ + src@,
{
    let mut i: usize = 0;
    while i < src.len()
        invariant
            i <= src@.len(),
            dst@ == old(dst)@ + src@.take(i as int),
        decreases src@.len() - i,
    {
        dst.push(src[i]);
        proof {
            assert(dst@ =~= old(dst)@ + src@.take(i + 1));
        }
        i += 1;
    }
    proof {
        assert(dst@ =~= old(dst)@ + src@);
    }
}

impl MacVTapEndpoint {
    /// Begins an attach. The caller guarantees the endpoint is detached and
    /// that no other attach or detach is in flight on it: re-entry is
    /// rejected by contract, not at run time.
    ///
    /// The device configuration is derived, and the queue count read from
    /// the hypervisor settings is checked, before any descriptor is opened
    /// and before any gateway call: a malformed hardware address or a zero
    /// queue count fails here, with nothing acquired.
    pub fn start_attach(&self, cfg: &HypervisorConfig) -> (r: Result<AttachFlow, NetError>)
        requires
            self.wf(),
            !self.attached,
        ensures
            r is Ok <==> (cfg.default_vcpus >= 1 && mac_str_wf(self.net_pair.tap_iface.hard_addr@)),
            r matches Err(e) ==> e is ConfigurationError,
            r matches Ok(flow) ==> {
                &&& flow.wf()
                &&& flow.phase == AttachPhase::Taps
                &&& flow.src@ == *self
                &&& flow.queues() == cfg.default_vcpus as nat
                &&& flow.vhost_enabled() == !cfg.disable_vhost_net
                &&& flow.config@ == self.config_spec()
                &&& flow.tap_run.got@.len() == 0
                &&& flow.vhost_run.got@.len() == 0
                &&& flow.failure is None
            },
    {
        let config = match self.get_network_config() {
            Ok(c) => c,
            Err(e) => {
                return Err(e);
            },
        };
        if cfg.default_vcpus == 0 {
            return Err(
                NetError::ConfigurationError(
                    String::from_str("no queues: hypervisor configures zero vcpus"),
                ),
            );
        }
        let queues = cfg.default_vcpus as usize;
        let tap_run = create_mac_vtap_fds(self.net_pair.link_index, queues);
        let vhost_run = create_vhost_fds(
            if cfg.disable_vhost_net {
                0
            } else {
                queues
            },
        );
        Ok(
            AttachFlow {
                config,
                tap_run,
                vhost_run,
                phase: AttachPhase::Taps,
                failure: None,
                src: Ghost(*self),
            },
        )
    }

    /// Takes a finished attach flow back. On success the endpoint becomes
    /// attached and owns every provisioned descriptor — one vm descriptor
    /// per queue, and one vhost descriptor per queue when vhost is enabled.
    /// On failure the endpoint is unchanged — still detached, holding
    /// nothing — and the failure is surfaced.
    pub fn attach_finish(&mut self, flow: AttachFlow) -> (r: Result<(), NetError>)
        requires
            old(self).wf(),
            !old(self).attached,
            flow.wf(),
            flow.phase == AttachPhase::Done,
            flow.src@ == *old(self),
        ensures
            final(self).wf(),
            final(self).net_pair == old(self).net_pair,
            flow.failure is None ==> {
                &&& r is Ok
                &&& final(self).attached
                &&& final(self).vm_fds@ == flow.tap_run.got@
                &&& final(self).vhost_fds@ == flow.vhost_run.got@
                &&& final(self).vm_fds@.len() == flow.queues()
                &&& final(self).vhost_fds@.len() == (if flow.vhost_enabled() {
                    flow.queues()
                } else {
                    0nat
                })
            },
            flow.failure matches Some(e) ==> r == Err::<(), NetError>(e) && *final(self) == *old(self),
    {
        let AttachFlow { config: _, tap_run, vhost_run, phase: _, failure, src: _ } = flow;
        match failure {
            None => {
                self.vm_fds = tap_run.got;
                self.vhost_fds = vhost_run.got;
                self.attached = true;
                Ok(())
            },
            Some(e) => Err(e),
        }
    }

    /// Begins a detach. The caller guarantees the endpoint is attached and
    /// that no other attach or detach is in flight on it.
    ///
    /// The host-side wiring is undone first (a no-op for every strategy in
    /// the closed set, but dispatched uniformly), the device configuration
    /// is recomputed, and the flow then unregisters the device and closes
    /// every retained descriptor. Nothing fails here: an attached endpoint
    /// always carries a parseable hardware address.
    pub fn start_detach(&self) -> (r: Result<DetachFlow, NetError>)
        requires
            self.wf(),
            self.attached,
        ensures
            r is Ok,
            r matches Ok(flow) ==> {
                &&& flow.wf()
                &&& flow.phase == DetachPhase::Removing
                &&& flow.src@ == *self
                &&& flow.config@ == self.config_spec()
                &&& flow.to_close@ == self.vm_fds@ + self.vhost_fds@
                &&& flow.failure is None
            },
    {
        match self.net_pair.del_network_model() {
            Ok(_) => {},
            Err(e) => {
                return Err(e);
            },
        }
        let config = match self.get_network_config() {
            Ok(c) => c,
            Err(e) => {
                return Err(e);
            },
        };
        let mut to_close: Vec<i32> = Vec::new();
        push_all(&mut to_close, &self.vm_fds);
        push_all(&mut to_close, &self.vhost_fds);
        Ok(
            DetachFlow {
                config,
                to_close,
                phase: DetachPhase::Removing,
                failure: None,
                src: Ghost(*self),
            },
        )
    }

    /// Takes a finished detach flow back. The endpoint becomes detached and
    /// holds no descriptors; if the gateway refused the removal, that
    /// refusal is surfaced — after every descriptor was closed.
    pub fn detach_finish(&mut self, flow: DetachFlow) -> (r: Result<(), NetError>)
        requires
            old(self).wf(),
            old(self).attached,
            flow.wf(),
            flow.phase == DetachPhase::Done,
            flow.src@ == *old(self),
        ensures
            final(self).wf(),
            !final(self).attached,
            final(self).vm_fds@.len() == 0,
            final(self).vhost_fds@.len() == 0,
            final(self).net_pair == old(self).net_pair,
            r is Ok <==> flow.failure is None,
            flow.failure matches Some(e) ==> r == Err::<(), NetError>(e) && e
                is HypervisorRejection,
    {
        let DetachFlow { config: _, to_close: _, phase: _, failure, src: _ } = flow;
        self.vm_fds = Vec::new();
        self.vhost_fds = Vec::new();
        self.attached = false;
        match failure {
            None => Ok(()),
            Some(e) => Err(e),
        }
    }
}

} // verus!
