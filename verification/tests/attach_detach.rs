use sandbox_net::endpoint::MacVTapEndpoint;
use sandbox_net::flow::{AttachFlow, DetachFlow, FlowAction, HypervisorConfig};
use sandbox_net::pair::HostInterface;
use sandbox_net::NetError;

/// A simulated host: it hands out fresh descriptor numbers, tracks which
/// are open, and records every action the flows ask for.
struct MockHost {
    next_fd: i32,
    open_fds: Vec<i32>,
    opens: Vec<String>,
    closes: usize,
    adds: Vec<(String, String, Vec<u8>)>,
    removes: Vec<(String, String, Vec<u8>)>,
    fail_open_at: Option<usize>,
    reject_add: bool,
    reject_remove: bool,
    opens_attempted: usize,
}

impl MockHost {
    fn new() -> MockHost {
        MockHost {
            next_fd: 100,
            open_fds: Vec::new(),
            opens: Vec::new(),
            closes: 0,
            adds: Vec::new(),
            removes: Vec::new(),
            fail_open_at: None,
            reject_add: false,
            reject_remove: false,
            opens_attempted: 0,
        }
    }

    fn try_open(&mut self, path: String) -> Option<i32> {
        self.opens_attempted += 1;
        if let Some(k) = self.fail_open_at {
            if self.opens_attempted > k {
                return None;
            }
        }
        let fd = self.next_fd;
        self.next_fd += 1;
        self.open_fds.push(fd);
        self.opens.push(path);
        Some(fd)
    }

    fn close(&mut self, fd: i32) {
        let pos = self
            .open_fds
            .iter()
            .position(|&x| x == fd)
            .expect("closing a descriptor that is not open");
        self.open_fds.remove(pos);
        self.closes += 1;
    }

    fn config_tuple(flow_config: &sandbox_net::config::NetworkConfig) -> (String, String, Vec<u8>) {
        (
            flow_config.id.clone(),
            flow_config.host_dev_name.clone(),
            flow_config
                .guest_mac
                .as_ref()
                .map(|m| m.bytes.clone())
                .unwrap_or_default(),
        )
    }
}

fn drive_attach(
    ep: &mut MacVTapEndpoint,
    cfg: &HypervisorConfig,
    host: &mut MockHost,
) -> Result<(), NetError> {
    let mut flow: AttachFlow = ep.start_attach(cfg)?;
    loop {
        match flow.next_action() {
            FlowAction::OpenDevice { path } => match host.try_open(path) {
                Some(fd) => flow.on_opened(fd),
                None => flow.on_open_failed(String::from("permission denied")),
            },
            FlowAction::CloseHandle { fd } => {
                host.close(fd);
                flow.on_closed();
            }
            FlowAction::AddDevice => {
                let tuple = MockHost::config_tuple(flow.network_config());
                if host.reject_add {
                    flow.on_device_rejected(String::from("device refused"));
                } else {
                    host.adds.push(tuple);
                    flow.on_device_added();
                }
            }
            FlowAction::RemoveDevice => unreachable!("attach never removes a device"),
            FlowAction::Finished => break,
        }
    }
    ep.attach_finish(flow)
}

fn drive_detach(ep: &mut MacVTapEndpoint, host: &mut MockHost) -> Result<(), NetError> {
    let mut flow: DetachFlow = ep.start_detach()?;
    loop {
        match flow.next_action() {
            FlowAction::RemoveDevice => {
                let tuple = MockHost::config_tuple(flow.network_config());
                if host.reject_remove {
                    flow.on_remove_failed(String::from("device not found"));
                } else {
                    host.removes.push(tuple);
                    flow.on_device_removed();
                }
            }
            FlowAction::CloseHandle { fd } => {
                host.close(fd);
                flow.on_closed();
            }
            FlowAction::Finished => break,
            FlowAction::OpenDevice { .. } => unreachable!("detach never opens a device"),
            FlowAction::AddDevice => unreachable!("detach never adds a device"),
        }
    }
    ep.detach_finish(flow)
}

fn endpoint(link_index: u32, queues: usize) -> MacVTapEndpoint {
    let tap = HostInterface {
        name: String::from("eth0"),
        hard_addr: String::from("02:42:ac:11:00:02"),
        mtu: 1500,
    };
    MacVTapEndpoint::new(tap, "uplink", link_index, queues)
}

#[test]
fn attach_with_vhost_yields_n_and_n() {
    let mut ep = endpoint(3, 4);
    let cfg = HypervisorConfig {
        default_vcpus: 4,
        disable_vhost_net: false,
    };
    let mut host = MockHost::new();
    drive_attach(&mut ep, &cfg, &mut host).expect("attach should succeed");
    assert_eq!(ep.vm_fds.len(), 4);
    assert_eq!(ep.vhost_fds.len(), 4);
    assert!(ep.attached);
    assert_eq!(host.open_fds.len(), 8);
    assert_eq!(host.adds.len(), 1);
}

#[test]
fn attach_without_vhost_yields_n_and_zero() {
    let mut ep = endpoint(7, 2);
    let cfg = HypervisorConfig {
        default_vcpus: 2,
        disable_vhost_net: true,
    };
    let mut host = MockHost::new();
    drive_attach(&mut ep, &cfg, &mut host).expect("attach should succeed");
    assert_eq!(ep.vm_fds.len(), 2);
    assert_eq!(ep.vhost_fds.len(), 0);
    assert_eq!(host.opens.iter().filter(|p| *p == "/dev/tap7").count(), 2);
    assert_eq!(
        host.opens.iter().filter(|p| *p == "/dev/vhost-net").count(),
        0
    );
}

#[test]
fn failed_tap_open_rolls_back_everything() {
    let mut ep = endpoint(3, 4);
    let cfg = HypervisorConfig {
        default_vcpus: 4,
        disable_vhost_net: false,
    };
    let mut host = MockHost::new();
    host.fail_open_at = Some(2);
    let err = drive_attach(&mut ep, &cfg, &mut host).expect_err("attach must fail");
    assert!(matches!(err, NetError::ResourceExhaustion(_)));
    assert_eq!(host.open_fds.len(), 0, "every opened descriptor is closed");
    assert_eq!(host.adds.len(), 0, "the hypervisor was never called");
    assert!(!ep.attached);
    assert_eq!(ep.vm_fds.len(), 0);
    assert_eq!(ep.vhost_fds.len(), 0);
}

#[test]
fn failed_vhost_open_rolls_back_tap_descriptors_too() {
    let mut ep = endpoint(3, 4);
    let cfg = HypervisorConfig {
        default_vcpus: 4,
        disable_vhost_net: false,
    };
    let mut host = MockHost::new();
    host.fail_open_at = Some(6);
    let err = drive_attach(&mut ep, &cfg, &mut host).expect_err("attach must fail");
    assert!(matches!(err, NetError::ResourceExhaustion(_)));
    assert_eq!(host.open_fds.len(), 0, "cross-step rollback closes tap descriptors");
    assert_eq!(host.adds.len(), 0);
    assert!(!ep.attached);
}

#[test]
fn rejected_device_rolls_back_all_descriptors() {
    let mut ep = endpoint(3, 2);
    let cfg = HypervisorConfig {
        default_vcpus: 2,
        disable_vhost_net: false,
    };
    let mut host = MockHost::new();
    host.reject_add = true;
    let err = drive_attach(&mut ep, &cfg, &mut host).expect_err("attach must fail");
    assert!(matches!(err, NetError::HypervisorRejection(_)));
    assert_eq!(host.open_fds.len(), 0);
    assert!(!ep.attached);
}

#[test]
fn zero_vcpus_is_a_configuration_error() {
    let ep = endpoint(3, 4);
    let cfg = HypervisorConfig {
        default_vcpus: 0,
        disable_vhost_net: false,
    };
    let err = match ep.start_attach(&cfg) {
        Err(e) => e,
        Ok(_) => panic!("no queues can be provisioned"),
    };
    assert!(matches!(err, NetError::ConfigurationError(_)));
}

#[test]
fn bad_hardware_address_fails_before_any_work() {
    let tap = HostInterface {
        name: String::from("eth0"),
        hard_addr: String::from("zz:zz:zz:zz:zz:zz"),
        mtu: 1500,
    };
    let ep = MacVTapEndpoint::new(tap, "uplink", 3, 4);
    let cfg = HypervisorConfig {
        default_vcpus: 4,
        disable_vhost_net: false,
    };
    let host = MockHost::new();
    let err = match ep.start_attach(&cfg) {
        Err(e) => e,
        Ok(_) => panic!("config derivation must fail"),
    };
    assert!(matches!(err, NetError::ConfigurationError(_)));
    assert_eq!(host.opens_attempted, 0, "no descriptor was opened");
    assert_eq!(host.adds.len(), 0, "the hypervisor was never called");
}

#[test]
fn scenario_link3_queues4_vhost_attach_and_detach() {
    let mut ep = endpoint(3, 4);
    let cfg = HypervisorConfig {
        default_vcpus: 4,
        disable_vhost_net: false,
    };
    let mut host = MockHost::new();
    drive_attach(&mut ep, &cfg, &mut host).expect("attach should succeed");
    assert_eq!(host.opens.iter().filter(|p| *p == "/dev/tap3").count(), 4);
    assert_eq!(
        host.opens.iter().filter(|p| *p == "/dev/vhost-net").count(),
        4
    );
    assert_eq!(host.adds.len(), 1);
    assert_eq!(host.open_fds.len(), 8);

    drive_detach(&mut ep, &mut host).expect("detach should succeed");
    assert_eq!(host.removes.len(), 1, "exactly one device entry is removed");
    assert_eq!(host.removes[0], host.adds[0], "the same config is removed");
    assert_eq!(host.closes, 8, "all eight descriptors are closed");
    assert_eq!(host.open_fds.len(), 0);
    assert!(!ep.attached);
    assert_eq!(ep.vm_fds.len(), 0);
    assert_eq!(ep.vhost_fds.len(), 0);
}

#[test]
fn cancellation_mid_attach_leaks_nothing() {
    let mut ep = endpoint(3, 4);
    let cfg = HypervisorConfig {
        default_vcpus: 4,
        disable_vhost_net: false,
    };
    let mut host = MockHost::new();
    let mut flow = ep.start_attach(&cfg).expect("attach starts");
    let mut performed = 0;
    loop {
        if performed == 3 {
            flow.cancel(String::from("workflow cancelled"));
            performed += 1;
            continue;
        }
        match flow.next_action() {
            FlowAction::OpenDevice { path } => {
                let fd = host.try_open(path).expect("mock opens succeed");
                flow.on_opened(fd);
                performed += 1;
            }
            FlowAction::CloseHandle { fd } => {
                host.close(fd);
                flow.on_closed();
            }
            FlowAction::Finished => break,
            _ => unreachable!("a cancelled attach only opens and closes"),
        }
    }
    let err = ep.attach_finish(flow).expect_err("cancellation is surfaced");
    assert!(matches!(err, NetError::ResourceExhaustion(_)));
    assert_eq!(host.open_fds.len(), 0, "no descriptor leaks on cancellation");
    assert_eq!(host.closes, 3);
    assert!(!ep.attached);
}

#[test]
fn detach_closes_descriptors_even_when_remove_is_refused() {
    let mut ep = endpoint(5, 2);
    let cfg = HypervisorConfig {
        default_vcpus: 2,
        disable_vhost_net: false,
    };
    let mut host = MockHost::new();
    drive_attach(&mut ep, &cfg, &mut host).expect("attach should succeed");
    host.reject_remove = true;
    let err = drive_detach(&mut ep, &mut host).expect_err("the refusal is surfaced");
    assert!(matches!(err, NetError::HypervisorRejection(_)));
    assert_eq!(host.open_fds.len(), 0, "descriptors are closed regardless");
    assert!(!ep.attached);
}
