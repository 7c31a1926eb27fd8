use sandbox_net::endpoint::MacVTapEndpoint;
use sandbox_net::flow::{FlowAction, HypervisorConfig};
use sandbox_net::pair::HostInterface;
use sandbox_net::persist::EndpointState;

fn endpoint() -> MacVTapEndpoint {
    let tap = HostInterface {
        name: String::from("eth0"),
        hard_addr: String::from("02:42:ac:11:00:02"),
        mtu: 1500,
    };
    MacVTapEndpoint::new(tap, "uplink", 3, 4)
}

fn attach_quietly(ep: &mut MacVTapEndpoint, cfg: &HypervisorConfig) {
    let mut flow = ep.start_attach(cfg).expect("attach starts");
    let mut next_fd = 10;
    loop {
        match flow.next_action() {
            FlowAction::OpenDevice { .. } => {
                flow.on_opened(next_fd);
                next_fd += 1;
            }
            FlowAction::AddDevice => flow.on_device_added(),
            FlowAction::Finished => break,
            _ => unreachable!("a successful attach only opens and adds"),
        }
    }
    ep.attach_finish(flow).expect("attach finishes");
}

#[test]
fn save_is_nonempty_and_macvtap_tagged_before_and_after_attach() {
    let mut ep = endpoint();
    let before = ep.save().expect("a snapshot is always produced");
    let EndpointState::MacVTap(before) = before;
    assert!(!before.iface_name.is_empty());
    assert!(!before.hard_addr.is_empty());
    assert!(!before.vhost_enabled);

    let cfg = HypervisorConfig {
        default_vcpus: 4,
        disable_vhost_net: false,
    };
    attach_quietly(&mut ep, &cfg);

    let after = ep.save().expect("a snapshot is always produced");
    let EndpointState::MacVTap(after) = after;
    assert!(!after.iface_name.is_empty());
    assert_eq!(after.iface_name, before.iface_name);
    assert_eq!(after.tap_name, before.tap_name);
    assert_eq!(after.hard_addr, before.hard_addr);
    assert_eq!(after.queues, 4);
    assert!(after.vhost_enabled);
}

#[test]
fn restored_endpoint_derives_an_identical_config() {
    let ep = endpoint();
    let EndpointState::MacVTap(state) = ep.save().expect("snapshot");
    let restored = MacVTapEndpoint::restore(&state);

    let original = ep.get_network_config().expect("original config derives");
    let rebuilt = restored.get_network_config().expect("restored config derives");
    assert_eq!(rebuilt.id, original.id);
    assert_eq!(rebuilt.host_dev_name, original.host_dev_name);
    assert_eq!(
        rebuilt.guest_mac.as_ref().map(|m| m.bytes.clone()),
        original.guest_mac.as_ref().map(|m| m.bytes.clone())
    );
    assert!(!restored.attached);
    assert_eq!(restored.vm_fds.len(), 0);
}

#[test]
fn restored_endpoint_attaches_to_the_same_config() {
    let mut ep = endpoint();
    let cfg = HypervisorConfig {
        default_vcpus: 4,
        disable_vhost_net: false,
    };
    attach_quietly(&mut ep, &cfg);
    let original = ep.get_network_config().expect("config derives");

    let EndpointState::MacVTap(state) = ep.save().expect("snapshot");
    let mut restored = MacVTapEndpoint::restore(&state);
    attach_quietly(&mut restored, &cfg);
    let rebuilt = restored.get_network_config().expect("config derives");
    assert_eq!(rebuilt.id, original.id);
    assert_eq!(rebuilt.host_dev_name, original.host_dev_name);
    assert_eq!(
        rebuilt.guest_mac.map(|m| m.bytes),
        original.guest_mac.map(|m| m.bytes)
    );
    assert_eq!(restored.vm_fds.len(), ep.vm_fds.len());
}

#[test]
fn name_and_hardware_addr_are_the_guest_side() {
    let ep = endpoint();
    assert_eq!(ep.name(), "uplink");
    assert_eq!(ep.hardware_addr(), "02:42:ac:11:00:02");
}
