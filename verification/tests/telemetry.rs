use komari_monitor_rs::data_struct::{
    BasicInfo, Connections, Disk, HostFacts, Network, PushError, Ram, Swap, AGENT_NAME, USER_AGENT,
};

fn facts() -> HostFacts {
    HostFacts {
        arch: "x86_64".to_string(),
        cpu_name: "Example CPU @ 3.00GHz".to_string(),
        cpu_cores: 8,
        disk_total: 512_000_000_000,
        swap_total: 2_147_483_648,
        mem_total: 17_179_869_184,
        ipv4: Some("192.0.2.10".to_string()),
        ipv6: None,
        os: "Debian GNU/Linux".to_string(),
        os_version: "12".to_string(),
        virtualization: "kvm".to_string(),
    }
}

#[test]
fn build_joins_and_hands_through() {
    let info = BasicInfo::build(facts(), "1.2.3");
    assert_eq!(
        info,
        BasicInfo {
            arch: "x86_64".to_string(),
            cpu_cores: 8,
            cpu_name: "Example CPU @ 3.00GHz".to_string(),
            gpu_name: String::new(),
            disk_total: 512_000_000_000,
            swap_total: 2_147_483_648,
            mem_total: 17_179_869_184,
            ipv4: Some("192.0.2.10".to_string()),
            ipv6: None,
            os: "Debian GNU/Linux 12".to_string(),
            version: "komari-monitor-rs 1.2.3".to_string(),
            virtualization: "kvm".to_string(),
        }
    );
}

#[test]
fn build_keeps_the_space_when_a_part_is_empty() {
    let mut f = facts();
    f.os = String::new();
    f.os_version = String::new();
    f.ipv4 = None;
    f.ipv6 = Some("2001:db8::1".to_string());
    let info = BasicInfo::build(f, "");
    assert_eq!(info.os, " ");
    assert_eq!(info.version, "komari-monitor-rs ");
    assert_eq!(info.ipv4, None);
    assert_eq!(info.ipv6, Some("2001:db8::1".to_string()));
    assert_eq!(info.gpu_name, "");
}

#[test]
fn build_keeps_the_largest_counts() {
    let mut f = facts();
    f.cpu_cores = u64::MAX;
    f.disk_total = u64::MAX;
    f.swap_total = 0;
    f.mem_total = u64::MAX - 1;
    let info = BasicInfo::build(f, "0.0.0");
    assert_eq!(info.cpu_cores, u64::MAX);
    assert_eq!(info.disk_total, u64::MAX);
    assert_eq!(info.swap_total, 0);
    assert_eq!(info.mem_total, u64::MAX - 1);
}

#[test]
fn agent_constants() {
    assert_eq!(AGENT_NAME, "komari-monitor-rs");
    assert_eq!(USER_AGENT, "curl/11.45.14-rs");
}

#[test]
fn push_succeeds_on_2xx() {
    assert_eq!(BasicInfo::push(Some(200)), Ok(()));
    assert_eq!(BasicInfo::push(Some(204)), Ok(()));
    assert_eq!(BasicInfo::push(Some(299)), Ok(()));
}

#[test]
fn push_fails_on_any_other_status() {
    assert_eq!(BasicInfo::push(Some(199)), Err(PushError::Status));
    assert_eq!(BasicInfo::push(Some(300)), Err(PushError::Status));
    assert_eq!(BasicInfo::push(Some(401)), Err(PushError::Status));
    assert_eq!(BasicInfo::push(Some(503)), Err(PushError::Status));
}

#[test]
fn push_fails_without_a_response() {
    assert_eq!(BasicInfo::push(None), Err(PushError::Post));
}

#[test]
fn push_errors_have_their_texts() {
    assert_eq!(PushError::Post.message(), "推送 Basic Info Post 时发生错误");
    assert_eq!(PushError::Status.message(), "推送 Basic Info 时发生错误");
}

#[test]
fn realtime_records_hold_their_fields() {
    let ram = Ram { used: 1 };
    let swap = Swap { used: 2 };
    let disk = Disk { used: 3 };
    let network = Network { up: 4, down: 5, total_up: 6, total_down: 7 };
    let connections = Connections { tcp: 8, udp: 9 };
    assert_eq!(ram.used + swap.used + disk.used, 6);
    assert_eq!(network.up + network.down + network.total_up + network.total_down, 22);
    assert_eq!(connections.tcp + connections.udp, 17);
    assert_eq!(network, Network { up: 4, down: 5, total_up: 6, total_down: 7 });
}
