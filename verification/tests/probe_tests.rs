use wlt_helper::error::Error;
use wlt_helper::probe::{probe_start, AddressReport, ProbeAction, ProbeEvent, ProbeState};

fn connection(kind: &str, has_device: bool) -> ProbeEvent {
    ProbeEvent::Connection {
        primary: "/org/freedesktop/NetworkManager/ActiveConnection/3".to_string(),
        kind: kind.to_string(),
        has_device,
    }
}

/// Feeds the events in turn; returns the final action.
fn drive(events: Vec<ProbeEvent>) -> ProbeAction {
    let (mut state, mut action) = probe_start();
    assert!(matches!(action, ProbeAction::QueryConnection));
    for event in events {
        assert!(state.accepts(&event));
        let (s, a) = state.step(event);
        state = s;
        action = a;
    }
    action
}

fn verdict(action: ProbeAction) -> Result<bool, Error> {
    match action {
        ProbeAction::Finish(r) => r,
        other => panic!("not finished: {:?}", other),
    }
}

#[test]
fn wired_campus_address_needs_login() {
    let a = drive(vec![
        connection("802-3-ethernet", true),
        ProbeEvent::Connectivity(2),
        ProbeEvent::Address(AddressReport::Text("114.214.100.7".to_string())),
    ]);
    assert!(matches!(verdict(a), Ok(true)));
}

#[test]
fn wired_other_address_needs_no_login() {
    let a = drive(vec![
        connection("802-3-ethernet", true),
        ProbeEvent::Connectivity(3),
        ProbeEvent::Address(AddressReport::Text("192.168.1.4".to_string())),
    ]);
    assert!(matches!(verdict(a), Ok(false)));
}

#[test]
fn full_connectivity_needs_no_login() {
    for kind in ["802-3-ethernet", "802-11-wireless", "vpn"] {
        let a = drive(vec![connection(kind, true), ProbeEvent::Connectivity(4)]);
        assert!(matches!(verdict(a), Ok(false)));
    }
}

#[test]
fn wireless_campus_needs_login() {
    let a = drive(vec![
        connection("802-11-wireless", true),
        ProbeEvent::Connectivity(2),
        ProbeEvent::WirelessId("ustcnet".to_string()),
    ]);
    assert!(matches!(verdict(a), Ok(true)));
}

#[test]
fn other_wireless_needs_no_login() {
    let a = drive(vec![
        connection("802-11-wireless", true),
        ProbeEvent::Connectivity(1),
        ProbeEvent::WirelessId("eduroam".to_string()),
    ]);
    assert!(matches!(verdict(a), Ok(false)));
}

#[test]
fn connection_without_device_is_an_error() {
    let a = drive(vec![connection("802-3-ethernet", false)]);
    match verdict(a) {
        Err(Error::Other(m)) => {
            assert_eq!(m, "连接 /org/freedesktop/NetworkManager/ActiveConnection/3 无设备")
        }
        other => panic!("unexpected {:?}", other),
    }
}

#[test]
fn unknown_connection_type_is_an_error() {
    let a = drive(vec![connection("vpn", true), ProbeEvent::Connectivity(2)]);
    match verdict(a) {
        Err(Error::Other(m)) => assert_eq!(m, "未知的连接类型"),
        other => panic!("unexpected {:?}", other),
    }
}

#[test]
fn address_problems_are_errors() {
    let cases = vec![
        (AddressReport::NoAddress, "无可用 IP 信息".to_string()),
        (AddressReport::MissingField, "IP 地址数据缺失".to_string()),
        (
            AddressReport::NotText("IncorrectType".to_string()),
            "IP 地址类型转换失败：IncorrectType".to_string(),
        ),
    ];
    for (report, expected) in cases {
        let a = drive(vec![
            connection("802-3-ethernet", true),
            ProbeEvent::Connectivity(0),
            ProbeEvent::Address(report),
        ]);
        match verdict(a) {
            Err(Error::Other(m)) => assert_eq!(m, expected),
            other => panic!("unexpected {:?}", other),
        }
    }
}

#[test]
fn failures_end_the_probe() {
    let a = drive(vec![
        connection("802-3-ethernet", true),
        ProbeEvent::Failed(Error::Dbus("no bus".to_string())),
    ]);
    match verdict(a) {
        Err(Error::Dbus(m)) => assert_eq!(m, "no bus"),
        other => panic!("unexpected {:?}", other),
    }
}

#[test]
fn questions_follow_answers() {
    let (state, _) = probe_start();
    assert!(!state.accepts(&ProbeEvent::Connectivity(4)));
    let (state, action) = state.step(connection("802-3-ethernet", true));
    assert!(matches!(action, ProbeAction::QueryConnectivity));
    let (state, action) = state.step(ProbeEvent::Connectivity(2));
    assert!(matches!(action, ProbeAction::QueryAddress));
    assert!(matches!(state, ProbeState::AwaitAddress));
    let (state, _) = probe_start();
    let (state, _) = state.step(connection("802-11-wireless", true));
    let (state, action) = state.step(ProbeEvent::Connectivity(2));
    assert!(matches!(action, ProbeAction::QueryWirelessId));
    let (state, _) = state.step(ProbeEvent::WirelessId("x".to_string()));
    assert!(matches!(state, ProbeState::Finished));
    assert!(!state.accepts(&ProbeEvent::Failed(Error::Other("late".to_string()))));
}
