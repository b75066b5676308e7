use lan_mouse::config::{Client, Clients, Config, Direction};
use lan_mouse::resolve::{resolve, PeerPlan};
use lan_mouse::DEFAULT_PORT;

fn client(host_name: Option<&str>, ip: Option<&str>, port: Option<u32>) -> Client {
    Client {
        host_name: host_name.map(str::to_string),
        ip: ip.map(str::to_string),
        port,
    }
}

fn four_corners() -> Clients {
    Clients {
        left: Some(client(None, Some("10.0.0.1"), None)),
        right: Some(client(Some("right.local"), None, Some(4000))),
        top: None,
        bottom: Some(client(None, None, None)),
    }
}

#[test]
fn effective_port_defaults_to_well_known() {
    let config = Config { client: four_corners(), port: None };
    assert_eq!(config.effective_port(), DEFAULT_PORT);
    assert_eq!(config.effective_port(), 42069);
}

#[test]
fn effective_port_honours_override() {
    let config = Config { client: four_corners(), port: Some(5555) };
    assert_eq!(config.effective_port(), 5555);
}

#[test]
fn directions_select_their_entries() {
    let clients = four_corners();
    assert_eq!(
        clients.get(Direction::Left).as_ref().unwrap().ip.as_deref(),
        Some("10.0.0.1")
    );
    assert_eq!(
        clients.get(Direction::Right).as_ref().unwrap().host_name.as_deref(),
        Some("right.local")
    );
    assert!(clients.get(Direction::Top).is_none());
    let bottom = clients.get(Direction::Bottom).as_ref().unwrap();
    assert!(bottom.ip.is_none() && bottom.host_name.is_none());
}

#[test]
fn absent_entry_is_inert() {
    let plan = resolve(&None).expect("an absent entry is not an error");
    assert!(plan.is_none());
}

#[test]
fn literal_address_is_used_directly() {
    let entry = Some(client(None, Some("192.168.0.2"), None));
    match resolve(&entry) {
        Ok(Some(PeerPlan::Literal { ip, port })) => {
            assert_eq!(ip, "192.168.0.2");
            assert_eq!(port, 42069, "the port defaults when unspecified");
        }
        other => panic!("expected a literal plan, got {:?}", other.is_ok()),
    }
}

#[test]
fn literal_address_wins_over_host_name() {
    let entry = Some(client(Some("fallback.local"), Some("172.16.0.9"), Some(7)));
    match resolve(&entry) {
        Ok(Some(PeerPlan::Literal { ip, port })) => {
            assert_eq!(ip, "172.16.0.9");
            assert_eq!(port, 7);
        }
        other => panic!("expected a literal plan, got {:?}", other.is_ok()),
    }
}

#[test]
fn host_name_alone_asks_for_lookup() {
    let entry = Some(client(Some("peer.example"), None, Some(1234)));
    match resolve(&entry) {
        Ok(Some(PeerPlan::Lookup { host, port })) => {
            assert_eq!(host, "peer.example");
            assert_eq!(port, 1234);
        }
        other => panic!("expected a lookup plan, got {:?}", other.is_ok()),
    }
}

#[test]
fn bare_entry_is_a_configuration_error() {
    let entry = Some(client(None, None, Some(9)));
    assert!(resolve(&entry).is_err());
}
