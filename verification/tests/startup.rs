use machine_launcher::cmd::{Config, DriverDebug, DriverIpmi, DriverType, DriverWol, OidcConfig};
use machine_launcher::drivers::traits::{
    Call, Completion, Exchange, Operation, PowerStatus, Progress, SessionRequest,
};
use machine_launcher::drivers::Backend;
use machine_launcher::registry::Registry;
use machine_launcher::startup::StartupStep;
use machine_launcher::Error;

fn config(drivers: Vec<DriverType>) -> Config {
    Config {
        url: "https://launcher.example.com".to_string(),
        oidc: OidcConfig {
            provider_url: "https://idp.example.com".to_string(),
            client_id: "launcher".to_string(),
            client_secret: "SECRET-REDACTED".to_string(),
            role_attribute_path: "contains(roles[*], 'admin')".to_string(),
        },
        drivers,
    }
}

fn debug(name: &str) -> DriverType {
    DriverType::Debug(DriverDebug { name: name.to_string() })
}

fn wol(name: &str, mac: &str, ip: &str) -> DriverType {
    DriverType::Wol(DriverWol {
        name: name.to_string(),
        mac_addr: mac.to_string(),
        ip_addr: ip.to_string(),
    })
}

fn ipmi(name: &str, addr: &str) -> DriverType {
    DriverType::Ipmi(DriverIpmi {
        name: name.to_string(),
        server_addr: addr.to_string(),
        username: "admin".to_string(),
        password: "secret".to_string(),
    })
}

fn ready(step: StartupStep) -> Registry {
    match step {
        StartupStep::Ready(registry) => registry,
        other => panic!("not ready: {:?}", other),
    }
}

#[test]
fn end_to_end_debug_and_wol() {
    let mut registry = ready(Registry::from_config(config(vec![
        debug("a"),
        wol("b", "AA:BB:CC:DD:EE:FF", "10.0.0.5"),
    ])));
    assert_eq!(registry.len(), 2);
    let stop = Call { op: Operation::Stop, at: 0 };
    assert_eq!(registry.begin("b", &stop), Progress::Finished(Err(Error::NotImplemented())));
    let start = Call { op: Operation::Start, at: 0 };
    assert_eq!(registry.begin("a", &start), Progress::Finished(Ok(Completion::Accepted)));
    let status = Call { op: Operation::Status, at: 0 };
    match registry.begin("a", &status) {
        Progress::Finished(Ok(Completion::Status(status))) => {
            assert_eq!(status.name, "a");
            assert!(status.running);
            assert_eq!(status.reason, None);
        }
        other => panic!("no status: {:?}", other),
    }
}

#[test]
fn empty_config_gives_an_empty_registry() {
    let registry = ready(Registry::from_config(config(vec![])));
    assert_eq!(registry.len(), 0);
}

#[test]
fn malformed_mac_fails_startup() {
    let step = Registry::from_config(config(vec![
        debug("a"),
        wol("b", "AA:BB:CC:DD:EE:GG", "10.0.0.5"),
        debug("c"),
    ]));
    match step {
        StartupStep::Failed(e) => assert_eq!(
            e,
            Error::InternalServerError("WakeyError: Invalid MAC address format".to_string())
        ),
        other => panic!("not failed: {:?}", other),
    }
    let step = Registry::from_config(config(vec![wol("b", "AA:BB:CC:DD:EE", "10.0.0.5")]));
    match step {
        StartupStep::Failed(e) => assert_eq!(
            e,
            Error::InternalServerError("WakeyError: Invalid MAC address length".to_string())
        ),
        other => panic!("not failed: {:?}", other),
    }
}

#[test]
fn malformed_ip_fails_startup() {
    let step = Registry::from_config(config(vec![
        debug("a"),
        wol("b", "AA:BB:CC:DD:EE:FF", "10.0.0.500"),
    ]));
    match step {
        StartupStep::Failed(e) => {
            assert_eq!(e, Error::InternalServerError("invalid IP address syntax".to_string()))
        }
        other => panic!("not failed: {:?}", other),
    }
}

#[test]
fn duplicate_name_keeps_the_later_entry() {
    let registry = ready(Registry::from_config(config(vec![
        debug("a"),
        debug("b"),
        wol("a", "01:02:03:04:05:06", "10.0.0.7"),
    ])));
    assert_eq!(registry.len(), 2);
    assert!(matches!(registry.get("a"), Some(Backend::WakeOnLan(_))));
    assert!(matches!(registry.get("b"), Some(Backend::Debug(_))));
}

#[test]
fn ipmi_entry_waits_for_its_handshake() {
    let step = Registry::from_config(config(vec![
        debug("a"),
        ipmi("bmc", "192.168.88.10:623"),
        debug("z"),
    ]));
    let startup = match step {
        StartupStep::Ask(request, startup) => {
            assert_eq!(
                request,
                SessionRequest {
                    server_addr: "192.168.88.10:623".to_string(),
                    username: "admin".to_string(),
                    password: "secret".to_string(),
                }
            );
            startup
        }
        other => panic!("no handshake asked: {:?}", other),
    };
    let mut registry = ready(startup.resume_at(Ok(()), 1_000));
    assert_eq!(registry.len(), 3);
    assert!(matches!(registry.get("bmc"), Some(Backend::Ipmi(_))));
    let fresh = Call { op: Operation::Status, at: 1_060 };
    assert!(matches!(registry.begin("bmc", &fresh), Progress::Ask(Exchange::Chassis(_))));
    let stale = Call { op: Operation::Status, at: 1_061 };
    assert!(matches!(registry.begin("bmc", &stale), Progress::Ask(Exchange::Handshake(_))));
    let status = Call { op: Operation::Status, at: 0 };
    assert!(matches!(
        registry.begin("z", &status),
        Progress::Finished(Ok(Completion::Status(PowerStatus { running: false, .. })))
    ));
}

#[test]
fn failed_handshake_fails_startup() {
    let step = Registry::from_config(config(vec![ipmi("bmc", "bmc.example.com:623"), debug("a")]));
    let startup = match step {
        StartupStep::Ask(_, startup) => startup,
        other => panic!("no handshake asked: {:?}", other),
    };
    match startup.resume_at(Err("Failed to bind due to: denied".to_string()), 5) {
        StartupStep::Failed(e) => assert_eq!(
            e,
            Error::InternalServerError("IPMIClientError: Failed to bind due to: denied".to_string())
        ),
        other => panic!("not failed: {:?}", other),
    }
}

#[test]
fn each_ipmi_entry_asks_in_turn() {
    let step = Registry::from_config(config(vec![
        ipmi("one", "10.0.0.1:623"),
        ipmi("two", "10.0.0.2:623"),
        wol("w", "AA:BB:CC:DD:EE:FF", "10.0.0.5"),
    ]));
    let startup = match step {
        StartupStep::Ask(request, startup) => {
            assert_eq!(request.server_addr, "10.0.0.1:623");
            startup
        }
        other => panic!("no handshake asked: {:?}", other),
    };
    let startup = match startup.resume_at(Ok(()), 10) {
        StartupStep::Ask(request, startup) => {
            assert_eq!(request.server_addr, "10.0.0.2:623");
            startup
        }
        other => panic!("no handshake asked: {:?}", other),
    };
    let registry = ready(startup.resume(Ok(())));
    assert_eq!(registry.len(), 3);
    assert!(registry.get("one").is_some());
    assert!(registry.get("two").is_some());
    assert!(registry.get("w").is_some());
}

#[test]
fn bad_mac_after_an_ipmi_entry_fails_startup() {
    let step = Registry::from_config(config(vec![
        ipmi("one", "10.0.0.1:623"),
        wol("w", "not a mac address", "10.0.0.5"),
    ]));
    let startup = match step {
        StartupStep::Ask(_, startup) => startup,
        other => panic!("no handshake asked: {:?}", other),
    };
    assert!(matches!(startup.resume_at(Ok(()), 10), StartupStep::Failed(_)));
}
