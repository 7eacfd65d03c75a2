use machine_launcher::drivers::ipmi::{
    request_for, IpmiClient, IpmiDriver, CLIENT_RENEW_PERIOD, CMD_CHASSIS_CONTROL,
    CMD_CHASSIS_STATUS, NETFN_CHASSIS, POWER_OFF, POWER_ON,
};
use machine_launcher::drivers::traits::{
    Call, Completion, Exchange, Operation, Outcome, PowerManagerTrait, PowerStatus, Progress,
    RawRequest, SessionRequest,
};
use machine_launcher::Error;

fn driver_at(now: i64) -> IpmiDriver {
    IpmiDriver::established(
        "bmc".to_string(),
        "192.168.88.10:623".to_string(),
        "admin".to_string(),
        "secret".to_string(),
        Ok(()),
        now,
    )
    .expect("a completed handshake")
}

fn fault(text: &str) -> Error {
    Error::InternalServerError(text.to_string())
}

fn status_request() -> Progress {
    Progress::Ask(Exchange::Chassis(RawRequest { netfn: 0x00, cmd: 0x01, data: None }))
}

fn handshake() -> Progress {
    Progress::Ask(Exchange::Handshake(SessionRequest {
        server_addr: "192.168.88.10:623".to_string(),
        username: "admin".to_string(),
        password: "secret".to_string(),
    }))
}

fn status(running: bool) -> Progress {
    Progress::Finished(Ok(Completion::Status(PowerStatus {
        name: "bmc".to_string(),
        hostname: "192.168.88.10:623".to_string(),
        running,
        reason: None,
    })))
}

#[test]
fn requests_of_the_three_operations() {
    assert_eq!(request_for(Operation::Status), RawRequest { netfn: 0x00, cmd: 0x01, data: None });
    assert_eq!(
        request_for(Operation::Start),
        RawRequest { netfn: 0x00, cmd: 0x02, data: Some(vec![0x01]) }
    );
    assert_eq!(
        request_for(Operation::Stop),
        RawRequest { netfn: 0x00, cmd: 0x02, data: Some(vec![0x00]) }
    );
    assert_eq!(NETFN_CHASSIS, 0x00);
    assert_eq!(CMD_CHASSIS_STATUS, 0x01);
    assert_eq!(CMD_CHASSIS_CONTROL, 0x02);
    assert_eq!(POWER_ON, 0x01);
    assert_eq!(POWER_OFF, 0x00);
    assert_eq!(CLIENT_RENEW_PERIOD, 60);
}

#[test]
fn two_calls_within_the_period_reuse_the_session() {
    let mut driver = driver_at(1_000);
    assert_eq!(driver.status(1_010), status_request());
    let call = Call { op: Operation::Status, at: 1_010 };
    assert_eq!(driver.resume(&call, Outcome::Chassis(Ok(Some(vec![0x01])))), status(true));
    assert_eq!(driver.status(1_050), status_request());
}

#[test]
fn session_of_exactly_the_period_is_reused() {
    let mut driver = driver_at(1_000);
    assert_eq!(driver.status(1_060), status_request());
    assert_eq!(driver.status(1_061), handshake());
}

#[test]
fn call_after_the_period_renews_once() {
    let mut driver = driver_at(1_000);
    assert_eq!(driver.status(1_100), handshake());
    let call = Call { op: Operation::Status, at: 1_100 };
    assert_eq!(driver.resume(&call, Outcome::Handshake(Ok(()))), status_request());
    assert_eq!(driver.resume(&call, Outcome::Chassis(Ok(Some(vec![0x01])))), status(true));
    assert_eq!(driver.status(1_160), status_request());
    assert_eq!(driver.status(1_161), handshake());
}

#[test]
fn calls_close_together_may_still_renew() {
    let mut driver = driver_at(0);
    assert_eq!(driver.status(50), status_request());
    let call = Call { op: Operation::Status, at: 50 };
    assert_eq!(driver.resume(&call, Outcome::Chassis(Ok(Some(vec![0x01])))), status(true));
    assert_eq!(driver.status(100), handshake());
}

#[test]
fn failed_renewal_aborts_the_call() {
    let mut driver = driver_at(1_000);
    assert_eq!(driver.start(2_000), handshake());
    let call = Call { op: Operation::Start, at: 2_000 };
    assert_eq!(
        driver.resume(
            &call,
            Outcome::Handshake(Err("Failed to connect to IPMI Server due to: refused".to_string()))
        ),
        Progress::Finished(Err(fault(
            "IPMIClientError: Failed to connect to IPMI Server due to: refused"
        )))
    );
    assert_eq!(driver.start(2_000), handshake());
    assert_eq!(driver.start(1_060), Progress::Ask(Exchange::Chassis(request_for(Operation::Start))));
}

#[test]
fn start_and_stop_read_nothing_back() {
    let mut driver = driver_at(1_000);
    assert_eq!(
        driver.start(1_001),
        Progress::Ask(Exchange::Chassis(RawRequest {
            netfn: 0x00,
            cmd: 0x02,
            data: Some(vec![0x01])
        }))
    );
    let start = Call { op: Operation::Start, at: 1_001 };
    assert_eq!(
        driver.resume(&start, Outcome::Chassis(Ok(None))),
        Progress::Finished(Ok(Completion::Accepted))
    );
    assert_eq!(
        driver.stop(1_002),
        Progress::Ask(Exchange::Chassis(RawRequest {
            netfn: 0x00,
            cmd: 0x02,
            data: Some(vec![0x00])
        }))
    );
    let stop = Call { op: Operation::Stop, at: 1_002 };
    assert_eq!(
        driver.resume(&stop, Outcome::Chassis(Ok(Some(vec![0xC1])))),
        Progress::Finished(Ok(Completion::Accepted))
    );
}

#[test]
fn status_byte_one_means_running() {
    let driver = driver_at(0);
    assert_eq!(
        driver.decode(Operation::Status, Some(vec![0x01])),
        Ok(Completion::Status(PowerStatus {
            name: "bmc".to_string(),
            hostname: "192.168.88.10:623".to_string(),
            running: true,
            reason: None,
        }))
    );
    assert_eq!(
        Progress::Finished(driver.decode(Operation::Status, Some(vec![0x01, 0x00, 0x40]))),
        status(true)
    );
}

#[test]
fn any_other_status_byte_means_off() {
    let driver = driver_at(0);
    for byte in [0x00u8, 0x02, 0x21, 0x41, 0x80, 0xFF] {
        assert_eq!(
            Progress::Finished(driver.decode(Operation::Status, Some(vec![byte]))),
            status(false),
            "{:#x}",
            byte
        );
    }
    assert_eq!(
        Progress::Finished(driver.decode(Operation::Status, Some(vec![0x00, 0x01]))),
        status(false)
    );
}

#[test]
fn status_without_data_is_an_error() {
    let mut driver = driver_at(0);
    let call = Call { op: Operation::Status, at: 1 };
    let empty = fault("Invalid response received: data is empty");
    assert_eq!(
        driver.resume(&call, Outcome::Chassis(Ok(None))),
        Progress::Finished(Err(empty.clone()))
    );
    assert_eq!(
        driver.resume(&call, Outcome::Chassis(Ok(Some(vec![])))),
        Progress::Finished(Err(empty.clone()))
    );
    assert_eq!(driver.decode(Operation::Status, None), Err(empty));
}

#[test]
fn failed_request_is_an_error_with_its_cause() {
    let mut driver = driver_at(0);
    for op in [Operation::Start, Operation::Status, Operation::Stop] {
        let call = Call { op, at: 1 };
        assert_eq!(
            driver.resume(
                &call,
                Outcome::Chassis(Err(
                    "Didn't recieve a response from remote controller".to_string()
                ))
            ),
            Progress::Finished(Err(fault(
                "IPMIClientError: Didn't recieve a response from remote controller"
            )))
        );
    }
}

#[test]
fn ipmi_rejects_an_outcome_it_did_not_ask_for() {
    let mut driver = driver_at(0);
    let call = Call { op: Operation::Status, at: 1 };
    let unexpected = Progress::Finished(Err(fault("unexpected outcome")));
    assert_eq!(driver.resume(&call, Outcome::Sent(Ok(()))), unexpected);
    assert_eq!(driver.resume(&call, Outcome::Echo(Ok(()))), unexpected);
    assert_eq!(driver.status(1), status_request());
}

#[test]
fn failed_first_handshake_gives_no_backend() {
    let made = IpmiDriver::established(
        "bmc".to_string(),
        "192.168.88.10:623".to_string(),
        "admin".to_string(),
        "wrong".to_string(),
        Err("Failed to validate RAKP Message 2. This could be due to an incorrect password."
            .to_string()),
        5,
    );
    assert_eq!(
        made.err(),
        Some(fault(
            "IPMIClientError: Failed to validate RAKP Message 2. This could be due to an incorrect password."
        ))
    );
}

#[test]
fn renewal_is_due_after_more_than_the_period() {
    let client = IpmiClient::established(
        "h:623".to_string(),
        "u".to_string(),
        "p".to_string(),
        Ok(()),
        500,
    )
    .unwrap();
    assert!(!client.renewal_due(500));
    assert!(!client.renewal_due(560));
    assert!(client.renewal_due(561));
    assert!(!client.renewal_due(0));
    assert!(!client.renewal_due(i64::MIN));
    assert!(client.renewal_due(i64::MAX));
}

#[test]
fn renewal_is_decided_without_overflow() {
    let oldest = IpmiClient::established(
        "h:623".to_string(),
        "u".to_string(),
        "p".to_string(),
        Ok(()),
        i64::MIN,
    )
    .unwrap();
    assert!(oldest.renewal_due(i64::MAX));
    assert!(oldest.renewal_due(0));
    assert!(!oldest.renewal_due(i64::MIN + 60));
    assert!(oldest.renewal_due(i64::MIN + 61));
    let newest = IpmiClient::established(
        "h:623".to_string(),
        "u".to_string(),
        "p".to_string(),
        Ok(()),
        i64::MAX,
    )
    .unwrap();
    assert!(!newest.renewal_due(i64::MIN));
    assert!(!newest.renewal_due(i64::MAX));
}

#[test]
fn renew_stamps_the_session_only_on_success() {
    let mut client = IpmiClient::established(
        "h:623".to_string(),
        "u".to_string(),
        "p".to_string(),
        Ok(()),
        500,
    )
    .unwrap();
    assert_eq!(
        client.renew(700, Err("Session not established yet".to_string())),
        Err(fault("IPMIClientError: Session not established yet"))
    );
    assert!(client.renewal_due(700));
    assert_eq!(client.renew(700, Ok(())), Ok(()));
    assert!(!client.renewal_due(700));
    assert!(!client.renewal_due(760));
    assert!(client.renewal_due(761));
    assert_eq!(
        client.credentials(),
        SessionRequest {
            server_addr: "h:623".to_string(),
            username: "u".to_string(),
            password: "p".to_string(),
        }
    );
}

#[test]
fn new_session_is_stamped_by_the_clock() {
    let mut driver = IpmiDriver::new(
        "bmc".to_string(),
        "192.168.88.10:623".to_string(),
        "admin".to_string(),
        "secret".to_string(),
        Ok(()),
    )
    .unwrap();
    assert_eq!(driver.name(), "bmc");
    let call = Call::begin(Operation::Status);
    assert_eq!(driver.status(call.at), status_request());
    assert_eq!(
        driver.client().credentials(),
        SessionRequest {
            server_addr: "192.168.88.10:623".to_string(),
            username: "admin".to_string(),
            password: "secret".to_string(),
        }
    );
    let failed = IpmiClient::new(
        "h:623".to_string(),
        "u".to_string(),
        "p".to_string(),
        Err("This library does not support IPMI v1.5".to_string()),
    );
    assert_eq!(
        failed.err(),
        Some(fault("IPMIClientError: This library does not support IPMI v1.5"))
    );
}
