use rrr::api::{WifiConnectionConfiguration, WifiConnectionType, WifiCredentials};
use rrr::wifi::{begin_wifi_setup, radio_config, ApAuth, RadioConfig, WifiSetupStep};

fn config(t: WifiConnectionType, ssid: &str, password: &str) -> WifiConnectionConfiguration {
    WifiConnectionConfiguration {
        connection_type: t,
        credentials: WifiCredentials { ssid: ssid.to_string(), password: password.to_string() },
    }
}

/// The calls made and the final step, answering with `outcomes` in turn.
fn run(requested: WifiConnectionConfiguration, outcomes: &[bool]) -> (Vec<String>, WifiSetupStep) {
    let mut calls = Vec::new();
    let mut step = begin_wifi_setup(requested);
    let mut answers = outcomes.iter();
    loop {
        let (name, next) = match step {
            WifiSetupStep::Configure { radio, next } => (format!("configure {:?}", radio), next),
            WifiSetupStep::Start { next } => ("start".to_string(), next),
            WifiSetupStep::Connect { next } => ("connect".to_string(), next),
            done => return (calls, done),
        };
        calls.push(name);
        step = next.resume(*answers.next().expect("ran out of outcomes"));
    }
}

fn fallback_ap() -> RadioConfig {
    RadioConfig::AccessPoint { ssid: "RRR-wifi".to_string(), password: String::new(), channel: 1, auth: ApAuth::Open }
}

#[test]
fn radio_config_for_access_point_uses_wpa2_on_channel_1() {
    let r = radio_config(&config(WifiConnectionType::StartAccessPoint, "RRR-wifi-0", "12345678"));
    assert_eq!(
        r,
        RadioConfig::AccessPoint {
            ssid: "RRR-wifi-0".to_string(),
            password: "12345678".to_string(),
            channel: 1,
            auth: ApAuth::Wpa2Personal
        }
    );
}

#[test]
fn radio_config_for_client() {
    let r = radio_config(&config(WifiConnectionType::ConnectToExternal, "home", "pw"));
    assert_eq!(r, RadioConfig::Client { ssid: "home".to_string(), password: "pw".to_string() });
}

#[test]
fn successful_connection_publishes_config_without_password() {
    let (calls, end) = run(config(WifiConnectionType::ConnectToExternal, "home", "pw"), &[true, true, true]);
    assert_eq!(calls.len(), 3);
    assert_eq!(calls[1], "start");
    assert_eq!(calls[2], "connect");
    match end {
        WifiSetupStep::Publish(state) => assert_eq!(state, config(WifiConnectionType::ConnectToExternal, "home", "")),
        _ => panic!(),
    }
}

#[test]
fn failed_connect_falls_back_to_open_access_point() {
    let (calls, end) = run(config(WifiConnectionType::ConnectToExternal, "home", "pw"), &[true, true, false, true, true]);
    assert_eq!(calls[3], format!("configure {:?}", fallback_ap()));
    assert_eq!(calls[4], "start");
    match end {
        WifiSetupStep::Publish(state) => assert_eq!(state, config(WifiConnectionType::StartAccessPoint, "RRR-wifi", "")),
        _ => panic!(),
    }
}

#[test]
fn failed_configuration_falls_back_immediately() {
    let (calls, end) = run(config(WifiConnectionType::ConnectToExternal, "home", "pw"), &[false, true, true]);
    assert_eq!(calls.len(), 3);
    assert_eq!(calls[1], format!("configure {:?}", fallback_ap()));
    assert!(matches!(end, WifiSetupStep::Publish(_)));
}

#[test]
fn failed_start_falls_back() {
    let (calls, _) = run(config(WifiConnectionType::StartAccessPoint, "ap", "12345678"), &[true, false, true, true]);
    assert_eq!(calls[2], format!("configure {:?}", fallback_ap()));
}

#[test]
fn failing_fallback_fails_the_setup() {
    let (_, end) = run(config(WifiConnectionType::ConnectToExternal, "home", "pw"), &[false, false]);
    assert!(matches!(end, WifiSetupStep::Fail));
    let (_, end) = run(config(WifiConnectionType::ConnectToExternal, "home", "pw"), &[false, true, false]);
    assert!(matches!(end, WifiSetupStep::Fail));
}

#[test]
fn access_point_also_connects_before_publishing() {
    let (calls, end) = run(config(WifiConnectionType::StartAccessPoint, "ap", "12345678"), &[true, true, true]);
    assert_eq!(calls[2], "connect");
    match end {
        WifiSetupStep::Publish(state) => assert_eq!(state, config(WifiConnectionType::StartAccessPoint, "ap", "")),
        _ => panic!(),
    }
}
