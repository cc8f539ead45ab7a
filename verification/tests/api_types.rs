use rrr::api::{WifiConnectionConfiguration, WifiConnectionType, WifiCredentials};

#[test]
fn default_connection_type_is_access_point() {
    assert_eq!(WifiConnectionType::default(), WifiConnectionType::StartAccessPoint);
}

#[test]
fn startup_without_stored_credentials_opens_default_access_point() {
    let c = WifiConnectionConfiguration::startup(None);
    assert_eq!(c.connection_type, WifiConnectionType::StartAccessPoint);
    assert_eq!(c.credentials.ssid, "RRR-wifi-0");
    assert_eq!(c.credentials.password, "12345678");
}

#[test]
fn startup_with_stored_credentials_joins_network() {
    let stored = WifiCredentials { ssid: "home".to_string(), password: "pw".to_string() };
    let c = WifiConnectionConfiguration::startup(Some(stored.clone()));
    assert_eq!(c.connection_type, WifiConnectionType::ConnectToExternal);
    assert_eq!(c.credentials, stored);
}

#[test]
fn without_password_blanks_only_the_password() {
    let c = WifiConnectionConfiguration {
        connection_type: WifiConnectionType::ConnectToExternal,
        credentials: WifiCredentials { ssid: "home".to_string(), password: "pw".to_string() },
    };
    let r = c.without_password();
    assert_eq!(r.connection_type, WifiConnectionType::ConnectToExternal);
    assert_eq!(r.credentials.ssid, "home");
    assert_eq!(r.credentials.password, "");
}

#[test]
fn default_configuration_is_empty_access_point() {
    let c = WifiConnectionConfiguration::default();
    assert_eq!(c.connection_type, WifiConnectionType::StartAccessPoint);
    assert_eq!(c.credentials, WifiCredentials { ssid: String::new(), password: String::new() });
    assert_eq!(WifiCredentials::default(), WifiCredentials { ssid: String::new(), password: String::new() });
}
