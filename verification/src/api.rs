//! Plain data shared between the firmware, the web front end and the
//! simulation: Wi-Fi credentials and how the radio should use them.
use vstd::prelude::*;

verus! {

/// Name and password of a Wi-Fi network.
#[derive(Clone, Debug, PartialEq, Eq)]
pub struct WifiCredentials {
    pub ssid: String,
    pub password: String,
}

/// Whether the board joins an existing network or opens its own.
#[derive(Clone, Copy, Debug, PartialEq, Eq, Structural)]
pub enum WifiConnectionType {
    ConnectToExternal,
    StartAccessPoint,
}

/// The radio mode together with the credentials it uses.
#[derive(Clone, Debug, PartialEq, Eq)]
pub struct WifiConnectionConfiguration {
    pub connection_type: WifiConnectionType,
    pub credentials: WifiCredentials,
}

impl Default for WifiConnectionType {
    /// A board with no settings opens its own access point.
    fn default() -> (r: Self)
        ensures
            r == WifiConnectionType::StartAccessPoint,
    {
        WifiConnectionType::StartAccessPoint
    }
}

impl Default for WifiCredentials {
    /// No name and no password.
    fn default() -> (r: Self)
        ensures
            r.ssid@ == Seq::<char>::empty(),
            r.password@ == Seq::<char>::empty(),
    {
        WifiCredentials { ssid: String::new(), password: String::new() }
    }
}

impl Default for WifiConnectionConfiguration {
    /// An access point with no name and no password.
    fn default() -> (r: Self)
        ensures
            r.connection_type == WifiConnectionType::StartAccessPoint,
            r.credentials.ssid@ == Seq::<char>::empty(),
            r.credentials.password@ == Seq::<char>::empty(),
    {
        WifiConnectionConfiguration { connection_type: WifiConnectionType::default(), credentials: WifiCredentials::default() }
    }
}

/// The credentials as character sequences.
pub struct CredentialsView {
    pub ssid: Seq<char>,
    pub password: Seq<char>,
}

/// A configuration as a mode and character sequences.
pub struct ConfigurationView {
    pub connection_type: WifiConnectionType,
    pub credentials: CredentialsView,
}

impl View for WifiCredentials {
    type V = CredentialsView;

    open spec fn view(&self) -> CredentialsView {
        CredentialsView { ssid: self.ssid@, password: self.password@ }
    }
}

impl View for WifiConnectionConfiguration {
    type V = ConfigurationView;

    open spec fn view(&self) -> ConfigurationView {
        ConfigurationView { connection_type: self.connection_type, credentials: self.credentials@ }
    }
}

/// Network name of the access point opened when no credentials are stored.
pub open spec fn default_ap_ssid() -> Seq<char> {
    "RRR-wifi-0"@
}

/// Password of the access point opened when no credentials are stored.
pub open spec fn default_ap_password() -> Seq<char> {
    "12345678"@
}

/// The configuration the board starts with, given what the settings store holds.
pub open spec fn startup_configuration_spec(stored: Option<CredentialsView>) -> ConfigurationView {
    match stored {
        None => ConfigurationView {
            connection_type: WifiConnectionType::StartAccessPoint,
            credentials: CredentialsView { ssid: default_ap_ssid(), password: default_ap_password() },
        },
        Some(c) => ConfigurationView {
            connection_type: WifiConnectionType::ConnectToExternal,
            credentials: c,
        },
    }
}

/// The view of optional credentials.
pub open spec fn stored_view(stored: Option<WifiCredentials>) -> Option<CredentialsView> {
    match stored {
        None => None,
        Some(c) => Some(c@),
    }
}

/// The board joins whatever network is stored, with exactly the stored name
/// and password, whatever they are; only when nothing is stored does it open
/// its default access point "RRR-wifi-0" with password "12345678".
pub proof fn lemma_startup_choice(stored: Option<CredentialsView>)
    ensures
        stored matches Some(c) ==> startup_configuration_spec(stored).connection_type
            == WifiConnectionType::ConnectToExternal && startup_configuration_spec(stored).credentials == c,
        stored is None ==> startup_configuration_spec(stored).connection_type == WifiConnectionType::StartAccessPoint
            && startup_configuration_spec(stored).credentials.ssid == "RRR-wifi-0"@
            && startup_configuration_spec(stored).credentials.password == "12345678"@,
{
}

impl WifiConnectionConfiguration {
    /// Chooses the radio configuration at start-up: with stored credentials the
    /// board joins that network, otherwise it opens the default access point.
    pub fn startup(stored: Option<WifiCredentials>) -> (r: WifiConnectionConfiguration)
        ensures
            r@ == startup_configuration_spec(stored_view(stored)),
            stored matches Some(c) ==> r.connection_type == WifiConnectionType::ConnectToExternal && r.credentials@
                == c@,
            stored is None ==> r.connection_type == WifiConnectionType::StartAccessPoint && r.credentials.ssid@
                == "RRR-wifi-0"@ && r.credentials.password@ == "12345678"@,
    {
        proof {
            lemma_startup_choice(stored_view(stored));
        }
        match stored {
            None => WifiConnectionConfiguration {
                connection_type: WifiConnectionType::StartAccessPoint,
                credentials: WifiCredentials {
                    ssid: "RRR-wifi-0".to_owned(),
                    password: "12345678".to_owned(),
                },
            },
            Some(creds) => WifiConnectionConfiguration {
                connection_type: WifiConnectionType::ConnectToExternal,
                credentials: creds,
            },
        }
    }

    /// The same configuration with the password blanked, as it is published in
    /// the board's state.
    pub fn without_password(&self) -> (r: WifiConnectionConfiguration)
        ensures
            r.connection_type == self.connection_type,
            r.credentials.ssid@ == self.credentials.ssid@,
            r.credentials.password@ == Seq::<char>::empty(),
    {
        WifiConnectionConfiguration {
            connection_type: self.connection_type,
            credentials: WifiCredentials { ssid: self.credentials.ssid.clone(), password: String::new() },
        }
    }
}

} // verus!
