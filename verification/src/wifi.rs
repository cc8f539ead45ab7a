//! Bringing up the radio: which configuration is tried first, when the board
//! falls back to its own open access point, and what it then reports as its
//! Wi-Fi state.
//!
//! The radio belongs to the platform. Each step names the call to make; the
//! caller makes it and resumes the setup with whether the call succeeded.
use vstd::prelude::*;
use crate::api::{
    ConfigurationView, CredentialsView, WifiConnectionConfiguration, WifiConnectionType,
    WifiCredentials,
};

verus! {

/// How an access point authenticates stations.
#[derive(Clone, Copy, Debug, PartialEq, Eq, Structural)]
pub enum ApAuth {
    /// No password (the platform's default).
    Open,
    /// WPA2 with a pre-shared password.
    Wpa2Personal,
}

/// A configuration handed to the radio.
#[derive(Clone, Debug, PartialEq, Eq)]
pub enum RadioConfig {
    /// Open an access point.
    AccessPoint { ssid: String, password: String, channel: u8, auth: ApAuth },
    /// Join a network as a station, on whatever channel it uses.
    Client { ssid: String, password: String },
}

/// A radio configuration with character sequences.
pub enum RadioView {
    AccessPoint { ssid: Seq<char>, password: Seq<char>, channel: u8, auth: ApAuth },
    Client { ssid: Seq<char>, password: Seq<char> },
}

impl View for RadioConfig {
    type V = RadioView;

    open spec fn view(&self) -> RadioView {
        match self {
            RadioConfig::AccessPoint { ssid, password, channel, auth } => RadioView::AccessPoint {
                ssid: ssid@,
                password: password@,
                channel: *channel,
                auth: *auth,
            },
            RadioConfig::Client { ssid, password } => RadioView::Client { ssid: ssid@, password: password@ },
        }
    }
}

/// The radio configuration for a requested connection: an access point on
/// channel 1 with WPA2, or a station joining the named network.
pub open spec fn radio_config_spec(c: ConfigurationView) -> RadioView {
    match c.connection_type {
        WifiConnectionType::StartAccessPoint => RadioView::AccessPoint {
            ssid: c.credentials.ssid,
            password: c.credentials.password,
            channel: 1,
            auth: ApAuth::Wpa2Personal,
        },
        WifiConnectionType::ConnectToExternal => RadioView::Client {
            ssid: c.credentials.ssid,
            password: c.credentials.password,
        },
    }
}

/// Name of the open access point the board falls back to.
pub open spec fn fallback_ssid() -> Seq<char> {
    "RRR-wifi"@
}

/// The open access point the board falls back to when the requested
/// configuration cannot be brought up.
pub open spec fn fallback_radio_spec() -> RadioView {
    RadioView::AccessPoint { ssid: fallback_ssid(), password: Seq::empty(), channel: 1, auth: ApAuth::Open }
}

/// The Wi-Fi state reported after falling back.
pub open spec fn fallback_state_spec() -> ConfigurationView {
    ConfigurationView {
        connection_type: WifiConnectionType::StartAccessPoint,
        credentials: CredentialsView { ssid: fallback_ssid(), password: Seq::empty() },
    }
}

/// The Wi-Fi state reported when the requested configuration came up: the
/// configuration with its password blanked.
pub open spec fn published_state_spec(c: ConfigurationView) -> ConfigurationView {
    ConfigurationView {
        connection_type: c.connection_type,
        credentials: CredentialsView { ssid: c.credentials.ssid, password: Seq::empty() },
    }
}

/// The radio configuration for a requested connection (see [`radio_config_spec`]).
pub fn radio_config(c: &WifiConnectionConfiguration) -> (r: RadioConfig)
    ensures
        r@ == radio_config_spec(c@),
        c.connection_type == WifiConnectionType::ConnectToExternal ==> (r matches RadioConfig::Client {
            ssid,
            password,
        } && ssid@ == c.credentials.ssid@ && password@ == c.credentials.password@),
        c.connection_type == WifiConnectionType::StartAccessPoint ==> (r matches RadioConfig::AccessPoint {
            ssid,
            password,
            channel,
            auth,
        } && ssid@ == c.credentials.ssid@ && password@ == c.credentials.password@ && channel == 1 && auth
            == ApAuth::Wpa2Personal),
{
    proof {
        lemma_radio_keeps_credentials(c@);
    }
    match c.connection_type {
        WifiConnectionType::StartAccessPoint => RadioConfig::AccessPoint {
            ssid: c.credentials.ssid.clone(),
            password: c.credentials.password.clone(),
            channel: 1,
            auth: ApAuth::Wpa2Personal,
        },
        WifiConnectionType::ConnectToExternal => RadioConfig::Client {
            ssid: c.credentials.ssid.clone(),
            password: c.credentials.password.clone(),
        },
    }
}

/// The radio is handed the requested name and password unchanged, whatever
/// they are: as a station joining that network when the board is to join
/// one, as a WPA2 access point on channel 1 when it is to open one. The
/// first step of the setup hands exactly that configuration to the radio.
pub proof fn lemma_radio_keeps_credentials(c: ConfigurationView)
    ensures
        c.connection_type == WifiConnectionType::ConnectToExternal <==> radio_config_spec(c) is Client,
        radio_config_spec(c) matches RadioView::Client { ssid, password } ==> ssid == c.credentials.ssid
            && password == c.credentials.password,
        radio_config_spec(c) matches RadioView::AccessPoint { ssid, password, channel, auth } ==> ssid
            == c.credentials.ssid && password == c.credentials.password && channel == 1 && auth
            == ApAuth::Wpa2Personal,
        setup_begin_spec(c) matches SetupView::Configure { radio, stage, requested } ==> radio == radio_config_spec(c)
            && stage == SetupStage::Configuring && requested == c,
{
}

/// Where the setup stands.
#[derive(Clone, Copy, Debug, PartialEq, Eq, Structural)]
pub enum SetupStage {
    /// The requested configuration is being handed to the radio.
    Configuring,
    /// The radio is being started with it.
    Starting,
    /// The radio is connecting.
    Connecting,
    /// The fallback access point is being handed to the radio.
    ConfiguringFallback,
    /// The radio is being started as the fallback access point.
    StartingFallback,
}

/// Continuation of the setup: the stage and the requested configuration.
pub struct WifiSetup {
    stage: SetupStage,
    requested: WifiConnectionConfiguration,
}

/// A step of the setup, as a view.
pub enum SetupView {
    Configure { radio: RadioView, stage: SetupStage, requested: ConfigurationView },
    Start { stage: SetupStage, requested: ConfigurationView },
    Connect { stage: SetupStage, requested: ConfigurationView },
    Publish(ConfigurationView),
    Fail,
}

/// A step of the setup.
pub enum WifiSetupStep {
    /// Hand `radio` to the radio, then resume `next` with the outcome.
    Configure { radio: RadioConfig, next: WifiSetup },
    /// Start the radio, then resume `next` with the outcome.
    Start { next: WifiSetup },
    /// Connect to the configured network, then resume `next` with the outcome.
    Connect { next: WifiSetup },
    /// The radio is up: report `state` as the board's Wi-Fi state.
    Publish(WifiConnectionConfiguration),
    /// Even the fallback could not be brought up: fail with the last error.
    Fail,
}

impl WifiSetup {
    /// The stage this continuation resumes at.
    pub closed spec fn stage(&self) -> SetupStage {
        self.stage
    }

    /// The configuration that was requested.
    pub closed spec fn requested(&self) -> ConfigurationView {
        self.requested@
    }
}

impl View for WifiSetupStep {
    type V = SetupView;

    open spec fn view(&self) -> SetupView {
        match self {
            WifiSetupStep::Configure { radio, next } => SetupView::Configure {
                radio: radio@,
                stage: next.stage(),
                requested: next.requested(),
            },
            WifiSetupStep::Start { next } => SetupView::Start { stage: next.stage(), requested: next.requested() },
            WifiSetupStep::Connect { next } => SetupView::Connect { stage: next.stage(), requested: next.requested() },
            WifiSetupStep::Publish(state) => SetupView::Publish(state@),
            WifiSetupStep::Fail => SetupView::Fail,
        }
    }
}

/// The first step: hand the requested configuration to the radio.
pub open spec fn setup_begin_spec(requested: ConfigurationView) -> SetupView {
    SetupView::Configure { radio: radio_config_spec(requested), stage: SetupStage::Configuring, requested }
}

/// The step that follows the outcome `ok` of the call made at `stage`. Any
/// failure while bringing up the requested configuration (including a failed
/// connect) switches to the fallback access point; a failure of the fallback
/// ends the setup.
pub open spec fn setup_resume_spec(stage: SetupStage, requested: ConfigurationView, ok: bool) -> SetupView {
    let fallback = SetupView::Configure {
        radio: fallback_radio_spec(),
        stage: SetupStage::ConfiguringFallback,
        requested,
    };
    match stage {
        SetupStage::Configuring => if ok { SetupView::Start { stage: SetupStage::Starting, requested } } else { fallback },
        SetupStage::Starting => if ok { SetupView::Connect { stage: SetupStage::Connecting, requested } } else { fallback },
        SetupStage::Connecting => if ok { SetupView::Publish(published_state_spec(requested)) } else { fallback },
        SetupStage::ConfiguringFallback => if ok {
            SetupView::Start { stage: SetupStage::StartingFallback, requested }
        } else {
            SetupView::Fail
        },
        SetupStage::StartingFallback => if ok { SetupView::Publish(fallback_state_spec()) } else { SetupView::Fail },
    }
}

/// Starts bringing up the radio with `requested` (see [`setup_begin_spec`]).
pub fn begin_wifi_setup(requested: WifiConnectionConfiguration) -> (r: WifiSetupStep)
    ensures
        r@ == setup_begin_spec(requested@),
{
    let radio = radio_config(&requested);
    WifiSetupStep::Configure { radio, next: WifiSetup { stage: SetupStage::Configuring, requested } }
}

/// The open access point the board falls back to (see [`fallback_radio_spec`]).
fn fallback_radio() -> (r: RadioConfig)
    ensures
        r@ == fallback_radio_spec(),
{
    RadioConfig::AccessPoint { ssid: "RRR-wifi".to_owned(), password: String::new(), channel: 1, auth: ApAuth::Open }
}

impl WifiSetup {
    /// Continues with the outcome of the call (see [`setup_resume_spec`]).
    pub fn resume(self, ok: bool) -> (r: WifiSetupStep)
        ensures
            r@ == setup_resume_spec(self.stage(), self.requested(), ok),
    {
        let requested = self.requested;
        match self.stage {
            SetupStage::Configuring => if ok {
                WifiSetupStep::Start { next: WifiSetup { stage: SetupStage::Starting, requested } }
            } else {
                WifiSetupStep::Configure {
                    radio: fallback_radio(),
                    next: WifiSetup { stage: SetupStage::ConfiguringFallback, requested },
                }
            },
            SetupStage::Starting => if ok {
                WifiSetupStep::Connect { next: WifiSetup { stage: SetupStage::Connecting, requested } }
            } else {
                WifiSetupStep::Configure {
                    radio: fallback_radio(),
                    next: WifiSetup { stage: SetupStage::ConfiguringFallback, requested },
                }
            },
            SetupStage::Connecting => if ok {
                WifiSetupStep::Publish(requested.without_password())
            } else {
                WifiSetupStep::Configure {
                    radio: fallback_radio(),
                    next: WifiSetup { stage: SetupStage::ConfiguringFallback, requested },
                }
            },
            SetupStage::ConfiguringFallback => if ok {
                WifiSetupStep::Start { next: WifiSetup { stage: SetupStage::StartingFallback, requested } }
            } else {
                WifiSetupStep::Fail
            },
            SetupStage::StartingFallback => if ok {
                WifiSetupStep::Publish(WifiConnectionConfiguration {
                    connection_type: WifiConnectionType::StartAccessPoint,
                    credentials: WifiCredentials { ssid: "RRR-wifi".to_owned(), password: String::new() },
                })
            } else {
                WifiSetupStep::Fail
            },
        }
    }
}

/// Drives the setup from `step`, answering the calls with `outcomes` in order.
/// A step that still waits for an outcome when none is left is returned as is.
pub open spec fn run_setup(step: SetupView, outcomes: Seq<bool>) -> SetupView
    decreases outcomes.len(),
{
    if outcomes.len() == 0 {
        step
    } else {
        match step {
            SetupView::Configure { stage, requested, .. } => run_setup(
                setup_resume_spec(stage, requested, outcomes[0]),
                outcomes.drop_first(),
            ),
            SetupView::Start { stage, requested } => run_setup(
                setup_resume_spec(stage, requested, outcomes[0]),
                outcomes.drop_first(),
            ),
            SetupView::Connect { stage, requested } => run_setup(
                setup_resume_spec(stage, requested, outcomes[0]),
                outcomes.drop_first(),
            ),
            _ => step,
        }
    }
}

/// Whatever the radio answers, the setup ends within five calls, and the Wi-Fi
/// state it reports never holds a password: it is either the requested
/// configuration with the password blanked or the fallback access point.
pub proof fn lemma_setup_outcome(requested: ConfigurationView, outcomes: Seq<bool>)
    requires
        outcomes.len() >= 5,
    ensures
        run_setup(setup_begin_spec(requested), outcomes) is Publish || run_setup(setup_begin_spec(requested), outcomes) is Fail,
        run_setup(setup_begin_spec(requested), outcomes) matches SetupView::Publish(state) ==> {
            &&& state.credentials.password == Seq::<char>::empty()
            &&& (state == published_state_spec(requested) || state == fallback_state_spec())
        },
{
    reveal_with_fuel(run_setup, 6);
    let o = outcomes;
    assert(o.drop_first()[0] == o[1]);
    assert(o.drop_first().drop_first()[0] == o[2]);
    assert(o.drop_first().drop_first().drop_first()[0] == o[3]);
    assert(o.drop_first().drop_first().drop_first().drop_first()[0] == o[4]);
}

/// When every call succeeds, the board reports the requested configuration
/// with its password blanked after exactly three calls.
pub proof fn lemma_setup_all_succeed(requested: ConfigurationView)
    ensures
        run_setup(setup_begin_spec(requested), seq![true, true, true]) == SetupView::Publish(
            published_state_spec(requested),
        ),
{
    reveal_with_fuel(run_setup, 4);
    assert(seq![true, true, true].drop_first() =~= seq![true, true]);
    assert(seq![true, true].drop_first() =~= seq![true]);
    assert(seq![true].drop_first() =~= Seq::<bool>::empty());
}

/// A step publishes a state without a password, if it publishes one at all.
pub open spec fn publishes_no_password(step: SetupView) -> bool {
    step matches SetupView::Publish(state) ==> state.credentials.password == Seq::<char>::empty()
}

/// No single step of the setup publishes a password: what a step publishes is
/// the requested configuration with its password blanked, or the fallback
/// access point, which has none.
pub proof fn lemma_step_publishes_no_password(stage: SetupStage, requested: ConfigurationView, ok: bool)
    ensures
        publishes_no_password(setup_resume_spec(stage, requested, ok)),
        setup_resume_spec(stage, requested, ok) matches SetupView::Publish(state) ==> (state
            == published_state_spec(requested) || state == fallback_state_spec()),
{
}

/// Whatever the radio answers, and however many calls have been answered so
/// far, the setup never publishes a password.
pub proof fn lemma_setup_never_publishes_password(requested: ConfigurationView, outcomes: Seq<bool>)
    ensures
        publishes_no_password(run_setup(setup_begin_spec(requested), outcomes)),
{
    lemma_run_publishes_no_password(setup_begin_spec(requested), outcomes);
}

proof fn lemma_run_publishes_no_password(step: SetupView, outcomes: Seq<bool>)
    requires
        publishes_no_password(step),
    ensures
        publishes_no_password(run_setup(step, outcomes)),
    decreases outcomes.len(),
{
    if outcomes.len() > 0 {
        match step {
            SetupView::Configure { stage, requested, .. } => {
                lemma_step_publishes_no_password(stage, requested, outcomes[0]);
                lemma_run_publishes_no_password(setup_resume_spec(stage, requested, outcomes[0]), outcomes.drop_first());
            },
            SetupView::Start { stage, requested } => {
                lemma_step_publishes_no_password(stage, requested, outcomes[0]);
                lemma_run_publishes_no_password(setup_resume_spec(stage, requested, outcomes[0]), outcomes.drop_first());
            },
            SetupView::Connect { stage, requested } => {
                lemma_step_publishes_no_password(stage, requested, outcomes[0]);
                lemma_run_publishes_no_password(setup_resume_spec(stage, requested, outcomes[0]), outcomes.drop_first());
            },
            _ => {},
        }
    }
}

} // verus!
