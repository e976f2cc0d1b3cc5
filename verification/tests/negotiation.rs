use telnet_nvt::options::TerminalEndpoint;
use telnet_nvt::options::TerminalOptionState;
use telnet_nvt::ConfigurationError;
use telnet_nvt::NegotiationError;
use telnet_nvt::TelnetFrame;
use telnet_nvt::TelnetOption;
use telnet_nvt::TerminalConfiguration;
use telnet_nvt::TelnetAction;

#[test]
fn q_method_race() {
    let binary = TelnetOption::TransmitBinary;
    let mut table = TerminalConfiguration::new();
    table.allow_local(binary).unwrap();

    // caller requests "enable local BINARY": WILL goes out, one request in flight
    let first = table.enable_local(binary).unwrap();
    assert_eq!(first, Some(TelnetFrame::Will(0)));
    assert!(!table.option_enabled_local(binary));

    // peer replies DO: enabled, nothing more in flight, no further frame
    let ack = table.receive_do(binary).unwrap();
    assert_eq!(ack, None);
    assert!(table.option_enabled_local(binary));

    // caller immediately requests "disable": WONT goes out
    let second = table.disable_local(binary).unwrap();
    assert_eq!(second, Some(TelnetFrame::Wont(0)));
    assert!(!table.option_enabled_local(binary));

    // peer replies DONT: settled at disabled, no further frame
    let done = table.receive_dont(binary).unwrap();
    assert_eq!(done, None);
    assert!(!table.option_enabled_local(binary));
}

#[test]
fn repeated_enable_sends_one_request() {
    let binary = TelnetOption::TransmitBinary;
    let mut table = TerminalConfiguration::new();
    table.allow_local(binary).unwrap();

    assert_eq!(table.enable_local(binary).unwrap(), Some(TelnetFrame::Will(0)));
    // the request is already in flight: asking again emits nothing
    assert_eq!(table.enable_local(binary).unwrap(), None);
    assert_eq!(table.enable_local(binary).unwrap(), None);
}

#[test]
fn contradictory_request_is_rejected_and_queued() {
    let binary = TelnetOption::TransmitBinary;
    let mut table = TerminalConfiguration::new();
    table.allow_local(binary).unwrap();

    assert_eq!(table.enable_local(binary).unwrap(), Some(TelnetFrame::Will(0)));
    // flipping intent mid-flight is a contradictory request
    assert_eq!(table.disable_local(binary), Err(NegotiationError));
    // the reversal was queued: the peer's DO completes the enable and a
    // WONT goes straight out for the queued disable
    assert_eq!(table.receive_do(binary).unwrap(), Some(TelnetFrame::Wont(0)));
    assert!(!table.option_enabled_local(binary));
    assert_eq!(table.receive_dont(binary).unwrap(), None);
    assert!(!table.option_enabled_local(binary));
}

#[test]
fn peer_request_accepted_only_when_allowed() {
    let binary = TelnetOption::TransmitBinary;

    // not allowed by policy: the peer's DO is refused with WONT
    let mut strict = TerminalConfiguration::new();
    assert_eq!(strict.receive_do(binary).unwrap(), Some(TelnetFrame::Wont(0)));
    assert!(!strict.option_enabled_local(binary));

    // allowed: the peer's DO is acknowledged with WILL and enables
    let mut open = TerminalConfiguration::new();
    open.allow_local(binary).unwrap();
    assert_eq!(open.receive_do(binary).unwrap(), Some(TelnetFrame::Will(0)));
    assert!(open.option_enabled_local(binary));
}

#[test]
fn remote_direction_is_independent() {
    let binary = TelnetOption::TransmitBinary;
    let mut table = TerminalConfiguration::new();
    table.allow_remote(binary).unwrap();

    assert_eq!(table.enable_remote(binary).unwrap(), Some(TelnetFrame::Do(0)));
    assert_eq!(table.receive_dowill(binary).unwrap(), None);
    assert!(table.option_enabled_remote(binary));
    assert!(!table.option_enabled_local(binary));

    // the peer turns its side off: we acknowledge with DONT
    assert_eq!(table.receive_wont(binary).unwrap(), Some(TelnetFrame::Dont(0)));
    assert!(!table.option_enabled_remote(binary));
}

#[test]
fn peer_disable_of_enabled_option_is_acknowledged() {
    let binary = TelnetOption::TransmitBinary;
    let mut table = TerminalConfiguration::new();
    table.allow_local(binary).unwrap();
    table.receive_do(binary).unwrap();
    assert!(table.option_enabled_local(binary));

    assert_eq!(table.receive_dont(binary).unwrap(), Some(TelnetFrame::Wont(0)));
    assert!(!table.option_enabled_local(binary));
}

#[test]
fn protocol_violation_collapses_state() {
    let binary = TelnetOption::TransmitBinary;
    let mut table = TerminalConfiguration::new();
    table.allow_local(binary).unwrap();
    table.receive_do(binary).unwrap();
    assert!(table.option_enabled_local(binary));

    // we ask to disable; the peer answers the WONT with DO - a violation
    assert_eq!(table.disable_local(binary).unwrap(), Some(TelnetFrame::Wont(0)));
    assert_eq!(table.receive_do(binary), Err(NegotiationError));
    // state collapsed to the terminal state and no frame was emitted
    assert!(!table.option_enabled_local(binary));
}

#[test]
fn unsupported_option_cannot_be_allowed() {
    let mut table = TerminalConfiguration::new();
    assert_eq!(table.allow_local(TelnetOption::Echo), Err(ConfigurationError));
    assert_eq!(table.allow_remote(TelnetOption::Kermit), Err(ConfigurationError));
    assert!(!table.option_allowed_local(TelnetOption::Echo));
}

#[test]
fn policy_classification() {
    let binary = TelnetOption::TransmitBinary;
    let mut table = TerminalConfiguration::new();
    assert_eq!(table.policy_for(TelnetOption::Echo, TerminalEndpoint::Local), TerminalOptionState::Unsupported);
    assert_eq!(table.policy_for(binary, TerminalEndpoint::Local), TerminalOptionState::Supported);
    table.allow_local(binary).unwrap();
    assert_eq!(table.policy_for(binary, TerminalEndpoint::Local), TerminalOptionState::Allowed);
    table.receive_do(binary).unwrap();
    assert_eq!(table.policy_for(binary, TerminalEndpoint::Local), TerminalOptionState::Enabled);
    // the remote direction saw none of it
    assert_eq!(table.policy_for(binary, TerminalEndpoint::Remote), TerminalOptionState::Supported);
}

#[test]
fn handle_dispatches_by_action() {
    let binary = TelnetOption::TransmitBinary;
    let mut table = TerminalConfiguration::new();
    table.allow_local(binary).unwrap();
    assert_eq!(table.handle(TelnetAction::Do, binary).unwrap(), Some(TelnetFrame::Will(0)));
    assert!(table.option_enabled_local(binary));
    assert_eq!(table.handle(TelnetAction::Dont, binary).unwrap(), Some(TelnetFrame::Wont(0)));
    assert!(!table.option_enabled_local(binary));
    assert_eq!(table.handle(TelnetAction::Unknown(7), binary).unwrap(), None);
}

#[test]
fn support_is_binary_only() {
    assert!(TelnetOption::TransmitBinary.support_local());
    assert!(TelnetOption::TransmitBinary.support_remote());
    assert!(!TelnetOption::Echo.support_local());
    assert!(!TelnetOption::Unknown(200).support_remote());
}

#[test]
fn option_code_round_trip() {
    for code in 0..=255u8 {
        let option = TelnetOption::from(code);
        assert_eq!(u8::from(option), code);
    }
    assert_eq!(TelnetOption::from(0), TelnetOption::TransmitBinary);
    assert_eq!(TelnetOption::from(1), TelnetOption::Echo);
    assert_eq!(TelnetOption::from(255), TelnetOption::EXOPL);
    assert_eq!(TelnetOption::from(100), TelnetOption::Unknown(100));
    assert_eq!(u8::from(TelnetOption::MSSP), 70);
}
