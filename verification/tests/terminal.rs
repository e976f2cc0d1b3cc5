use bytes::BytesMut;

use telnet_nvt::options::TerminalEndpoint;
use telnet_nvt::terminal::TerminalError;
use telnet_nvt::NetworkVirtualTerminal;
use telnet_nvt::TelnetFrame;
use telnet_nvt::TelnetOption;
use telnet_nvt::TerminalInput;
use telnet_nvt::TerminalOutput;
use telnet_nvt::Compatibility;
use telnet_nvt::DecodeError;

#[test]
fn data_accumulates_until_flushed() {
    let mut nvt = NetworkVirtualTerminal::new();
    for b in b"hello" {
        let (flushed, event, reply) = nvt.handle_frame(TelnetFrame::Data(*b));
        assert_eq!(flushed, None);
        assert_eq!(event, None);
        assert_eq!(reply, None);
    }
    assert_eq!(nvt.flush_data(), Some(TerminalOutput::BinaryData(b"hello".to_vec())));
    assert_eq!(nvt.flush_data(), None);
}

#[test]
fn command_flushes_pending_data_first() {
    let mut nvt = NetworkVirtualTerminal::new();
    nvt.handle_frame(TelnetFrame::Data(b'x'));
    let (flushed, event, reply) = nvt.handle_frame(TelnetFrame::AreYouThere);
    assert_eq!(flushed, Some(TerminalOutput::BinaryData(vec![b'x'])));
    assert_eq!(event, Some(TerminalOutput::AreYouThere));
    assert_eq!(reply, None);
}

#[test]
fn inbound_do_drives_engine_and_surfaces_state_change() {
    let binary = TelnetOption::TransmitBinary;
    let mut nvt = NetworkVirtualTerminal::new();
    nvt.allow_local(binary).unwrap();

    let (flushed, event, reply) = nvt.handle_frame(TelnetFrame::Do(0));
    assert_eq!(flushed, None);
    assert_eq!(event, Some(TerminalOutput::OptionEnabled(TerminalEndpoint::Local, binary)));
    assert_eq!(reply, Some(TelnetFrame::Will(0)));
    assert!(nvt.option_enabled_local(binary));

    let (_, event, reply) = nvt.handle_frame(TelnetFrame::Dont(0));
    assert_eq!(event, Some(TerminalOutput::OptionDisabled(TerminalEndpoint::Local, binary)));
    assert_eq!(reply, Some(TelnetFrame::Wont(0)));
    assert!(!nvt.option_enabled_local(binary));
}

#[test]
fn refused_option_gets_negative_reply_and_no_event() {
    let mut nvt = NetworkVirtualTerminal::new();
    let (_, event, reply) = nvt.handle_frame(TelnetFrame::Do(1));
    assert_eq!(event, None);
    assert_eq!(reply, Some(TelnetFrame::Wont(1)));
}

#[test]
fn subnegotiation_surfaces_only_while_remote_enabled() {
    let binary = TelnetOption::TransmitBinary;
    let mut nvt = NetworkVirtualTerminal::new();

    // not negotiated: dropped
    let (_, event, _) = nvt.handle_frame(TelnetFrame::Subnegotiate(0, vec![1, 2]));
    assert_eq!(event, None);

    nvt.allow_remote(binary).unwrap();
    let (_, _, reply) = nvt.handle_frame(TelnetFrame::Will(0));
    assert_eq!(reply, Some(TelnetFrame::Do(0)));
    assert!(nvt.option_enabled_remote(binary));

    let (_, event, _) = nvt.handle_frame(TelnetFrame::Subnegotiate(0, vec![1, 2]));
    assert_eq!(event, Some(TerminalOutput::Subnegotiation(binary, vec![1, 2])));
}

#[test]
fn decode_feeds_handle_frame() {
    let mut nvt = NetworkVirtualTerminal::new();
    let mut rx = BytesMut::from(&[b'o', b'k', 255, 241][..]);
    let mut outputs: Vec<TerminalOutput> = Vec::new();
    while let Some(frame) = nvt.decode(&mut rx).unwrap() {
        let (flushed, event, _reply) = nvt.handle_frame(frame);
        if let Some(output) = flushed {
            outputs.push(output);
        }
        if let Some(output) = event {
            outputs.push(output);
        }
    }
    assert_eq!(
        outputs,
        vec![TerminalOutput::BinaryData(b"ok".to_vec()), TerminalOutput::NoOperation]
    );
}

#[test]
fn send_binary_data_escapes_iac() {
    let mut nvt = NetworkVirtualTerminal::new();
    let mut wire = BytesMut::new();
    nvt.send_input(TerminalInput::BinaryData(vec![1, 255, 2]), &mut wire).unwrap();
    assert_eq!(&wire[..], &[1, 255, 255, 2][..]);
}

#[test]
fn send_commands_and_intents() {
    let binary = TelnetOption::TransmitBinary;
    let mut nvt = NetworkVirtualTerminal::new();
    let mut wire = BytesMut::new();

    nvt.send_input(TerminalInput::GoAhead, &mut wire).unwrap();
    assert_eq!(&wire[..], &[255, 249][..]);

    wire.clear();
    nvt.send_input(TerminalInput::EnableLocalOption(binary), &mut wire).unwrap();
    assert_eq!(&wire[..], &[255, 251, 0][..]);

    // in flight: a second request writes nothing
    wire.clear();
    nvt.send_input(TerminalInput::EnableLocalOption(binary), &mut wire).unwrap();
    assert_eq!(wire.len(), 0);

    // flipping intent mid-flight is the contradictory request
    assert_eq!(
        nvt.send_input(TerminalInput::DisableLocalOption(binary), &mut wire),
        Err(TerminalError::ContradictoryRequest(binary))
    );

    wire.clear();
    let mut other = NetworkVirtualTerminal::new();
    other.send_input(TerminalInput::EnableRemoteOption(binary), &mut wire).unwrap();
    assert_eq!(&wire[..], &[255, 253, 0][..]);
}

#[test]
fn outbound_subnegotiation_requires_enabled_local() {
    let binary = TelnetOption::TransmitBinary;
    let mut nvt = NetworkVirtualTerminal::new();
    let mut wire = BytesMut::new();

    assert_eq!(
        nvt.send_input(TerminalInput::Subnegotiation(binary, vec![7]), &mut wire),
        Err(TerminalError::OptionNotEnabled(binary))
    );
    assert_eq!(wire.len(), 0);

    nvt.allow_local(binary).unwrap();
    nvt.handle_frame(TelnetFrame::Do(0));
    nvt.send_input(TerminalInput::Subnegotiation(binary, vec![7, 255]), &mut wire).unwrap();
    assert_eq!(&wire[..], &[255, 250, 0, 7, 255, 255, 255, 240][..]);
}

#[test]
fn facade_payload_bound_is_enforced() {
    let mut nvt = NetworkVirtualTerminal::with_max_payload(2);
    let mut rx = BytesMut::from(&[255, 250, 42, 1, 2, 3, 255, 240][..]);
    let result = nvt.decode(&mut rx);
    assert!(matches!(result, Err(DecodeError::SubnegotiationTooLong)));
    // a payload within the bound still decodes
    let mut ok = BytesMut::from(&[255, 250, 42, 1, 2, 255, 240][..]);
    assert_eq!(nvt.decode(&mut ok).unwrap(), Some(TelnetFrame::Subnegotiate(42, vec![1, 2])));
}

#[test]
fn compatibility_defaults_strict() {
    let compatibility = Compatibility::default();
    assert!(!compatibility.send_unicode_while_normal);
    assert!(!compatibility.recv_unicode_while_normal);
}
