use bytes::BytesMut;

use telnet_nvt::args::Argument;
use telnet_nvt::msdp;
use telnet_nvt::mssp;
use telnet_nvt::naocrd;
use telnet_nvt::status;
use telnet_nvt::MudServerData;
use telnet_nvt::MudServerDataValue;
use telnet_nvt::MudServerStatus;
use telnet_nvt::TelnetAction;
use telnet_nvt::TelnetArgument;
use telnet_nvt::TelnetNegotiation;
use telnet_nvt::TelnetOption;
use telnet_nvt::TelnetOptionStatus;
use telnet_nvt::TelnetSubnegotiation;
use telnet_nvt::NAOCRD;
use telnet_nvt::TerminalOption;
use telnet_nvt::options::TerminalEndpoint;
use telnet_nvt::TelnetCodec;

#[test]
fn negotiation_value() {
    let negotiation = TelnetNegotiation::new(TelnetAction::Do, TelnetOption::TransmitBinary);
    assert_eq!(negotiation.action(), TelnetAction::Do);
    assert_eq!(negotiation.option(), TelnetOption::TransmitBinary);
    assert_eq!(negotiation.len(), 3);
    let mut wire = BytesMut::new();
    negotiation.encode(&mut wire);
    assert_eq!(&wire[..], &[255, 253, 0][..]);
}

#[test]
fn action_code_round_trip() {
    for code in 0..=255u8 {
        assert_eq!(u8::from(TelnetAction::from(code)), code);
    }
    assert_eq!(TelnetAction::from(253), TelnetAction::Do);
    assert_eq!(TelnetAction::from(254), TelnetAction::Dont);
    assert_eq!(TelnetAction::from(251), TelnetAction::Will);
    assert_eq!(TelnetAction::from(252), TelnetAction::Wont);
    assert_eq!(TelnetAction::from(17), TelnetAction::Unknown(17));
}

#[test]
fn naocrd_encoding() {
    assert_eq!(NAOCRD::Sender(4).len(), 2);
    let mut wire = BytesMut::new();
    NAOCRD::Sender(4).encode(&mut wire);
    NAOCRD::Receiver(9).encode(&mut wire);
    NAOCRD::Unknown(7, 8).encode(&mut wire);
    assert_eq!(&wire[..], &[naocrd::DR, 4, naocrd::DS, 9, 7, 8][..]);
}

#[test]
fn msdp_lengths_and_encoding() {
    // { "A": "xy", "B": [ "q" ], "C": { "k": "v" } } in insertion order
    let value_a = MudServerDataValue::string("xy");
    let value_b = MudServerDataValue::array(vec![MudServerDataValue::string("q")]);
    let value_c = MudServerDataValue::table(vec![(b"k".to_vec(), MudServerDataValue::string("v"))]);
    assert_eq!(value_a.len(), 2);
    // open + (VAL + 1 byte) + close
    assert_eq!(value_b.len(), 4);
    // open + (VAR + 1 + VAL + 1) + close
    assert_eq!(value_c.len(), 6);

    let data = MudServerData::new(vec![
        (b"A".to_vec(), value_a),
        (b"B".to_vec(), value_b),
        (b"C".to_vec(), value_c),
    ]);
    // entries add VAR + key + VAL + value each
    assert_eq!(data.len(), (2 + 1 + 2) + (2 + 1 + 4) + (2 + 1 + 6));

    let mut wire = BytesMut::new();
    data.encode(&mut wire);
    let expected: Vec<u8> = vec![
        msdp::VAR,
        b'A',
        msdp::VAL,
        b'x',
        b'y',
        msdp::VAR,
        b'B',
        msdp::VAL,
        msdp::ARRAY_OPEN,
        msdp::VAL,
        b'q',
        msdp::ARRAY_CLOSE,
        msdp::VAR,
        b'C',
        msdp::VAL,
        msdp::TABLE_OPEN,
        msdp::VAR,
        b'k',
        msdp::VAL,
        b'v',
        msdp::TABLE_CLOSE,
    ];
    assert_eq!(&wire[..], &expected[..]);
}

#[test]
fn mssp_rejects_reserved_bytes() {
    let mut report = MudServerStatus::new();
    assert!(report.push(b"NAME".to_vec(), vec![b"Mud".to_vec()]).is_ok());
    // a key holding the IAC byte is rejected whole
    assert!(report.push(vec![b'X', 255], vec![b"ok".to_vec()]).is_err());
    // a value holding an MSSP marker is rejected whole
    assert!(report.push(b"PLAYERS".to_vec(), vec![vec![mssp::VAL]]).is_err());

    assert_eq!(report.len(), 1 + 4 + 1 + 3);
    let mut wire = BytesMut::new();
    report.encode(&mut wire);
    let expected: Vec<u8> = vec![mssp::VAR, b'N', b'A', b'M', b'E', mssp::VAL, b'M', b'u', b'd'];
    assert_eq!(&wire[..], &expected[..]);
}

#[test]
fn mssp_rejects_duplicate_names() {
    let mut report = MudServerStatus::new();
    report.push(b"NAME".to_vec(), vec![b"Mud".to_vec()]).unwrap();
    // the same name a second time is rejected whole
    assert!(report.push(b"NAME".to_vec(), vec![b"Other".to_vec()]).is_err());
    // a fresh name still goes in
    assert!(report.push(b"UPTIME".to_vec(), vec![b"7".to_vec()]).is_ok());

    let mut wire = BytesMut::new();
    report.encode(&mut wire);
    let expected: Vec<u8> = vec![
        mssp::VAR,
        b'N',
        b'A',
        b'M',
        b'E',
        mssp::VAL,
        b'M',
        b'u',
        b'd',
        mssp::VAR,
        b'U',
        b'P',
        b'T',
        b'I',
        b'M',
        b'E',
        mssp::VAL,
        b'7',
    ];
    assert_eq!(&wire[..], &expected[..]);
}

#[test]
fn mssp_multiple_values() {
    let mut report = MudServerStatus::new();
    report.push(b"PORTS".to_vec(), vec![b"23".to_vec(), b"24".to_vec()]).unwrap();
    let mut wire = BytesMut::new();
    report.encode(&mut wire);
    let expected: Vec<u8> = vec![
        mssp::VAR,
        b'P',
        b'O',
        b'R',
        b'T',
        b'S',
        mssp::VAL,
        b'2',
        b'3',
        mssp::VAL,
        b'2',
        b'4',
    ];
    assert_eq!(&wire[..], &expected[..]);
    assert_eq!(report.len(), expected.len());
}

#[test]
fn status_report_encoding() {
    let report = TelnetOptionStatus(vec![
        (TelnetOption::TransmitBinary, (TelnetAction::Will, TelnetAction::Do)),
        (TelnetOption::Echo, (TelnetAction::Wont, TelnetAction::Dont)),
    ]);
    assert_eq!(report.len(), 1 + 2 * 4);
    let mut wire = BytesMut::new();
    report.encode(&mut wire);
    let expected: Vec<u8> = vec![status::IS, 251, 0, 253, 0, 252, 1, 254, 1];
    assert_eq!(&wire[..], &expected[..]);
}

#[test]
fn subnegotiation_values() {
    let send = TelnetSubnegotiation::StatusSend;
    assert_eq!(send.option(), TelnetOption::Status);
    assert_eq!(send.len(), 6);
    assert_eq!(send.payload(), vec![status::SEND]);

    let unknown = TelnetSubnegotiation::Unknown(42, vec![1, 255, 2]);
    assert_eq!(unknown.option(), TelnetOption::Charset);
    assert_eq!(unknown.len(), 5 + 3);
    assert_eq!(unknown.payload(), vec![1, 255, 2]);

    // on the wire the payload IAC is doubled inside the envelope
    let mut wire = BytesMut::new();
    unknown.encode(&mut wire).unwrap();
    assert_eq!(&wire[..], &[255, 250, 42, 1, 255, 255, 2, 255, 240][..]);
}

#[test]
fn subnegotiation_frame_round_trip() {
    let report = TelnetSubnegotiation::NAOCRDDataReceiver(NAOCRD::Receiver(255));
    assert_eq!(report.option(), TelnetOption::NAOCRD);
    let frame = report.to_frame();
    let mut codec = TelnetCodec::default();
    let mut wire = BytesMut::new();
    codec.encode(frame.clone(), &mut wire).unwrap();
    let decoded = codec.decode(&mut wire).unwrap();
    assert_eq!(decoded, Some(frame));
}

#[test]
fn default_argument_codec_is_opaque() {
    let argument = TelnetArgument::Unknown(vec![9, 8, 7]);
    assert_eq!(argument.len(), 3);
    let mut wire = BytesMut::new();
    argument.encode(&mut wire);
    assert_eq!(&wire[..], &[9, 8, 7][..]);
    let read_back = argument.dencode(&mut wire);
    assert_eq!(read_back, TelnetArgument::Unknown(vec![9, 8, 7]));
    assert_eq!(wire.len(), 0);
}

#[test]
fn terminal_option_directions() {
    assert_eq!(TerminalOption::SendBinary.endpoint(), TerminalEndpoint::Local);
    assert_eq!(TerminalOption::ReceiveBinary.endpoint(), TerminalEndpoint::Remote);
    assert_eq!(TerminalOption::SendBinary.option(), TelnetOption::TransmitBinary);
    assert_eq!(TerminalOption::ReceiveBinary.option(), TelnetOption::TransmitBinary);
    let other = TerminalOption::Unknown(TerminalEndpoint::Remote, TelnetOption::Echo);
    assert_eq!(other.endpoint(), TerminalEndpoint::Remote);
    assert_eq!(other.option(), TelnetOption::Echo);
}
