use bytes::BytesMut;

use telnet_nvt::consts;
use telnet_nvt::option_codes;
use telnet_nvt::DecodeError;
use telnet_nvt::TelnetCodec;
use telnet_nvt::TelnetFrame;

fn decode_all(codec: &mut TelnetCodec, input: &mut BytesMut) -> Vec<TelnetFrame> {
    let mut frames = Vec::new();
    while let Some(frame) = codec.decode(input).unwrap() {
        frames.push(frame)
    }
    frames
}

#[test]
fn telnet_decode() {
    let mut codec = TelnetCodec::default();
    let mut encoded_input = BytesMut::from(&b"Terminated line\r\n"[..]);
    let expected_output = vec![
        TelnetFrame::Data(b'T'),
        TelnetFrame::Data(b'e'),
        TelnetFrame::Data(b'r'),
        TelnetFrame::Data(b'm'),
        TelnetFrame::Data(b'i'),
        TelnetFrame::Data(b'n'),
        TelnetFrame::Data(b'a'),
        TelnetFrame::Data(b't'),
        TelnetFrame::Data(b'e'),
        TelnetFrame::Data(b'd'),
        TelnetFrame::Data(b' '),
        TelnetFrame::Data(b'l'),
        TelnetFrame::Data(b'i'),
        TelnetFrame::Data(b'n'),
        TelnetFrame::Data(b'e'),
        TelnetFrame::Data(b'\r'),
        TelnetFrame::Data(b'\n'),
    ];
    let mut actual_output = Vec::new();
    while let Some(frame) = codec.decode(&mut encoded_input).unwrap() {
        actual_output.push(frame)
    }

    assert_eq!(expected_output, actual_output, "telnet_decode didn't match");
}

#[test]
fn telnet_encode() {
    let mut codec = TelnetCodec::default();
    let input_frames = vec![
        TelnetFrame::Data(b'R'),
        TelnetFrame::Data(b'a'),
        TelnetFrame::Data(b'w'),
        TelnetFrame::Data(b' '),
        TelnetFrame::Data(b'A'),
        TelnetFrame::Data(b's'),
        TelnetFrame::Data(b'c'),
        TelnetFrame::Data(b'i'),
        TelnetFrame::Data(b'i'),
        TelnetFrame::Data(b' '),
        TelnetFrame::Data(b'D'),
        TelnetFrame::Data(b'a'),
        TelnetFrame::Data(b't'),
        TelnetFrame::Data(b'a'),
        TelnetFrame::Data(b'\r'),
        TelnetFrame::Data(b'\n'),
    ];
    let expected_output = BytesMut::from(&b"Raw Ascii Data\r\n"[..]);
    let mut actual_output = BytesMut::with_capacity(20);

    for input_frame in input_frames {
        codec.encode(input_frame, &mut actual_output).unwrap();
    }

    assert_eq!(expected_output, actual_output, "telnet_encode didn't match");
}

#[test]
fn decode_iac_activation() {
    let mut codec = TelnetCodec::default();
    let mut encoded_input = BytesMut::from(
        &[
            // Data
            b'L',
            b'o',
            b'g',
            b'i',
            b'n',
            b':',
            consts::CR,
            consts::LF,
            // Command Do Binary
            consts::IAC,
            consts::DO,
            option_codes::BINARY,
            // Data
            b'P',
            b'a',
            b's',
            b's',
            b'w',
            b'o',
            b'r',
            b'd',
            b':',
            consts::CR,
            consts::LF,
            // Command Will Binary
            consts::IAC,
            consts::WILL,
            option_codes::BINARY,
            // Data
            b'H',
            b'e',
            b'l',
            b'l',
            b'o',
            b'!',
            consts::CR,
            consts::LF,
        ][..],
    );
    let expected_output = vec![
        // Normal Data
        TelnetFrame::Data(b'L'),
        TelnetFrame::Data(b'o'),
        TelnetFrame::Data(b'g'),
        TelnetFrame::Data(b'i'),
        TelnetFrame::Data(b'n'),
        TelnetFrame::Data(b':'),
        TelnetFrame::Data(consts::CR),
        TelnetFrame::Data(consts::LF),
        // Command Do Binary
        TelnetFrame::Do(option_codes::BINARY),
        // Data
        TelnetFrame::Data(b'P'),
        TelnetFrame::Data(b'a'),
        TelnetFrame::Data(b's'),
        TelnetFrame::Data(b's'),
        TelnetFrame::Data(b'w'),
        TelnetFrame::Data(b'o'),
        TelnetFrame::Data(b'r'),
        TelnetFrame::Data(b'd'),
        TelnetFrame::Data(b':'),
        TelnetFrame::Data(consts::CR),
        TelnetFrame::Data(consts::LF),
        // Command Will Binary
        TelnetFrame::Will(option_codes::BINARY),
        // Data
        TelnetFrame::Data(b'H'),
        TelnetFrame::Data(b'e'),
        TelnetFrame::Data(b'l'),
        TelnetFrame::Data(b'l'),
        TelnetFrame::Data(b'o'),
        TelnetFrame::Data(b'!'),
        TelnetFrame::Data(consts::CR),
        TelnetFrame::Data(consts::LF),
    ];
    let mut actual_output = Vec::new();
    while let Some(frame) = codec.decode(&mut encoded_input).unwrap() {
        actual_output.push(frame)
    }

    assert_eq!(expected_output, actual_output);
}

#[test]
fn data_passthrough() {
    let mut codec = TelnetCodec::default();
    let mut input = BytesMut::from(&b"Terminated\r\n"[..]);
    let frames = decode_all(&mut codec, &mut input);
    let expected: Vec<TelnetFrame> = b"Terminated\r\n".iter().map(|b| TelnetFrame::Data(*b)).collect();
    assert_eq!(frames, expected);

    let mut wire = BytesMut::new();
    for frame in expected {
        codec.encode(frame, &mut wire).unwrap();
    }
    assert_eq!(&wire[..], b"Terminated\r\n");
}

#[test]
fn escape_byte() {
    let mut codec = TelnetCodec::default();
    let mut input = BytesMut::from(&[consts::IAC, consts::IAC, b'A'][..]);
    let frames = decode_all(&mut codec, &mut input);
    assert_eq!(frames, vec![TelnetFrame::Data(255), TelnetFrame::Data(b'A')]);

    let mut wire = BytesMut::new();
    codec.encode(TelnetFrame::Data(255), &mut wire).unwrap();
    codec.encode(TelnetFrame::Data(b'A'), &mut wire).unwrap();
    assert_eq!(&wire[..], &[255, 255, 65][..]);
}

#[test]
fn negotiation_frame() {
    let mut codec = TelnetCodec::default();
    let mut input = BytesMut::from(&[consts::IAC, consts::DO, 0][..]);
    let frames = decode_all(&mut codec, &mut input);
    assert_eq!(frames, vec![TelnetFrame::Do(0)]);

    let mut wire = BytesMut::new();
    codec.encode(TelnetFrame::Do(0), &mut wire).unwrap();
    assert_eq!(&wire[..], &[255, 253, 0][..]);
}

#[test]
fn subnegotiation_with_escape() {
    let mut codec = TelnetCodec::default();
    let mut input = BytesMut::from(
        &[consts::IAC, consts::SB, 42, 1, 2, consts::IAC, consts::IAC, 3, consts::IAC, consts::SE][..],
    );
    let frames = decode_all(&mut codec, &mut input);
    assert_eq!(frames, vec![TelnetFrame::Subnegotiate(42, vec![1, 2, 255, 3])]);
}

#[test]
fn unknown_command_recovery() {
    let mut codec = TelnetCodec::default();
    let mut input = BytesMut::from(&[consts::IAC, 0x00, consts::IAC, consts::NOP][..]);
    let first = codec.decode(&mut input);
    assert!(matches!(first, Err(DecodeError::UnknownCommand(0))));
    let second = codec.decode(&mut input).unwrap();
    assert_eq!(second, Some(TelnetFrame::NoOperation));
    assert_eq!(codec.decode(&mut input).unwrap(), None);
}

#[test]
fn subnegotiation_round_trip() {
    let mut codec = TelnetCodec::default();
    let frame = TelnetFrame::Subnegotiate(70, vec![0, 255, 240, 255, 1]);
    let mut wire = BytesMut::new();
    codec.encode(frame.clone(), &mut wire).unwrap();
    // both payload IACs doubled: 5 payload bytes become 7 on the wire
    assert_eq!(
        &wire[..],
        &[consts::IAC, consts::SB, 70, 0, 255, 255, 240, 255, 255, 1, consts::IAC, consts::SE][..]
    );
    let frames = decode_all(&mut codec, &mut wire);
    assert_eq!(frames, vec![frame]);
}

#[test]
fn command_round_trip() {
    let commands = vec![
        TelnetFrame::NoOperation,
        TelnetFrame::DataMark,
        TelnetFrame::Break,
        TelnetFrame::InterruptProcess,
        TelnetFrame::AbortOutput,
        TelnetFrame::AreYouThere,
        TelnetFrame::EraseCharacter,
        TelnetFrame::EraseLine,
        TelnetFrame::GoAhead,
        TelnetFrame::Do(1),
        TelnetFrame::Dont(2),
        TelnetFrame::Will(3),
        TelnetFrame::Wont(255),
        TelnetFrame::Data(0),
    ];
    for frame in commands {
        let mut codec = TelnetCodec::default();
        let mut wire = BytesMut::new();
        codec.encode(frame.clone(), &mut wire).unwrap();
        let frames = decode_all(&mut codec, &mut wire);
        assert_eq!(frames, vec![frame]);
    }
}

#[test]
fn decoder_resumability() {
    let bytes: Vec<u8> = vec![
        b'a',
        consts::IAC,
        consts::SB,
        42,
        1,
        consts::IAC,
        consts::IAC,
        2,
        consts::IAC,
        consts::SE,
        consts::IAC,
        consts::DO,
        0,
        b'z',
    ];
    let mut whole_codec = TelnetCodec::default();
    let mut whole_input = BytesMut::from(&bytes[..]);
    let whole = decode_all(&mut whole_codec, &mut whole_input);

    for split in 0..=bytes.len() {
        let mut codec = TelnetCodec::default();
        let mut first = BytesMut::from(&bytes[..split]);
        let mut frames = decode_all(&mut codec, &mut first);
        let mut rest = BytesMut::new();
        rest.extend_from_slice(&first[..]);
        rest.extend_from_slice(&bytes[split..]);
        frames.extend(decode_all(&mut codec, &mut rest));
        assert_eq!(frames, whole, "split at {} differed", split);
    }
}

#[test]
fn subnegotiation_too_long() {
    let mut codec = TelnetCodec::with_max_payload(2);
    let mut input = BytesMut::from(&[consts::IAC, consts::SB, 42, 1, 2, 3, 4, consts::IAC, consts::SE][..]);
    let result = codec.decode(&mut input);
    assert!(matches!(result, Err(DecodeError::SubnegotiationTooLong)));
    // the decoder recovered to normal data: the rest of the stream is
    // plain bytes again, and the orphaned IAC SE is an unknown command
    assert_eq!(codec.decode(&mut input).unwrap(), Some(TelnetFrame::Data(4)));
    assert!(matches!(codec.decode(&mut input), Err(DecodeError::UnknownCommand(240))));
    assert_eq!(codec.decode(&mut input).unwrap(), None);
}

#[test]
fn payload_buffer_cleared_between_subnegotiations() {
    let mut codec = TelnetCodec::default();
    let mut input = BytesMut::from(
        &[
            consts::IAC,
            consts::SB,
            1,
            10,
            11,
            consts::IAC,
            consts::SE,
            consts::IAC,
            consts::SB,
            2,
            20,
            consts::IAC,
            consts::SE,
        ][..],
    );
    let frames = decode_all(&mut codec, &mut input);
    assert_eq!(
        frames,
        vec![
            TelnetFrame::Subnegotiate(1, vec![10, 11]),
            TelnetFrame::Subnegotiate(2, vec![20]),
        ]
    );
}

#[test]
fn short_subnegotiation_fits_bound() {
    let mut codec = TelnetCodec::with_max_payload(2);
    let mut input = BytesMut::from(&[consts::IAC, consts::SB, 42, 1, 2, consts::IAC, consts::SE][..]);
    let frames = decode_all(&mut codec, &mut input);
    assert_eq!(frames, vec![TelnetFrame::Subnegotiate(42, vec![1, 2])]);
}
