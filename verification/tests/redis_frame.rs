use vertex_sources::redis::connection::{read_until_crlf, Error, Frame};

#[test]
fn connection_parse() {
    for (input, expected) in [
        ("+OK\r\n", Ok(Some(Frame::Simple(b"OK")))),
        ("+OK\r", Ok(None)),
        ("+OK", Ok(None)),
        ("+O", Ok(None)),
        ("+", Ok(None)),
        (
            "-Error message\r\n",
            Ok(Some(Frame::Error(b"Error message"))),
        ),
        (
            "-ERR unknown command 'asdf'\r\n",
            Ok(Some(Frame::Error(b"ERR unknown command 'asdf'"))),
        ),
        (
            "-WRONGTYPE Operation against a key holding the wrong kind of value\r\n",
            Ok(Some(Frame::Error(
                b"WRONGTYPE Operation against a key holding the wrong kind of value",
            ))),
        ),
        (":0\r\n", Ok(Some(Frame::Integer(0)))),
        (":1000\r\n", Ok(Some(Frame::Integer(1000)))),
        ("$5\r\nhello\r\n", Ok(Some(Frame::Bulk(b"hello")))),
        ("$0\r\n\r\n", Ok(Some(Frame::Bulk(b"")))),
        ("$-1\r\n", Ok(Some(Frame::Null))),
        ("*0\r\n", Ok(Some(Frame::Array(vec![])))),
        (
            "*2\r\n$5\r\nhello\r\n$5\r\nworld\r\n",
            Ok(Some(Frame::Array(vec![
                Frame::Bulk(b"hello"),
                Frame::Bulk(b"world"),
            ]))),
        ),
        ("*2\r\n$5\r\nhello\r\n$5\r\nworld\r", Ok(None)),
        (
            "*3\r\n:1\r\n:2\r\n:3\r\n",
            Ok(Some(Frame::Array(vec![
                Frame::Integer(1),
                Frame::Integer(2),
                Frame::Integer(3),
            ]))),
        ),
        // mixed
        (
            "*5\r\n:1\r\n:2\r\n:3\r\n:4\r\n$5\r\nhello\r\n",
            Ok(Some(Frame::Array(vec![
                Frame::Integer(1),
                Frame::Integer(2),
                Frame::Integer(3),
                Frame::Integer(4),
                Frame::Bulk(b"hello"),
            ]))),
        ),
    ] {
        let got = Frame::parse_with_pos(input.as_bytes(), &mut 0);
        assert_eq!(got, expected, "incorrect input: {:?}", input);
    }
}

#[test]
fn parse_errors() {
    assert_eq!(Frame::parse(b":12a\r\n"), Err(Error::Parse));
    assert_eq!(Frame::parse(b"$-2\r\n"), Err(Error::Protocol));
    assert_eq!(Frame::parse(b"?abc\r\n"), Err(Error::UnknownFrameType));
    assert_eq!(Frame::parse(b"*x\r\n:1\r\n"), Err(Error::Parse));
    // an error inside an array is the array's error
    assert_eq!(Frame::parse(b"*2\r\n:1\r\n:z\r\n"), Err(Error::Parse));
}

#[test]
fn parse_moves_position_past_the_frame() {
    let buf = b"+OK\r\n:7\r\n";
    let mut pos = 0;
    assert_eq!(Frame::parse_with_pos(buf, &mut pos), Ok(Some(Frame::Simple(b"OK"))));
    assert_eq!(pos, 5);
    assert_eq!(Frame::parse_with_pos(buf, &mut pos), Ok(Some(Frame::Integer(7))));
    assert_eq!(pos, 9);
}

#[test]
fn more_data_does_not_change_a_decided_frame() {
    let done = b"$5\r\nhello\r\n";
    let mut longer = done.to_vec();
    longer.extend_from_slice(b"+extra\r\n");
    assert_eq!(Frame::parse(done), Frame::parse(&longer));
    let failed = b"$-5\r\n";
    let mut longer = failed.to_vec();
    longer.extend_from_slice(b"garbage");
    assert_eq!(Frame::parse(failed), Frame::parse(&longer));
}

#[test]
fn crlf() {
    let mut pos = 1;
    assert_eq!(read_until_crlf(b"+OK\r\n", &mut pos), Some((1, 3)));
    assert_eq!(pos, 5);
    let mut pos = 0;
    assert_eq!(read_until_crlf(b"no end\r", &mut pos), None);
    assert_eq!(pos, 0);
}

#[test]
fn every_cut_of_a_frame_asks_for_more() {
    let full: &[u8] = b"*3\r\n$5\r\nhello\r\n:42\r\n*1\r\n+OK\r\n";
    assert!(matches!(Frame::parse(full), Ok(Some(_))));
    for cut in 0..full.len() {
        assert_eq!(Frame::parse(&full[..cut]), Ok(None), "cut at {cut}");
    }
}

#[test]
fn an_encoded_array_parses_back_and_its_prefixes_are_incomplete() {
    let enc = b"*3\r\n+OK\r\n:-5\r\n$3\r\na\r\n\r\n";
    let mut pos = 0;
    assert_eq!(
        Frame::parse_with_pos(enc, &mut pos),
        Ok(Some(Frame::Array(vec![
            Frame::Simple(b"OK"),
            Frame::Integer(-5),
            Frame::Bulk(b"a\r\n")
        ])))
    );
    assert_eq!(pos, enc.len());
    for cut in 0..enc.len() {
        assert_eq!(Frame::parse(&enc[..cut]), Ok(None));
    }
}

#[test]
fn simple_strings_and_errors_must_be_utf8() {
    assert_eq!(Frame::parse(b"+\xff\xff\r\n"), Err(Error::InvalidUtf8));
    assert_eq!(Frame::parse(b"-\xc3\r\n"), Err(Error::InvalidUtf8));
    assert_eq!(Frame::parse(b"*1\r\n+\xff\r\n"), Err(Error::InvalidUtf8));
    assert_eq!(Frame::parse("+h\u{e9}\r\n".as_bytes()), Ok(Some(Frame::Simple("h\u{e9}".as_bytes()))));
    // bulk strings are bytes
    assert_eq!(Frame::parse(b"$2\r\n\xff\xff\r\n"), Ok(Some(Frame::Bulk(b"\xff\xff"))));
}
