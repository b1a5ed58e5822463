use vertex_sources::redis::command::encode_command;
use vertex_sources::redis::connection::{
    frame_bytes, frame_i64, frame_pairs, frame_string, frame_string_rows, frame_strings,
    read_reply, reply_error, Error, Frame,
};

#[test]
fn encodes_a_command_as_an_array_of_bulk_strings() {
    let req = encode_command(&["config", "get", "*"]);
    assert_eq!(req, b"*3\r\n$6\r\nconfig\r\n$3\r\nget\r\n$1\r\n*\r\n".to_vec());
    assert_eq!(encode_command(&[]), b"*0\r\n".to_vec());
    let long = "x".repeat(12);
    let req = encode_command(&["set", &long]);
    assert_eq!(req, b"*2\r\n$3\r\nset\r\n$12\r\nxxxxxxxxxxxx\r\n".to_vec());
}

#[test]
fn an_encoded_command_parses_back_to_its_words() {
    let words = ["client", "setname", "vertex", ""];
    let req = encode_command(&words);
    let frame = Frame::parse(&req).unwrap().unwrap();
    assert_eq!(
        frame,
        Frame::Array(vec![
            Frame::Bulk(b"client"),
            Frame::Bulk(b"setname"),
            Frame::Bulk(b"vertex"),
            Frame::Bulk(b""),
        ])
    );
}

#[test]
fn error_replies_become_errors() {
    assert_eq!(
        reply_error(b"ERR unknown command 'foo'"),
        Error::UnknownCommand(b"ERR unknown command 'foo'".to_vec())
    );
    assert_eq!(reply_error(b"NOAUTH required"), Error::Server(b"NOAUTH required".to_vec()));
    assert_eq!(reply_error(b"ERR unknown"), Error::Server(b"ERR unknown".to_vec()));
    assert_eq!(
        read_reply(b"-ERR unknown command 'x'\r\n"),
        Err(Error::UnknownCommand(b"ERR unknown command 'x'".to_vec()))
    );
    assert_eq!(read_reply(b"+OK\r\n"), Ok(Some(Frame::Simple(b"OK"))));
    assert_eq!(read_reply(b"+OK\r"), Ok(None));
    assert_eq!(read_reply(b"!x\r\n"), Err(Error::UnknownFrameType));
}

#[test]
fn scalar_conversions() {
    assert_eq!(frame_i64(&Frame::Integer(-7)), Ok(-7));
    assert_eq!(frame_i64(&Frame::Simple(b"7")), Err(Error::UnknownFrameType));
    assert_eq!(frame_bytes(&Frame::Bulk(b"ab")), Ok(b"ab".to_vec()));
    assert_eq!(frame_bytes(&Frame::Simple(b"ab")), Err(Error::UnknownFrameType));
    assert_eq!(frame_string(&Frame::Simple(b"OK")), Ok("OK".to_string()));
    assert_eq!(frame_string(&Frame::Bulk("\u{e9}".as_bytes())), Ok("\u{e9}".to_string()));
    assert_eq!(frame_string(&Frame::Bulk(&[0xff, 0xfe])), Err(Error::InvalidUtf8));
    assert_eq!(frame_string(&Frame::Null), Err(Error::UnknownFrameType));
}

#[test]
fn list_conversions_stop_at_the_first_bad_item() {
    let ok = Frame::Array(vec![Frame::Bulk(b"a"), Frame::Simple(b"b")]);
    assert_eq!(frame_strings(&ok), Ok(vec!["a".to_string(), "b".to_string()]));
    let bad = Frame::Array(vec![Frame::Bulk(b"a"), Frame::Integer(1), Frame::Bulk(&[0xff])]);
    assert_eq!(frame_strings(&bad), Err(Error::UnknownFrameType));
    let bad = Frame::Array(vec![Frame::Bulk(&[0xff]), Frame::Integer(1)]);
    assert_eq!(frame_strings(&bad), Err(Error::InvalidUtf8));
    assert_eq!(frame_strings(&Frame::Bulk(b"a")), Err(Error::UnknownFrameType));

    let rows = Frame::Array(vec![
        Frame::Array(vec![Frame::Bulk(b"command"), Frame::Integer(1)]),
    ]);
    assert_eq!(frame_string_rows(&rows), Err(Error::UnknownFrameType));
    let rows = Frame::Array(vec![
        Frame::Array(vec![Frame::Bulk(b"command"), Frame::Simple(b"12")]),
        Frame::Array(vec![]),
    ]);
    assert_eq!(
        frame_string_rows(&rows),
        Ok(vec![vec!["command".to_string(), "12".to_string()], vec![]])
    );
}

#[test]
fn key_value_replies() {
    let reply = Frame::Array(vec![
        Frame::Bulk(b"databases"),
        Frame::Bulk(b"16"),
        Frame::Bulk(b"maxmemory"),
        Frame::Bulk(b"0"),
        Frame::Bulk(b"databases"),
        Frame::Bulk(b"8"),
    ]);
    let map = frame_pairs(&reply).unwrap();
    assert_eq!(map.len(), 2);
    assert_eq!(map.get(b"databases"), Some(&b"8"[..]));
    assert_eq!(map.get(b"maxmemory"), Some(&b"0"[..]));

    let odd = Frame::Array(vec![Frame::Bulk(b"a")]);
    assert!(matches!(frame_pairs(&odd), Err(Error::OddArray)));

    let stops = Frame::Array(vec![
        Frame::Bulk(b"a"),
        Frame::Bulk(b"1"),
        Frame::Integer(2),
        Frame::Bulk(b"2"),
        Frame::Bulk(b"c"),
        Frame::Bulk(b"3"),
    ]);
    let map = frame_pairs(&stops).unwrap();
    assert_eq!(map.len(), 1);
    assert_eq!(map.get(b"c"), None);
    assert!(matches!(frame_pairs(&Frame::Null), Err(Error::UnknownFrameType)));
}

#[test]
fn overlong_bulk_lengths_are_flagged() {
    let max = usize::MAX.to_string();
    assert!(Frame::overflows(format!("${max}\r\nabc").as_bytes()));
    let near = (usize::MAX - 1).to_string();
    assert!(Frame::overflows(format!("*1\r\n${near}\r\nabc").as_bytes()));
    let fits = (usize::MAX - 2).to_string();
    assert!(!Frame::overflows(format!("${fits}\r\nabc").as_bytes()));
    assert!(!Frame::overflows(b"+OK\r\n"));
    assert!(!Frame::overflows(b"$3\r\nabc\r\n"));
}
