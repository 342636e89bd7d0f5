//! Wire-level behaviour: code classification, compression sniffing,
//! dot-stuffing, status lines and response framing.

use brokaw::bytes::parse_u32;
use brokaw::command::{ArticleSelector, Command};
use brokaw::compression::Compression;
use brokaw::connection::{ConnectionConfig, NntpConnection};
use brokaw::error::NntpError;
use brokaw::framing::{parse_status_line, stuff_line, unstuff_line};
use brokaw::response::{Kind, ResponseCode};

#[test]
fn test_use_decoder() {
    assert!(Compression::XFeature
        .use_decoder("224 xover information follows [COMPRESS=GZIP]\r\n".as_bytes()));
    assert!(!Compression::XFeature
        .use_decoder("224 xover information follows [COMPRESS=GZIP]".as_bytes()))
}

#[test]
fn known_codes_classify_through_the_table() {
    let table = [
        (101, Kind::Capabilities),
        (200, Kind::PostingAllowed),
        (201, Kind::PostingNotPermitted),
        (205, Kind::ConnectionClosing),
        (211, Kind::GroupSelected),
        (220, Kind::Article),
        (221, Kind::Head),
        (222, Kind::Body),
        (223, Kind::ArticleExists),
        (281, Kind::AuthenticationAccepted),
        (381, Kind::MoreAuthenticationRequired),
        (400, Kind::TemporarilyUnavailable),
        (411, Kind::NoSuchNewsgroup),
        (420, Kind::InvalidCurrentArticleNumber),
        (423, Kind::NoArticleWithNumber),
        (430, Kind::NoArticleWithMessageId),
        (502, Kind::PermanentlyUnavailable),
    ];
    for (code, kind) in table {
        assert_eq!(ResponseCode::from(code), ResponseCode::Known(kind));
    }
}

#[test]
fn other_codes_are_unknown() {
    for code in [0u32, 100, 111, 199, 224, 382, 440, 500, 599, 600, 999, u32::MAX] {
        assert_eq!(ResponseCode::from(code), ResponseCode::Unknown(code));
    }
}

#[test]
fn dot_unstuffing_round_trip() {
    // ".." off the wire is stored as "."
    assert_eq!(unstuff_line(b"..".to_vec()), b".".to_vec());
    // re-escaping "." for transmission restores ".."
    assert_eq!(stuff_line(b".".to_vec()), b"..".to_vec());
    // ordinary lines pass through both ways
    assert_eq!(unstuff_line(b"plain".to_vec()), b"plain".to_vec());
    assert_eq!(stuff_line(b"plain".to_vec()), b"plain".to_vec());
    assert_eq!(stuff_line(b".hidden".to_vec()), b"..hidden".to_vec());
    assert_eq!(unstuff_line(b"..hidden".to_vec()), b".hidden".to_vec());
}

#[test]
fn status_lines_parse_or_are_malformed() {
    assert_eq!(parse_status_line(&b"211 ok".to_vec()), Ok(211));
    assert_eq!(parse_status_line(&b"502".to_vec()), Ok(502));
    assert_eq!(
        parse_status_line(&b"21 ok".to_vec()),
        Err(NntpError::MalformedStatusLine)
    );
    assert_eq!(
        parse_status_line(&b"abc ok".to_vec()),
        Err(NntpError::MalformedStatusLine)
    );
    assert_eq!(
        parse_status_line(&b"2110 ok".to_vec()),
        Err(NntpError::MalformedStatusLine)
    );
    assert_eq!(
        parse_status_line(&b"011 ok".to_vec()),
        Err(NntpError::MalformedStatusLine)
    );
    assert_eq!(parse_status_line(&Vec::new()), Err(NntpError::MalformedStatusLine));
}

#[test]
fn parse_u32_accepts_digit_runs() {
    assert_eq!(parse_u32(&b"0".to_vec()), Some(0));
    assert_eq!(parse_u32(&b"3000234".to_vec()), Some(3000234));
    assert_eq!(parse_u32(&b"0000000001".to_vec()), Some(1));
    assert_eq!(parse_u32(&b"4294967295".to_vec()), Some(u32::MAX));
    assert_eq!(parse_u32(&b"4294967296".to_vec()), None);
    assert_eq!(parse_u32(&b"".to_vec()), None);
    assert_eq!(parse_u32(&b"12a".to_vec()), None);
}

#[test]
fn commands_serialize_bit_exactly() {
    assert_eq!(Command::Capabilities.serialize(), b"CAPABILITIES\r\n".to_vec());
    assert_eq!(
        Command::Group("misc.test".to_string()).serialize(),
        b"GROUP misc.test\r\n".to_vec()
    );
    assert_eq!(
        Command::Article(ArticleSelector::Number(42)).serialize(),
        b"ARTICLE 42\r\n".to_vec()
    );
    assert_eq!(
        Command::Article(ArticleSelector::MessageId("<a@b>".to_string())).serialize(),
        b"ARTICLE <a@b>\r\n".to_vec()
    );
    assert_eq!(Command::Stat(ArticleSelector::Current).serialize(), b"STAT\r\n".to_vec());
    assert_eq!(
        Command::Head(ArticleSelector::Number(0)).serialize(),
        b"HEAD 0\r\n".to_vec()
    );
    assert_eq!(
        Command::Body(ArticleSelector::Number(3002322)).serialize(),
        b"BODY 3002322\r\n".to_vec()
    );
    assert_eq!(
        Command::AuthInfoUser("alice".to_string()).serialize(),
        b"AUTHINFO USER alice\r\n".to_vec()
    );
    assert_eq!(
        Command::AuthInfoPass("opensesame".to_string()).serialize(),
        b"AUTHINFO PASS opensesame\r\n".to_vec()
    );
    assert_eq!(Command::Quit.serialize(), b"QUIT\r\n".to_vec());
    assert_eq!(
        Command::Raw("DATE".to_string(), false).serialize(),
        b"DATE\r\n".to_vec()
    );
}

fn plain_conn() -> NntpConnection {
    NntpConnection::new(ConnectionConfig::default())
}

#[test]
fn single_line_reply_frames() {
    let conn = plain_conn();
    let buf = b"205 closing\r\n377 next".to_vec();
    let (resp, used) = conn.decode_response(&Command::Quit, &buf).unwrap();
    assert_eq!(used, 13);
    assert_eq!(resp.code, 205);
    assert_eq!(resp.lines, vec![b"205 closing".to_vec()]);
}

#[test]
fn multiline_reply_frames_and_unstuffs() {
    let conn = plain_conn();
    let buf = b"101 capabilities follow\r\nVERSION 2\r\n..leading\r\n.\r\nrest".to_vec();
    let (resp, used) = conn.decode_response(&Command::Capabilities, &buf).unwrap();
    assert_eq!(used, buf.len() - 4);
    assert_eq!(resp.code, 101);
    assert_eq!(
        resp.lines,
        vec![
            b"101 capabilities follow".to_vec(),
            b"VERSION 2".to_vec(),
            b".leading".to_vec(),
        ]
    );
}

#[test]
fn incomplete_replies_report_premature_end() {
    let conn = plain_conn();
    assert_eq!(
        conn.decode_response(&Command::Quit, &b"205 closing".to_vec()),
        Err(NntpError::PrematureEnd)
    );
    assert_eq!(
        conn.decode_response(&Command::Capabilities, &b"101 caps\r\nVERSION 2\r\n".to_vec()),
        Err(NntpError::PrematureEnd)
    );
    assert_eq!(conn.decode_response(&Command::Quit, &Vec::new()), Err(NntpError::PrematureEnd));
}

#[test]
fn malformed_status_lines_are_rejected() {
    let conn = plain_conn();
    assert_eq!(
        conn.decode_response(&Command::Quit, &b"20 oops\r\n".to_vec()),
        Err(NntpError::MalformedStatusLine)
    );
    assert_eq!(
        conn.decode_response(&Command::Quit, &b"hello\r\n".to_vec()),
        Err(NntpError::MalformedStatusLine)
    );
}

fn zlib(data: &[u8]) -> Vec<u8> {
    let mut enc = async_compression::futures::bufread::ZlibEncoder::new(data);
    let mut out: Vec<u8> = Vec::new();
    async_std::task::block_on(async_std::io::ReadExt::read_to_end(&mut enc, &mut out)).unwrap();
    out
}

fn sniffing_conn() -> NntpConnection {
    let mut config = ConnectionConfig::default();
    config.compression = Some(Compression::XFeature);
    NntpConnection::new(config)
}

#[test]
fn compressed_body_is_inflated_before_framing() {
    let mut buf = b"101 capabilities follow [COMPRESS=GZIP]\r\n".to_vec();
    buf.extend(zlib(b"VERSION 2\r\nCOMPRESS\r\n.\r\n"));
    let conn = sniffing_conn();
    let (resp, used) = conn.decode_response(&Command::Capabilities, &buf).unwrap();
    assert_eq!(used, buf.len());
    assert_eq!(resp.code, 101);
    assert_eq!(
        resp.lines,
        vec![
            b"101 capabilities follow [COMPRESS=GZIP]".to_vec(),
            b"VERSION 2".to_vec(),
            b"COMPRESS".to_vec(),
        ]
    );
}

#[test]
fn corrupt_compressed_body_is_a_deflate_error() {
    let mut buf = b"101 capabilities follow [COMPRESS=GZIP]\r\n".to_vec();
    buf.extend(b"this is not a deflate stream".to_vec());
    let conn = sniffing_conn();
    assert_eq!(
        conn.decode_response(&Command::Capabilities, &buf),
        Err(NntpError::Deflate)
    );
}

#[test]
fn truncated_compressed_body_asks_for_more_bytes() {
    let mut buf = b"101 capabilities follow [COMPRESS=GZIP]\r\n".to_vec();
    let stream = zlib(b"VERSION 2\r\n.\r\n");
    let conn = sniffing_conn();

    // only part of the deflate stream has arrived: not an error, just not
    // complete yet
    let mut partial = buf.clone();
    partial.extend(&stream[..stream.len() / 2]);
    assert_eq!(
        conn.decode_response(&Command::Capabilities, &partial),
        Err(NntpError::PrematureEnd)
    );

    // once the rest arrives the reply decodes
    buf.extend(&stream);
    let (resp, used) = conn.decode_response(&Command::Capabilities, &buf).unwrap();
    assert_eq!(used, buf.len());
    assert_eq!(resp.lines[1], b"VERSION 2".to_vec());
}

#[test]
fn raw_commands_declare_their_reply_shape() {
    let conn = plain_conn();
    let buf = b"224 overview follows\r\n1\tsubject\r\n.\r\n".to_vec();

    // declared bodied: the dot-terminated body is read
    let bodied = Command::Raw("XOVER 1-1".to_string(), true);
    let (resp, _) = conn.decode_response(&bodied, &buf).unwrap();
    assert_eq!(resp.lines.len(), 2);
    assert_eq!(resp.lines[1], b"1\tsubject".to_vec());

    // declared single-line: only the status line is consumed
    let plain = Command::Raw("DATE".to_string(), false);
    let (resp, used) = conn.decode_response(&plain, &buf).unwrap();
    assert_eq!(resp.lines.len(), 1);
    assert_eq!(used, b"224 overview follows\r\n".len());

    // an error reply to a bodied raw command is still a single line
    let err_buf = b"412 no newsgroup selected\r\n".to_vec();
    let (resp, _) = conn.decode_response(&bodied, &err_buf).unwrap();
    assert_eq!(resp.lines.len(), 1);
}

#[test]
fn unmarked_replies_pass_through_a_sniffing_connection() {
    let conn = sniffing_conn();
    let buf = b"101 capabilities follow\r\nVERSION 2\r\n.\r\n".to_vec();
    let (resp, _) = conn.decode_response(&Command::Capabilities, &buf).unwrap();
    assert_eq!(resp.lines.len(), 2);
}
