//! Typed response converters: groups, capabilities, articles and the status
//! probe.

use brokaw::article::{stat_of_response, BinaryArticle, Body, Head, Stat};
use brokaw::capabilities::Capabilities;
use brokaw::error::NntpError;
use brokaw::group::Group;
use brokaw::response::{RawResponse, ResponseCode};

fn resp(code: u16, lines: &[&[u8]]) -> RawResponse {
    RawResponse { code, lines: lines.iter().map(|l| l.to_vec()).collect() }
}

#[test]
fn group_parses_the_documented_line() {
    let r = resp(211, &[b"211 3000234 3000000 3002322 mozilla.dev.platform"]);
    let g = Group::try_from(&r).unwrap();
    assert_eq!(g.number, 3000234);
    assert_eq!(g.low, 3000000);
    assert_eq!(g.high, 3002322);
    assert_eq!(g.name, "mozilla.dev.platform");
}

#[test]
fn group_missing_name_names_the_field() {
    let r = resp(211, &[b"211 3000234 3000000 3002322"]);
    assert_eq!(
        Group::try_from(&r),
        Err(NntpError::MissingField("name".to_string()))
    );
}

#[test]
fn group_errors_name_each_bad_field() {
    let r = resp(211, &[b"211 x 3000000 3002322 misc.test"]);
    assert_eq!(
        Group::try_from(&r),
        Err(NntpError::InvalidField("number".to_string()))
    );
    let r = resp(211, &[b"211 1 2 99999999999 misc.test"]);
    assert_eq!(
        Group::try_from(&r),
        Err(NntpError::InvalidField("high".to_string()))
    );
    let r = resp(211, &[b"211"]);
    assert_eq!(
        Group::try_from(&r),
        Err(NntpError::MissingField("number".to_string()))
    );
}

#[test]
fn group_rejects_other_codes_with_the_reply() {
    let r = resp(411, &[b"411 no such newsgroup"]);
    match Group::try_from(&r) {
        Err(NntpError::Failure { code, msg, resp: r2 }) => {
            assert_eq!(code, ResponseCode::from(411));
            assert_eq!(msg, None);
            assert_eq!(r2, r);
        }
        other => panic!("{:?}", other),
    }
}

#[test]
fn group_name_is_decoded_as_utf8() {
    // a two-byte UTF-8 scalar: the name must come out one char shorter than
    // its byte count
    let line = "211 1 1 2 caf\u{e9}.talk".as_bytes();
    let r = resp(211, &[line]);
    let g = Group::try_from(&r).unwrap();
    assert_eq!(g.name, "caf\u{e9}.talk");
    assert_eq!(g.name.chars().count() + 1, g.name.len());
}

#[test]
fn group_name_that_is_not_utf8_is_decoded_lossily() {
    let r = resp(211, &[b"211 1 2 3 \xff"]);
    let g = Group::try_from(&r).unwrap();
    assert_eq!((g.number, g.low, g.high), (1, 2, 3));
    assert_eq!(g.name, "\u{fffd}");
}

#[test]
fn message_id_that_is_not_utf8_is_decoded_lossily() {
    let r = resp(223, &[b"223 7 <\xff@x>"]);
    let s = Stat::try_from(&r).unwrap();
    assert_eq!(s.number, 7);
    assert_eq!(s.message_id, "<\u{fffd}@x>");
}

#[test]
fn capabilities_collect_every_token() {
    let r = resp(
        101,
        &[b"101 capability list follows", b"VERSION 2", b"READER POST", b"COMPRESS DEFLATE"],
    );
    let c = Capabilities::try_from(&r).unwrap();
    let want: Vec<String> = ["VERSION", "2", "READER", "POST", "COMPRESS", "DEFLATE"]
        .iter()
        .map(|s| s.to_string())
        .collect();
    assert_eq!(c.tokens(), &want);
}

#[test]
fn capabilities_reject_other_codes() {
    let r = resp(200, &[b"200 hello"]);
    match Capabilities::try_from(&r) {
        Err(NntpError::Failure { code, msg, .. }) => {
            assert_eq!(code, ResponseCode::from(200));
            assert_eq!(msg, None);
        }
        other => panic!("{:?}", other),
    }
}

#[test]
fn capabilities_reject_non_utf8_tokens() {
    let r = resp(101, &[b"101 caps", &[0xff, 0xfe]]);
    assert_eq!(
        Capabilities::try_from(&r),
        Err(NntpError::InvalidField("capability".to_string()))
    );
}

#[test]
fn article_narrows_and_keeps_body_lines() {
    let r = resp(
        220,
        &[
            b"220 3002322 <i.am.an.article@example.com> article follows",
            b"Subject: hello",
            b"",
            b"body line",
        ],
    );
    let a = BinaryArticle::try_from(&r).unwrap();
    assert_eq!(a.number, 3002322);
    assert_eq!(a.message_id, "<i.am.an.article@example.com>");
    assert_eq!(
        a.lines,
        vec![b"Subject: hello".to_vec(), b"".to_vec(), b"body line".to_vec()]
    );
}

#[test]
fn article_to_text_validates_utf8() {
    let r = resp(220, &[b"220 1 <a@b>", b"ok line", &[0xc3, 0x28]]);
    let a = BinaryArticle::try_from(&r).unwrap();
    assert_eq!(a.to_text(), Err(NntpError::InvalidField("body".to_string())));

    let r = resp(220, &[b"220 1 <a@b>", b"only good lines"]);
    let a = BinaryArticle::try_from(&r).unwrap();
    let t = a.to_text().unwrap();
    assert_eq!(t.number, 1);
    assert_eq!(t.message_id, "<a@b>");
    assert_eq!(t.lines, vec!["only good lines".to_string()]);
}

#[test]
fn article_to_text_lossy_always_succeeds() {
    let r = resp(220, &[b"220 1 <a@b>", &[0xff], b"fine"]);
    let a = BinaryArticle::try_from(&r).unwrap();
    let t = a.to_text_lossy();
    assert_eq!(t.lines, vec!["\u{fffd}".to_string(), "fine".to_string()]);
}

#[test]
fn head_and_body_require_their_codes() {
    let head_resp = resp(221, &[b"221 12 <h@x>", b"Subject: hi"]);
    let h = Head::try_from(&head_resp).unwrap();
    assert_eq!((h.number, h.message_id.as_str()), (12, "<h@x>"));

    let body_resp = resp(222, &[b"222 12 <h@x>", b"the body"]);
    let b = Body::try_from(&body_resp).unwrap();
    assert_eq!(b.lines, vec![b"the body".to_vec()]);

    // a body reply does not narrow to a head, nor the other way round
    assert!(matches!(Head::try_from(&body_resp), Err(NntpError::Failure { .. })));
    assert!(matches!(Body::try_from(&head_resp), Err(NntpError::Failure { .. })));
}

#[test]
fn article_missing_fields_are_named() {
    let r = resp(223, &[b"223"]);
    assert_eq!(
        Stat::try_from(&r),
        Err(NntpError::MissingField("number".to_string()))
    );
    let r = resp(223, &[b"223 3000234"]);
    assert_eq!(
        Stat::try_from(&r),
        Err(NntpError::MissingField("message-id".to_string()))
    );
    let r = resp(223, &[b"223 abc <a@b>"]);
    assert_eq!(
        Stat::try_from(&r),
        Err(NntpError::InvalidField("number".to_string()))
    );
}

#[test]
fn stat_treats_absence_as_none() {
    let exists = resp(223, &[b"223 3000234 <a@b> exists"]);
    let s = stat_of_response(exists).unwrap().unwrap();
    assert_eq!((s.number, s.message_id.as_str()), (3000234, "<a@b>"));

    for code in [430u16, 420, 423] {
        let r = resp(code, &[b"xxx no such article"]);
        assert_eq!(stat_of_response(r), Ok(None));
    }

    let other = resp(500, &[b"500 error"]);
    match stat_of_response(other) {
        Err(NntpError::Failure { code, msg, .. }) => {
            assert_eq!(code, ResponseCode::Unknown(500));
            assert_eq!(msg, None);
        }
        other => panic!("{:?}", other),
    }
}
