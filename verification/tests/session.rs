//! The connect handshake and the client's cached session state.

use brokaw::article::BinaryArticle;
use brokaw::client::{ClientConfig, ConnectStep, Connector, HandshakeState, NntpClient};
use brokaw::command::{ArticleSelector, Command};
use brokaw::connection::{ConnectionConfig, NntpConnection};
use brokaw::error::NntpError;
use brokaw::response::{Kind, RawResponse, ResponseCode};

fn resp(code: u16, lines: &[&[u8]]) -> RawResponse {
    RawResponse { code, lines: lines.iter().map(|l| l.to_vec()).collect() }
}

#[test]
fn connect_without_credentials_skips_authentication() {
    let mut c = Connector::new(ClientConfig::default());
    let step = c.step(resp(200, &[b"200 server ready"])).unwrap();
    assert_eq!(step, ConnectStep::Send(Command::Capabilities));
    assert_eq!(c.state, HandshakeState::AwaitCapabilities);
}

#[test]
fn authentication_runs_user_then_pass() {
    let config = ClientConfig::default().authinfo_user_pass("alice", "opensesame");
    let mut c = Connector::new(config);

    let step = c.step(resp(200, &[b"200 ready"])).unwrap();
    assert_eq!(step, ConnectStep::Send(Command::AuthInfoUser("alice".to_string())));

    let step = c.step(resp(381, &[b"381 password required"])).unwrap();
    assert_eq!(step, ConnectStep::Send(Command::AuthInfoPass("opensesame".to_string())));

    let step = c.step(resp(281, &[b"281 authentication accepted"])).unwrap();
    assert_eq!(step, ConnectStep::Send(Command::Capabilities));
}

#[test]
fn wrong_user_reply_fails_before_the_password_is_sent() {
    let config = ClientConfig::default().authinfo_user_pass("alice", "opensesame");
    let mut c = Connector::new(config);
    c.step(resp(200, &[b"200 ready"])).unwrap();

    // the server answers with something other than "more input required"
    let r = resp(502, &[b"502 command unavailable"]);
    match c.step(r) {
        Err(NntpError::Failure { code, msg, .. }) => {
            assert_eq!(code, ResponseCode::Known(Kind::PermanentlyUnavailable));
            assert_eq!(msg, Some("AUTHINFO USER failed".to_string()));
        }
        other => panic!("{:?}", other),
    }
    // the machine did not move on to the password
    assert_eq!(c.state, HandshakeState::AwaitUser);
}

#[test]
fn wrong_pass_reply_fails_the_connect() {
    let config = ClientConfig::default().authinfo_user_pass("alice", "opensesame");
    let mut c = Connector::new(config);
    c.step(resp(200, &[b"200 ready"])).unwrap();
    c.step(resp(381, &[b"381 password required"])).unwrap();
    match c.step(resp(481, &[b"481 authentication failed"])) {
        Err(NntpError::Failure { msg, .. }) => {
            assert_eq!(msg, Some("AUTHINFO PASS failed".to_string()));
        }
        other => panic!("{:?}", other),
    }
}

#[test]
fn connect_with_initial_group_selects_it_and_caches_it() {
    // greeting-read, capabilities-fetch, group-selection, in that order
    let config = ClientConfig::default().group(Some("mozilla.dev.platform"));
    let mut c = Connector::new(config);

    let step = c.step(resp(200, &[b"200 ready"])).unwrap();
    assert_eq!(step, ConnectStep::Send(Command::Capabilities));

    let caps = resp(101, &[b"101 capability list follows", b"VERSION 2", b"READER"]);
    let step = c.step(caps).unwrap();
    assert_eq!(step, ConnectStep::Send(Command::Group("mozilla.dev.platform".to_string())));

    let group = resp(211, &[b"211 3000234 3000000 3002322 mozilla.dev.platform"]);
    let step = c.step(group).unwrap();
    assert_eq!(step, ConnectStep::Complete);

    let client: NntpClient = c.into_client(NntpConnection::new(ConnectionConfig::default()));
    let g = client.group().unwrap();
    assert_eq!(g.number, 3000234);
    assert_eq!(g.low, 3000000);
    assert_eq!(g.high, 3002322);
    assert_eq!(g.name, "mozilla.dev.platform");
    let want: Vec<String> = ["VERSION", "2", "READER"].iter().map(|s| s.to_string()).collect();
    assert_eq!(client.capabilities().tokens(), &want);

    // fetching the highest-numbered article of that session's group
    let high = g.high;
    let cmd = Command::Article(ArticleSelector::Number(high));
    assert_eq!(cmd.serialize(), b"ARTICLE 3002322\r\n".to_vec());
    let reply = resp(
        220,
        &[
            b"220 3002322 <i.am.an.article.you.will.want@example.com>",
            b"Subject: hello",
            b"",
            b"hello world",
        ],
    );
    let article = BinaryArticle::try_from(&reply).unwrap();
    assert_eq!(article.number, high);
    assert!(!article.message_id.is_empty());
}

#[test]
fn no_such_group_aborts_the_connect() {
    let config = ClientConfig::default().group(Some("no.such.group"));
    let mut c = Connector::new(config);
    c.step(resp(200, &[b"200 ready"])).unwrap();
    c.step(resp(101, &[b"101 caps", b"VERSION 2"])).unwrap();
    match c.step(resp(411, &[b"411 no such newsgroup"])) {
        Err(NntpError::Failure { code, msg, .. }) => {
            assert_eq!(code, ResponseCode::Known(Kind::NoSuchNewsgroup));
            assert_eq!(msg, None);
        }
        other => panic!("{:?}", other),
    }
}

fn connected_client() -> NntpClient {
    let mut c = Connector::new(ClientConfig::default());
    c.step(resp(200, &[b"200 ready"])).unwrap();
    c.step(resp(101, &[b"101 caps", b"VERSION 2"])).unwrap();
    c.into_client(NntpConnection::new(ConnectionConfig::default()))
}

#[test]
fn select_group_updates_the_cache() {
    let mut client = connected_client();
    assert!(client.group().is_none());

    let g = client
        .apply_select_group(resp(211, &[b"211 10 1 10 misc.test"]))
        .unwrap();
    assert_eq!(g.name, "misc.test");
    assert_eq!(client.group().unwrap(), &g);

    // a failed selection leaves the cache alone
    let err = client.apply_select_group(resp(411, &[b"411 no such newsgroup"]));
    assert!(matches!(err, Err(NntpError::Failure { msg: None, .. })));
    assert_eq!(client.group().unwrap().name, "misc.test");

    // an unexpected code carries the decoded status line as its message
    match client.apply_select_group(resp(500, &[b"500 woe"])) {
        Err(NntpError::Failure { code, msg, .. }) => {
            assert_eq!(code, ResponseCode::Unknown(500));
            assert_eq!(msg, Some("500 woe".to_string()));
        }
        other => panic!("{:?}", other),
    }
}

#[test]
fn update_capabilities_replaces_the_cache_wholesale() {
    let mut client = connected_client();
    client
        .update_capabilities(resp(101, &[b"101 caps", b"READER POST"]))
        .unwrap();
    let want: Vec<String> = ["READER", "POST"].iter().map(|s| s.to_string()).collect();
    assert_eq!(client.capabilities().tokens(), &want);

    // a refresh that fails leaves the cache alone
    let err = client.update_capabilities(resp(400, &[b"400 later"]));
    assert!(matches!(err, Err(NntpError::Failure { .. })));
    assert_eq!(client.capabilities().tokens(), &want);
}

#[test]
fn close_expects_the_connection_closing_code() {
    let ok = resp(205, &[b"205 closing connection"]);
    let back = ok.fail_unless(Kind::ConnectionClosing).unwrap();
    assert_eq!(back.code, 205);

    let bad = resp(200, &[b"200 still here"]);
    match bad.fail_unless(Kind::ConnectionClosing) {
        Err(NntpError::Failure { code, msg, resp: r2 }) => {
            assert_eq!(code, ResponseCode::Known(Kind::PostingAllowed));
            assert_eq!(msg, None);
            assert_eq!(r2.code, 200);
        }
        other => panic!("{:?}", other),
    }
}

#[test]
fn lossy_first_line_substitutes_replacement_characters() {
    let r = RawResponse { code: 500, lines: vec![vec![0x35, 0x30, 0x30, 0x20, 0xff]] };
    assert_eq!(r.first_line_to_utf8_lossy(), "500 \u{fffd}");
    assert_eq!(r.first_line_without_code(), vec![0xff]);
}

#[test]
fn config_builders_compose() {
    let mut conn_config = ConnectionConfig::default();
    conn_config.read_timeout_ms = Some(5000);
    conn_config.tls = true;
    let config = ClientConfig::default()
        .authinfo_user_pass("alice", "opensesame")
        .group(Some("misc.test"))
        .connection_config(conn_config);
    assert_eq!(
        config.authinfo,
        Some(("alice".to_string(), "opensesame".to_string()))
    );
    assert_eq!(config.group, Some("misc.test".to_string()));
    assert_eq!(config.conn_config.read_timeout_ms, Some(5000));
    assert!(config.conn_config.tls);

    let mut client = {
        let mut c = Connector::new(config);
        c.step(resp(200, &[b"200 ready"])).unwrap();
        c.step(resp(381, &[b"381 go on"])).unwrap();
        c.step(resp(281, &[b"281 accepted"])).unwrap();
        c.step(resp(101, &[b"101 caps", b"READER"])).unwrap();
        c.step(resp(211, &[b"211 1 1 1 misc.test"])).unwrap();
        c.into_client(NntpConnection::new(conn_config))
    };
    assert_eq!(client.config().group, Some("misc.test".to_string()));
    assert_eq!(client.conn().config().read_timeout_ms, Some(5000));
}
