//! The session layer: configuration, the connect-time handshake, and the
//! client's cached state (capabilities and current group).
//!
//! I/O lives outside the library. The handshake is a state machine
//! ([`Connector`]): the caller reads one reply, hands it to
//! [`Connector::step`], performs the returned action (send a command, or
//! stop), and repeats until the machine completes or fails. The client's
//! per-command methods likewise split into a command to send (built by
//! [`crate::connection::NntpConnection::encode_command`]) and a verified
//! decision on the reply (`apply_select_group`, `update_capabilities`,
//! [`crate::article::stat_of_response`], the `try_from` conversions).

use vstd::prelude::*;

verus! {

use crate::capabilities::{spec_caps_err, spec_caps_ok, Capabilities};
use crate::command::Command;
use crate::connection::{ConnectionConfig, NntpConnection};
use crate::error::NntpError;
use crate::group::{spec_group_err, spec_group_ok, Group};
use crate::response::{Kind, RawResponse, ResponseCode};
use crate::text::lossy_decode;

/// Configuration a client is connected with: optional credentials, optional
/// initial group, and the connection's own options.
#[derive(Clone, Debug)]
pub struct ClientConfig {
    pub authinfo: Option<(String, String)>,
    pub group: Option<String>,
    pub conn_config: ConnectionConfig,
}

impl Default for ClientConfig {
    /// No credentials, no initial group, default connection options.
    fn default() -> (r: ClientConfig)
        ensures
            r.authinfo is None,
            r.group is None,
            r.conn_config.connect_timeout_ms is None,
            r.conn_config.read_timeout_ms is None,
            r.conn_config.write_timeout_ms is None,
            !r.conn_config.tls,
            r.conn_config.compression is None,
    {
        ClientConfig { authinfo: None, group: None, conn_config: ConnectionConfig::default() }
    }
}

impl ClientConfig {
    /// Authenticate after connecting, with a username/password exchange.
    pub fn authinfo_user_pass(self, username: &str, password: &str) -> (r: ClientConfig)
        ensures
            r.authinfo matches Some(up) && up.0@ == username@ && up.1@ == password@,
            r.group == self.group,
            r.conn_config == self.conn_config,
    {
        ClientConfig {
            authinfo: Some((username.to_owned(), password.to_owned())),
            group: self.group,
            conn_config: self.conn_config,
        }
    }

    /// Select this group upon connection; with `None` no group is selected.
    pub fn group(self, name: Option<&str>) -> (r: ClientConfig)
        ensures
            (match name {
                Some(n) => r.group matches Some(g) && g@ == n@,
                None => r.group is None,
            }),
            r.authinfo == self.authinfo,
            r.conn_config == self.conn_config,
    {
        ClientConfig {
            authinfo: self.authinfo,
            group: match name {
                Some(n) => Some(n.to_owned()),
                None => None,
            },
            conn_config: self.conn_config,
        }
    }

    /// Set the underlying connection's configuration.
    pub fn connection_config(self, config: ConnectionConfig) -> (r: ClientConfig)
        ensures
            r.conn_config == config,
            r.authinfo == self.authinfo,
            r.group == self.group,
    {
        ClientConfig { authinfo: self.authinfo, group: self.group, conn_config: config }
    }
}

/// A fresh copy of a group value.
fn copy_group(g: &Group) -> (r: Group)
    ensures
        r == *g,
{
    Group { number: g.number, low: g.low, high: g.high, name: g.name.clone() }
}

/// A session-state wrapper: it owns the connection's verified half and
/// caches the last-fetched capabilities and the last-selected group.
#[derive(Debug)]
pub struct NntpClient {
    pub conn: NntpConnection,
    pub config: ClientConfig,
    pub capabilities: Capabilities,
    pub group: Option<Group>,
}

impl NntpClient {
    /// The raw connection. Commands sent through it directly bypass the
    /// client's cached state, which then goes stale.
    pub fn conn(&mut self) -> (r: &mut NntpConnection)
        ensures
            *r == old(self).conn,
            final(self).conn == *final(r),
            final(self).config == old(self).config,
            final(self).capabilities == old(self).capabilities,
            final(self).group == old(self).group,
    {
        &mut self.conn
    }

    /// The configuration this client was connected with.
    pub fn config(&self) -> (r: &ClientConfig)
        ensures
            *r == self.config,
    {
        &self.config
    }

    /// The last selected group, if any.
    pub fn group(&self) -> (r: Option<&Group>)
        ensures
            (match r {
                Some(g) => self.group matches Some(g2) && g2 == *g,
                None => self.group is None,
            }),
    {
        self.group.as_ref()
    }

    /// The capabilities cached in the client.
    pub fn capabilities(&self) -> (r: &Capabilities)
        ensures
            *r == self.capabilities,
    {
        &self.capabilities
    }

    /// The decision half of group selection, applied to the server's reply:
    /// on the group-selected code the parsed group is cached and returned; on
    /// the no-such-newsgroup code the failure carries the reply and no
    /// message; on any other code it carries the decoded status line as its
    /// message.
    pub fn apply_select_group(&mut self, resp: RawResponse) -> (r: Result<Group, NntpError>)
        requires
            resp@.wf(),
        ensures
            final(self).conn == old(self).conn,
            final(self).config == old(self).config,
            final(self).capabilities == old(self).capabilities,
            (match r {
                Ok(g) => {
                    &&& ResponseCode::spec_from(resp.code as u32) == ResponseCode::Known(
                        Kind::GroupSelected,
                    )
                    &&& spec_group_ok(resp@.lines[0], g@)
                    &&& final(self).group matches Some(g2) && g2 == g
                },
                Err(e) => {
                    &&& final(self).group == old(self).group
                    &&& (match ResponseCode::spec_from(resp.code as u32) {
                        ResponseCode::Known(Kind::GroupSelected) => spec_group_err(resp, e),
                        ResponseCode::Known(Kind::NoSuchNewsgroup) => e == (NntpError::Failure {
                            code: ResponseCode::Known(Kind::NoSuchNewsgroup),
                            msg: None::<String>,
                            resp,
                        }),
                        code => e matches NntpError::Failure { code: c, msg, resp: r2 } && c == code
                            && (msg matches Some(m) && m@ == lossy_decode(resp@.lines[0])) && r2
                            == resp,
                    })
                },
            }),
    {
        match resp.code() {
            ResponseCode::Known(Kind::GroupSelected) => {
                match Group::try_from(&resp) {
                    Ok(g) => {
                        self.group = Some(copy_group(&g));
                        Ok(g)
                    },
                    Err(e) => Err(e),
                }
            },
            ResponseCode::Known(Kind::NoSuchNewsgroup) => Err(NntpError::failure(resp)),
            code => {
                let msg = resp.first_line_to_utf8_lossy();
                Err(NntpError::Failure { code, msg: Some(msg), resp })
            },
        }
    }

    /// The decision half of a capabilities refresh: on the capabilities code
    /// the cached set is replaced wholesale with the reply's tokens; any
    /// other code is a failure carrying the reply.
    pub fn update_capabilities(&mut self, resp: RawResponse) -> (r: Result<(), NntpError>)
        requires
            resp@.wf(),
        ensures
            final(self).conn == old(self).conn,
            final(self).config == old(self).config,
            final(self).group == old(self).group,
            (match r {
                Ok(()) => ResponseCode::spec_from(resp.code as u32) == ResponseCode::Known(
                    Kind::Capabilities,
                ) && spec_caps_ok(resp@, final(self).capabilities@),
                Err(e) => final(self).capabilities == old(self).capabilities && spec_caps_err(
                    resp,
                    e,
                ),
            }),
    {
        match Capabilities::try_from(&resp) {
            Ok(c) => {
                self.capabilities = c;
                Ok(())
            },
            Err(e) => Err(e),
        }
    }
}

/// Where the connect handshake stands: which reply it is waiting for.
#[derive(Clone, Copy, Debug, PartialEq, Eq, Structural)]
pub enum HandshakeState {
    /// Waiting for the server's greeting.
    AwaitGreeting,
    /// Waiting for the reply to the username.
    AwaitUser,
    /// Waiting for the reply to the password.
    AwaitPass,
    /// Waiting for the capability list.
    AwaitCapabilities,
    /// Waiting for the initial group selection.
    AwaitGroup,
    /// The handshake is done.
    Complete,
}

/// What the caller must do after one handshake step.
#[derive(Debug, PartialEq, Eq)]
pub enum ConnectStep {
    /// Send this command and hand back its reply.
    Send(Command),
    /// The handshake is complete.
    Complete,
}

/// The connect handshake as a state machine: greeting, optional
/// username/password exchange, unconditional capability fetch, optional
/// initial group selection — in that order, aborting at the first failure.
#[derive(Debug)]
pub struct Connector {
    pub config: ClientConfig,
    pub state: HandshakeState,
    pub capabilities: Option<Capabilities>,
    pub group: Option<Group>,
}

impl Connector {
    /// What holds of the machine between steps.
    pub open spec fn wf(self) -> bool {
        &&& ((self.state == HandshakeState::AwaitUser || self.state == HandshakeState::AwaitPass)
            ==> self.config.authinfo is Some)
        &&& (self.state == HandshakeState::AwaitGroup ==> self.config.group is Some
            && self.capabilities is Some)
        &&& (self.state == HandshakeState::Complete ==> self.capabilities is Some)
    }

    /// A handshake about to read the greeting.
    pub fn new(config: ClientConfig) -> (r: Connector)
        ensures
            r.config == config,
            r.state == HandshakeState::AwaitGreeting,
            r.capabilities is None,
            r.group is None,
            r.wf(),
    {
        Connector { config, state: HandshakeState::AwaitGreeting, capabilities: None, group: None }
    }

    /// Feeds the machine one reply; it answers with the next command to
    /// send, or completion, or the error that aborts the connect.
    ///
    /// The greeting is read and not validated. The username must be answered
    /// with the more-input-required code, or the connect fails without the
    /// password ever being sent; the password must be answered with the
    /// authentication-accepted code. The capability fetch and the group
    /// selection fail as their typed conversions do.
    pub fn step(&mut self, resp: RawResponse) -> (r: Result<ConnectStep, NntpError>)
        requires
            old(self).wf(),
            old(self).state != HandshakeState::Complete,
            resp@.wf(),
        ensures
            final(self).wf(),
            final(self).config == old(self).config,
            (match old(self).state {
                HandshakeState::AwaitGreeting => {
                    &&& *final(self) == (Connector {
                        state: final(self).state,
                        ..*old(self)
                    })
                    &&& (match old(self).config.authinfo {
                        Some(up) => r == Ok::<_, NntpError>(
                            ConnectStep::Send(Command::AuthInfoUser(up.0)),
                        ) && final(self).state == HandshakeState::AwaitUser,
                        None => r == Ok::<_, NntpError>(ConnectStep::Send(Command::Capabilities))
                            && final(self).state == HandshakeState::AwaitCapabilities,
                    })
                },
                HandshakeState::AwaitUser => {
                    if ResponseCode::spec_from(resp.code as u32) == ResponseCode::Known(
                        Kind::MoreAuthenticationRequired,
                    ) {
                        &&& *final(self) == (Connector {
                            state: HandshakeState::AwaitPass,
                            ..*old(self)
                        })
                        &&& r == Ok::<_, NntpError>(
                            ConnectStep::Send(
                                Command::AuthInfoPass(old(self).config.authinfo.unwrap().1),
                            ),
                        )
                    } else {
                        &&& *final(self) == *old(self)
                        &&& r matches Err(NntpError::Failure { code, msg, resp: r2 })
                        &&& code == ResponseCode::spec_from(resp.code as u32)
                        &&& msg matches Some(m) && m@ == "AUTHINFO USER failed"@
                        &&& r2 == resp
                    }
                },
                HandshakeState::AwaitPass => {
                    if ResponseCode::spec_from(resp.code as u32) == ResponseCode::Known(
                        Kind::AuthenticationAccepted,
                    ) {
                        &&& *final(self) == (Connector {
                            state: HandshakeState::AwaitCapabilities,
                            ..*old(self)
                        })
                        &&& r == Ok::<_, NntpError>(ConnectStep::Send(Command::Capabilities))
                    } else {
                        &&& *final(self) == *old(self)
                        &&& r matches Err(NntpError::Failure { code, msg, resp: r2 })
                        &&& code == ResponseCode::spec_from(resp.code as u32)
                        &&& msg matches Some(m) && m@ == "AUTHINFO PASS failed"@
                        &&& r2 == resp
                    }
                },
                HandshakeState::AwaitCapabilities => {
                    match r {
                        Ok(step) => {
                            &&& ResponseCode::spec_from(resp.code as u32) == ResponseCode::Known(
                                Kind::Capabilities,
                            )
                            &&& final(self).capabilities matches Some(c) && spec_caps_ok(resp@, c@)
                            &&& final(self).group == old(self).group
                            &&& (match old(self).config.group {
                                Some(name) => step == ConnectStep::Send(Command::Group(name))
                                    && final(self).state == HandshakeState::AwaitGroup,
                                None => step == ConnectStep::Complete && final(self).state
                                    == HandshakeState::Complete,
                            })
                        },
                        Err(e) => *final(self) == *old(self) && spec_caps_err(resp, e),
                    }
                },
                HandshakeState::AwaitGroup => {
                    match r {
                        Ok(step) => {
                            &&& step == ConnectStep::Complete
                            &&& final(self).state == HandshakeState::Complete
                            &&& final(self).capabilities == old(self).capabilities
                            &&& ResponseCode::spec_from(resp.code as u32) == ResponseCode::Known(
                                Kind::GroupSelected,
                            )
                            &&& final(self).group matches Some(g) && spec_group_ok(
                                resp@.lines[0],
                                g@,
                            )
                        },
                        Err(e) => {
                            &&& *final(self) == *old(self)
                            &&& (match ResponseCode::spec_from(resp.code as u32) {
                                ResponseCode::Known(Kind::GroupSelected) => spec_group_err(resp, e),
                                ResponseCode::Known(Kind::NoSuchNewsgroup) => e
                                    == (NntpError::Failure {
                                    code: ResponseCode::Known(Kind::NoSuchNewsgroup),
                                    msg: None::<String>,
                                    resp,
                                }),
                                code => e matches NntpError::Failure { code: c, msg, resp: r2 } && c
                                    == code && (msg matches Some(m) && m@ == lossy_decode(
                                    resp@.lines[0],
                                )) && r2 == resp,
                            })
                        },
                    }
                },
                HandshakeState::Complete => false,
            }),
    {
        match self.state {
            HandshakeState::AwaitGreeting => {
                match &self.config.authinfo {
                    Some(up) => {
                        let user = up.0.clone();
                        self.state = HandshakeState::AwaitUser;
                        Ok(ConnectStep::Send(Command::AuthInfoUser(user)))
                    },
                    None => {
                        self.state = HandshakeState::AwaitCapabilities;
                        Ok(ConnectStep::Send(Command::Capabilities))
                    },
                }
            },
            HandshakeState::AwaitUser => {
                match resp.code() {
                    ResponseCode::Known(Kind::MoreAuthenticationRequired) => {
                        let pass = match &self.config.authinfo {
                            Some(up) => up.1.clone(),
                            None => {
                                proof {
                                    assert(false);
                                }
                                "".to_owned()
                            },
                        };
                        self.state = HandshakeState::AwaitPass;
                        Ok(ConnectStep::Send(Command::AuthInfoPass(pass)))
                    },
                    code => Err(
                        NntpError::Failure {
                            code,
                            msg: Some("AUTHINFO USER failed".to_owned()),
                            resp,
                        },
                    ),
                }
            },
            HandshakeState::AwaitPass => {
                match resp.code() {
                    ResponseCode::Known(Kind::AuthenticationAccepted) => {
                        self.state = HandshakeState::AwaitCapabilities;
                        Ok(ConnectStep::Send(Command::Capabilities))
                    },
                    code => Err(
                        NntpError::Failure {
                            code,
                            msg: Some("AUTHINFO PASS failed".to_owned()),
                            resp,
                        },
                    ),
                }
            },
            HandshakeState::AwaitCapabilities => {
                match Capabilities::try_from(&resp) {
                    Ok(c) => {
                        self.capabilities = Some(c);
                        match &self.config.group {
                            Some(name) => {
                                let name = name.clone();
                                self.state = HandshakeState::AwaitGroup;
                                Ok(ConnectStep::Send(Command::Group(name)))
                            },
                            None => {
                                self.state = HandshakeState::Complete;
                                Ok(ConnectStep::Complete)
                            },
                        }
                    },
                    Err(e) => Err(e),
                }
            },
            HandshakeState::AwaitGroup => {
                match resp.code() {
                    ResponseCode::Known(Kind::GroupSelected) => {
                        match Group::try_from(&resp) {
                            Ok(g) => {
                                self.group = Some(g);
                                self.state = HandshakeState::Complete;
                                Ok(ConnectStep::Complete)
                            },
                            Err(e) => Err(e),
                        }
                    },
                    ResponseCode::Known(Kind::NoSuchNewsgroup) => Err(NntpError::failure(resp)),
                    code => {
                        let msg = resp.first_line_to_utf8_lossy();
                        Err(NntpError::Failure { code, msg: Some(msg), resp })
                    },
                }
            },
            HandshakeState::Complete => {
                proof {
                    assert(false);
                }
                Err(NntpError::Io)
            },
        }
    }

    /// Turns a completed handshake and the connection it ran over into a
    /// client.
    pub fn into_client(self, conn: NntpConnection) -> (r: NntpClient)
        requires
            self.wf(),
            self.state == HandshakeState::Complete,
        ensures
            r.conn == conn,
            r.config == self.config,
            Some(r.capabilities) == self.capabilities,
            r.group == self.group,
    {
        let capabilities = match self.capabilities {
            Some(c) => c,
            None => {
                proof {
                    assert(false);
                }
                Capabilities { tokens: Vec::new() }
            },
        };
        NntpClient { conn, config: self.config, capabilities, group: self.group }
    }
}

} // verus!
