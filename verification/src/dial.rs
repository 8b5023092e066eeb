//! Opening a stream to the server, with TLS where the server offers it, and the
//! address of the websocket on it.
use crate::error::ArchipelagoError;
use crate::startup::{Package, Startup, StartupState, Upgrade, UpgradeState};
use vstd::prelude::*;
use vstd::string::*;

verus! {

/// The decimal digit of a number below ten.
pub open spec fn digit(value: nat) -> char {
    (('0' as int) + value) as char
}

/// A number in decimal, without leading zeros.
pub open spec fn decimal(value: nat) -> Seq<char>
    decreases value,
{
    if value < 10 {
        seq![digit(value)]
    } else {
        decimal(value / 10).push(digit(value % 10))
    }
}

/// The address of the websocket at a host and a port: `wss` over TLS, else `ws`.
pub open spec fn websocket_url(secure: bool, host: Seq<char>, port: u16) -> Seq<char> {
    (if secure {
        "wss://"@
    } else {
        "ws://"@
    }) + host + ":"@ + decimal(port as nat)
}

/// The text of a decimal digit.
fn digit_text(value: u16) -> (text: &'static str)
    requires
        value < 10,
    ensures
        text@ == seq![digit(value as nat)],
{
    proof {
        reveal_strlit("0");
        reveal_strlit("1");
        reveal_strlit("2");
        reveal_strlit("3");
        reveal_strlit("4");
        reveal_strlit("5");
        reveal_strlit("6");
        reveal_strlit("7");
        reveal_strlit("8");
        reveal_strlit("9");
    }
    let text: &'static str = match value {
        0 => "0",
        1 => "1",
        2 => "2",
        3 => "3",
        4 => "4",
        5 => "5",
        6 => "6",
        7 => "7",
        8 => "8",
        _ => "9",
    };
    assert(text@ =~= seq![digit(value as nat)]);
    text
}

/// Writes a number in decimal behind a text.
fn append_decimal(text: &mut String, value: u16)
    ensures
        final(text)@ == old(text)@ + decimal(value as nat),
    decreases value,
{
    if value >= 10 {
        append_decimal(text, value / 10);
    }
    text.append(digit_text(value % 10));
    assert(text@ =~= old(text)@ + decimal(value as nat));
}

/// The address of the websocket at a host and a port.
pub fn url(secure: bool, host: &str, port: u16) -> (text: String)
    ensures
        text@ == websocket_url(secure, host@, port),
{
    let mut text: String = if secure {
        "wss://".to_string()
    } else {
        "ws://".to_string()
    };
    text.append(host);
    text.append(":");
    append_decimal(&mut text, port);
    text
}

/// An attempt to open a stream. A first attempt goes for TLS; when the handshake
/// fails the stream is spent, and a second attempt opens a plain one.
#[derive(Debug)]
pub struct Dial {
    host: String,
    port: u16,
    package: Package,
    downgraded: bool,
}

/// An attempt to open a stream, as it is seen from outside.
pub struct DialState {
    pub host: Seq<char>,
    pub port: u16,
    pub package: Package,
    pub downgraded: bool,
}

impl View for Dial {
    type V = DialState;

    closed spec fn view(&self) -> DialState {
        DialState {
            host: self.host@,
            port: self.port,
            package: self.package,
            downgraded: self.downgraded,
        }
    }
}

/// What opening a TCP stream, or a setting of it, came to.
pub type StreamResult = Result<(), std::io::Error>;

/// An open stream is told not to wait for more before it sends.
pub open spec fn after_connect(dial: DialState, connected: StreamResult) -> StartupState {
    match connected {
        Ok(()) => StartupState::SetNoDelay(dial),
        Err(error) => StartupState::Done(Err(ArchipelagoError::NetworkError(error))),
    }
}

/// The websocket is opened on the stream at hand.
pub open spec fn on_stream(dial: DialState, secure: bool) -> StartupState {
    StartupState::Subscribe(
        UpgradeState {
            url: websocket_url(secure, dial.host, dial.port),
            package: dial.package,
        },
    )
}

/// A stream that is ready goes for TLS, unless that has failed before.
pub open spec fn after_no_delay(dial: DialState, set: StreamResult) -> StartupState {
    match set {
        Ok(()) => if dial.downgraded {
            on_stream(dial, false)
        } else {
            StartupState::BuildTls(dial)
        },
        Err(error) => StartupState::Done(Err(ArchipelagoError::NetworkError(error))),
    }
}

/// Without TLS on this machine the stream is used as it is.
pub open spec fn after_tls_built(dial: DialState, built: bool) -> StartupState {
    if built {
        StartupState::Handshake(dial)
    } else {
        on_stream(dial, false)
    }
}

/// A failed handshake has spent the stream: another one is opened, and stays plain.
pub open spec fn after_handshake(dial: DialState, shaken: bool) -> StartupState {
    if shaken {
        on_stream(dial, true)
    } else {
        StartupState::Connect(DialState { downgraded: true, ..dial })
    }
}

impl Dial {
    /// Starts to open a stream.
    pub(crate) fn start(host: &str, port: u16, package: Package) -> (next: Startup)
        ensures
            next@ == StartupState::Connect(
                DialState { host: host@, port, package, downgraded: false },
            ),
    {
        Startup::Connect(Dial { host: host.to_string(), port, package, downgraded: false })
    }

    /// The host to connect to.
    pub fn host(&self) -> (host: &str)
        ensures
            host@ == self@.host,
    {
        self.host.as_str()
    }

    /// The port to connect to.
    pub fn port(&self) -> (port: u16)
        ensures
            port == self@.port,
    {
        self.port
    }

    /// Goes on after the TCP stream was opened.
    pub fn connected(self, connected: StreamResult) -> (next: Startup)
        ensures
            next@ == after_connect(self@, connected),
    {
        match connected {
            Ok(()) => Startup::SetNoDelay(self),
            Err(error) => Startup::Done(Err(ArchipelagoError::from(error))),
        }
    }

    /// Goes on after the stream was told to send without delay.
    pub fn no_delay_set(self, set: StreamResult) -> (next: Startup)
        ensures
            next@ == after_no_delay(self@, set),
    {
        match set {
            Ok(()) => if self.downgraded {
                self.open(false)
            } else {
                Startup::BuildTls(self)
            },
            Err(error) => Startup::Done(Err(ArchipelagoError::from(error))),
        }
    }

    /// Goes on after a TLS connector was built, or could not be.
    pub fn tls_built(self, built: bool) -> (next: Startup)
        ensures
            next@ == after_tls_built(self@, built),
    {
        if built {
            Startup::Handshake(self)
        } else {
            self.open(false)
        }
    }

    /// Goes on after the TLS handshake, which succeeded or failed.
    pub fn handshaken(self, shaken: bool) -> (next: Startup)
        ensures
            next@ == after_handshake(self@, shaken),
    {
        if shaken {
            self.open(true)
        } else {
            Startup::Connect(
                Dial { host: self.host, port: self.port, package: self.package, downgraded: true },
            )
        }
    }

    /// Goes over to the websocket.
    fn open(self, secure: bool) -> (next: Startup)
        ensures
            next@ == on_stream(self@, secure),
    {
        let address = url(secure, self.host.as_str(), self.port);
        Startup::Subscribe(Upgrade::new(address, self.package))
    }
}

} // verus!
