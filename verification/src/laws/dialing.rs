//! What the address of the websocket says, and what stays the same on the way to it.
use crate::dial::{
    after_connect, after_handshake, after_no_delay, after_tls_built, decimal, digit, on_stream,
    websocket_url, DialState, StreamResult,
};
use crate::error::ArchipelagoError;
use crate::startup::StartupState;
use vstd::prelude::*;

verus! {

/// The number that a text of digits reads as: the code of each character counts from that
/// of `0`, and each character weighs ten times as much as the next.
pub open spec fn reads_as(text: Seq<char>) -> int
    decreases text.len(),
{
    if text.len() == 0 {
        0
    } else {
        10 * reads_as(text.drop_last()) + (text.last() as int - '0' as int)
    }
}

/// A number in decimal is one or more digits, reads as that number, and starts with a zero
/// only where it is the zero alone.
pub proof fn law_a_decimal_reads_back(value: nat)
    ensures
        decimal(value).len() > 0,
        forall|i: int| 0 <= i < decimal(value).len() ==> '0' <= #[trigger] decimal(value)[i] <= '9',
        reads_as(decimal(value)) == value,
        decimal(value)[0] == '0' ==> decimal(value).len() == 1,
    decreases value,
{
    let text = decimal(value);
    let last = value % 10;
    assert(digit(last) as int == '0' as int + last);
    assert(text.last() == digit(last));
    if value < 10 {
        assert(text.drop_last() =~= Seq::empty());
        assert(reads_as(text.drop_last()) == 0);
    } else {
        law_a_decimal_reads_back(value / 10);
        let front = decimal(value / 10);
        assert(text.drop_last() =~= front);
        assert(text[0] == front[0]);
        if front[0] == '0' {
            assert(front.drop_last() =~= Seq::empty());
            assert(reads_as(front.drop_last()) == 0);
            assert(reads_as(front) == 0);
        }
        assert forall|i: int| 0 <= i < text.len() implies '0' <= #[trigger] text[i] <= '9' by {
            if i < front.len() {
                assert(text[i] == front[i]);
            }
        }
    }
}

/// An address starts with `wss://` over TLS and with `ws://` without it; then comes the
/// host, character by character, then a colon, and then nothing but digits, which read as
/// the port and do not start with a needless zero.
pub proof fn law_an_address_names_scheme_host_and_port(secure: bool, host: Seq<char>, port: u16)
    ensures
        ({
            let address = websocket_url(secure, host, port);
            let start: int = if secure {
                6
            } else {
                5
            };
            let colon = start + host.len();
            &&& address.len() > colon + 1
            &&& address[0] == 'w'
            &&& address[1] == 's'
            &&& secure ==> address[2] == 's'
            &&& address[start - 3] == ':'
            &&& address[start - 2] == '/'
            &&& address[start - 1] == '/'
            &&& address.subrange(start, colon) == host
            &&& address[colon] == ':'
            &&& forall|i: int| colon < i < address.len() ==> '0' <= #[trigger] address[i] <= '9'
            &&& reads_as(address.skip(colon + 1)) == port
            &&& address[colon + 1] == '0' ==> address.len() == colon + 2
        }),
{
    reveal_strlit("wss://");
    reveal_strlit("ws://");
    reveal_strlit(":");
    let address = websocket_url(secure, host, port);
    let start: int = if secure {
        6
    } else {
        5
    };
    let colon = start + host.len();
    let digits = decimal(port as nat);
    law_a_decimal_reads_back(port as nat);
    assert(address.subrange(start, colon) =~= host);
    assert(address.skip(colon + 1) =~= digits);
    assert forall|i: int| colon < i < address.len() implies '0' <= #[trigger] address[i]
        <= '9' by {
        assert(address[i] == digits[i - colon - 1]);
    }
    assert(address[colon + 1] == digits[0]);
}

/// Two addresses are the same only where scheme, host and port are.
pub proof fn law_an_address_belongs_to_one_place(
    secure: bool,
    host: Seq<char>,
    port: u16,
    other_secure: bool,
    other_host: Seq<char>,
    other_port: u16,
)
    requires
        websocket_url(secure, host, port) == websocket_url(other_secure, other_host, other_port),
    ensures
        secure == other_secure,
        host == other_host,
        port == other_port,
{
    law_an_address_names_scheme_host_and_port(secure, host, port);
    law_an_address_names_scheme_host_and_port(other_secure, other_host, other_port);
    let address = websocket_url(secure, host, port);
    assert(secure == other_secure) by {
        if secure != other_secure {
            assert(address[2] == 's' && address[2] == ':');
        }
    }
    let start: int = if secure {
        6
    } else {
        5
    };
    let colon = start + host.len();
    let other_colon = start + other_host.len();
    if colon < other_colon {
        assert('0' <= address[other_colon] <= '9');
    }
    if other_colon < colon {
        assert('0' <= address[colon] <= '9');
    }
}

/// On whatever stream, the websocket is opened at the address of the host and the port that
/// were dialed, and what to fetch is not forgotten.
pub proof fn law_a_websocket_is_opened_where_it_was_dialed(dial: DialState, secure: bool)
    ensures
        ({
            let start: int = if secure {
                6
            } else {
                5
            };
            let colon = start + dial.host.len();
            &&& on_stream(dial, secure) matches StartupState::Subscribe(upgrade)
            &&& upgrade.package == dial.package
            &&& upgrade.url[0] == 'w'
            &&& upgrade.url[1] == 's'
            &&& upgrade.url[2] == if secure {
                's'
            } else {
                ':'
            }
            &&& upgrade.url.subrange(start, colon) == dial.host
            &&& upgrade.url[colon] == ':'
            &&& reads_as(upgrade.url.skip(colon + 1)) == dial.port
        }),
{
    law_an_address_names_scheme_host_and_port(secure, dial.host, dial.port);
}

/// Each thing that is tried on the way to a stream is tried for the same host, the same port
/// and the same data packages. A try that fails is reported as the failure that it was, and
/// a second stream is opened only after a failed handshake.
pub proof fn law_the_way_to_a_stream_keeps_its_goal(
    dial: DialState,
    tried: StreamResult,
    succeeded: bool,
)
    ensures
        match tried {
            Ok(()) => {
                &&& after_connect(dial, tried) matches StartupState::SetNoDelay(next)
                &&& next == dial
            },
            Err(error) => {
                &&& after_connect(dial, tried) matches StartupState::Done(
                    Err(ArchipelagoError::NetworkError(cause)),
                )
                &&& cause == error
            },
        },
        match tried {
            Ok(()) => if dial.downgraded {
                after_no_delay(dial, tried) == on_stream(dial, false)
            } else {
                &&& after_no_delay(dial, tried) matches StartupState::BuildTls(next)
                &&& next == dial
            },
            Err(error) => {
                &&& after_no_delay(dial, tried) matches StartupState::Done(
                    Err(ArchipelagoError::NetworkError(cause)),
                )
                &&& cause == error
            },
        },
        if succeeded {
            &&& after_tls_built(dial, succeeded) matches StartupState::Handshake(next)
            &&& next == dial
            &&& after_handshake(dial, succeeded) == on_stream(dial, true)
        } else {
            &&& after_tls_built(dial, succeeded) == on_stream(dial, false)
            &&& after_handshake(dial, succeeded) matches StartupState::Connect(next)
            &&& next.host == dial.host
            &&& next.port == dial.port
            &&& next.package == dial.package
            &&& next.downgraded
        },
{
}

} // verus!
