//! What the proxy needs to know before it starts to serve.

use vstd::prelude::*;
use vstd::string::*;
use crate::target::{all_digits, capped, decimal_value, is_decimal, is_digit, is_port, with_digit};

verus! {

/// The port the proxy listens on where none is set.
pub const DEFAULT_PORT: u16 = 3000;

/// Why the proxy cannot start.
#[derive(Clone, Copy, Debug, PartialEq, Eq, Structural)]
pub enum StartupConfigError {
    /// The port is set, and is not a number below 65536.
    InvalidPort,
    /// No address of the route store is set.
    MissingStore,
}

/// The digits of a port setting: the setting without its sign, where it
/// starts with a `+`.
pub open spec fn unsigned(setting: Seq<char>) -> Seq<char> {
    if setting.len() > 0 && setting[0] == '+' {
        setting.skip(1)
    } else {
        setting
    }
}

/// The port that the settings give: the default where none is set, the
/// number set where it is a port, with or without a `+` before it, and
/// nothing otherwise.
pub open spec fn port_setting(setting: Option<Seq<char>>) -> Option<u16> {
    match setting {
        None => Some(DEFAULT_PORT),
        Some(s) => if is_port(unsigned(s)) {
            Some(decimal_value(unsigned(s)) as u16)
        } else {
            None
        },
    }
}

/// The text of a setting, where it is set.
pub open spec fn view_of(setting: Option<&str>) -> Option<Seq<char>> {
    match setting {
        Some(s) => Some(s@),
        None => None,
    }
}

/// The port to listen on, from the setting of the environment.
pub fn listen_port(setting: Option<&str>) -> (r: Result<u16, StartupConfigError>)
    ensures
        match r {
            Ok(port) => port_setting(view_of(setting)) == Some(port),
            Err(e) => e == StartupConfigError::InvalidPort && port_setting(view_of(setting))
                is None,
        },
{
    let s = match setting {
        Some(s) => s,
        None => {
            return Ok(DEFAULT_PORT);
        },
    };
    let ghost text = s@;
    let mut first: bool = true;
    let mut empty: bool = true;
    let mut digits: bool = true;
    let mut value: u32 = 0;
    assert(unsigned(text.take(0)) =~= Seq::<char>::empty());
    for c in it: s.chars()
        invariant
            it.seq() == text,
            first == (it.index() == 0),
            empty == (unsigned(text.take(it.index() as int)).len() == 0),
            digits == all_digits(unsigned(text.take(it.index() as int))),
            digits ==> value == capped(decimal_value(unsigned(text.take(it.index() as int)))),
    {
        let ghost prefix = text.take(it.index() as int);
        let ghost body = unsigned(prefix);
        let ghost longer = text.take(it.index() + 1);
        proof {
            assert(longer =~= prefix.push(c));
            if first {
                assert(unsigned(longer) =~= if c == '+' {
                    Seq::<char>::empty()
                } else {
                    seq![c]
                });
                assert(seq![c] =~= body.push(c));
            } else {
                assert(longer[0] == prefix[0]);
                assert(unsigned(longer) =~= body.push(c));
            }
            if all_digits(body.push(c)) {
                assert forall|j: int| 0 <= j < body.len() implies is_digit(#[trigger] body[j]) by {
                    assert(body.push(c)[j] == body[j]);
                }
                assert(body.push(c)[body.len() as int] == c);
            }
        }
        if first && c == '+' {
        } else if digits && is_decimal(c) {
            value = with_digit(value, c, Ghost(body));
            empty = false;
        } else {
            digits = false;
            empty = false;
        }
        first = false;
    }
    assert(text.take(text.len() as int) =~= text);
    if empty || !digits || value > 65535 {
        Err(StartupConfigError::InvalidPort)
    } else {
        Ok(value as u16)
    }
}

/// The settings the proxy starts with.
#[derive(Debug, PartialEq, Eq)]
pub struct StartupConfig {
    /// The port to listen on.
    pub port: u16,
    /// The address of the route store.
    pub store: String,
}

/// Reads the settings of the environment. The proxy starts only with a
/// valid port, set or not, and with the address of its route store.
pub fn startup_config(
    port: Option<&str>,
    store: Option<&str>,
) -> (r: Result<StartupConfig, StartupConfigError>)
    ensures
        match r {
            Ok(config) => {
                &&& port_setting(view_of(port)) == Some(config.port)
                &&& view_of(store) == Some(config.store@)
            },
            Err(StartupConfigError::MissingStore) => store is None,
            Err(StartupConfigError::InvalidPort) => store is Some && port_setting(view_of(port))
                is None,
        },
{
    let store = match store {
        Some(store) => store,
        None => {
            return Err(StartupConfigError::MissingStore);
        },
    };
    match listen_port(port) {
        Ok(port) => Ok(StartupConfig { port, store: store.to_owned() }),
        Err(e) => Err(e),
    }
}

} // verus!
