//! What the decisions need to know of a connection: addresses, connection IDs
//! and the state of the QUIC connection.

use ring::rand::SecureRandom;
use vstd::prelude::*;

use crate::config::{create_client_config, SimpleConfig, MAX_CONN_ID_LEN};

verus! {

/// A point in time or a span of time, in nanoseconds of a clock that never goes
/// back.
pub type Nanos = u128;

/// The address of a socket.
#[derive(Clone, Copy, Debug, PartialEq, Eq, Structural)]
pub enum Address {
    /// An IPv4 address and a port.
    V4 { ip: u32, port: u16 },
    /// An IPv6 address and a port.
    V6 { ip: u128, port: u16, flowinfo: u32, scope_id: u32 },
}

/// Whether `address` is one of IPv4.
pub open spec fn is_v4(address: Address) -> bool {
    address is V4
}

/// Chooses the server among the addresses that a name stands for: the first of
/// IPv4, since a client binds its socket to an address of IPv4, or else the
/// first; `None` where there is no address.
pub fn choose_address(addresses: &[Address]) -> (chosen: Option<Address>)
    ensures
        match chosen {
            Some(address) => exists|i: int|
                0 <= i < addresses@.len() && #[trigger] addresses@[i] == address && (if is_v4(
                    address,
                ) {
                    forall|j: int| 0 <= j < i ==> !is_v4(#[trigger] addresses@[j])
                } else {
                    i == 0 && forall|j: int|
                        0 <= j < addresses@.len() ==> !is_v4(#[trigger] addresses@[j])
                }),
            None => addresses@.len() == 0,
        },
{
    if addresses.len() == 0 {
        return None;
    }
    for i in 0..addresses.len()
        invariant
            forall|j: int| 0 <= j < i ==> !is_v4(#[trigger] addresses@[j]),
    {
        if let Address::V4 { .. } = addresses[i] {
            assert(addresses@[i as int] is V4);
            return Some(addresses[i]);
        }
    }
    assert(addresses@[0] == addresses[0]);
    Some(addresses[0])
}

/// The state of a QUIC connection at one moment.
#[derive(Clone, Copy, Debug, PartialEq, Eq, Structural)]
pub struct ConnectionStatus {
    /// The handshake is complete.
    pub established: bool,
    /// The connection has been closed.
    pub closed: bool,
}

impl ConnectionStatus {
    /// Whether messages can be sent.
    pub open spec fn alive(&self) -> bool {
        self.established && !self.closed
    }
}

/// An error of the random number generator, which says nothing more.
#[verifier::external_type_specification]
#[verifier::external_body]
pub struct ExUnspecified(ring::error::Unspecified);

/// Calls `ring::rand::SystemRandom::fill`. Trusted: it writes over the bytes
/// and keeps their number. Which bytes come is up to chance.
#[verifier::external_body]
fn fill_random(bytes: &mut Vec<u8>) -> (result: Result<(), ring::error::Unspecified>)
    ensures
        final(bytes)@.len() == old(bytes)@.len(),
{
    ring::rand::SystemRandom::new().fill(bytes)
}

/// Returns a random connection ID, and `None` where the system has no random
/// numbers.
pub fn generate_connection_id() -> (id: Option<Vec<u8>>)
    ensures
        id matches Some(bytes) ==> bytes@.len() == MAX_CONN_ID_LEN,
{
    let mut bytes: Vec<u8> = vec![0u8; MAX_CONN_ID_LEN];
    let result = fill_random(&mut bytes);
    connection_id(result, bytes)
}

/// Returns `bytes` where they could be filled, and `None` where not.
pub fn connection_id(result: Result<(), ring::error::Unspecified>, bytes: Vec<u8>) -> (id: Option<
    Vec<u8>,
>)
    ensures
        id == (match result {
            Ok(_) => Some(bytes),
            Err(_) => None,
        }),
{
    match result {
        Ok(_) => Some(bytes),
        Err(_) => None,
    }
}

/// What a client chooses when it opens a connection.
#[derive(Debug)]
pub struct ConnectionSetup {
    /// The connection ID of this side.
    pub scid: Vec<u8>,
    /// The settings of the connection.
    pub config: SimpleConfig,
}

/// Returns the settings of a client together with the connection ID, and `None`
/// where there is no connection ID.
pub fn connection_setup(id: Option<Vec<u8>>) -> (setup: Option<ConnectionSetup>)
    ensures
        match id {
            Some(scid) => setup matches Some(setup) && setup.scid == scid
                && setup.config.is_simple(Some(false)),
            None => setup is None,
        },
{
    match id {
        Some(scid) => Some(ConnectionSetup { scid, config: create_client_config() }),
        None => None,
    }
}

/// Chooses a random connection ID and the settings of a client; `None` where
/// the system has no random numbers.
pub fn client_setup() -> (setup: Option<ConnectionSetup>)
    ensures
        setup matches Some(setup) ==> setup.scid@.len() == MAX_CONN_ID_LEN
            && setup.config.is_simple(Some(false)),
{
    connection_setup(generate_connection_id())
}

} // verus!
