//! The QUIC configuration that the clients and the server share.

use vstd::prelude::*;
use vstd::slice::slice_to_vec;
use vstd::string::*;
use vstd::utf8::*;

verus! {

/// The size of the buffers that hold one datagram, in bytes.
pub const MAX_DATAGRAM_SIZE: usize = 1350;

/// The length of a connection ID that this side chooses, in bytes.
pub const MAX_CONN_ID_LEN: usize = 20;

/// The QUIC version spoken, that of RFC 9000.
pub const PROTOCOL_VERSION: u32 = 1;

/// The settings of a QUIC endpoint.
#[derive(Debug)]
pub struct SimpleConfig {
    /// The QUIC version.
    pub version: u32,
    /// The application protocols offered, in order of preference.
    pub application_protos: Vec<Vec<u8>>,
    /// How many bytes a connection may receive before it extends the limit.
    pub initial_max_data: u64,
    /// The same for one stream that this side opened.
    pub initial_max_stream_data_bidi_local: u64,
    /// The same for one stream that the peer opened.
    pub initial_max_stream_data_bidi_remote: u64,
    /// How many bidirectional streams the peer may open.
    pub initial_max_streams_bidi: u64,
    /// How many unidirectional streams the peer may open.
    pub initial_max_streams_uni: u64,
    /// After how many milliseconds without traffic a connection is dropped.
    pub max_idle_timeout: u64,
    /// The exponent by which acknowledgement delays are scaled.
    pub ack_delay_exponent: u64,
    /// The longest delay of an acknowledgement, in milliseconds.
    pub max_ack_delay: u64,
    /// Whether to verify the peer's certificate; `None` leaves the default of
    /// the QUIC implementation.
    pub verify_peer: Option<bool>,
}

impl SimpleConfig {
    /// The settings of the echo service, with the given choice about the peer's
    /// certificate.
    pub open spec fn is_simple(&self, verify_peer: Option<bool>) -> bool {
        &&& self.version == PROTOCOL_VERSION
        &&& self.application_protos@.len() == 1
        &&& self.application_protos@[0]@ == encode_utf8("quic-demo"@)
        &&& self.initial_max_data == 1_000_000
        &&& self.initial_max_stream_data_bidi_local == 1_000_000
        &&& self.initial_max_stream_data_bidi_remote == 1_000_000
        &&& self.initial_max_streams_bidi == 10
        &&& self.initial_max_streams_uni == 10
        &&& self.max_idle_timeout == 30_000
        &&& self.ack_delay_exponent == 3
        &&& self.max_ack_delay == 25
        &&& self.verify_peer == verify_peer
    }

    /// Sets whether to verify the peer's certificate.
    pub fn verify_peer(&mut self, verify: bool)
        ensures
            *final(self) == (SimpleConfig { verify_peer: Some(verify), ..*old(self) }),
    {
        self.verify_peer = Some(verify);
    }
}

/// Returns the settings of the echo service: the application protocol
/// `quic-demo`, 1 MB of data, ten streams of each kind and a timeout of 30
/// seconds.
pub fn create_simple_config() -> (config: SimpleConfig)
    ensures
        config.is_simple(None),
{
    let mut application_protos: Vec<Vec<u8>> = Vec::new();
    application_protos.push(slice_to_vec("quic-demo".as_bytes()));
    SimpleConfig {
        version: PROTOCOL_VERSION,
        application_protos,
        initial_max_data: 1_000_000,
        initial_max_stream_data_bidi_local: 1_000_000,
        initial_max_stream_data_bidi_remote: 1_000_000,
        initial_max_streams_bidi: 10,
        initial_max_streams_uni: 10,
        max_idle_timeout: 30_000,
        ack_delay_exponent: 3,
        max_ack_delay: 25,
        verify_peer: None,
    }
}

/// Returns the settings of a client: those of the echo service, without
/// verification of the server's certificate, which is self-signed.
pub fn create_client_config() -> (config: SimpleConfig)
    ensures
        config.is_simple(Some(false)),
{
    let mut config = create_simple_config();
    config.verify_peer(false);
    config
}

} // verus!
