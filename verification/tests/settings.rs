use quicduck::config::{create_client_config, MAX_CONN_ID_LEN, MAX_DATAGRAM_SIZE};
use quicduck::connection::{
    choose_address, client_setup, connection_id, connection_setup, generate_connection_id, Address,
};
use quicduck::create_simple_config;
use quicduck::error::QuicError;

#[test]
fn simple_config_has_the_documented_values() {
    let config = create_simple_config();
    assert_eq!(config.version, 0x00000001);
    assert_eq!(config.application_protos, vec![b"quic-demo".to_vec()]);
    assert_eq!(config.initial_max_data, 1_000_000);
    assert_eq!(config.initial_max_stream_data_bidi_local, 1_000_000);
    assert_eq!(config.initial_max_stream_data_bidi_remote, 1_000_000);
    assert_eq!(config.initial_max_streams_bidi, 10);
    assert_eq!(config.initial_max_streams_uni, 10);
    assert_eq!(config.max_idle_timeout, 30_000);
    assert_eq!(config.ack_delay_exponent, 3);
    assert_eq!(config.max_ack_delay, 25);
    assert_eq!(config.verify_peer, None);
    assert_eq!(MAX_DATAGRAM_SIZE, 1350);
}

#[test]
fn client_config_does_not_verify_the_peer() {
    let config = create_client_config();
    assert_eq!(config.verify_peer, Some(false));
    assert_eq!(config.application_protos, vec![b"quic-demo".to_vec()]);
    let mut config = create_simple_config();
    config.verify_peer(true);
    assert_eq!(config.verify_peer, Some(true));
    assert_eq!(config.max_idle_timeout, 30_000);
}

#[test]
fn connection_ids_are_random() {
    let first = generate_connection_id().unwrap();
    let second = generate_connection_id().unwrap();
    assert_eq!(first.len(), MAX_CONN_ID_LEN);
    assert_eq!(MAX_CONN_ID_LEN, 20);
    assert_ne!(first, second);
    assert_ne!(first, vec![0u8; 20]);
}

#[test]
fn connection_id_is_missing_without_random_numbers() {
    assert_eq!(connection_id(Err(ring::error::Unspecified), vec![1, 2]), None);
    assert_eq!(connection_id(Ok(()), vec![1, 2]), Some(vec![1, 2]));
}

#[test]
fn client_setup_has_an_id_and_the_client_config() {
    let setup = client_setup().unwrap();
    assert_eq!(setup.scid.len(), 20);
    assert_eq!(setup.config.verify_peer, Some(false));
}

#[test]
fn setup_uses_the_id_that_was_chosen() {
    let setup = connection_setup(Some(vec![7; 20])).unwrap();
    assert_eq!(setup.scid, vec![7; 20]);
    assert_eq!(setup.config.verify_peer, Some(false));
    assert!(connection_setup(None).is_none());
}

#[test]
fn error_messages_are_those_shown_to_the_user() {
    let reason = || "x".to_string();
    assert_eq!(QuicError::External { reason: reason() }.message(), "x");
    assert_eq!(QuicError::NotEstablished.message(), "连接未建立");
    assert_eq!(QuicError::ConnectionClosed.message(), "连接已关闭");
    assert_eq!(QuicError::HandshakeFailed.message(), "握手失败");
    assert_eq!(QuicError::SendFailed { reason: reason() }.message(), "发送失败: x");
    assert_eq!(QuicError::StreamReadFailed { reason: reason() }.message(), "读取流失败: x");
    assert_eq!(QuicError::PingFailed { reason: reason() }.message(), "PING发送失败: x");
    assert_eq!(QuicError::InitialPacketNotDelivered.message(), "发送初始数据包失败");
    let cause = Box::new(QuicError::HandshakeFailed);
    assert_eq!(QuicError::ReconnectFailed { cause }.message(), "重连失败: 握手失败");
}

#[test]
fn ipv4_is_preferred() {
    let v4 = |port| Address::V4 { ip: 0x7f00_0001, port };
    let v6 = |port| Address::V6 { ip: 1, port, flowinfo: 0, scope_id: 0 };
    assert_eq!(choose_address(&[]), None);
    assert_eq!(choose_address(&[v6(1), v6(2)]), Some(v6(1)));
    assert_eq!(choose_address(&[v6(1), v4(2), v4(3)]), Some(v4(2)));
}
