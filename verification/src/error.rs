//! The errors of the clients and of the server.

use vstd::prelude::*;
use vstd::string::*;

verus! {

/// Why a procedure of a client or of the server failed.
#[derive(Debug)]
pub enum QuicError {
    /// A failure of a socket, of the QUIC connection or of a parser, passed on
    /// as it was reported.
    External { reason: String },
    /// The connection is not established.
    NotEstablished,
    /// The connection has been closed.
    ConnectionClosed,
    /// The handshake used up its attempts.
    HandshakeFailed,
    /// The QUIC connection refused to send.
    SendFailed { reason: String },
    /// A stream could not be read.
    StreamReadFailed { reason: String },
    /// A PING frame could not be sent.
    PingFailed { reason: String },
    /// A new connection could not be made in place of a closed one.
    ReconnectFailed { cause: Box<QuicError> },
    /// The first packet did not reach the handler of a new connection.
    InitialPacketNotDelivered,
}

impl QuicError {
    /// The text shown to the user.
    pub open spec fn text(&self) -> Seq<char>
        decreases self,
    {
        match self {
            QuicError::External { reason } => reason@,
            QuicError::NotEstablished => "连接未建立"@,
            QuicError::ConnectionClosed => "连接已关闭"@,
            QuicError::HandshakeFailed => "握手失败"@,
            QuicError::SendFailed { reason } => "发送失败: "@ + reason@,
            QuicError::StreamReadFailed { reason } => "读取流失败: "@ + reason@,
            QuicError::PingFailed { reason } => "PING发送失败: "@ + reason@,
            QuicError::ReconnectFailed { cause } => "重连失败: "@ + cause.text(),
            QuicError::InitialPacketNotDelivered => "发送初始数据包失败"@,
        }
    }

    /// Returns the text shown to the user.
    pub fn message(&self) -> (message: String)
        ensures
            message@ == self.text(),
        decreases self,
    {
        match self {
            QuicError::External { reason } => reason.clone(),
            QuicError::NotEstablished => "连接未建立".to_owned(),
            QuicError::ConnectionClosed => "连接已关闭".to_owned(),
            QuicError::HandshakeFailed => "握手失败".to_owned(),
            QuicError::SendFailed { reason } => "发送失败: ".to_owned().concat(reason.as_str()),
            QuicError::StreamReadFailed { reason } => "读取流失败: ".to_owned().concat(
                reason.as_str(),
            ),
            QuicError::PingFailed { reason } => "PING发送失败: ".to_owned().concat(reason.as_str()),
            QuicError::ReconnectFailed { cause } => {
                let inner = cause.message();
                "重连失败: ".to_owned().concat(inner.as_str())
            },
            QuicError::InitialPacketNotDelivered => "发送初始数据包失败".to_owned(),
        }
    }
}

/// A reason is told in full, after the words that stand before an empty one, and
/// the reason of a failure outside is told as it is.
pub proof fn law_reasons_are_told_in_full(reason: String, nothing: String, cause: QuicError)
    requires
        nothing@.len() == 0,
    ensures
        (QuicError::External { reason }).text() == reason@,
        (QuicError::SendFailed { reason }).text() == (QuicError::SendFailed {
            reason: nothing,
        }).text() + reason@,
        (QuicError::StreamReadFailed { reason }).text() == (QuicError::StreamReadFailed {
            reason: nothing,
        }).text() + reason@,
        (QuicError::PingFailed { reason }).text() == (QuicError::PingFailed {
            reason: nothing,
        }).text() + reason@,
        (QuicError::ReconnectFailed { cause: Box::new(cause) }).text() == (
        QuicError::ReconnectFailed {
            cause: Box::new(QuicError::External { reason: nothing }),
        }).text() + cause.text(),
{
    reveal_with_fuel(QuicError::text, 2);
    assert("发送失败: "@ + nothing@ =~= "发送失败: "@);
    assert("读取流失败: "@ + nothing@ =~= "读取流失败: "@);
    assert("PING发送失败: "@ + nothing@ =~= "PING发送失败: "@);
    assert("重连失败: "@ + nothing@ =~= "重连失败: "@);
}

} // verus!
