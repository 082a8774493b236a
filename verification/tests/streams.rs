use quicduck::error::QuicError;
use quicduck::streams::{ReadStep, StreamBuffers, StreamRead};

fn data(bytes: &[u8], fin: bool) -> StreamRead {
    StreamRead::Data { bytes: bytes.to_vec(), fin }
}

fn returned(step: ReadStep) -> String {
    match step {
        ReadStep::Return { result: Ok(text) } => text,
        other => panic!("no text: {:?}", other),
    }
}

#[test]
fn message_in_one_read_is_returned() {
    let mut buffers = StreamBuffers::new();
    assert_eq!(returned(buffers.read(4, data(b"hello", true))), "hello");
    assert!(buffers.text(4).is_none());
}

#[test]
fn message_is_reassembled_from_many_reads() {
    let mut buffers = StreamBuffers::new();
    assert!(matches!(buffers.read(4, data(b"he", false)), ReadStep::ReadAgain));
    assert!(matches!(buffers.read(8, data(b"wor", false)), ReadStep::ReadAgain));
    assert_eq!(returned(buffers.read(4, StreamRead::Blocked)), "");
    assert_eq!(buffers.text(4), Some("he".to_string()));
    assert!(matches!(buffers.read(4, data(b"llo", false)), ReadStep::ReadAgain));
    assert_eq!(returned(buffers.read(8, data(b"ld", true))), "world");
    assert_eq!(returned(buffers.read(4, data(b"!", true))), "hello!");
    assert!(buffers.text(4).is_none());
    assert!(buffers.text(8).is_none());
}

#[test]
fn character_cut_by_a_read_is_whole_again() {
    let text = "鸭🦆";
    let bytes = text.as_bytes();
    for cut in 0..bytes.len() {
        let mut buffers = StreamBuffers::new();
        let _ = buffers.read(4, data(&bytes[..cut], false));
        assert_eq!(returned(buffers.read(4, data(&bytes[cut..], true))), text);
    }
}

#[test]
fn empty_read_ends_the_reading_without_a_message() {
    let mut buffers = StreamBuffers::new();
    let _ = buffers.read(4, data(b"ab", false));
    assert_eq!(returned(buffers.read(4, data(b"", false))), "");
    assert_eq!(returned(buffers.read(4, data(b"", true))), "ab");
}

#[test]
fn stream_without_bytes_gives_an_empty_message() {
    let mut buffers = StreamBuffers::new();
    assert_eq!(returned(buffers.read(4, data(b"", true))), "");
}

#[test]
fn failed_read_keeps_what_has_arrived() {
    let mut buffers = StreamBuffers::new();
    let _ = buffers.read(4, data(b"ab", false));
    let step = buffers.read(4, StreamRead::Failed { reason: "reset".to_string() });
    match step {
        ReadStep::Return { result: Err(error) } => {
            assert!(matches!(error, QuicError::StreamReadFailed { .. }));
            assert_eq!(error.message(), "读取流失败: reset");
        }
        other => panic!("no error: {:?}", other),
    }
    assert_eq!(returned(buffers.read(4, data(b"c", true))), "abc");
}

#[test]
fn invalid_bytes_are_replaced() {
    let mut buffers = StreamBuffers::new();
    assert_eq!(returned(buffers.read(4, data(b"a\xffb", true))), "a\u{fffd}b");
    assert_eq!(returned(buffers.read(4, data(b"\xe9\xb8", true))), "\u{fffd}");
}

#[test]
fn clearing_drops_every_stream() {
    let mut buffers = StreamBuffers::new();
    buffers.append(4, b"ab");
    buffers.append(8, b"cd");
    buffers.append(4, b"ef");
    assert_eq!(buffers.take(4), b"abef".to_vec());
    assert_eq!(buffers.take(4), Vec::<u8>::new());
    buffers.clear();
    assert!(buffers.text(8).is_none());
}
