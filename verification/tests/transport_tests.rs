use copilot_sdk::error::CopilotError;
use copilot_sdk::transport::{MemoryTransport, MessageFramer, MessageReader, MessageWriter, Transport};

#[test]
fn test_read_message() {
    let data = b"Content-Length: 13\r\n\r\n{\"test\":true}";
    let transport = MemoryTransport::new(data.to_vec());
    let mut framer = MessageFramer::new(transport);

    let message = framer.read_message().unwrap();
    assert_eq!(message, "{\"test\":true}");
}

#[test]
fn test_read_message_lf_only() {
    // Some implementations use LF only
    let data = b"Content-Length: 13\n\n{\"test\":true}";
    let transport = MemoryTransport::new(data.to_vec());
    let mut framer = MessageFramer::new(transport);

    let message = framer.read_message().unwrap();
    assert_eq!(message, "{\"test\":true}");
}

#[test]
fn test_read_message_with_extra_headers() {
    let data = b"Content-Type: application/json\r\nContent-Length: 13\r\n\r\n{\"test\":true}";
    let transport = MemoryTransport::new(data.to_vec());
    let mut framer = MessageFramer::new(transport);

    let message = framer.read_message().unwrap();
    assert_eq!(message, "{\"test\":true}");
}

#[test]
fn test_write_message() {
    let transport = MemoryTransport::new(Vec::new());
    let mut framer = MessageFramer::new(transport);

    framer.write_message("{\"test\":true}").unwrap();

    let written = framer.transport().written_data();
    assert_eq!(written, b"Content-Length: 13\r\n\r\n{\"test\":true}");
}

#[test]
fn test_read_multiple_messages() {
    let data =
        b"Content-Length: 13\r\n\r\n{\"test\":true}Content-Length: 14\r\n\r\n{\"test\":false}";
    let transport = MemoryTransport::new(data.to_vec());
    let mut framer = MessageFramer::new(transport);

    let msg1 = framer.read_message().unwrap();
    assert_eq!(msg1, "{\"test\":true}");

    let msg2 = framer.read_message().unwrap();
    assert_eq!(msg2, "{\"test\":false}");
}

#[test]
fn test_missing_content_length() {
    let data = b"Content-Type: application/json\r\n\r\n{\"test\":true}";
    let transport = MemoryTransport::new(data.to_vec());
    let mut framer = MessageFramer::new(transport);

    let result = framer.read_message();
    assert!(result.is_err());
    if let Err(CopilotError::Protocol(msg)) = result {
        assert!(msg.contains("Missing Content-Length"));
    } else {
        panic!("Expected Protocol error");
    }
}

#[test]
fn test_case_insensitive_header() {
    let data = b"content-length: 13\r\n\r\n{\"test\":true}";
    let transport = MemoryTransport::new(data.to_vec());
    let mut framer = MessageFramer::new(transport);

    let message = framer.read_message().unwrap();
    assert_eq!(message, "{\"test\":true}");
}

#[test]
fn test_transport_closed() {
    let mut transport = MemoryTransport::new(Vec::new());
    transport.close().unwrap();

    let mut buf = [0u8; 10];
    let result = transport.read(&mut buf);
    assert!(matches!(result, Err(CopilotError::ConnectionClosed)));
}

// ---------------------------------------------------------------------------
// Further cases
// ---------------------------------------------------------------------------

#[test]
fn read_after_write_gives_message_back() {
    let mut framer = MessageFramer::new(MemoryTransport::new(Vec::new()));
    framer.write_message("héllo, wörld").unwrap();
    framer.write_message("").unwrap();
    let bytes = framer.transport().written_data().to_vec();
    let mut reader = MessageReader::new(MemoryTransport::new(bytes));
    assert_eq!(reader.read_message().unwrap(), "héllo, wörld");
    assert_eq!(reader.read_message().unwrap(), "");
    assert!(matches!(reader.read_message(), Err(CopilotError::ConnectionClosed)));
}

#[test]
fn writer_fails_on_closed_sink() {
    let mut sink = MemoryTransport::new(Vec::new());
    sink.close().unwrap();
    let mut writer = MessageWriter::new(sink);
    assert!(matches!(writer.write_message("x"), Err(CopilotError::ConnectionClosed)));
    let mut open_writer = MessageWriter::new(MemoryTransport::new(Vec::new()));
    assert!(open_writer.write_message("x").is_ok());
}

#[test]
fn frame_length_counts_bytes_not_characters() {
    let mut framer = MessageFramer::new(MemoryTransport::new(Vec::new()));
    framer.write_message("é").unwrap();
    assert_eq!(framer.transport().written_data(), "Content-Length: 2\r\n\r\né".as_bytes());
}

#[test]
fn large_length_is_written_in_decimal() {
    let body = "x".repeat(1234);
    let mut framer = MessageFramer::new(MemoryTransport::new(Vec::new()));
    framer.write_message(&body).unwrap();
    let written = framer.transport().written_data();
    assert!(written.starts_with(b"Content-Length: 1234\r\n\r\nxxx"));
    assert_eq!(written.len(), "Content-Length: 1234\r\n\r\n".len() + 1234);
}

#[test]
fn header_value_may_be_padded_and_signed() {
    let data = b"CONTENT-LENGTH:\t +2 \r\n\r\nokrest";
    let mut framer = MessageFramer::new(MemoryTransport::new(data.to_vec()));
    assert_eq!(framer.read_message().unwrap(), "ok");
}

#[test]
fn last_length_header_wins() {
    let data = b"Content-Length: 1\r\nContent-Length: 3\r\n\r\nabcdef";
    let mut framer = MessageFramer::new(MemoryTransport::new(data.to_vec()));
    assert_eq!(framer.read_message().unwrap(), "abc");
}

#[test]
fn invalid_length_is_a_protocol_error() {
    let data = b"Content-Length: 1x2\r\n\r\nabc";
    let mut framer = MessageFramer::new(MemoryTransport::new(data.to_vec()));
    match framer.read_message() {
        Err(CopilotError::Protocol(msg)) => assert_eq!(msg, "Invalid Content-Length value: 1x2"),
        other => panic!("unexpected {:?}", other),
    }
}

#[test]
fn invalid_length_text_is_lowercased_and_trimmed() {
    let data = b"Content-Length:  ABC \r\n\r\n";
    let mut framer = MessageFramer::new(MemoryTransport::new(data.to_vec()));
    match framer.read_message() {
        Err(CopilotError::Protocol(msg)) => assert_eq!(msg, "Invalid Content-Length value: abc"),
        other => panic!("unexpected {:?}", other),
    }
}

#[test]
fn overflowing_length_is_invalid() {
    let data = b"Content-Length: 99999999999999999999999\r\n\r\n";
    let mut framer = MessageFramer::new(MemoryTransport::new(data.to_vec()));
    assert!(matches!(framer.read_message(), Err(CopilotError::Protocol(_))));
}

#[test]
fn empty_length_value_is_invalid() {
    let data = b"Content-Length:   \r\n\r\n";
    let mut framer = MessageFramer::new(MemoryTransport::new(data.to_vec()));
    match framer.read_message() {
        Err(CopilotError::Protocol(msg)) => assert_eq!(msg, "Invalid Content-Length value: "),
        other => panic!("unexpected {:?}", other),
    }
}

#[test]
fn invalid_utf8_body_is_a_protocol_error() {
    let data = b"Content-Length: 2\r\n\r\n\xff\xfe";
    let mut framer = MessageFramer::new(MemoryTransport::new(data.to_vec()));
    match framer.read_message() {
        Err(CopilotError::Protocol(msg)) => assert!(msg.starts_with("Invalid UTF-8 in message: ")),
        other => panic!("unexpected {:?}", other),
    }
}

#[test]
fn truncated_body_closes_the_connection() {
    let data = b"Content-Length: 10\r\n\r\nabc";
    let mut framer = MessageFramer::new(MemoryTransport::new(data.to_vec()));
    assert!(matches!(framer.read_message(), Err(CopilotError::ConnectionClosed)));
}

#[test]
fn truncated_headers_close_the_connection() {
    let data = b"Content-Length: 10\r\n";
    let mut framer = MessageFramer::new(MemoryTransport::new(data.to_vec()));
    assert!(matches!(framer.read_message(), Err(CopilotError::ConnectionClosed)));
}

#[test]
fn closed_transport_error_passes_through() {
    let mut transport = MemoryTransport::new(b"Content-Length: 1\r\n\r\na".to_vec());
    transport.close().unwrap();
    let mut framer = MessageFramer::new(transport);
    assert!(matches!(framer.read_message(), Err(CopilotError::ConnectionClosed)));
    assert!(!framer.transport().is_open());
}

#[test]
fn write_to_closed_transport_fails() {
    let mut transport = MemoryTransport::new(Vec::new());
    transport.close().unwrap();
    let mut framer = MessageFramer::new(transport);
    assert!(matches!(framer.write_message("x"), Err(CopilotError::ConnectionClosed)));
    assert!(framer.into_transport().written_data().is_empty());
}

#[test]
fn memory_transport_reads_in_pieces() {
    let mut transport = MemoryTransport::new(b"abcde".to_vec());
    let mut buf = [0u8; 3];
    assert_eq!(transport.read(&mut buf).unwrap(), 3);
    assert_eq!(&buf, b"abc");
    assert_eq!(transport.read(&mut buf).unwrap(), 2);
    assert_eq!(&buf[..2], b"de");
    assert_eq!(transport.read(&mut buf).unwrap(), 0);
    assert!(transport.is_open());
}

#[test]
fn long_stream_crosses_buffer_boundaries() {
    let body = "y".repeat(5000);
    let mut framer = MessageFramer::new(MemoryTransport::new(Vec::new()));
    framer.write_message(&body).unwrap();
    framer.write_message("tail").unwrap();
    let bytes = framer.transport().written_data().to_vec();
    let mut reader = MessageFramer::new(MemoryTransport::new(bytes));
    assert_eq!(reader.read_message().unwrap(), body);
    assert_eq!(reader.read_message().unwrap(), "tail");
}

#[test]
fn transport_mut_gives_access_to_the_transport() {
    let mut framer = MessageFramer::new(MemoryTransport::new(Vec::new()));
    framer.transport_mut().close().unwrap();
    assert!(!framer.transport().is_open());
}

/// A byte stream that hands out one byte per read.
struct TrickleTransport {
    data: Vec<u8>,
    pos: usize,
    written: Vec<u8>,
}

impl Transport for TrickleTransport {
    fn read(&mut self, buf: &mut [u8]) -> copilot_sdk::error::Result<usize> {
        if self.pos < self.data.len() && !buf.is_empty() {
            buf[0] = self.data[self.pos];
            self.pos += 1;
            Ok(1)
        } else {
            Ok(0)
        }
    }

    fn write(&mut self, data: &[u8]) -> copilot_sdk::error::Result<()> {
        self.written.extend_from_slice(data);
        Ok(())
    }

    fn close(&mut self) -> copilot_sdk::error::Result<()> {
        Ok(())
    }

    fn is_open(&self) -> bool {
        true
    }
}

#[test]
fn framer_reads_messages_delivered_byte_by_byte() {
    let data = b"Content-Length: 13\r\n\r\n{\"test\":true}Content-Length: 2\n\n{}".to_vec();
    let transport = TrickleTransport { data, pos: 0, written: Vec::new() };
    let mut framer = MessageFramer::new(transport);
    assert_eq!(framer.read_message().unwrap(), "{\"test\":true}");
    assert_eq!(framer.read_message().unwrap(), "{}");
    assert!(matches!(framer.read_message(), Err(CopilotError::ConnectionClosed)));
    framer.write_message("ab").unwrap();
    assert_eq!(framer.into_transport().written, b"Content-Length: 2\r\n\r\nab".to_vec());
}

#[test]
fn failed_read_leaves_buffer_untouched() {
    let mut transport = MemoryTransport::new(b"abc".to_vec());
    transport.close().unwrap();
    let mut buf = [9u8; 4];
    assert!(transport.read(&mut buf).is_err());
    assert_eq!(buf, [9u8; 4]);
}

#[test]
fn read_fills_only_the_front_of_the_buffer() {
    let mut transport = MemoryTransport::new(b"ab".to_vec());
    let mut buf = [9u8; 4];
    assert_eq!(transport.read(&mut buf).unwrap(), 2);
    assert_eq!(buf, [b'a', b'b', 9, 9]);
    assert_eq!(transport.read(&mut buf).unwrap(), 0);
}

#[test]
fn frames_written_read_back_in_order() {
    let mut writer = MessageFramer::new(MemoryTransport::new(Vec::new()));
    for m in ["one", "é", ""] {
        writer.write_message(m).unwrap();
    }
    let bytes = writer.into_transport().written_data().to_vec();
    let mut reader = MessageFramer::new(MemoryTransport::new(bytes));
    assert_eq!(reader.read_message().unwrap(), "one");
    assert_eq!(reader.read_message().unwrap(), "é");
    assert_eq!(reader.read_message().unwrap(), "");
    assert!(matches!(reader.read_message(), Err(CopilotError::ConnectionClosed)));
}

#[test]
fn both_readers_fail_alike_on_truncated_input() {
    let data = b"Content-Length: 20\r\n\r\n{}".to_vec();
    let mut framer = MessageFramer::new(MemoryTransport::new(data.clone()));
    let mut reader = MessageReader::new(MemoryTransport::new(data));
    assert!(matches!(framer.read_message(), Err(CopilotError::ConnectionClosed)));
    assert!(matches!(reader.read_message(), Err(CopilotError::ConnectionClosed)));
}

#[test]
fn closing_through_transport_mut_closes_the_framer() {
    let data = b"Content-Length: 2\r\n\r\n{}".to_vec();
    let mut framer = MessageFramer::new(MemoryTransport::new(data));
    framer.transport_mut().close().unwrap();
    assert!(!framer.transport().is_open());
    assert!(matches!(framer.read_message(), Err(CopilotError::ConnectionClosed)));
    assert!(matches!(framer.write_message("x"), Err(CopilotError::ConnectionClosed)));
    assert!(framer.transport().written_data().is_empty());
}

#[test]
fn into_transport_returns_the_same_transport() {
    let mut framer = MessageFramer::new(MemoryTransport::new(b"xy".to_vec()));
    framer.write_message("ab").unwrap();
    let mut t = framer.into_transport();
    assert!(t.is_open());
    assert_eq!(t.written_data(), b"Content-Length: 2\r\n\r\nab");
    let mut buf = [0u8; 2];
    assert_eq!(t.read(&mut buf).unwrap(), 2);
    assert_eq!(&buf, b"xy");
}
