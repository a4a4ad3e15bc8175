//! Whole cycles over in-memory streams.
#![allow(dead_code)]

use input_py::{read_input_with_io, BufReaderInput, GenericWriter, InputReader, OutputWriter};
use std::io::{self, Cursor};

/// Source that yields one given line, then the end of the stream.
struct MockReader {
    input: String,
    read_count: usize,
}

impl MockReader {
    fn new(input: &str) -> Self {
        Self {
            input: input.to_string(),
            read_count: 0,
        }
    }
}

impl InputReader for MockReader {
    fn read_line(&mut self, buf: &mut String) -> io::Result<usize> {
        if self.read_count > 0 {
            return Ok(0);
        }
        self.read_count += 1;
        buf.push_str(&self.input);
        Ok(self.input.len())
    }
}

/// Source whose every read fails.
struct FailingReader;

impl InputReader for FailingReader {
    fn read_line(&mut self, _buf: &mut String) -> io::Result<usize> {
        Err(io::Error::new(io::ErrorKind::UnexpectedEof, "test error"))
    }
}

/// Sink that records what it is given.
struct MockWriter {
    buffer: Vec<u8>,
    flush_count: usize,
}

impl MockWriter {
    fn new() -> Self {
        Self {
            buffer: Vec::new(),
            flush_count: 0,
        }
    }

    fn output(&self) -> String {
        String::from_utf8_lossy(&self.buffer).to_string()
    }
}

impl OutputWriter for MockWriter {
    fn write_str(&mut self, s: &str) -> io::Result<()> {
        self.buffer.extend_from_slice(s.as_bytes());
        Ok(())
    }

    fn flush(&mut self) -> io::Result<()> {
        self.flush_count += 1;
        Ok(())
    }
}

/// Sink whose writes and flushes fail.
struct FailingWriter;

impl OutputWriter for FailingWriter {
    fn write_str(&mut self, _s: &str) -> io::Result<()> {
        Err(io::Error::new(io::ErrorKind::BrokenPipe, "write failed"))
    }

    fn flush(&mut self) -> io::Result<()> {
        Err(io::Error::new(io::ErrorKind::BrokenPipe, "flush failed"))
    }
}

#[test]
fn integration_tests_test_full_input_flow_with_default() {
    // Given: Complete I/O simulation
    let cursor = Cursor::new("\n");
    let mut reader = BufReaderInput::new(cursor);
    let output: Vec<u8> = Vec::new();
    let mut writer = GenericWriter::new(output);

    // When: Simulating input with default
    let result = read_input_with_io(
        "Enter port",
        Some("8080"),
        true,
        true,
        &mut reader,
        &mut writer,
    );

    // Then: Default should be returned
    assert!(result.is_ok());
    assert_eq!(result.unwrap(), "8080");

    // And prompt should contain default
    let binding = writer.into_inner();
    let output = String::from_utf8_lossy(&binding);
    assert!(output.contains("[8080]"));
}

#[test]
fn integration_tests_test_full_input_flow_with_user_value() {
    // Given: User provides custom value
    let cursor = Cursor::new("3000\n");
    let mut reader = BufReaderInput::new(cursor);
    let output: Vec<u8> = Vec::new();
    let mut writer = GenericWriter::new(output);

    // When: Reading input
    let result = read_input_with_io(
        "Enter port",
        Some("8080"),
        true,
        true,
        &mut reader,
        &mut writer,
    );

    // Then: User value should override default
    assert!(result.is_ok());
    assert_eq!(result.unwrap(), "3000");
}

#[test]
fn integration_tests_test_sequential_reads() {
    // Given: Multiple lines of input
    let cursor = Cursor::new("line1\nline2\n");
    let mut reader = BufReaderInput::new(cursor);
    let mut writer = MockWriter::new();

    // When: Reading first line
    let result1 = read_input_with_io("First", None, true, false, &mut reader, &mut writer);

    // Then: First line should be returned
    assert!(result1.is_ok());
    assert_eq!(result1.unwrap(), "line1");

    // When: Reading second line
    let result2 = read_input_with_io("Second", None, true, false, &mut reader, &mut writer);

    // Then: Second line should be returned
    assert!(result2.is_ok());
    assert_eq!(result2.unwrap(), "line2");
}
