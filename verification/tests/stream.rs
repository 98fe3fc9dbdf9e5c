use jsonformat::{CharSink, CharSource, Indentation, MemorySink, MemorySource, StreamError, format_reader_writer};

fn chars_of(s: &str) -> Vec<char> {
    s.chars().collect()
}

fn string_of(v: Vec<char>) -> String {
    v.into_iter().collect()
}

#[test]
fn stream_formats_like_format() {
    let json = "[{\"a\": 0}, {}, {\"a\": null}]";
    let mut source = MemorySource::new(chars_of(json));
    let mut sink = MemorySink::new();
    let outcome = format_reader_writer(&mut source, &mut sink, Indentation::TwoSpace);
    assert!(outcome.is_ok());
    let streamed = string_of(sink.into_chars());
    assert_eq!(streamed, jsonformat::format(json, Indentation::TwoSpace));
}

#[test]
fn stream_appends_trailing_newline_to_empty_input() {
    let mut source = MemorySource::new(Vec::new());
    let mut sink = MemorySink::new();
    let outcome = format_reader_writer(&mut source, &mut sink, Indentation::TwoSpace);
    assert!(outcome.is_ok());
    assert_eq!(string_of(sink.into_chars()), "\n");
}

/// A source that fails immediately, as a closed pipe would.
struct BrokenSource;

impl CharSource for BrokenSource {
    // the ghost model of the stream; never called at run time
    fn remaining(&self) -> vstd::seq::Seq<char> {
        panic!()
    }

    fn infallible(&self) -> bool {
        panic!()
    }

    fn next_char(&mut self) -> Result<Option<char>, StreamError> {
        Err(StreamError::Read)
    }
}

/// A sink that rejects every character, as a full disk would.
struct BrokenSink;

impl CharSink for BrokenSink {
    // the ghost model of the stream; never called at run time
    fn written(&self) -> vstd::seq::Seq<char> {
        panic!()
    }

    fn infallible(&self) -> bool {
        panic!()
    }

    fn put_char(&mut self, _c: char) -> Result<(), StreamError> {
        Err(StreamError::Write)
    }
}

#[test]
fn read_fault_is_reported() {
    let mut source = BrokenSource;
    let mut sink = MemorySink::new();
    let outcome = format_reader_writer(&mut source, &mut sink, Indentation::TwoSpace);
    assert_eq!(outcome, Err(StreamError::Read));
}

#[test]
fn write_fault_is_reported() {
    let mut source = MemorySource::new(chars_of("0"));
    let mut sink = BrokenSink;
    let outcome = format_reader_writer(&mut source, &mut sink, Indentation::TwoSpace);
    assert_eq!(outcome, Err(StreamError::Write));
}
