//! The probes and the wrapper on sinks and sources of plain values.

use maybe_serde::{Absent, MaybeDe, MaybeSer, MaybeSerde, Present};

/// A sink that keeps every token written to it.
type Tape = Vec<String>;

/// A source: the tokens, and how many of them have been read.
#[derive(Clone, Debug, PartialEq)]
struct Reader {
    tokens: Vec<String>,
    at: usize,
}

impl Reader {
    fn over(tokens: &[&str]) -> Reader {
        Reader { tokens: tokens.iter().map(|t| t.to_string()).collect(), at: 0 }
    }
}

fn write_number(value: &i32, tape: &mut Tape) -> Result<usize, String> {
    tape.push(value.to_string());
    Ok(tape.len())
}

fn refuse_to_write(value: &i32, _tape: &mut Tape) -> Result<usize, String> {
    Err(format!("cannot write {}", value))
}

fn write_null(tape: &mut Tape) -> Result<usize, String> {
    tape.push("null".to_string());
    Ok(tape.len())
}

fn read_number(reader: &mut Reader) -> Result<i32, String> {
    let token = reader.tokens.get(reader.at).ok_or("end of input".to_string())?;
    let number = token.parse::<i32>().map_err(|_| format!("not a number: {}", token))?;
    reader.at += 1;
    Ok(number)
}

type Writer = fn(&i32, &mut Tape) -> Result<usize, String>;

type Parser = fn(&mut Reader) -> Result<i32, String>;

const PRESENT_WRITES: bool = <Present<Writer> as MaybeSer<i32, Tape, usize, String>>::IMPL_SERIALIZE;

const ABSENT_WRITES: bool = <Absent as MaybeSer<i32, Tape, usize, String>>::IMPL_SERIALIZE;

const PRESENT_READS: bool = <Present<Parser> as MaybeDe<i32, Reader, String>>::IMPL_DESERIALIZE;

const ABSENT_READS: bool = <Absent as MaybeDe<i32, Reader, String>>::IMPL_DESERIALIZE;

#[test]
fn flags_are_fixed_by_the_type() {
    assert!(PRESENT_WRITES);
    assert!(!ABSENT_WRITES);
    assert!(PRESENT_READS);
    assert!(!ABSENT_READS);
}

#[test]
fn present_writer_runs_once_on_the_sink_as_it_was() {
    let mut tape: Tape = vec!["before".to_string()];
    let out = Present(write_number).maybe_serialize(&123, &mut tape);
    assert_eq!(out, Some(Ok(2)));
    assert_eq!(tape, vec!["before".to_string(), "123".to_string()]);
}

#[test]
fn present_writer_that_fails_is_still_present() {
    let mut tape: Tape = Vec::new();
    let out = Present(refuse_to_write).maybe_serialize(&5, &mut tape);
    assert_eq!(out, Some(Err("cannot write 5".to_string())));
    assert_eq!(tape, Tape::new());
}

#[test]
fn absent_writer_leaves_the_sink_as_it_was() {
    let mut tape: Tape = vec!["before".to_string()];
    let out: Option<Result<usize, String>> = Absent.maybe_serialize(&123, &mut tape);
    assert_eq!(out, None);
    assert_eq!(tape, vec!["before".to_string()]);
}

#[test]
fn present_reader_runs_once_on_the_source_as_it_was() {
    let mut reader = Reader::over(&["7", "8"]);
    let out = Present(read_number).maybe_deserialize(&mut reader);
    assert_eq!(out, Some(Ok(7)));
    assert_eq!(reader.at, 1);
}

#[test]
fn present_reader_that_fails_is_still_present() {
    let mut reader = Reader::over(&["seven"]);
    let out = Present(read_number).maybe_deserialize(&mut reader);
    assert_eq!(out, Some(Err("not a number: seven".to_string())));
    assert_eq!(reader.at, 0);
}

#[test]
fn absent_reader_leaves_the_source_as_it_was() {
    let mut reader = Reader::over(&["7", "8"]);
    let out: Option<Result<i32, String>> = Absent.maybe_deserialize(&mut reader);
    assert_eq!(out, None);
    assert_eq!(reader, Reader::over(&["7", "8"]));
}

#[test]
fn wrapper_writes_a_present_value_as_itself() {
    let mut tape = Tape::new();
    let out = MaybeSerde(Some(123)).serialize(&mut tape, Present(write_number), write_null);
    assert_eq!(out, Ok(1));
    assert_eq!(tape, vec!["123".to_string()]);
}

#[test]
fn wrapper_writes_null_for_an_empty_option() {
    let mut tape = Tape::new();
    let out = MaybeSerde::<i32>(None).serialize(&mut tape, Present(write_number), write_null);
    assert_eq!(out, Ok(1));
    assert_eq!(tape, vec!["null".to_string()]);
}

#[test]
fn wrapper_writes_null_without_the_capability() {
    let mut tape = Tape::new();
    let out = MaybeSerde(Some(123)).serialize(&mut tape, Absent, write_null);
    assert_eq!(out, Ok(1));
    let out = MaybeSerde::<i32>(None).serialize(&mut tape, Absent, write_null);
    assert_eq!(out, Ok(2));
    assert_eq!(tape, vec!["null".to_string(), "null".to_string()]);
}

#[test]
fn wrapper_passes_a_failed_write_on() {
    let mut tape = Tape::new();
    let out = MaybeSerde(Some(9)).serialize(&mut tape, Present(refuse_to_write), write_null);
    assert_eq!(out, Err("cannot write 9".to_string()));
    assert_eq!(tape, Tape::new());
}

#[test]
fn wrapper_reads_a_value_into_some() {
    let mut reader = Reader::over(&["123"]);
    let out = MaybeSerde::deserialize(&mut reader, Present(read_number));
    assert_eq!(out.map(|wrapper| wrapper.0), Ok(Some(123)));
    assert_eq!(reader.at, 1);
}

#[test]
fn wrapper_passes_a_failed_read_on() {
    let mut reader = Reader::over(&["null"]);
    let out = MaybeSerde::deserialize(&mut reader, Present(read_number));
    assert_eq!(out.map(|wrapper| wrapper.0), Err("not a number: null".to_string()));
    let mut empty = Reader::over(&[]);
    let out = MaybeSerde::deserialize(&mut empty, Present(read_number));
    assert_eq!(out.map(|wrapper| wrapper.0), Err("end of input".to_string()));
}

#[test]
fn wrapper_reads_nothing_without_the_capability() {
    for tokens in [&[][..], &["null"][..], &["123", "456"][..], &["seven"][..]] {
        let mut reader = Reader::over(tokens);
        let out: Result<MaybeSerde<i32>, String> = MaybeSerde::deserialize(&mut reader, Absent);
        assert_eq!(out.map(|wrapper| wrapper.0), Ok(None));
        assert_eq!(reader, Reader::over(tokens));
    }
}

#[test]
fn wrapper_round_trip_on_plain_tokens() {
    for n in [0, 123, -123, i32::MAX, i32::MIN] {
        let mut tape = Tape::new();
        let written = MaybeSerde(Some(n)).serialize(&mut tape, Present(write_number), write_null);
        assert_eq!(written, Ok(1));
        let mut reader = Reader { tokens: tape, at: 0 };
        let read = MaybeSerde::deserialize(&mut reader, Present(read_number));
        assert_eq!(read.map(|wrapper| wrapper.0), Ok(Some(n)));
    }
}

#[test]
fn wrapper_is_the_option_it_holds() {
    let some: Option<i32> = MaybeSerde(Some(123)).into();
    assert_eq!(some, Some(123));
    let none: Option<i32> = MaybeSerde::<i32>(None).into();
    assert_eq!(none, None);
    assert_eq!(MaybeSerde(Some("text")).0, Some("text"));
}
