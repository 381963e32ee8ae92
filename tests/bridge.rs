use chisel_bridge::engine::{optimize, remux_outcome};
use chisel_bridge::path::{decode_path, decode_paths};
use chisel_bridge::session::{Event, Request, Session, Stage};
use chisel_bridge::status::{status_code, BridgeError};
use optivorbis::remuxer::ogg_to_ogg::RemuxError;

fn paths(input: &str, output: &str) -> (Option<Vec<u8>>, Option<Vec<u8>>) {
    (Some(input.as_bytes().to_vec()), Some(output.as_bytes().to_vec()))
}

fn finish_status(r: &Request) -> i32 {
    match r {
        Request::Finish(outcome) => status_code(outcome),
        _ => panic!("the call was expected to be finished"),
    }
}

fn started(input: &str, output: &str) -> Session {
    let (i, o) = paths(input, output);
    let (session, request) = Session::start(i, o);
    match request {
        Request::OpenInput(p) => assert_eq!(p, input),
        _ => panic!("a valid call opens its input first"),
    }
    session
}

#[test]
fn error_codes_are_fixed() {
    assert_eq!(BridgeError::MissingArgument.code(), -1);
    assert_eq!(BridgeError::InvalidEncoding.code(), -2);
    assert_eq!(BridgeError::InputOpen.code(), -3);
    assert_eq!(BridgeError::OutputOpen.code(), -4);
    assert_eq!(BridgeError::Remux.code(), -5);
    assert_eq!(status_code(&Ok(())), 0);
    assert_eq!(status_code(&Err(BridgeError::OutputOpen)), -4);
}

#[test]
fn decode_path_accepts_utf8() {
    assert_eq!(decode_path("música/ñ.ogg".as_bytes().to_vec()), Ok("música/ñ.ogg".to_string()));
    assert_eq!(decode_path(Vec::new()), Ok(String::new()));
}

#[test]
fn decode_path_rejects_invalid_utf8() {
    assert_eq!(decode_path(vec![b'a', 0xff, b'b']), Err(BridgeError::InvalidEncoding));
    assert_eq!(decode_path(vec![0xc3]), Err(BridgeError::InvalidEncoding));
}

#[test]
fn decode_paths_reports_missing_first() {
    assert_eq!(decode_paths(None, Some(b"out.ogg".to_vec())), Err(BridgeError::MissingArgument));
    assert_eq!(decode_paths(Some(b"in.ogg".to_vec()), None), Err(BridgeError::MissingArgument));
    assert_eq!(decode_paths(None, None), Err(BridgeError::MissingArgument));
    assert_eq!(decode_paths(Some(vec![0xff]), None), Err(BridgeError::MissingArgument));
}

#[test]
fn decode_paths_reports_bad_encoding() {
    assert_eq!(decode_paths(Some(vec![0xff]), Some(b"out.ogg".to_vec())), Err(BridgeError::InvalidEncoding));
    assert_eq!(decode_paths(Some(b"in.ogg".to_vec()), Some(vec![0x80])), Err(BridgeError::InvalidEncoding));
    assert_eq!(
        decode_paths(Some(b"in.ogg".to_vec()), Some(b"out.ogg".to_vec())),
        Ok(("in.ogg".to_string(), "out.ogg".to_string()))
    );
}

#[test]
fn null_argument_gives_missing_status() {
    let (session, request) = Session::start(None, Some(b"out.ogg".to_vec()));
    assert_eq!(finish_status(&request), -1);
    assert_eq!(session.stage(), Stage::Failed(BridgeError::MissingArgument));
    let (_, request) = Session::start(Some(b"in.ogg".to_vec()), None);
    assert_eq!(finish_status(&request), -1);
}

#[test]
fn null_argument_never_asks_for_a_file() {
    let (mut session, _) = Session::start(None, None);
    let request = session.advance(Event::Completed);
    assert_eq!(finish_status(&request), -1);
    let request = session.advance(Event::InputRead(vec![1, 2, 3]));
    assert_eq!(finish_status(&request), -1);
}

#[test]
fn invalid_encoding_gives_encoding_status() {
    let (session, request) = Session::start(Some(vec![b'x', 0xfe]), Some(b"out.ogg".to_vec()));
    assert_eq!(finish_status(&request), -2);
    assert_eq!(session.stage(), Stage::Failed(BridgeError::InvalidEncoding));
}

#[test]
fn missing_input_gives_input_status_and_no_output() {
    let mut session = started("missing.ogg", "out.ogg");
    let request = session.advance(Event::Failed);
    assert_eq!(finish_status(&request), -3);
    let request = session.advance(Event::Completed);
    assert_eq!(finish_status(&request), -3);
    assert_eq!(session.stage(), Stage::Failed(BridgeError::InputOpen));
}

#[test]
fn uncreatable_output_gives_output_status() {
    let mut session = started("in.ogg", "no/such/dir/out.ogg");
    match session.advance(Event::Completed) {
        Request::CreateOutput(p) => assert_eq!(p, "no/such/dir/out.ogg"),
        _ => panic!("the output is created after the input is opened"),
    }
    let request = session.advance(Event::Failed);
    assert_eq!(finish_status(&request), -4);
}

fn reading(input: &str, output: &str) -> Session {
    let mut session = started(input, output);
    assert!(matches!(session.advance(Event::Completed), Request::CreateOutput(_)));
    assert!(matches!(session.advance(Event::Completed), Request::ReadInput));
    assert_eq!(session.stage(), Stage::ReadingInput);
    session
}

#[test]
fn non_ogg_input_gives_remux_status() {
    let mut session = reading("notes.txt", "out.ogg");
    let request = session.advance(Event::InputRead(b"this is plain text, not an Ogg container".to_vec()));
    assert_eq!(finish_status(&request), -5);
}

#[test]
fn empty_input_gives_remux_status() {
    let mut session = reading("empty.ogg", "out.ogg");
    let request = session.advance(Event::InputRead(Vec::new()));
    assert_eq!(finish_status(&request), -5);
}

#[test]
fn read_failure_gives_remux_status() {
    let mut session = reading("in.ogg", "out.ogg");
    let request = session.advance(Event::Failed);
    assert_eq!(finish_status(&request), -5);
}

#[test]
fn successful_steps_give_zero() {
    let mut session = reading("in.ogg", "out.ogg");
    match session.accept_remux(Ok(vec![0x4f, 0x67, 0x67, 0x53])) {
        Request::WriteOutput(bytes) => assert_eq!(bytes, vec![0x4f, 0x67, 0x67, 0x53]),
        _ => panic!("the remuxed bytes are written out"),
    }
    let request = session.advance(Event::Completed);
    assert_eq!(finish_status(&request), 0);
    assert_eq!(session.stage(), Stage::Succeeded);
}

#[test]
fn write_failure_gives_remux_status() {
    let mut session = reading("in.ogg", "out.ogg");
    assert!(matches!(session.accept_remux(Ok(vec![1])), Request::WriteOutput(_)));
    let request = session.advance(Event::Failed);
    assert_eq!(finish_status(&request), -5);
}

#[test]
fn rejected_remux_gives_remux_status() {
    let mut session = reading("in.ogg", "out.ogg");
    let request = session.accept_remux(Err(BridgeError::Remux));
    assert_eq!(finish_status(&request), -5);
}

#[test]
fn engine_rejects_empty_and_foreign_data() {
    assert_eq!(optimize(&[]), Err(BridgeError::Remux));
    assert_eq!(optimize(b"RIFF\x24\x00\x00\x00WAVEfmt "), Err(BridgeError::Remux));
}

#[test]
fn engine_errors_map_to_remux() {
    assert_eq!(remux_outcome(Err(RemuxError::NoVorbisStreamFound)), Err(BridgeError::Remux));
    assert_eq!(remux_outcome(Err(RemuxError::UnsupportedStreamMultiplexing)), Err(BridgeError::Remux));
    assert_eq!(remux_outcome(Ok(vec![7, 8])), Ok(vec![7, 8]));
}

#[test]
fn independent_sessions_do_not_interfere() {
    let mut first = reading("a.ogg", "a_out.ogg");
    let mut second = started("b.ogg", "b_out.ogg");
    assert_eq!(finish_status(&second.advance(Event::Failed)), -3);
    assert!(matches!(first.accept_remux(Ok(vec![9])), Request::WriteOutput(_)));
    assert_eq!(finish_status(&first.advance(Event::Completed)), 0);
    assert_eq!(second.stage(), Stage::Failed(BridgeError::InputOpen));
}
