use stelarc::event::{CommandUpdate, StreamOrigin};
use stelarc::pump::{line_event, pump_all, LinePump};

fn pump_line(text: &str, origin: StreamOrigin) -> CommandUpdate {
    CommandUpdate::LogLine { text: text.to_string(), origin }
}

#[test]
fn empty_stream_has_no_line() {
    assert_eq!(pump_all(StreamOrigin::Stdout, b""), vec![]);
}

#[test]
fn lines_end_at_line_feeds() {
    assert_eq!(
        pump_all(StreamOrigin::Stdout, b"one\ntwo\nthree\n"),
        vec![
            pump_line("one", StreamOrigin::Stdout),
            pump_line("two", StreamOrigin::Stdout),
            pump_line("three", StreamOrigin::Stdout)
        ]
    );
}

#[test]
fn last_fragment_is_flushed_as_a_line() {
    assert_eq!(
        pump_all(StreamOrigin::Stderr, b"one\ntwo"),
        vec![pump_line("one", StreamOrigin::Stderr), pump_line("two", StreamOrigin::Stderr)]
    );
}

#[test]
fn empty_last_fragment_is_no_line() {
    assert_eq!(pump_all(StreamOrigin::Stderr, b"one\n"), vec![pump_line("one", StreamOrigin::Stderr)]);
}

#[test]
fn empty_lines_are_kept() {
    assert_eq!(
        pump_all(StreamOrigin::Stdout, b"\n\nx\n\n"),
        vec![
            pump_line("", StreamOrigin::Stdout),
            pump_line("", StreamOrigin::Stdout),
            pump_line("x", StreamOrigin::Stdout),
            pump_line("", StreamOrigin::Stdout)
        ]
    );
}

#[test]
fn carriage_return_before_line_feed_is_dropped() {
    assert_eq!(
        pump_all(StreamOrigin::Stdout, b"one\r\ntwo\r\n"),
        vec![pump_line("one", StreamOrigin::Stdout), pump_line("two", StreamOrigin::Stdout)]
    );
}

#[test]
fn only_one_carriage_return_is_dropped() {
    assert_eq!(
        pump_all(StreamOrigin::Stdout, b"one\r\r\n"),
        vec![pump_line("one\r", StreamOrigin::Stdout)]
    );
}

#[test]
fn carriage_return_elsewhere_is_kept() {
    assert_eq!(
        pump_all(StreamOrigin::Stdout, b"a\rb\nend\r"),
        vec![pump_line("a\rb", StreamOrigin::Stdout), pump_line("end\r", StreamOrigin::Stdout)]
    );
}

#[test]
fn valid_utf8_is_decoded() {
    assert_eq!(
        pump_all(StreamOrigin::Stdout, "terminée ✓\n".as_bytes()),
        vec![pump_line("terminée ✓", StreamOrigin::Stdout)]
    );
}

#[test]
fn invalid_bytes_are_replaced_not_fatal() {
    assert_eq!(
        pump_all(StreamOrigin::Stdout, b"ab\xffcd\nnext\n"),
        vec![pump_line("ab\u{fffd}cd", StreamOrigin::Stdout), pump_line("next", StreamOrigin::Stdout)]
    );
}

#[test]
fn line_event_decodes_and_tags() {
    assert_eq!(line_event(StreamOrigin::Stderr, b"oops"), pump_line("oops", StreamOrigin::Stderr));
    assert_eq!(line_event(StreamOrigin::Stdout, b"\xc3"), pump_line("\u{fffd}", StreamOrigin::Stdout));
}

#[test]
fn pump_keeps_the_fragment_between_chunks() {
    let mut pump = LinePump::new(StreamOrigin::Stdout);
    assert_eq!(pump.stream(), StreamOrigin::Stdout);
    assert_eq!(pump.feed(b"hel"), vec![]);
    assert_eq!(pump.feed(b"lo\nwor"), vec![pump_line("hello", StreamOrigin::Stdout)]);
    assert_eq!(pump.feed(b"ld"), vec![]);
    assert_eq!(
        pump.feed(b"\n\nlast"),
        vec![pump_line("world", StreamOrigin::Stdout), pump_line("", StreamOrigin::Stdout)]
    );
    assert_eq!(pump.finish(), Some(pump_line("last", StreamOrigin::Stdout)));
    assert_eq!(pump.finish(), None);
}

#[test]
fn line_ending_split_over_two_chunks() {
    let mut pump = LinePump::new(StreamOrigin::Stderr);
    assert_eq!(pump.feed(b"one\r"), vec![]);
    assert_eq!(pump.feed(b"\ntwo"), vec![pump_line("one", StreamOrigin::Stderr)]);
    assert_eq!(pump.finish(), Some(pump_line("two", StreamOrigin::Stderr)));
}

#[test]
fn multi_byte_character_split_over_two_chunks() {
    let bytes = "é\n".as_bytes();
    let mut pump = LinePump::new(StreamOrigin::Stdout);
    assert_eq!(pump.feed(&bytes[..1]), vec![]);
    assert_eq!(pump.feed(&bytes[1..]), vec![pump_line("é", StreamOrigin::Stdout)]);
    assert_eq!(pump.finish(), None);
}

#[test]
fn any_chunking_gives_the_lines_of_the_whole() {
    let stream: &[u8] = b"alpha\r\nbeta\n\ngamma\rdelta\nomega";
    let whole = pump_all(StreamOrigin::Stdout, stream);
    assert_eq!(whole.len(), 5);
    for cut in 0..=stream.len() {
        for second in cut..=stream.len() {
            let mut pump = LinePump::new(StreamOrigin::Stdout);
            let mut seen = pump.feed(&stream[..cut]);
            seen.extend(pump.feed(&stream[cut..second]));
            seen.extend(pump.feed(&stream[second..]));
            seen.extend(pump.finish());
            assert_eq!(seen, whole);
        }
    }
}
