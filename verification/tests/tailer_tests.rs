use podtail::classify::Category;
use podtail::error::TailError;
use podtail::palette::Color;
use podtail::pattern::HighlightRule;
use podtail::tailer::{line_event, SourceIdentity, StreamEvent, Tailer, TailerState};

const GREEN: Color = Color { r: 0, g: 255, b: 0 };

fn tailer(pattern: &str, filter_only: bool) -> Tailer {
    Tailer::new(
        "prod".to_string(),
        25,
        SourceIdentity { pod_name: "web-1".to_string(), color: GREEN },
        HighlightRule::new(pattern).unwrap(),
        filter_only,
    )
}

fn line(text: &str) -> StreamEvent {
    StreamEvent::Line(text.as_bytes().to_vec())
}

#[test]
fn new_tailer_is_connecting() {
    let t = tailer("", false);
    assert_eq!(t.state, TailerState::Connecting);
    assert_eq!(t.namespace, "prod");
    assert_eq!(t.tail_lines, 25);
    assert_eq!(t.source.pod_name, "web-1");
    assert_eq!(t.source.color, GREEN);
    assert!(!t.filter_only);
}

#[test]
fn request_asks_for_backlog_and_follows() {
    let t = tailer("", false);
    let r = t.request();
    assert_eq!(r.namespace, "prod");
    assert_eq!(r.pod_name, "web-1");
    assert_eq!(r.tail_lines, 25);
    assert!(r.follow);
    assert!(r.pretty);
}

#[test]
fn numbered_lines_arrive_in_order() {
    let mut t = tailer("", false);
    let mut events = vec![StreamEvent::Opened];
    for n in 0..50 {
        events.push(line(&format!("line {}", n)));
    }
    let out = t.feed(events);
    assert_eq!(out.len(), 50);
    for (n, instruction) in out.iter().enumerate() {
        assert_eq!(instruction.text, format!("line {}", n));
        assert_eq!(instruction.category, Category::Plain);
        assert_eq!(instruction.source.pod_name, "web-1");
        assert_eq!(instruction.source.color, GREEN);
    }
    assert_eq!(t.state, TailerState::Streaming);
}

#[test]
fn filter_only_keeps_the_order_of_the_matches() {
    let mut t = tailer("keep", true);
    let events = vec![
        StreamEvent::Opened,
        line("keep 1"),
        line("drop 2"),
        line("keep 3"),
        line("error keep 4"),
        line("error 5"),
        line("keep 6"),
    ];
    let out = t.feed(events);
    let texts: Vec<&str> = out.iter().map(|i| i.text.as_str()).collect();
    assert_eq!(texts, vec!["keep 1", "keep 3", "error keep 4", "keep 6"]);
    assert!(out.iter().all(|i| i.category == Category::Highlighted));
}

#[test]
fn step_classifies_each_line() {
    let mut t = tailer("ready", false);
    assert!(t.step(StreamEvent::Opened).is_none());
    assert_eq!(t.state, TailerState::Streaming);
    let plain = t.step(line("starting")).unwrap();
    assert_eq!(plain.category, Category::Plain);
    assert_eq!(plain.text, "starting");
    let marked = t.step(line("service ready")).unwrap();
    assert_eq!(marked.category, Category::Highlighted);
    let failed = t.step(line("Error: not ready")).unwrap();
    assert_eq!(failed.category, Category::Error);
    assert_eq!(failed.text, "Error: not ready");
    assert_eq!(t.state, TailerState::Streaming);
}

#[test]
fn line_is_decoded_as_utf8() {
    let mut t = tailer("", false);
    t.step(StreamEvent::Opened);
    let bytes = vec![0x68, 0xc3, 0xa9, 0x20, 0xe2, 0x98, 0x83];
    let out = t.step(StreamEvent::Line(bytes)).unwrap();
    assert_eq!(out.text, "h\u{e9} \u{2603}");
}

#[test]
fn empty_line_is_rendered() {
    let mut t = tailer("", false);
    t.step(StreamEvent::Opened);
    let out = t.step(StreamEvent::Line(Vec::new())).unwrap();
    assert_eq!(out.text, "");
    assert_eq!(out.category, Category::Plain);
}

#[test]
fn open_failure_fails_the_tailer() {
    let mut t = tailer("", false);
    assert!(t.step(StreamEvent::OpenFailed).is_none());
    assert_eq!(t.state, TailerState::Failed(TailError::Connect));
    assert!(t.state.is_terminal());
}

#[test]
fn invalid_utf8_fails_the_tailer() {
    let mut t = tailer("", false);
    t.step(StreamEvent::Opened);
    assert!(t.step(line("fine")).is_some());
    assert!(t.step(StreamEvent::Line(vec![0x66, 0xff, 0x66])).is_none());
    assert_eq!(t.state, TailerState::Failed(TailError::Decode));
    assert!(t.step(line("too late")).is_none());
    assert_eq!(t.state, TailerState::Failed(TailError::Decode));
}

#[test]
fn truncated_utf8_fails_the_tailer() {
    let mut t = tailer("", false);
    t.step(StreamEvent::Opened);
    assert!(t.step(StreamEvent::Line(vec![0xe2, 0x98])).is_none());
    assert_eq!(t.state, TailerState::Failed(TailError::Decode));
}

#[test]
fn close_ends_the_tailer() {
    let mut t = tailer("", false);
    t.step(StreamEvent::Opened);
    assert!(t.step(StreamEvent::Closed).is_none());
    assert_eq!(t.state, TailerState::Ended);
    assert!(t.state.is_terminal());
    assert!(t.step(line("after the end")).is_none());
    assert!(t.step(StreamEvent::Broken).is_none());
    assert_eq!(t.state, TailerState::Ended);
}

#[test]
fn break_fails_the_tailer() {
    let mut t = tailer("", false);
    t.step(StreamEvent::Opened);
    assert!(t.step(StreamEvent::Broken).is_none());
    assert_eq!(t.state, TailerState::Failed(TailError::Stream));
}

#[test]
fn events_out_of_place_change_nothing() {
    let mut t = tailer("", false);
    assert!(t.step(line("before the stream is open")).is_none());
    assert!(t.step(StreamEvent::Closed).is_none());
    assert!(t.step(StreamEvent::Broken).is_none());
    assert_eq!(t.state, TailerState::Connecting);
    t.step(StreamEvent::Opened);
    assert!(t.step(StreamEvent::Opened).is_none());
    assert!(t.step(StreamEvent::OpenFailed).is_none());
    assert_eq!(t.state, TailerState::Streaming);
}

#[test]
fn feed_stops_rendering_at_the_first_bad_line() {
    let mut t = tailer("", false);
    let out = t.feed(vec![
        StreamEvent::Opened,
        line("one"),
        line("two"),
        StreamEvent::Line(vec![0xc0]),
        line("three"),
        StreamEvent::Closed,
    ]);
    let texts: Vec<&str> = out.iter().map(|i| i.text.as_str()).collect();
    assert_eq!(texts, vec!["one", "two"]);
    assert_eq!(t.state, TailerState::Failed(TailError::Decode));
}

#[test]
fn feed_in_two_parts_is_feed_in_one() {
    let lines = ["a", "error b", "c", "d"];
    let mut whole = tailer("c", false);
    let mut events = vec![StreamEvent::Opened];
    events.extend(lines.iter().map(|l| line(l)));
    let all = whole.feed(events);

    let mut parts = tailer("c", false);
    let mut first = parts.feed(vec![StreamEvent::Opened, line("a"), line("error b")]);
    let second = parts.feed(vec![line("c"), line("d")]);
    first.extend(second);

    assert_eq!(all.len(), first.len());
    for (x, y) in all.iter().zip(first.iter()) {
        assert_eq!(x.text, y.text);
        assert_eq!(x.category, y.category);
    }
    assert_eq!(whole.state, parts.state);
}

#[test]
fn source_identity_clone_is_equal() {
    let source = SourceIdentity { pod_name: "db-0".to_string(), color: GREEN };
    let copy = source.clone();
    assert_eq!(copy.pod_name, "db-0");
    assert_eq!(copy.color, GREEN);
}

#[test]
fn only_ended_and_failed_are_terminal() {
    assert!(!TailerState::Connecting.is_terminal());
    assert!(!TailerState::Streaming.is_terminal());
    assert!(TailerState::Ended.is_terminal());
    assert!(TailerState::Failed(TailError::Stream).is_terminal());
}

#[test]
fn chunk_loses_its_line_terminator() {
    let bytes = |e: StreamEvent| match e {
        StreamEvent::Line(b) => b,
        _ => panic!("not a line"),
    };
    assert_eq!(bytes(line_event(b"hello\n".to_vec())), b"hello".to_vec());
    assert_eq!(bytes(line_event(b"hello\r\n".to_vec())), b"hello".to_vec());
    assert_eq!(bytes(line_event(b"hello".to_vec())), b"hello".to_vec());
    assert_eq!(bytes(line_event(b"hello\r".to_vec())), b"hello\r".to_vec());
    assert_eq!(bytes(line_event(b"hello\n\n".to_vec())), b"hello\n".to_vec());
    assert_eq!(bytes(line_event(b"\n".to_vec())), Vec::<u8>::new());
    assert_eq!(bytes(line_event(b"\r\n".to_vec())), Vec::<u8>::new());
    assert_eq!(bytes(line_event(Vec::new())), Vec::<u8>::new());
}
