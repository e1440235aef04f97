use podtail::error::TailError;
use podtail::logs::{follow_logs, list_pods, select_pod, stream_logs};
use podtail::options::{LogsMode, LogsOpts, OptionEx, UIOpts};
use podtail::palette::{color_at, Color};
use podtail::tailer::TailerState;

fn opts() -> LogsOpts {
    LogsOpts {
        pod: None,
        follow: false,
        namespace: "prod".to_string(),
        tail_length: 100,
        pattern: None,
        terms: None,
        highlight: None,
        filter: false,
    }
}

fn names(list: &[&str]) -> Vec<String> {
    list.iter().map(|n| n.to_string()).collect()
}

fn listing(list: &[&str]) -> Result<Vec<String>, String> {
    Ok(names(list))
}

fn in_palette(c: Color) -> bool {
    (0..8).any(|i| color_at(i) == Some(c))
}

#[test]
fn absent_string_reads_as_empty() {
    let absent: Option<String> = None;
    assert_eq!(absent.to_str(), "");
    assert_eq!(Some("warn".to_string()).to_str(), "warn");
    assert_eq!(Some(String::new()).to_str(), "");
}

#[test]
fn named_pod_comes_before_pattern() {
    let mut o = opts();
    assert!(matches!(o.mode(), LogsMode::Interactive));
    o.pattern = Some("web".to_string());
    assert!(matches!(o.mode(), LogsMode::FanOut(p) if p == "web"));
    o.pod = Some("db-0".to_string());
    assert!(matches!(o.mode(), LogsMode::SinglePod(p) if p == "db-0"));
    o.pattern = None;
    assert!(matches!(o.mode(), LogsMode::SinglePod(p) if p == "db-0"));
}

#[test]
fn browser_options_hold_the_namespace() {
    let o = UIOpts { namespace: "staging".to_string() };
    assert_eq!(o.namespace, "staging");
}

#[test]
fn stream_logs_sets_up_a_tailer() {
    let c = Color { r: 1, g: 2, b: 3 };
    let t = stream_logs("prod".to_string(), "web-1".to_string(), 7, c, "warn".to_string(), true)
        .unwrap();
    assert_eq!(t.namespace, "prod");
    assert_eq!(t.source.pod_name, "web-1");
    assert_eq!(t.source.color, c);
    assert_eq!(t.tail_lines, 7);
    assert!(t.filter_only);
    assert!(t.highlight.is_active());
    assert!(t.highlight.matches("a warning"));
    assert_eq!(t.state, TailerState::Connecting);
}

#[test]
fn stream_logs_without_highlight() {
    let c = Color { r: 1, g: 2, b: 3 };
    let t = stream_logs("prod".to_string(), "web-1".to_string(), 7, c, String::new(), false)
        .unwrap();
    assert!(!t.highlight.is_active());
    assert!(!t.filter_only);
}

#[test]
fn stream_logs_refuses_a_bad_highlight() {
    let c = Color { r: 1, g: 2, b: 3 };
    let r = stream_logs("prod".to_string(), "web-1".to_string(), 7, c, "(".to_string(), false);
    assert_eq!(r.unwrap_err(), TailError::Config);
}

#[test]
fn follow_logs_makes_a_tailer_for_each_match() {
    let mut o = opts();
    o.highlight = Some("ready".to_string());
    o.filter = true;
    o.tail_length = 5;
    let f = follow_logs(&o, "web", listing(&["web-1", "db-0", "web-2"])).unwrap();
    assert_eq!(f.len(), 2);
    for (t, name) in f.tailers.iter().zip(["web-1", "web-2"]) {
        assert_eq!(t.source.pod_name, name);
        assert_eq!(t.namespace, "prod");
        assert_eq!(t.tail_lines, 5);
        assert!(t.filter_only);
        assert!(t.highlight.matches("ready"));
        assert!(in_palette(t.source.color));
        assert_eq!(t.state, TailerState::Connecting);
    }
}

#[test]
fn follow_logs_without_a_match_is_an_empty_run() {
    let f = follow_logs(&opts(), "zzz", listing(&["web-1", "db-0"])).unwrap();
    assert_eq!(f.len(), 0);
    assert!(f.is_complete());
}

#[test]
fn follow_logs_refuses_a_bad_pattern() {
    let r = follow_logs(&opts(), "web(", listing(&["web-1"]));
    assert_eq!(r.unwrap_err(), TailError::Config);
}

#[test]
fn follow_logs_refuses_a_bad_highlight() {
    let mut o = opts();
    o.highlight = Some("[".to_string());
    let r = follow_logs(&o, "web", listing(&["web-1"]));
    assert_eq!(r.unwrap_err(), TailError::Config);
}

#[test]
fn follow_logs_reports_a_failed_listing() {
    let failed: Result<Vec<String>, String> = Err("forbidden".to_string());
    assert_eq!(follow_logs(&opts(), "web", failed).unwrap_err(), TailError::Selection);
}

#[test]
fn configuration_error_comes_before_selection_error() {
    let failed: Result<Vec<String>, String> = Err("forbidden".to_string());
    assert_eq!(follow_logs(&opts(), "web(", failed).unwrap_err(), TailError::Config);
}

#[test]
fn menu_numbers_the_pods_from_zero() {
    let menu = list_pods(&names(&["web-1", "db-0", "cache"]));
    assert_eq!(menu, vec!["\t0: web-1", "\t1: db-0", "\t2: cache"]);
    assert!(list_pods(&Vec::new()).is_empty());
}

#[test]
fn menu_numbers_have_all_their_digits() {
    let pods: Vec<String> = (0..12).map(|i| format!("p{}", i)).collect();
    let menu = list_pods(&pods);
    assert_eq!(menu[9], "\t9: p9");
    assert_eq!(menu[10], "\t10: p10");
    assert_eq!(menu[11], "\t11: p11");
}

#[test]
fn select_pod_takes_the_pod_at_the_index() {
    let mut o = opts();
    o.highlight = Some("x".to_string());
    let pods = names(&["web-1", "db-0", "cache"]);
    let t = select_pod(&o, &pods, "1\n").unwrap().unwrap();
    assert_eq!(t.source.pod_name, "db-0");
    assert_eq!(t.namespace, "prod");
    assert_eq!(t.tail_lines, 100);
    assert!(t.highlight.is_active());
    assert!(in_palette(t.source.color));
    assert_eq!(t.state, TailerState::Connecting);
    let last = select_pod(&o, &pods, " 2 ").unwrap().unwrap();
    assert_eq!(last.source.pod_name, "cache");
}

#[test]
fn select_pod_past_the_menu_picks_nothing() {
    let pods = names(&["web-1", "db-0"]);
    assert!(select_pod(&opts(), &pods, "2").unwrap().is_none());
    assert!(select_pod(&opts(), &Vec::new(), "0").unwrap().is_none());
}

#[test]
fn select_pod_refuses_an_answer_that_is_no_index() {
    let pods = names(&["web-1", "db-0"]);
    assert_eq!(select_pod(&opts(), &pods, "one").unwrap_err(), TailError::Choice);
    assert_eq!(select_pod(&opts(), &pods, "").unwrap_err(), TailError::Choice);
    assert_eq!(select_pod(&opts(), &pods, "-1").unwrap_err(), TailError::Choice);
}

#[test]
fn select_pod_refuses_a_bad_highlight() {
    let mut o = opts();
    o.highlight = Some("(".to_string());
    let pods = names(&["web-1"]);
    assert_eq!(select_pod(&o, &pods, "0").unwrap_err(), TailError::Config);
    assert!(select_pod(&o, &pods, "5").unwrap().is_none());
}

#[test]
fn only_selection_and_configuration_errors_end_the_run() {
    assert!(TailError::Selection.is_fatal());
    assert!(TailError::Choice.is_fatal());
    assert!(TailError::Config.is_fatal());
    assert!(!TailError::Connect.is_fatal());
    assert!(!TailError::Decode.is_fatal());
    assert!(!TailError::Stream.is_fatal());
    assert!(!TailError::Render.is_fatal());
}
