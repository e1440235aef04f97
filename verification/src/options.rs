use vstd::prelude::*;

verus! {

/// Settings of a log-tailing run.
#[derive(Debug)]
pub struct LogsOpts {
    /// The one pod to follow, where the operator names it.
    pub pod: Option<String>,
    pub follow: bool,
    pub namespace: String,
    /// How many lines of backlog each stream starts with.
    pub tail_length: i64,
    /// The expression that selects the pods to follow by name.
    pub pattern: Option<String>,
    pub terms: Option<String>,
    /// The expression that marks lines.
    pub highlight: Option<String>,
    /// Show only the lines that the highlight expression marks.
    pub filter: bool,
}

/// Settings of the interactive pod browser.
#[derive(Debug)]
pub struct UIOpts {
    pub namespace: String,
}

/// Reads an optional string as a string, with the empty string for an absent
/// value.
pub trait OptionEx {
    spec fn text(&self) -> Seq<char>;

    fn to_str(&self) -> (s: String)
        ensures
            s@ == self.text(),
    ;
}

impl OptionEx for Option<String> {
    open spec fn text(&self) -> Seq<char> {
        match self {
            Some(s) => s@,
            None => Seq::empty(),
        }
    }

    fn to_str(&self) -> (s: String) {
        if let Some(s) = self {
            s.clone()
        } else {
            String::new()
        }
    }
}

/// Which pods a run follows, and how they are found.
#[derive(Debug)]
pub enum LogsMode {
    /// The pod that the operator named.
    SinglePod(String),
    /// Every pod whose name the expression matches.
    FanOut(String),
    /// The pod that the operator picks from the list.
    Interactive,
}

impl LogsOpts {
    /// A named pod comes before a pattern; with neither, the operator is
    /// asked.
    pub open spec fn chosen_mode(self) -> LogsMode {
        match self.pod {
            Some(p) => LogsMode::SinglePod(p),
            None => match self.pattern {
                Some(p) => LogsMode::FanOut(p),
                None => LogsMode::Interactive,
            },
        }
    }

    /// Decides how the run finds its pods.
    pub fn mode(&self) -> (m: LogsMode)
        ensures
            m == self.chosen_mode(),
    {
        match &self.pod {
            Some(p) => LogsMode::SinglePod(p.clone()),
            None => match &self.pattern {
                Some(p) => LogsMode::FanOut(p.clone()),
                None => LogsMode::Interactive,
            },
        }
    }
}

} // verus!
