use crate::error::TailError;
use crate::fanout::FanOut;
use crate::options::{LogsOpts, OptionEx};
use crate::palette::{get_color, in_palette, Color};
use crate::pattern::{compile, parsed, HighlightRule};
use crate::select::{matching, names_of, select};
use crate::tailer::{SourceIdentity, Tailer, TailerState};
use crate::text::{decimal, format_unsigned, index_in, parse_index, trim};
use vstd::prelude::*;

verus! {

/// Sets up the tailer of one pod. The highlight text is compiled once, here:
/// a text that does not compile is a configuration error, and no tailer is
/// made.
pub fn stream_logs(
    namespace: String,
    pod_name: String,
    tail_lines: i64,
    c: Color,
    highlight: String,
    filter: bool,
) -> (r: Result<Tailer, TailError>)
    ensures
        match HighlightRule::configured(highlight@) {
            Ok(rule) => r == Ok::<Tailer, TailError>(
                Tailer {
                    namespace,
                    tail_lines,
                    source: SourceIdentity { pod_name, color: c },
                    highlight: rule,
                    filter_only: filter,
                    state: TailerState::Connecting,
                },
            ),
            Err(e) => r == Err::<Tailer, TailError>(e),
        },
{
    match HighlightRule::new(highlight.as_str()) {
        Ok(rule) => Ok(
            Tailer::new(
                namespace,
                tail_lines,
                SourceIdentity { pod_name, color: c },
                rule,
                filter,
            ),
        ),
        Err(e) => Err(e),
    }
}

/// The tailer follows the pod `name` with the settings of `o`, has a colour
/// of the palette and has not opened its stream.
pub open spec fn follows(t: Tailer, o: LogsOpts, name: Seq<char>) -> bool {
    &&& t.namespace@ == o.namespace@
    &&& t.tail_lines == o.tail_length
    &&& t.source.pod_name@ == name
    &&& in_palette(t.source.color)
    &&& HighlightRule::configured(o.highlight.text()) == Ok::<HighlightRule, TailError>(t.highlight)
    &&& t.filter_only == o.filter
    &&& t.state is Connecting
}

/// Sets up a run over the pods of a listing that the pattern `p` selects.
/// A highlight text or a pattern that does not compile is a configuration
/// error, whatever the listing; after that a failed listing is a selection
/// error. Otherwise there is one tailer for each selected pod, in listing
/// order, and none where nothing is selected.
pub fn follow_logs<E>(o: &LogsOpts, p: &str, listing: Result<Vec<String>, E>) -> (r: Result<
    FanOut,
    TailError,
>)
    ensures
        HighlightRule::configured(o.highlight.text()) is Err || parsed(p@) is Err ==> r is Err
            && r->Err_0 == TailError::Config,
        HighlightRule::configured(o.highlight.text()) is Ok && parsed(p@) is Ok && listing is Err
            ==> r is Err && r->Err_0 == TailError::Selection,
        HighlightRule::configured(o.highlight.text()) is Ok && parsed(p@) is Ok && listing is Ok
            ==> {
            let pods = matching(names_of(listing->Ok_0@), parsed(p@)->Ok_0);
            &&& r is Ok
            &&& r->Ok_0@.len() == pods.len()
            &&& forall|i: int| 0 <= i < pods.len() ==> follows(#[trigger] r->Ok_0@[i], *o, pods[i])
        },
{
    let h = o.highlight.to_str();
    let rule = match HighlightRule::new(h.as_str()) {
        Ok(rule) => rule,
        Err(e) => {
            return Err(e);
        },
    };
    let re = match compile(p) {
        Ok(re) => re,
        Err(e) => {
            return Err(e);
        },
    };
    let pods = match select(listing, &re) {
        Ok(pods) => pods,
        Err(e) => {
            return Err(e);
        },
    };
    let ghost names = names_of(pods@);
    let f = FanOut::launch(o.namespace.as_str(), pods, o.tail_length, &rule, o.filter);
    assert forall|i: int| 0 <= i < names.len() implies follows(#[trigger] f@[i], *o, names[i]) by {
        assert(names[i] == pods@[i]@);
    }
    Ok(f)
}

/// The entry of the pod menu for the pod at `index`: a tab, the index, a
/// colon and a blank, and the pod's name.
pub open spec fn menu_entry(index: nat, name: Seq<char>) -> Seq<char> {
    seq!['\t'] + decimal(index) + seq![':', ' '] + name
}

/// The menu from which the operator picks a pod: one entry for each pod,
/// numbered from zero in listing order.
pub fn list_pods(pods: &Vec<String>) -> (menu: Vec<String>)
    ensures
        menu@.len() == pods@.len(),
        forall|i: int| 0 <= i < pods@.len() ==> (#[trigger] menu@[i])@ == menu_entry(
            i as nat,
            pods@[i]@,
        ),
{
    let mut menu: Vec<String> = Vec::new();
    let mut i: usize = 0;
    while i < pods.len()
        invariant
            i <= pods.len(),
            menu@.len() == i,
            forall|j: int| 0 <= j < i ==> (#[trigger] menu@[j])@ == menu_entry(j as nat, pods@[j]@),
        decreases pods.len() - i,
    {
        proof {
            reveal_strlit("\t");
            reveal_strlit(": ");
        }
        let mut entry = String::from_str("\t");
        let number = format_unsigned(i as u64);
        entry.append(number.as_str());
        entry.append(": ");
        entry.append(pods[i].as_str());
        assert(entry@ =~= menu_entry(i as nat, pods@[i as int]@));
        menu.push(entry);
        i += 1;
    }
    menu
}

/// Sets up the tailer of the pod that the operator picked from the menu.
/// An answer that is no index is an error. An index past the end of the
/// menu picks nothing, which is no error. Otherwise the highlight text is
/// compiled and the pod at the index gets its tailer.
pub fn select_pod(o: &LogsOpts, pods: &Vec<String>, input: &str) -> (r: Result<
    Option<Tailer>,
    TailError,
>)
    ensures
        match index_in(trim(input@)) {
            None => r is Err && r->Err_0 == TailError::Choice,
            Some(index) => if index >= pods@.len() {
                r is Ok && r->Ok_0 is None
            } else {
                match HighlightRule::configured(o.highlight.text()) {
                    Ok(_) => r is Ok && r->Ok_0 is Some && follows(
                        r->Ok_0->Some_0,
                        *o,
                        pods@[index as int]@,
                    ),
                    Err(e) => r is Err && r->Err_0 == e,
                }
            },
        },
{
    let index: usize = match parse_index(input) {
        Some(index) => index,
        None => {
            return Err(TailError::Choice);
        },
    };
    if index >= pods.len() {
        return Ok(None);
    }
    let c = get_color();
    let h = o.highlight.to_str();
    match stream_logs(o.namespace.clone(), pods[index].clone(), o.tail_length, c, h, o.filter) {
        Ok(t) => Ok(Some(t)),
        Err(e) => Err(e),
    }
}

} // verus!
