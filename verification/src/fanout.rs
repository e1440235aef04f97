use crate::palette::{in_palette, ColorAssigner};
use crate::pattern::HighlightRule;
use crate::tailer::{
    view_of, InstructionView, RenderInstruction, SourceIdentity, StreamEvent, Tailer, TailerState,
};
use vstd::prelude::*;

verus! {

/// Every tailer has ended or failed.
pub open spec fn complete(tailers: Seq<Tailer>) -> bool {
    forall|i: int| 0 <= i < tailers.len() ==> (#[trigger] tailers[i]).state.terminal()
}

/// The tailers after an event has gone to the one at `index`: that one has
/// taken its step and every other is as it was. An index past the last
/// tailer reaches none.
pub open spec fn delivered(tailers: Seq<Tailer>, index: int, event: StreamEvent) -> Seq<Tailer> {
    if 0 <= index < tailers.len() {
        tailers.update(index, tailers[index].stepped(event))
    } else {
        tailers
    }
}

/// What an event that goes to the tailer at `index` sends to the renderer.
pub open spec fn forwarded(tailers: Seq<Tailer>, index: int, event: StreamEvent) -> Option<
    InstructionView,
> {
    if 0 <= index < tailers.len() {
        tailers[index].output(event)
    } else {
        None
    }
}

/// The tailers after a run of deliveries, each an index and an event that
/// goes to the tailer at that index.
pub open spec fn routed(tailers: Seq<Tailer>, deliveries: Seq<(int, StreamEvent)>) -> Seq<Tailer>
    decreases deliveries.len(),
{
    if deliveries.len() == 0 {
        tailers
    } else {
        delivered(
            routed(tailers, deliveries.drop_last()),
            deliveries.last().0,
            deliveries.last().1,
        )
    }
}

/// What a run of deliveries sends to the renderer: the instructions of all
/// sources in the order in which they arise, each with the index of its
/// tailer.
pub open spec fn multiplexed(tailers: Seq<Tailer>, deliveries: Seq<(int, StreamEvent)>) -> Seq<
    (int, InstructionView),
>
    decreases deliveries.len(),
{
    if deliveries.len() == 0 {
        Seq::empty()
    } else {
        let before = multiplexed(tailers, deliveries.drop_last());
        let last = deliveries.last();
        match forwarded(routed(tailers, deliveries.drop_last()), last.0, last.1) {
            Some(i) => before.push((last.0, i)),
            None => before,
        }
    }
}

/// Deliveries as the contracts speak of them, with mathematical indices.
pub open spec fn routes(deliveries: Seq<(usize, StreamEvent)>) -> Seq<(int, StreamEvent)> {
    deliveries.map_values(|d: (usize, StreamEvent)| (d.0 as int, d.1))
}

/// The views of instructions that carry the index of their tailer.
pub open spec fn tagged_views(outputs: Seq<(usize, RenderInstruction)>) -> Seq<
    (int, InstructionView),
> {
    outputs.map_values(|o: (usize, RenderInstruction)| (o.0 as int, o.1@))
}

/// One tailer for each selected pod, and the join over all of them.
#[derive(Debug)]
pub struct FanOut {
    pub tailers: Vec<Tailer>,
}

impl View for FanOut {
    type V = Seq<Tailer>;

    open spec fn view(&self) -> Seq<Tailer> {
        self.tailers@
    }
}

impl FanOut {
    /// Sets up one tailer for each pod, in the order of the names, each
    /// with a colour of its own drawing and with the settings of the run.
    /// No tailer has opened its stream yet.
    pub fn launch(
        namespace: &str,
        pod_names: Vec<String>,
        tail_lines: i64,
        highlight: &HighlightRule,
        filter_only: bool,
    ) -> (f: FanOut)
        ensures
            f@.len() == pod_names.len(),
            forall|i: int|
                0 <= i < pod_names.len() ==> {
                    &&& (#[trigger] f@[i]).namespace@ == namespace@
                    &&& f@[i].tail_lines == tail_lines
                    &&& f@[i].source.pod_name == pod_names[i]
                    &&& in_palette(f@[i].source.color)
                    &&& f@[i].highlight == *highlight
                    &&& f@[i].filter_only == filter_only
                    &&& f@[i].state is Connecting
                },
    {
        let ghost names = pod_names@;
        let mut assigner = ColorAssigner::new();
        let mut tailers: Vec<Tailer> = Vec::new();
        for pod_name in it: pod_names
            invariant
                it.seq() == names,
                tailers.len() == it.index(),
                forall|i: int|
                    0 <= i < tailers.len() ==> {
                        &&& (#[trigger] tailers[i]).namespace@ == namespace@
                        &&& tailers[i].tail_lines == tail_lines
                        &&& tailers[i].source.pod_name == names[i]
                        &&& in_palette(tailers[i].source.color)
                        &&& tailers[i].highlight == *highlight
                        &&& tailers[i].filter_only == filter_only
                        &&& tailers[i].state is Connecting
                    },
        {
            let color = assigner.next();
            let source = SourceIdentity { pod_name, color };
            let tailer = Tailer::new(
                String::from_str(namespace),
                tail_lines,
                source,
                highlight.clone(),
                filter_only,
            );
            tailers.push(tailer);
        }
        FanOut { tailers }
    }

    /// The number of tailers.
    pub fn len(&self) -> (n: usize)
        ensures
            n == self@.len(),
    {
        self.tailers.len()
    }

    /// Hands an event of one pod's stream to that pod's tailer. No other
    /// tailer is touched, whatever the event.
    pub fn deliver(&mut self, index: usize, event: StreamEvent) -> (out: Option<RenderInstruction>)
        ensures
            final(self)@ == delivered(old(self)@, index as int, event),
            view_of(out) == forwarded(old(self)@, index as int, event),
    {
        if index < self.tailers.len() {
            let out = self.tailers[index].step(event);
            assert(self@ =~= delivered(old(self)@, index as int, event));
            out
        } else {
            None
        }
    }

    /// Hands a run of deliveries to the tailers, one after the other, and
    /// collects what they send to the renderer, each instruction with the
    /// index of its tailer.
    pub fn feed(&mut self, deliveries: Vec<(usize, StreamEvent)>) -> (out: Vec<
        (usize, RenderInstruction),
    >)
        ensures
            final(self)@ == routed(old(self)@, routes(deliveries@)),
            tagged_views(out@) == multiplexed(old(self)@, routes(deliveries@)),
    {
        let ghost start = self@;
        let ghost all = deliveries@;
        let mut out: Vec<(usize, RenderInstruction)> = Vec::new();
        assert(routes(all.take(0)) =~= Seq::<(int, StreamEvent)>::empty());
        assert(tagged_views(out@) =~= Seq::<(int, InstructionView)>::empty());
        for delivery in it: deliveries
            invariant
                it.seq() == all,
                self@ == routed(start, routes(all.take(it.index()))),
                tagged_views(out@) == multiplexed(start, routes(all.take(it.index()))),
        {
            proof {
                let k = it.index();
                assert(routes(all.take(k + 1)).drop_last() =~= routes(all.take(k)));
                assert(routes(all.take(k + 1)).last() == (all[k].0 as int, all[k].1));
            }
            let ghost before = out@;
            let index: usize = delivery.0;
            match self.deliver(index, delivery.1) {
                Some(instruction) => {
                    out.push((index, instruction));
                    assert(tagged_views(out@) =~= tagged_views(before).push(
                        (index as int, instruction@),
                    ));
                },
                None => {},
            }
        }
        assert(all.take(all.len() as int) =~= all);
        out
    }

    /// Whether the run is over: every tailer has ended or failed. A run
    /// without tailers is over from the start.
    pub fn is_complete(&self) -> (b: bool)
        ensures
            b == complete(self@),
    {
        let mut i: usize = 0;
        while i < self.tailers.len()
            invariant
                i <= self.tailers.len(),
                forall|j: int| 0 <= j < i ==> (#[trigger] self@[j]).state.terminal(),
            decreases self.tailers.len() - i,
        {
            if !self.tailers[i].state.is_terminal() {
                return false;
            }
            i += 1;
        }
        true
    }

    /// Where each tailer stands, in the order of the tailers.
    pub fn states(&self) -> (s: Vec<TailerState>)
        ensures
            s@.len() == self@.len(),
            forall|i: int| 0 <= i < s@.len() ==> s@[i] == (#[trigger] self@[i]).state,
    {
        let mut s: Vec<TailerState> = Vec::new();
        let mut i: usize = 0;
        while i < self.tailers.len()
            invariant
                i <= self.tailers.len(),
                s@.len() == i,
                forall|j: int| 0 <= j < i ==> s@[j] == (#[trigger] self@[j]).state,
            decreases self.tailers.len() - i,
        {
            s.push(self.tailers[i].state);
            i += 1;
        }
        s
    }
}

/// The events among the deliveries that go to one tailer, in order.
pub open spec fn events_for(deliveries: Seq<(int, StreamEvent)>, index: int) -> Seq<StreamEvent> {
    deliveries.filter_map(
        |d: (int, StreamEvent)|
            if d.0 == index {
                Some(d.1)
            } else {
                None
            },
    )
}

/// The instructions of one tailer among those of all, in order.
pub open spec fn output_of(outputs: Seq<(int, InstructionView)>, index: int) -> Seq<
    InstructionView,
> {
    outputs.filter_map(
        |o: (int, InstructionView)|
            if o.0 == index {
                Some(o.1)
            } else {
                None
            },
    )
}

/// Sources do not disturb each other. However the events of the pods are
/// interleaved, and whatever happens to the other tailers, each tailer ends
/// where its own events alone would have brought it, and its instructions
/// stand in the common output in the order in which it alone would have
/// sent them.
pub proof fn lemma_sources_do_not_disturb_each_other(
    tailers: Seq<Tailer>,
    deliveries: Seq<(int, StreamEvent)>,
    index: int,
)
    requires
        0 <= index < tailers.len(),
    ensures
        routed(tailers, deliveries).len() == tailers.len(),
        routed(tailers, deliveries)[index] == tailers[index].after(events_for(deliveries, index)),
        output_of(multiplexed(tailers, deliveries), index) == tailers[index].emitted(
            events_for(deliveries, index),
        ),
    decreases deliveries.len(),
{
    let pick_event = |d: (int, StreamEvent)|
        if d.0 == index {
            Some(d.1)
        } else {
            None
        };
    let pick_output = |o: (int, InstructionView)|
        if o.0 == index {
            Some(o.1)
        } else {
            None
        };
    if deliveries.len() > 0 {
        let rest = deliveries.drop_last();
        let last = deliveries.last();
        lemma_sources_do_not_disturb_each_other(tailers, rest, index);
        let before = multiplexed(tailers, rest);
        let own = events_for(rest, index);
        if last.0 == index {
            assert(events_for(deliveries, index) =~= own.push(last.1));
            assert(own.push(last.1).drop_last() =~= own);
            match forwarded(routed(tailers, rest), last.0, last.1) {
                Some(i) => {
                    assert(before.push((last.0, i)).drop_last() =~= before);
                    assert(output_of(before.push((last.0, i)), index) =~= output_of(before, index)
                        + seq![i]);
                },
                None => {},
            }
        } else {
            assert(events_for(deliveries, index) =~= own);
            match forwarded(routed(tailers, rest), last.0, last.1) {
                Some(i) => {
                    assert(before.push((last.0, i)).drop_last() =~= before);
                    assert(pick_output((last.0, i)) is None);
                },
                None => {},
            }
        }
    }
}

/// One failure does not end the run early, and does not keep it from
/// ending: after any deliveries the run is complete exactly when the events
/// of each pod have brought that pod's tailer to its end, cleanly or not.
pub proof fn lemma_run_completes_when_every_stream_has_finished(
    tailers: Seq<Tailer>,
    deliveries: Seq<(int, StreamEvent)>,
)
    ensures
        complete(routed(tailers, deliveries)) <==> forall|i: int|
            0 <= i < tailers.len() ==> (#[trigger] tailers[i]).after(
                events_for(deliveries, i),
            ).state.terminal(),
{
    let end = routed(tailers, deliveries);
    lemma_routing_keeps_the_tailers(tailers, deliveries);
    if complete(end) {
        assert forall|i: int| 0 <= i < tailers.len() implies (#[trigger] tailers[i]).after(
            events_for(deliveries, i),
        ).state.terminal() by {
            lemma_sources_do_not_disturb_each_other(tailers, deliveries, i);
            assert(end[i].state.terminal());
        }
    }
    if forall|i: int|
        0 <= i < tailers.len() ==> (#[trigger] tailers[i]).after(
            events_for(deliveries, i),
        ).state.terminal() {
        assert forall|i: int| 0 <= i < end.len() implies (#[trigger] end[i]).state.terminal() by {
            lemma_sources_do_not_disturb_each_other(tailers, deliveries, i);
            assert(tailers[i].after(events_for(deliveries, i)).state.terminal());
        }
    }
}

/// Deliveries neither add nor remove a tailer.
pub proof fn lemma_routing_keeps_the_tailers(tailers: Seq<Tailer>, deliveries: Seq<(int, StreamEvent)>)
    ensures
        routed(tailers, deliveries).len() == tailers.len(),
    decreases deliveries.len(),
{
    if deliveries.len() > 0 {
        lemma_routing_keeps_the_tailers(tailers, deliveries.drop_last());
    }
}

/// A run without pods has no tailer to wait for: it is complete from the
/// start and stays so.
pub proof fn lemma_empty_run_is_complete(deliveries: Seq<(int, StreamEvent)>)
    ensures
        complete(Seq::<Tailer>::empty()),
        complete(routed(Seq::<Tailer>::empty(), deliveries)),
        multiplexed(Seq::<Tailer>::empty(), deliveries) == Seq::<(int, InstructionView)>::empty(),
    decreases deliveries.len(),
{
    lemma_routing_keeps_the_tailers(Seq::<Tailer>::empty(), deliveries);
    if deliveries.len() > 0 {
        lemma_empty_run_is_complete(deliveries.drop_last());
        lemma_routing_keeps_the_tailers(Seq::<Tailer>::empty(), deliveries.drop_last());
    }
}

} // verus!
