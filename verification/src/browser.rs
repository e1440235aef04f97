use crate::text::{format_signed, signed_decimal};
use vstd::prelude::*;
use vstd::std_specs::convert::FromSpecImpl;

verus! {

/// What the browser's event loop wakes up for.
#[derive(Debug)]
pub enum Event<I> {
    Input(I),
    Tick,
}

impl<I: Clone> Clone for Event<I> {
    fn clone(&self) -> (e: Self) {
        match self {
            Event::Input(input) => Event::Input(input.clone()),
            Event::Tick => Event::Tick,
        }
    }
}

/// The pages of the browser.
#[derive(Clone, Copy, Debug, PartialEq, Eq, Structural)]
pub enum ActionItem {
    Home,
}

impl From<ActionItem> for usize {
    fn from(input: ActionItem) -> (index: usize) {
        match input {
            ActionItem::Home => 0,
        }
    }
}

impl FromSpecImpl<ActionItem> for usize {
    open spec fn obeys_from_spec() -> bool {
        true
    }

    open spec fn from_spec(input: ActionItem) -> usize {
        match input {
            ActionItem::Home => 0,
        }
    }
}

/// What the browser reads of one container of a pod.
#[derive(Clone, Copy, Debug, PartialEq, Eq, Structural)]
pub struct ContainerState {
    pub ready: bool,
    pub restart_count: i32,
}

/// What the browser reads of a pod. A pod without a status has neither
/// containers nor a phase.
#[derive(Debug)]
pub struct PodInfo {
    pub name: String,
    pub containers: Option<Vec<ContainerState>>,
    pub phase: Option<String>,
}

/// One row of the pod table.
#[derive(Clone, Debug)]
pub struct KubePod {
    pub name: String,
    pub ready: i32,
    pub container_count: i32,
    pub status: String,
    pub restart_count: i32,
}

/// A message from the background refresh to the browser.
#[derive(Clone, Debug)]
pub enum UIEvent {
    RefreshPods(Vec<KubePod>),
}

/// The number of containers that are ready.
pub open spec fn ready_count(containers: Seq<ContainerState>) -> nat
    decreases containers.len(),
{
    if containers.len() == 0 {
        0
    } else {
        ready_count(containers.drop_last()) + if containers.last().ready {
            1nat
        } else {
            0nat
        }
    }
}

/// The restarts of all containers together.
pub open spec fn restarts(containers: Seq<ContainerState>) -> int
    decreases containers.len(),
{
    if containers.len() == 0 {
        0
    } else {
        restarts(containers.drop_last()) + containers.last().restart_count
    }
}

impl PodInfo {
    /// The containers of the pod, none where it reports none.
    pub open spec fn container_states(self) -> Seq<ContainerState> {
        match self.containers {
            Some(cs) => cs@,
            None => Seq::empty(),
        }
    }

    /// The phase of the pod, empty where it reports none.
    pub open spec fn phase_text(self) -> Seq<char> {
        match self.phase {
            Some(p) => p@,
            None => Seq::empty(),
        }
    }
}

impl KubePod {
    /// Sums up a pod for the table: how many of its containers are ready,
    /// how many it has, how often they restarted, and its phase. The counts
    /// must fit the fields.
    pub fn new(pod: &PodInfo) -> (row: KubePod)
        requires
            pod.container_states().len() <= i32::MAX,
            i32::MIN <= restarts(pod.container_states()) <= i32::MAX,
        ensures
            row.name@ == pod.name@,
            row.ready == ready_count(pod.container_states()),
            row.container_count == pod.container_states().len(),
            row.status@ == pod.phase_text(),
            row.restart_count == restarts(pod.container_states()),
    {
        let mut r: i32 = 0;
        let mut rc: i64 = 0;
        let mut count: i32 = 0;
        if let Some(cs) = &pod.containers {
            let mut i: usize = 0;
            while i < cs.len()
                invariant
                    i <= cs.len() <= i32::MAX,
                    cs@ == pod.container_states(),
                    count == i,
                    r == ready_count(cs@.take(i as int)),
                    0 <= r <= i,
                    rc == restarts(cs@.take(i as int)),
                    -2147483648 * i <= rc <= 2147483647 * i,
                decreases cs.len() - i,
            {
                proof {
                    assert(cs@.take(i + 1).drop_last() =~= cs@.take(i as int));
                    assert(cs@.take(i + 1).last() == cs@[i as int]);
                }
                let c = cs[i];
                if c.ready {
                    r += 1;
                }
                assert(-2147483648 * (i + 1) == -2147483648 * i - 2147483648) by (nonlinear_arith);
                assert(2147483647 * (i + 1) == 2147483647 * i + 2147483647) by (nonlinear_arith);
                assert(2147483647 * i <= 2147483647 * 2147483647) by (nonlinear_arith)
                    requires
                        i <= 2147483647,
                ;
                assert(-2147483648 * i >= -2147483648 * 2147483647) by (nonlinear_arith)
                    requires
                        0 <= i <= 2147483647,
                ;
                rc += c.restart_count as i64;
                count += 1;
                i += 1;
            }
            assert(cs@.take(cs@.len() as int) =~= cs@);
        }
        let status = match &pod.phase {
            Some(p) => p.clone(),
            None => String::new(),
        };
        KubePod {
            name: pod.name.clone(),
            ready: r,
            container_count: count,
            status,
            restart_count: rc as i32,
        }
    }

    /// The cells of the pod's row: its name, the ready containers out of
    /// all, the restarts, and the phase.
    pub fn row(&self) -> (cells: Vec<String>)
        ensures
            cells@.len() == 4,
            cells@[0]@ == self.name@,
            cells@[1]@ == signed_decimal(self.ready as int) + seq!['/'] + signed_decimal(
                self.container_count as int,
            ),
            cells@[2]@ == signed_decimal(self.restart_count as int),
            cells@[3]@ == self.status@,
    {
        let mut ready = format_signed(self.ready as i64);
        proof {
            reveal_strlit("/");
        }
        ready.append("/");
        let count = format_signed(self.container_count as i64);
        ready.append(count.as_str());
        let mut cells: Vec<String> = Vec::new();
        cells.push(self.name.clone());
        cells.push(ready);
        cells.push(format_signed(self.restart_count as i64));
        cells.push(self.status.clone());
        cells
    }
}

/// The titles of the table's columns.
pub fn header() -> (titles: Vec<&'static str>)
    ensures
        titles@.len() == 4,
        titles@[0]@ == "Name"@,
        titles@[1]@ == "Ready"@,
        titles@[2]@ == "Restarts"@,
        titles@[3]@ == "Status"@,
{
    let mut titles: Vec<&'static str> = Vec::new();
    titles.push("Name");
    titles.push("Ready");
    titles.push("Restarts");
    titles.push("Status");
    titles
}

/// The share of the table's width that each column takes, in percent.
pub fn column_widths() -> (widths: Vec<u16>)
    ensures
        widths@ == seq![20u16, 5u16, 5u16, 70u16],
{
    let mut widths: Vec<u16> = Vec::new();
    widths.push(20);
    widths.push(5);
    widths.push(5);
    widths.push(70);
    assert(widths@ =~= seq![20u16, 5u16, 5u16, 70u16]);
    widths
}

/// A key, as far as the browser tells keys apart.
#[derive(Clone, Copy, Debug, PartialEq, Eq, Structural)]
pub enum Key {
    Char(char),
    Down,
    Up,
    Other,
}

/// What the browser does about a key.
#[derive(Clone, Copy, Debug, PartialEq, Eq, Structural)]
pub enum Reaction {
    /// Leave the browser.
    Quit,
    /// Move the selection to a row.
    Select(usize),
    /// Nothing.
    Stay,
}

impl Key {
    pub open spec fn quits(self) -> bool {
        self == Key::Char('q')
    }

    pub open spec fn moves_down(self) -> bool {
        self == Key::Down || self == Key::Char('j')
    }

    pub open spec fn moves_up(self) -> bool {
        self == Key::Up || self == Key::Char('k')
    }
}

/// The row below a row of a table with at least one row, and the first row
/// below the last.
pub open spec fn row_below(selected: usize, rows: usize) -> usize
    recommends
        rows > 0,
{
    if selected >= rows - 1 {
        0
    } else {
        (selected + 1) as usize
    }
}

/// The row above a row of a table with at least one row, and the last row
/// above the first.
pub open spec fn row_above(selected: usize, rows: usize) -> usize
    recommends
        rows > 0,
{
    if selected > 0 {
        (selected - 1) as usize
    } else {
        (rows - 1) as usize
    }
}

/// The browser's answer to a key: `q` quits; the down arrow and `j` move the
/// selection down, the up arrow and `k` move it up, both around the ends
/// of the table, where a row is selected and the table has a row to move
/// to; any other key does nothing, and so does a move in an empty table.
pub open spec fn reaction(key: Key, selected: Option<usize>, rows: usize) -> Reaction {
    if key.quits() {
        Reaction::Quit
    } else if rows == 0 {
        Reaction::Stay
    } else if key.moves_down() && selected is Some {
        Reaction::Select(row_below(selected->Some_0, rows))
    } else if key.moves_up() && selected is Some {
        Reaction::Select(row_above(selected->Some_0, rows))
    } else {
        Reaction::Stay
    }
}

/// Decides what a key does on the page of the pod table, whatever the size
/// of the table. While the table is empty, as it is until the first list
/// of pods arrives, no key moves the selection.
pub fn on_key(key: Key, page: ActionItem, selected: Option<usize>, rows: usize) -> (r: Reaction)
    ensures
        r == reaction(key, selected, rows),
{
    match key {
        Key::Char('q') => Reaction::Quit,
        Key::Down | Key::Char('j') => match page {
            ActionItem::Home => match selected {
                Some(selected) => {
                    if rows == 0 {
                        Reaction::Stay
                    } else if selected >= rows - 1 {
                        Reaction::Select(0)
                    } else {
                        Reaction::Select(selected + 1)
                    }
                },
                None => Reaction::Stay,
            },
        },
        Key::Up | Key::Char('k') => match page {
            ActionItem::Home => match selected {
                Some(selected) => {
                    if rows == 0 {
                        Reaction::Stay
                    } else if selected > 0 {
                        Reaction::Select(selected - 1)
                    } else {
                        Reaction::Select(rows - 1)
                    }
                },
                None => Reaction::Stay,
            },
        },
        _ => Reaction::Stay,
    }
}

/// A key never moves the selection out of the table. In an empty table no
/// key selects a row; in any other, a selection that names a row of the
/// table moves to a row of the table, and a move down always does.
pub proof fn lemma_selection_stays_in_the_table(key: Key, selected: Option<usize>, rows: usize)
    ensures
        rows == 0 ==> !(reaction(key, selected, rows) is Select),
        reaction(key, selected, rows) is Select && (key.moves_down() || (selected is Some
            && selected->Some_0 < rows)) ==> reaction(key, selected, rows)->Select_0 < rows,
{
}

/// The time between two ticks of the browser, in milliseconds.
pub const TICK_RATE_MS: u64 = 200;

/// How long the browser may wait for a key before the next tick is due:
/// what is left of the tick rate, and nothing once it has passed.
pub fn poll_timeout(tick_rate: u64, elapsed: u64) -> (timeout: u64)
    ensures
        timeout == if elapsed <= tick_rate {
            tick_rate - elapsed
        } else {
            0
        },
{
    match tick_rate.checked_sub(elapsed) {
        Some(left) => left,
        None => 0,
    }
}

/// Whether a tick is due: the tick rate has passed since the last one.
pub fn tick_due(tick_rate: u64, elapsed: u64) -> (due: bool)
    ensures
        due == (elapsed >= tick_rate),
{
    elapsed >= tick_rate
}

} // verus!
