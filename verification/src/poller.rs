//! The poller of one subscription.
//!
//! A subscription owns a background task that asks for the focused window
//! again and again and tells its observer when the answer has changed. The
//! task itself (its thread, its sleep, its channel) is the caller's; the
//! decisions are made here. One round of the task is:
//!
//! 1. hand what the cancellation channel held to [`Poller::receive`];
//! 2. call [`Poller::begin`], and leave the loop if it returns `false`;
//! 3. query the focused window and hand it to [`Poller::observe`];
//! 4. if that returned a record, call the observer with it and wait for it to
//!    return;
//! 5. sleep for [`POLL_INTERVAL_MS`].
//!
//! Each poller has a state of its own: two subscriptions never share the
//! record that they compare against.

use vstd::prelude::*;
use crate::window::{WindowInfo, WindowInfoView};

verus! {

/// The pause between two rounds of a poller, in milliseconds.
pub const POLL_INTERVAL_MS: u64 = 100;

/// What the cancellation channel of a poller held when the poller looked.
#[derive(Clone, Copy, Debug, PartialEq, Eq, Structural)]
pub enum Signal {
    /// Nothing was sent.
    Empty,
    /// The subscription was cancelled.
    Cancelled,
    /// The sending side is gone, so nobody can cancel any more.
    Disconnected,
}

/// Where a poller stands.
#[derive(Clone, Copy, Debug, PartialEq, Eq, Structural)]
pub enum PollerState {
    /// The poller queries and reports.
    Running,
    /// A cancellation has arrived; the round in flight may still report.
    CancelRequested,
    /// The poller has left its loop and reports nothing any more.
    Stopped,
}

/// The state of one poller: where it stands and the record it reported last.
pub struct Poller {
    state: PollerState,
    last: WindowInfo,
}

/// What a `Poller` holds.
pub struct PollerView {
    pub state: PollerState,
    pub last: WindowInfoView,
}

/// An event in the life of a poller.
pub enum PollEvent {
    /// The cancellation channel was read.
    Received(Signal),
    /// A round began.
    Began,
    /// The focused window was queried.
    Observed(WindowInfoView),
}

/// Whether `now` is reported by a poller that reported `last` before.
///
/// Two records are told apart by identifier, title and process. The sentinel
/// is reported every time, so that an observer learns that the focus is lost
/// and stays lost.
pub open spec fn changed(last: WindowInfoView, now: WindowInfoView) -> bool {
    ||| now.id != last.id
    ||| now.title != last.title
    ||| now.info.process_id != last.info.process_id
    ||| now.id == 0
}

impl PollerView {
    /// A poller that has reported nothing yet.
    pub open spec fn initial() -> Self {
        PollerView { state: PollerState::Running, last: WindowInfoView::sentinel() }
    }

    /// The poller after a read of its cancellation channel.
    pub open spec fn receive(self, signal: Signal) -> Self {
        if signal != Signal::Empty && self.state == PollerState::Running {
            PollerView { state: PollerState::CancelRequested, last: self.last }
        } else {
            self
        }
    }

    /// The poller after the start of a round.
    pub open spec fn begin(self) -> Self {
        if self.state == PollerState::Running {
            self
        } else {
            PollerView { state: PollerState::Stopped, last: self.last }
        }
    }

    /// Whether the poller reports `now`.
    pub open spec fn reports(self, now: WindowInfoView) -> bool {
        self.state != PollerState::Stopped && changed(self.last, now)
    }

    /// The poller after it has seen `now`.
    pub open spec fn observe(self, now: WindowInfoView) -> Self {
        if self.reports(now) {
            PollerView { state: self.state, last: now }
        } else {
            self
        }
    }

    /// The poller after one event.
    pub open spec fn step(self, event: PollEvent) -> Self {
        match event {
            PollEvent::Received(signal) => self.receive(signal),
            PollEvent::Began => self.begin(),
            PollEvent::Observed(now) => self.observe(now),
        }
    }

    /// The poller after a sequence of events.
    pub open spec fn run(self, events: Seq<PollEvent>) -> Self
        decreases events.len(),
    {
        if events.len() == 0 {
            self
        } else {
            self.run(events.drop_last()).step(events.last())
        }
    }

    /// The records that the poller reports during a sequence of events, in
    /// the order in which it reports them.
    pub open spec fn emissions(self, events: Seq<PollEvent>) -> Seq<WindowInfoView>
        decreases events.len(),
    {
        if events.len() == 0 {
            Seq::empty()
        } else {
            let before = self.emissions(events.drop_last());
            match events.last() {
                PollEvent::Observed(now) => if self.run(events.drop_last()).reports(now) {
                    before.push(now)
                } else {
                    before
                },
                _ => before,
            }
        }
    }
}

impl View for Poller {
    type V = PollerView;

    closed spec fn view(&self) -> PollerView {
        PollerView { state: self.state, last: self.last@ }
    }
}

/// Whether a poller that reported `last` before reports `now`.
pub fn has_changed(last: &WindowInfo, now: &WindowInfo) -> (differs: bool)
    ensures
        differs == changed(last@, now@),
{
    now.id != last.id || now.title != last.title || now.info.process_id != last.info.process_id
        || now.id == 0
}

impl Poller {
    /// A poller that has reported nothing yet.
    pub fn new() -> (poller: Self)
        ensures
            poller@ == PollerView::initial(),
    {
        Poller { state: PollerState::Running, last: WindowInfo::sentinel() }
    }

    /// Where the poller stands.
    pub fn state(&self) -> (state: PollerState)
        ensures
            state == self@.state,
    {
        self.state
    }

    /// The record that the poller reported last.
    pub fn last(&self) -> (last: &WindowInfo)
        ensures
            last@ == self@.last,
    {
        &self.last
    }

    /// Takes note of what the cancellation channel held.
    pub fn receive(&mut self, signal: Signal)
        ensures
            final(self)@ == old(self)@.receive(signal),
    {
        match signal {
            Signal::Empty => {},
            _ => {
                match self.state {
                    PollerState::Running => {
                        self.state = PollerState::CancelRequested;
                    },
                    _ => {},
                }
            },
        }
    }

    /// Starts a round. Returns whether the round takes place; when it does
    /// not, the poller has stopped.
    pub fn begin(&mut self) -> (go: bool)
        ensures
            final(self)@ == old(self)@.begin(),
            go == (old(self)@.state == PollerState::Running),
    {
        match self.state {
            PollerState::Running => true,
            _ => {
                self.state = PollerState::Stopped;
                false
            },
        }
    }

    /// Takes the record that a query returned. Returns the record if the
    /// observer is to be called with it.
    pub fn observe(&mut self, now: WindowInfo) -> (report: Option<WindowInfo>)
        ensures
            final(self)@ == old(self)@.observe(now@),
            match report {
                Some(record) => old(self)@.reports(now@) && record@ == now@,
                None => !old(self)@.reports(now@),
            },
    {
        match self.state {
            PollerState::Stopped => None,
            _ => {
                if has_changed(&self.last, &now) {
                    self.last = now.clone();
                    Some(now)
                } else {
                    None
                }
            },
        }
    }
}

/// The events of undisturbed rounds in which the queries return `windows`, one
/// after the other: in each round the channel is empty, the round begins and
/// the query returns.
pub open spec fn quiet_rounds(windows: Seq<WindowInfoView>) -> Seq<PollEvent>
    decreases windows.len(),
{
    if windows.len() == 0 {
        Seq::empty()
    } else {
        quiet_rounds(windows.drop_last()) + seq![
            PollEvent::Received(Signal::Empty),
            PollEvent::Began,
            PollEvent::Observed(windows.last()),
        ]
    }
}

proof fn lemma_run_append(poller: PollerView, first: Seq<PollEvent>, second: Seq<PollEvent>)
    ensures
        poller.run(first + second) == poller.run(first).run(second),
        poller.emissions(first + second) == poller.emissions(first) + poller.run(first).emissions(
            second,
        ),
    decreases second.len(),
{
    if second.len() == 0 {
        assert(first + second =~= first);
        assert(poller.emissions(first) + Seq::<WindowInfoView>::empty() =~= poller.emissions(
            first,
        ));
    } else {
        let all = first + second;
        assert(all.drop_last() =~= first + second.drop_last());
        assert(all.last() == second.last());
        lemma_run_append(poller, first, second.drop_last());
        let before = poller.emissions(first) + poller.run(first).emissions(second.drop_last());
        match second.last() {
            PollEvent::Observed(now) => {
                assert(before.push(now) =~= poller.emissions(first) + poller.run(
                    first,
                ).emissions(second.drop_last()).push(now));
            },
            _ => {},
        }
    }
}

proof fn lemma_quiet_round(poller: PollerView, now: WindowInfoView)
    requires
        poller.state == PollerState::Running,
    ensures
        ({
            let round = seq![
                PollEvent::Received(Signal::Empty),
                PollEvent::Began,
                PollEvent::Observed(now),
            ];
            &&& poller.run(round) == poller.observe(now)
            &&& poller.emissions(round) == if changed(poller.last, now) {
                seq![now]
            } else {
                Seq::<WindowInfoView>::empty()
            }
        }),
{
    let round = seq![PollEvent::Received(Signal::Empty), PollEvent::Began, PollEvent::Observed(now)];
    let two = seq![PollEvent::Received(Signal::Empty), PollEvent::Began];
    let one = seq![PollEvent::Received(Signal::Empty)];
    reveal_with_fuel(PollerView::run, 2);
    reveal_with_fuel(PollerView::emissions, 2);
    assert(round.drop_last() =~= two);
    assert(two.drop_last() =~= one);
    assert(one.drop_last() =~= Seq::<PollEvent>::empty());
    assert(poller.run(one) == poller);
    assert(poller.run(two) == poller);
    assert(poller.emissions(one) =~= Seq::<WindowInfoView>::empty());
    assert(poller.emissions(two) =~= Seq::<WindowInfoView>::empty());
    if changed(poller.last, now) {
        assert(poller.emissions(round) =~= seq![now]);
    }
}

/// A poller that has stopped stays as it is and reports nothing, whatever
/// happens to it.
pub proof fn lemma_stopped_is_silent(poller: PollerView, events: Seq<PollEvent>)
    requires
        poller.state == PollerState::Stopped,
    ensures
        poller.run(events) == poller,
        poller.emissions(events) == Seq::<WindowInfoView>::empty(),
    decreases events.len(),
{
    if events.len() > 0 {
        lemma_stopped_is_silent(poller, events.drop_last());
    }
}

/// Cancellation ends the reports: once a poller has received a cancellation
/// (or has found its channel disconnected) and the next round has begun, it
/// has stopped, and nothing that follows makes it report a record.
pub proof fn lemma_cancellation_silences(
    poller: PollerView,
    signal: Signal,
    events: Seq<PollEvent>,
)
    requires
        signal != Signal::Empty,
    ensures
        poller.receive(signal).begin().state == PollerState::Stopped,
        poller.receive(signal).begin().emissions(events) == Seq::<WindowInfoView>::empty(),
{
    lemma_stopped_is_silent(poller.receive(signal).begin(), events);
}

/// A cancellation that arrives while a round is in flight does not take the
/// report of that round away: the poller still reports what the round finds,
/// as it would have without the cancellation.
pub proof fn lemma_round_in_flight_reports(poller: PollerView, signal: Signal, now: WindowInfoView)
    requires
        poller.state == PollerState::Running,
    ensures
        poller.receive(signal).reports(now) == poller.reports(now),
        poller.receive(signal).observe(now).last == poller.observe(now).last,
{
}

/// While the focus does not move, the observer is not called: in undisturbed
/// rounds whose queries all return a window that the poller has reported
/// (same identifier, not zero, same title, same process), nothing is
/// reported.
pub proof fn lemma_unchanged_focus_is_silent(poller: PollerView, windows: Seq<WindowInfoView>)
    requires
        poller.state == PollerState::Running,
        forall|i: int| 0 <= i < windows.len() ==> !changed(poller.last, #[trigger] windows[i]),
    ensures
        poller.run(quiet_rounds(windows)) == poller,
        poller.emissions(quiet_rounds(windows)) == Seq::<WindowInfoView>::empty(),
    decreases windows.len(),
{
    if windows.len() > 0 {
        let round = seq![
            PollEvent::Received(Signal::Empty),
            PollEvent::Began,
            PollEvent::Observed(windows.last()),
        ];
        lemma_unchanged_focus_is_silent(poller, windows.drop_last());
        lemma_run_append(poller, quiet_rounds(windows.drop_last()), round);
        lemma_quiet_round(poller, windows.last());
    }
}

/// Every change of focus is reported once, in the order in which it happened:
/// in undisturbed rounds whose queries return windows of which each differs
/// from the one before it (the first from the record reported last), the
/// reports are those windows, one for one.
pub proof fn lemma_changes_are_reported_in_order(poller: PollerView, windows: Seq<WindowInfoView>)
    requires
        poller.state == PollerState::Running,
        windows.len() > 0 ==> changed(poller.last, windows[0]),
        forall|i: int| 0 < i < windows.len() ==> changed(windows[i - 1], #[trigger] windows[i]),
    ensures
        poller.emissions(quiet_rounds(windows)) == windows,
        poller.run(quiet_rounds(windows)).state == PollerState::Running,
        windows.len() > 0 ==> poller.run(quiet_rounds(windows)).last == windows.last(),
        windows.len() == 0 ==> poller.run(quiet_rounds(windows)) == poller,
    decreases windows.len(),
{
    if windows.len() == 0 {
        assert(poller.emissions(quiet_rounds(windows)) =~= windows);
    } else {
        let earlier = windows.drop_last();
        let round = seq![
            PollEvent::Received(Signal::Empty),
            PollEvent::Began,
            PollEvent::Observed(windows.last()),
        ];
        assert forall|i: int| 0 < i < earlier.len() implies changed(
            earlier[i - 1],
            #[trigger] earlier[i],
        ) by {
            assert(earlier[i] == windows[i]);
            assert(earlier[i - 1] == windows[i - 1]);
        }
        lemma_changes_are_reported_in_order(poller, earlier);
        let middle = poller.run(quiet_rounds(earlier));
        lemma_run_append(poller, quiet_rounds(earlier), round);
        lemma_quiet_round(middle, windows.last());
        if earlier.len() > 0 {
            assert(earlier.last() == windows[windows.len() - 2]);
            assert(changed(windows[windows.len() - 1 - 1], windows[windows.len() - 1]));
        }
        assert(changed(middle.last, windows.last()));
        assert(earlier + seq![windows.last()] =~= windows);
    }
}


} // verus!
