//! The view-state machine of the dashboard: the List/Detail mode, the feed of
//! items, the currently selected detail, and the timed refresh policy.

use vstd::prelude::*;
use crate::selectable::SelectableList;
use crate::selectable::next_cursor;
use crate::selectable::prev_cursor;

verus! {

/// Feed lengths below this keep the periodic refresh fetching; at or above it
/// the refresh never fetches again.
pub const POPULATE_THRESHOLD: usize = 10;

/// How many items one feed fetch asks for.
pub const FETCH_WINDOW: u64 = 25;

/// A feed entry: display title, feed-provided ranking score, and the opaque
/// stable identifier used to fetch its detail. Immutable once fetched.
pub struct Item {
    pub title: String,
    pub score: i64,
    pub id: String,
}

/// The expanded body of one selected item; created only on selection and
/// discarded when returning to the list.
pub struct Detail {
    pub id: String,
    pub body: String,
}

/// Which view the dashboard is showing.
#[derive(Clone, Copy, Debug, PartialEq, Eq, Structural)]
pub enum Mode {
    List,
    Detail,
}

/// A decoded input event, as the event loop hands it to the state machine.
#[derive(Clone, Copy, Debug, PartialEq, Eq, Structural)]
pub enum InputEvent {
    MoveDown,
    MoveUp,
    ClearSelection,
    Confirm,
    Back,
    Quit,
    Resize,
    Ignored,
}

/// What the event loop must do after an input event has been applied.
pub enum Action {
    /// Render and keep looping.
    Continue,
    /// Fetch the detail of the item with this id, then report the outcome
    /// through `enter_detail` on success (and do nothing on failure).
    FetchDetail(String),
    /// Leave the loop.
    Exit,
}

/// Why a feed or detail fetch failed. Every variant is recoverable: the state
/// machine swallows it and leaves the state untouched.
#[derive(Clone, Copy, Debug, PartialEq, Eq, Structural)]
pub enum FetchError {
    Network,
    Malformed,
}

/// The whole application state: current mode, the feed, the selected detail,
/// and the refresh bookkeeping. Times are in milliseconds on a monotone clock.
pub struct AppState {
    pub mode: Mode,
    pub feed: SelectableList<Item>,
    pub selected_detail: Option<Detail>,
    pub last_refresh: u64,
    pub refresh_interval: u64,
}

impl AppState {
    /// The state invariant: the feed's cursor is in bounds, and a detail is
    /// held if and only if the Detail view is showing.
    pub open spec fn wf(self) -> bool {
        &&& self.feed.wf()
        &&& (self.mode is Detail <==> self.selected_detail is Some)
    }

    /// The initial state: List view over an empty feed, nothing selected,
    /// no detail, and no refresh performed yet.
    pub fn new(refresh_interval: u64) -> (s: AppState)
        ensures
            s.wf(),
            s.mode is List,
            s.feed.items@.len() == 0,
            s.feed.cursor is None,
            s.selected_detail is None,
            s.last_refresh == 0,
            s.refresh_interval == refresh_interval,
    {
        AppState {
            mode: Mode::List,
            feed: SelectableList::with_items(Vec::new()),
            selected_detail: None,
            last_refresh: 0,
            refresh_interval,
        }
    }

    /// Applies one input event and says what the event loop must do next.
    ///
    /// Navigation events move the feed's cursor and touch nothing else. `Back`
    /// always returns to the List view and discards the detail, whatever was
    /// held. `Confirm` changes no state at all: when the List view has a
    /// selection it asks the loop to fetch that item's detail (the transition
    /// into Detail completes only through `enter_detail`); with no selection,
    /// or while the Detail view is showing, it is a defined no-op. `Quit`,
    /// `Resize` and `Ignored` leave the state untouched.
    pub fn step(&mut self, ev: InputEvent) -> (a: Action)
        requires
            old(self).wf(),
        ensures
            final(self).wf(),
            final(self).last_refresh == old(self).last_refresh,
            final(self).refresh_interval == old(self).refresh_interval,
            final(self).feed.items@ == old(self).feed.items@,
            match ev {
                InputEvent::MoveDown => {
                    &&& a is Continue
                    &&& final(self).feed.cursor_spec() == next_cursor(
                        old(self).feed.cursor_spec(),
                        old(self).feed.items@.len() as int,
                    )
                    &&& final(self).mode == old(self).mode
                    &&& final(self).selected_detail == old(self).selected_detail
                },
                InputEvent::MoveUp => {
                    &&& a is Continue
                    &&& final(self).feed.cursor_spec() == prev_cursor(
                        old(self).feed.cursor_spec(),
                        old(self).feed.items@.len() as int,
                    )
                    &&& final(self).mode == old(self).mode
                    &&& final(self).selected_detail == old(self).selected_detail
                },
                InputEvent::ClearSelection => {
                    &&& a is Continue
                    &&& final(self).feed.cursor is None
                    &&& final(self).mode == old(self).mode
                    &&& final(self).selected_detail == old(self).selected_detail
                },
                InputEvent::Confirm => {
                    &&& *final(self) == *old(self)
                    &&& (match (old(self).mode, old(self).feed.cursor) {
                        (Mode::List, Some(i)) => a matches Action::FetchDetail(id)
                            && id@ == old(self).feed.items@[i as int].id@,
                        _ => a is Continue,
                    })
                },
                InputEvent::Back => {
                    &&& a is Continue
                    &&& final(self).mode is List
                    &&& final(self).selected_detail is None
                    &&& final(self).feed == old(self).feed
                },
                InputEvent::Quit => a is Exit && *final(self) == *old(self),
                InputEvent::Resize => a is Continue && *final(self) == *old(self),
                InputEvent::Ignored => a is Continue && *final(self) == *old(self),
            },
    {
        match ev {
            InputEvent::MoveDown => {
                self.feed.next();
                Action::Continue
            },
            InputEvent::MoveUp => {
                self.feed.previous();
                Action::Continue
            },
            InputEvent::ClearSelection => {
                self.feed.unselect();
                Action::Continue
            },
            InputEvent::Confirm => {
                match self.mode {
                    Mode::List => {
                        match self.feed.cursor {
                            Some(i) => Action::FetchDetail(self.feed.items[i].id.clone()),
                            None => Action::Continue,
                        }
                    },
                    Mode::Detail => Action::Continue,
                }
            },
            InputEvent::Back => {
                self.mode = Mode::List;
                self.selected_detail = None;
                Action::Continue
            },
            InputEvent::Quit => Action::Exit,
            InputEvent::Resize => Action::Continue,
            InputEvent::Ignored => Action::Continue,
        }
    }

    /// Completes a confirm transition once the detail fetch succeeded: stores
    /// the fetched detail and shows the Detail view. The feed, its cursor and
    /// the refresh bookkeeping are untouched. A failed fetch never reaches
    /// this function, so the state then stays in the List view unchanged.
    pub fn enter_detail(&mut self, d: Detail)
        requires
            old(self).wf(),
            old(self).mode is List,
        ensures
            final(self).wf(),
            final(self).mode is Detail,
            final(self).selected_detail == Some(d),
            final(self).feed == old(self).feed,
            final(self).last_refresh == old(self).last_refresh,
            final(self).refresh_interval == old(self).refresh_interval,
    {
        self.mode = Mode::Detail;
        self.selected_detail = Some(d);
    }

    /// When a periodic tick at time `now` must fetch the top of the feed:
    /// only in the List view (the feed is never replaced under an active
    /// detail), only while the feed holds fewer than `POPULATE_THRESHOLD`
    /// items, and only once `refresh_interval` has elapsed since the last
    /// successful refresh.
    pub open spec fn refresh_due_spec(self, now: u64) -> bool {
        &&& self.mode is List
        &&& self.feed.items@.len() < POPULATE_THRESHOLD
        &&& now >= self.last_refresh
        &&& now - self.last_refresh >= self.refresh_interval
    }

    /// Decides whether the periodic refresh at time `now` must fetch.
    pub fn wants_fetch(&self, now: u64) -> (r: bool)
        ensures
            r == self.refresh_due_spec(now),
    {
        match self.mode {
            Mode::List => self.feed.items.len() < POPULATE_THRESHOLD
                && now >= self.last_refresh
                && now - self.last_refresh >= self.refresh_interval,
            Mode::Detail => false,
        }
    }

    /// Completes a periodic refresh with the outcome of the feed fetch.
    ///
    /// On success the feed is replaced wholesale, index 0 is selected (when
    /// anything came back), and the refresh clock restarts at `now`. On
    /// failure the whole state is left exactly as it was — no partial replace,
    /// no clock restart — so the fetch is retried on the next eligible tick.
    pub fn apply_fetch_result(&mut self, r: Result<Vec<Item>, FetchError>, now: u64)
        requires
            old(self).wf(),
            old(self).mode is List,
        ensures
            final(self).wf(),
            r matches Ok(items) ==> {
                &&& final(self).feed.items@ == items@
                &&& final(self).feed.cursor_spec() == (if items@.len() > 0 {
                    Some(0int)
                } else {
                    None::<int>
                })
                &&& final(self).mode is List
                &&& final(self).selected_detail is None
                &&& final(self).last_refresh == now
                &&& final(self).refresh_interval == old(self).refresh_interval
            },
            r is Err ==> *final(self) == *old(self),
    {
        match r {
            Ok(items) => {
                self.feed.replace(items);
                self.feed.select_first();
                self.last_refresh = now;
            },
            Err(_) => {},
        }
    }
}

/// Law: once the feed holds at least `POPULATE_THRESHOLD` items, a periodic
/// refresh never fetches, however much time has elapsed.
pub proof fn lemma_populated_feed_suppresses_fetch(s: AppState, now: u64)
    requires
        s.feed.items@.len() >= POPULATE_THRESHOLD,
    ensures
        !s.refresh_due_spec(now),
{
}

/// Law: while less than `refresh_interval` has elapsed since the last
/// successful refresh, a periodic refresh never fetches, however short the
/// feed — the refresh is debounced.
pub proof fn lemma_refresh_debounced(s: AppState, now: u64)
    requires
        now >= s.last_refresh,
        now - s.last_refresh < s.refresh_interval,
    ensures
        !s.refresh_due_spec(now),
{
}

/// Law: the Detail view suppresses the periodic refresh entirely — the feed is
/// never replaced under an active selection.
pub proof fn lemma_detail_suppresses_fetch(s: AppState, now: u64)
    requires
        s.mode is Detail,
    ensures
        !s.refresh_due_spec(now),
{
}

/// The event loop's wait budget at time `now`: how long it may block on input
/// before the next periodic tick, i.e. the tick interval minus the time
/// elapsed since the last tick, floored at zero.
pub fn remaining_wait(now: u64, last_tick: u64, interval: u64) -> (r: u64)
    ensures
        now >= last_tick && now - last_tick < interval ==> r == interval - (now - last_tick),
        now >= last_tick && now - last_tick >= interval ==> r == 0,
        now < last_tick ==> r == interval,
{
    let elapsed: u64 = if now >= last_tick {
        now - last_tick
    } else {
        0
    };
    if elapsed >= interval {
        0
    } else {
        interval - elapsed
    }
}

/// Whether a full tick interval has elapsed since `last_tick`, so the
/// periodic-refresh transition must be attempted.
pub fn tick_due(now: u64, last_tick: u64, interval: u64) -> (r: bool)
    ensures
        r == (now >= last_tick && now - last_tick >= interval),
{
    now >= last_tick && now - last_tick >= interval
}

} // verus!
