//! The embed paginator: an ordered list of pages shown one at a time, with a
//! row of "back" / "next" buttons driving a cursor.
//!
//! Everything that talks to the chat platform (sending, editing, waiting for
//! button clicks, the overall deadline) happens outside this module. The
//! module decides: a [`Session`] takes each [`SessionEvent`] that the driver
//! observed and answers with the next [`Action`] the driver has to perform.
use vstd::prelude::*;
use crate::text::str_eq;

verus! {

/// Custom id of the button that moves the cursor one page back.
pub const BACK_ID: &'static str = "back";

/// Custom id of the button that moves the cursor one page forward.
pub const NEXT_ID: &'static str = "next";

/// Label shown on the "back" button.
pub const BACK_LABEL: &'static str = "< Prev.";

/// Label shown on the "next" button.
pub const NEXT_LABEL: &'static str = "Next >";

/// Visual style of a navigation button.
#[derive(Clone, Copy, Debug, PartialEq, Eq, Structural)]
pub enum ButtonStyle {
    /// The platform's neutral grey style.
    Secondary,
}

/// One navigation button, in plain values.
#[derive(Clone, Debug)]
pub struct NavButton {
    pub custom_id: String,
    pub label: String,
    pub style: ButtonStyle,
    pub disabled: bool,
}

/// The navigation row: exactly two buttons, "back" first.
#[derive(Clone, Debug)]
pub struct NavRow {
    pub back: NavButton,
    pub next: NavButton,
}

/// Renders the navigation row; `at_first` disables "back", `at_last`
/// disables "next".
pub fn render_row(at_first: bool, at_last: bool) -> (r: NavRow)
    ensures
        r.back.custom_id@ == BACK_ID@,
        r.back.label@ == BACK_LABEL@,
        r.back.style == ButtonStyle::Secondary,
        r.back.disabled == at_first,
        r.next.custom_id@ == NEXT_ID@,
        r.next.label@ == NEXT_LABEL@,
        r.next.style == ButtonStyle::Secondary,
        r.next.disabled == at_last,
{
    NavRow {
        back: NavButton {
            custom_id: BACK_ID.to_string(),
            label: BACK_LABEL.to_string(),
            style: ButtonStyle::Secondary,
            disabled: at_first,
        },
        next: NavButton {
            custom_id: NEXT_ID.to_string(),
            label: NEXT_LABEL.to_string(),
            style: ButtonStyle::Secondary,
            disabled: at_last,
        },
    }
}


/// Idle timeout, in seconds, given to lists built with [`EmbedList::with_default_timeout`].
pub const DEFAULT_IDLE_TIMEOUT_SECS: u64 = 70;

/// One page: an embed and, optionally, a file that the embed may show.
pub struct Page<E, A> {
    pub embed: E,
    pub attachment: Option<A>,
}

/// Errors of the paginator.
#[derive(Clone, Copy, Debug, PartialEq, Eq, Structural)]
pub enum PaginatorError {
    /// The list was built from no page at all.
    EmptyResult,
    /// A call to the chat platform failed.
    Channel,
}

/// A click on one of the two navigation buttons.
#[derive(Clone, Copy, Debug, PartialEq, Eq, Structural)]
pub enum NavEvent {
    Next,
    Back,
}

/// Decodes a button's custom id; only the two navigation ids decode.
pub fn nav_event_from_id(id: &str) -> (r: Option<NavEvent>)
    ensures
        r == Some(NavEvent::Next) <==> id@ == NEXT_ID@,
        r == Some(NavEvent::Back) <==> id@ == BACK_ID@,
        r is None <==> (id@ != NEXT_ID@ && id@ != BACK_ID@),
{
    proof {
        reveal_strlit("next");
        reveal_strlit("back");
        assert(NEXT_ID@[0] != BACK_ID@[0]);
    }
    if str_eq(id, NEXT_ID) {
        Some(NavEvent::Next)
    } else if str_eq(id, BACK_ID) {
        Some(NavEvent::Back)
    } else {
        None
    }
}

/// Disabled state of the two navigation buttons.
#[derive(Clone, Copy, Debug, PartialEq, Eq, Structural)]
pub struct RowState {
    pub at_first: bool,
    pub at_last: bool,
}

impl RowState {
    /// Renders this state as a navigation row.
    pub fn render(&self) -> (r: NavRow)
        ensures
            r.back.disabled == self.at_first,
            r.next.disabled == self.at_last,
            r.back.custom_id@ == BACK_ID@,
            r.next.custom_id@ == NEXT_ID@,
    {
        render_row(self.at_first, self.at_last)
    }
}

/// The row shown with page `page` of `n`.
pub open spec fn row_for(page: nat, n: nat) -> RowState {
    RowState { at_first: page == 0, at_last: page + 1 == n }
}

/// Where the cursor goes on a click. A click that the disabled buttons
/// should have prevented leaves it where it is.
pub open spec fn target(cursor: nat, n: nat, e: NavEvent) -> nat {
    match e {
        NavEvent::Next => if cursor + 1 < n { cursor + 1 } else { cursor },
        NavEvent::Back => if cursor > 0 { (cursor - 1) as nat } else { cursor },
    }
}

/// Whether a click is one that a disabled button should have prevented.
pub open spec fn is_anomalous(cursor: nat, n: nat, e: NavEvent) -> bool {
    match e {
        NavEvent::Next => cursor + 1 >= n,
        NavEvent::Back => cursor == 0,
    }
}

/// An ordered, non-empty list of pages and the idle timeout of its reply.
pub struct EmbedList<E, A> {
    pages: Vec<Page<E, A>>,
    duration: u64,
}

impl<E, A> EmbedList<E, A> {
    /// The pages, in order.
    pub closed spec fn pages(&self) -> Seq<Page<E, A>> {
        self.pages@
    }

    /// The idle timeout, in seconds.
    pub closed spec fn timeout(&self) -> nat {
        self.duration as nat
    }

    /// A list always holds at least one page.
    pub open spec fn wf(&self) -> bool {
        self.pages().len() >= 1
    }

    /// Builds a list from its pages; fails on an empty sequence.
    pub fn new(pages: Vec<Page<E, A>>, idle_timeout_secs: u64) -> (r: Result<Self, PaginatorError>)
        ensures
            pages@.len() == 0 ==> r == Err::<Self, PaginatorError>(PaginatorError::EmptyResult),
            pages@.len() > 0 ==> r is Ok && r->Ok_0.wf() && r->Ok_0.pages() == pages@
                && r->Ok_0.timeout() == idle_timeout_secs,
    {
        if pages.len() == 0 {
            Err(PaginatorError::EmptyResult)
        } else {
            Ok(EmbedList { pages, duration: idle_timeout_secs })
        }
    }

    /// Builds a list from its pages with the default idle timeout.
    pub fn with_default_timeout(pages: Vec<Page<E, A>>) -> (r: Result<Self, PaginatorError>)
        ensures
            pages@.len() == 0 ==> r == Err::<Self, PaginatorError>(PaginatorError::EmptyResult),
            pages@.len() > 0 ==> r is Ok && r->Ok_0.wf() && r->Ok_0.pages() == pages@
                && r->Ok_0.timeout() == DEFAULT_IDLE_TIMEOUT_SECS,
    {
        Self::new(pages, DEFAULT_IDLE_TIMEOUT_SECS)
    }

    /// Appends a page at the end.
    pub fn add(&mut self, embed: E, attachment: Option<A>)
        ensures
            final(self).pages() == old(self).pages().push(Page { embed, attachment }),
            final(self).timeout() == old(self).timeout(),
            final(self).wf(),
    {
        self.pages.push(Page { embed, attachment });
    }

    /// Number of pages.
    pub fn len(&self) -> (r: usize)
        ensures
            r == self.pages().len(),
    {
        self.pages.len()
    }

    /// The idle timeout, in seconds.
    pub fn idle_timeout_secs(&self) -> (r: u64)
        ensures
            r == self.timeout(),
    {
        self.duration
    }

    /// Page `i`.
    pub fn page(&self, i: usize) -> (r: &Page<E, A>)
        requires
            i < self.pages().len(),
        ensures
            *r == self.pages()[i as int],
    {
        &self.pages[i]
    }
}

/// How a reply session ended.
#[derive(Clone, Copy, Debug, PartialEq, Eq, Structural)]
pub enum Outcome {
    /// The single page was sent; no buttons were ever shown.
    Sent,
    /// The session's deadline passed; the buttons were removed.
    TimedOut,
    /// The source of button clicks closed; the message was left as it was.
    StreamClosed,
    /// A call to the chat platform failed.
    ChannelFailed,
}

impl Outcome {
    pub open spec fn spec_result(self) -> Result<(), PaginatorError> {
        match self {
            Outcome::ChannelFailed => Err(PaginatorError::Channel),
            _ => Ok(()),
        }
    }

    /// What the reply as a whole returns for this outcome.
    pub fn result(&self) -> (r: Result<(), PaginatorError>)
        ensures
            r == self.spec_result(),
    {
        match self {
            Outcome::ChannelFailed => Err(PaginatorError::Channel),
            _ => Ok(()),
        }
    }
}

/// Where a reply session stands.
#[derive(Clone, Copy, Debug, PartialEq, Eq, Structural)]
pub enum Phase {
    /// The first reply was asked for.
    Creating,
    /// The sent message's identifier was asked for.
    Resolving,
    /// Waiting for the next click, showing the page at the cursor.
    Listening,
    /// A click was received and its acknowledgment asked for.
    Acknowledging(NavEvent),
    /// The edit that shows the given page was asked for.
    Editing(usize),
    /// The edit that removes the buttons was asked for; the session then
    /// ends with the given outcome.
    Clearing(Outcome),
    /// The session is over.
    Done(Outcome),
}

/// What the driver observed after performing the last action.
#[derive(Clone, Copy, Debug, PartialEq, Eq, Structural)]
pub enum SessionEvent {
    /// The first reply was created.
    Created,
    /// The sent message's identifier is known.
    Resolved,
    /// A navigation button was clicked.
    Click(NavEvent),
    /// The click was acknowledged.
    Acknowledged,
    /// The page edit went through.
    Edited,
    /// The button-removing edit was attempted; whether it went through does
    /// not matter.
    Cleared,
    /// The session's deadline passed.
    TimedOut,
    /// The source of clicks closed.
    StreamEnded,
    /// A call to the chat platform failed.
    Failed,
}

/// What the driver has to do next.
#[derive(Clone, Copy, Debug, PartialEq, Eq)]
// `row` is optional on the first reply (a single page has no buttons) and
// always present on an edit, so the two variants' fields differ in type.
#[allow(inconsistent_fields)]
pub enum Action {
    /// Create the reply with the given page, with the navigation row if
    /// there is one. Answer `Created` or `Failed`.
    CreateReply { page: usize, row: Option<RowState> },
    /// Fetch the sent message's identifier. Answer `Resolved` or `Failed`.
    ResolveMessageId,
    /// Subscribe to the message's "back" / "next" clicks, then wait for the
    /// first one. Answer `Click`, `TimedOut` or `StreamEnded`.
    Subscribe,
    /// Wait for the next click. Answer `Click`, `TimedOut` or `StreamEnded`.
    AwaitEvent,
    /// Acknowledge the click, invisibly. Answer `Acknowledged`, `Failed` or
    /// `TimedOut`.
    Acknowledge,
    /// Replace the message's embeds with this page's embed, its attachments
    /// with this page's attachment alone (none if it has none), and its row
    /// with this one. `clamped` tells that the click was one a disabled
    /// button should have prevented. Answer `Edited`, `Failed` or `TimedOut`.
    EditPage { page: usize, row: RowState, clamped: bool },
    /// Remove the navigation row, leaving embeds and attachments as they
    /// are. Answer `Cleared`.
    ClearComponents,
    /// Stop; the reply ended with this outcome.
    Finish(Outcome),
}

/// The state of a session as a mathematical value: number of pages, cursor
/// and phase.
pub struct SessionModel {
    pub n: nat,
    pub cursor: nat,
    pub phase: Phase,
}

impl SessionModel {
    pub open spec fn wf(self) -> bool {
        &&& 1 <= self.n <= usize::MAX
        &&& self.cursor < self.n
        &&& (self.phase matches Phase::Editing(j) ==> j < self.n)
    }
}

/// The session right after the first reply was asked for.
pub open spec fn started(n: nat) -> SessionModel {
    SessionModel { n, cursor: 0, phase: Phase::Creating }
}

/// A session waiting for clicks with the cursor at `cursor`.
pub open spec fn listening(n: nat, cursor: nat) -> SessionModel {
    SessionModel { n, cursor, phase: Phase::Listening }
}

/// The first action of a reply of `n` pages: page 0, with the row only if
/// there is more than one page.
pub open spec fn first_action(n: nat) -> Action {
    Action::CreateReply {
        page: 0,
        row: if n == 1 { None } else { Some(row_for(0, n)) },
    }
}

/// Which events each phase can be answered with.
pub open spec fn accepts(s: SessionModel, ev: SessionEvent) -> bool {
    match s.phase {
        Phase::Creating => ev is Created || ev is Failed,
        Phase::Resolving => ev is Resolved || ev is Failed,
        Phase::Listening => ev is Click || ev is TimedOut || ev is StreamEnded,
        Phase::Acknowledging(_) => ev is Acknowledged || ev is Failed || ev is TimedOut,
        Phase::Editing(_) => ev is Edited || ev is Failed || ev is TimedOut,
        Phase::Clearing(_) => ev is Cleared,
        Phase::Done(_) => false,
    }
}

/// The transition: next state and next action, for an accepted event.
pub open spec fn step(s: SessionModel, ev: SessionEvent) -> (SessionModel, Action) {
    let at = |p: Phase| SessionModel { phase: p, ..s };
    match s.phase {
        Phase::Creating => match ev {
            SessionEvent::Created => if s.n == 1 {
                (at(Phase::Done(Outcome::Sent)), Action::Finish(Outcome::Sent))
            } else {
                (at(Phase::Resolving), Action::ResolveMessageId)
            },
            _ => (at(Phase::Done(Outcome::ChannelFailed)), Action::Finish(Outcome::ChannelFailed)),
        },
        Phase::Resolving => match ev {
            SessionEvent::Resolved => (at(Phase::Listening), Action::Subscribe),
            _ => (at(Phase::Clearing(Outcome::ChannelFailed)), Action::ClearComponents),
        },
        Phase::Listening => match ev {
            SessionEvent::Click(e) => (at(Phase::Acknowledging(e)), Action::Acknowledge),
            SessionEvent::TimedOut => (at(Phase::Clearing(Outcome::TimedOut)), Action::ClearComponents),
            _ => (at(Phase::Done(Outcome::StreamClosed)), Action::Finish(Outcome::StreamClosed)),
        },
        Phase::Acknowledging(e) => match ev {
            SessionEvent::Acknowledged => {
                let j = target(s.cursor, s.n, e);
                (
                    at(Phase::Editing(j as usize)),
                    Action::EditPage {
                        page: j as usize,
                        row: row_for(j, s.n),
                        clamped: is_anomalous(s.cursor, s.n, e),
                    },
                )
            },
            SessionEvent::TimedOut => (at(Phase::Clearing(Outcome::TimedOut)), Action::ClearComponents),
            _ => (at(Phase::Clearing(Outcome::ChannelFailed)), Action::ClearComponents),
        },
        Phase::Editing(j) => match ev {
            SessionEvent::Edited => (
                SessionModel { n: s.n, cursor: j as nat, phase: Phase::Listening },
                Action::AwaitEvent,
            ),
            SessionEvent::TimedOut => (at(Phase::Clearing(Outcome::TimedOut)), Action::ClearComponents),
            _ => (at(Phase::Clearing(Outcome::ChannelFailed)), Action::ClearComponents),
        },
        Phase::Clearing(o) => (at(Phase::Done(o)), Action::Finish(o)),
        Phase::Done(o) => (s, Action::Finish(o)),
    }
}

/// One reply's interactive life: the list, its cursor and its phase.
pub struct Session<E, A> {
    list: EmbedList<E, A>,
    cursor: usize,
    phase: Phase,
}

impl<E, A> EmbedList<E, A> {
    /// Starts the reply: the session, and the first action (create the reply
    /// with page 0, and the row unless there is a single page).
    pub fn reply(self) -> (r: (Session<E, A>, Action))
        requires
            self.wf(),
        ensures
            r.0.wf(),
            r.0.model() == started(self.pages().len()),
            r.0.pages() == self.pages(),
            r.0.timeout() == self.timeout(),
            r.1 == first_action(self.pages().len()),
    {
        let n = self.pages.len();
        let row = if n == 1 {
            None
        } else {
            Some(RowState { at_first: true, at_last: false })
        };
        (Session { list: self, cursor: 0, phase: Phase::Creating }, Action::CreateReply { page: 0, row })
    }
}

impl<E, A> Session<E, A> {
    pub closed spec fn model(&self) -> SessionModel {
        SessionModel { n: self.list.pages@.len(), cursor: self.cursor as nat, phase: self.phase }
    }

    pub closed spec fn pages(&self) -> Seq<Page<E, A>> {
        self.list.pages@
    }

    pub closed spec fn timeout(&self) -> nat {
        self.list.duration as nat
    }

    pub open spec fn wf(&self) -> bool {
        &&& self.model().wf()
        &&& self.model().n == self.pages().len()
    }

    /// Whether `ev` is an answer that the current phase takes.
    pub fn accepts(&self, ev: SessionEvent) -> (r: bool)
        ensures
            r == accepts(self.model(), ev),
    {
        match self.phase {
            Phase::Creating => matches!(ev, SessionEvent::Created | SessionEvent::Failed),
            Phase::Resolving => matches!(ev, SessionEvent::Resolved | SessionEvent::Failed),
            Phase::Listening => matches!(
                ev,
                SessionEvent::Click(_) | SessionEvent::TimedOut | SessionEvent::StreamEnded
            ),
            Phase::Acknowledging(_) => matches!(
                ev,
                SessionEvent::Acknowledged | SessionEvent::Failed | SessionEvent::TimedOut
            ),
            Phase::Editing(_) => matches!(
                ev,
                SessionEvent::Edited | SessionEvent::Failed | SessionEvent::TimedOut
            ),
            Phase::Clearing(_) => matches!(ev, SessionEvent::Cleared),
            Phase::Done(_) => false,
        }
    }

    /// Takes what the driver observed and returns what it has to do next.
    pub fn step(&mut self, ev: SessionEvent) -> (r: Action)
        requires
            old(self).wf(),
            accepts(old(self).model(), ev),
        ensures
            final(self).wf(),
            (final(self).model(), r) == step(old(self).model(), ev),
            final(self).pages() == old(self).pages(),
            final(self).timeout() == old(self).timeout(),
    {
        let n = self.list.pages.len();
        match self.phase {
            Phase::Creating => match ev {
                SessionEvent::Created => if n == 1 {
                    self.phase = Phase::Done(Outcome::Sent);
                    Action::Finish(Outcome::Sent)
                } else {
                    self.phase = Phase::Resolving;
                    Action::ResolveMessageId
                },
                _ => {
                    self.phase = Phase::Done(Outcome::ChannelFailed);
                    Action::Finish(Outcome::ChannelFailed)
                },
            },
            Phase::Resolving => match ev {
                SessionEvent::Resolved => {
                    self.phase = Phase::Listening;
                    Action::Subscribe
                },
                _ => {
                    self.phase = Phase::Clearing(Outcome::ChannelFailed);
                    Action::ClearComponents
                },
            },
            Phase::Listening => match ev {
                SessionEvent::Click(e) => {
                    self.phase = Phase::Acknowledging(e);
                    Action::Acknowledge
                },
                SessionEvent::TimedOut => {
                    self.phase = Phase::Clearing(Outcome::TimedOut);
                    Action::ClearComponents
                },
                _ => {
                    self.phase = Phase::Done(Outcome::StreamClosed);
                    Action::Finish(Outcome::StreamClosed)
                },
            },
            Phase::Acknowledging(e) => match ev {
                SessionEvent::Acknowledged => {
                    let c = self.cursor;
                    let (j, clamped) = match e {
                        NavEvent::Next => if c + 1 < n {
                            (c + 1, false)
                        } else {
                            (c, true)
                        },
                        NavEvent::Back => if c > 0 {
                            (c - 1, false)
                        } else {
                            (c, true)
                        },
                    };
                    self.phase = Phase::Editing(j);
                    Action::EditPage {
                        page: j,
                        row: RowState { at_first: j == 0, at_last: j + 1 == n },
                        clamped,
                    }
                },
                SessionEvent::TimedOut => {
                    self.phase = Phase::Clearing(Outcome::TimedOut);
                    Action::ClearComponents
                },
                _ => {
                    self.phase = Phase::Clearing(Outcome::ChannelFailed);
                    Action::ClearComponents
                },
            },
            Phase::Editing(j) => match ev {
                SessionEvent::Edited => {
                    self.cursor = j;
                    self.phase = Phase::Listening;
                    Action::AwaitEvent
                },
                SessionEvent::TimedOut => {
                    self.phase = Phase::Clearing(Outcome::TimedOut);
                    Action::ClearComponents
                },
                _ => {
                    self.phase = Phase::Clearing(Outcome::ChannelFailed);
                    Action::ClearComponents
                },
            },
            Phase::Clearing(o) => {
                self.phase = Phase::Done(o);
                Action::Finish(o)
            },
            Phase::Done(o) => Action::Finish(o),
        }
    }

    /// The page at the cursor: the one the message shows.
    pub fn cursor(&self) -> (r: usize)
        ensures
            r == self.model().cursor,
    {
        self.cursor
    }

    /// The current phase.
    pub fn phase(&self) -> (r: Phase)
        ensures
            r == self.model().phase,
    {
        self.phase
    }

    /// Number of pages.
    pub fn len(&self) -> (r: usize)
        ensures
            r == self.pages().len(),
    {
        self.list.pages.len()
    }

    /// The idle timeout, in seconds: one deadline for the whole session.
    pub fn idle_timeout_secs(&self) -> (r: u64)
        ensures
            r == self.timeout(),
    {
        self.list.duration
    }

    /// Page `i`, whose embed and attachment an action names by index.
    pub fn page(&self, i: usize) -> (r: &Page<E, A>)
        requires
            i < self.pages().len(),
        ensures
            *r == self.pages()[i as int],
    {
        &self.list.pages[i]
    }
}

} // verus!
