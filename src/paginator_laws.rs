//! Properties of the paginator's session, stated over runs of whole event
//! sequences and proved from the transition function.
use vstd::prelude::*;
use crate::paginator::{
    accepts, first_action, is_anomalous, listening, row_for, started, step, target, Action, NavEvent, Outcome, Page, RowState,
    Phase, SessionEvent, SessionModel,
};

verus! {

/// Runs the session from `s` through the events `evs`: the final state and
/// the actions asked for, in order.
pub open spec fn run_events(s: SessionModel, evs: Seq<SessionEvent>) -> (SessionModel, Seq<Action>)
    decreases evs.len(),
{
    if evs.len() == 0 {
        (s, Seq::empty())
    } else {
        let (s1, a) = step(s, evs[0]);
        let (s2, rest) = run_events(s1, evs.drop_first());
        (s2, seq![a] + rest)
    }
}

/// Every event of `evs` is one that the session takes at that point.
pub open spec fn accepts_all(s: SessionModel, evs: Seq<SessionEvent>) -> bool
    decreases evs.len(),
{
    evs.len() == 0 || (accepts(s, evs[0]) && accepts_all(step(s, evs[0]).0, evs.drop_first()))
}

/// The driver's answers to one click that goes through: the click, its
/// acknowledgment, the edit.
pub open spec fn click_cycle(e: NavEvent) -> Seq<SessionEvent> {
    seq![SessionEvent::Click(e), SessionEvent::Acknowledged, SessionEvent::Edited]
}

/// `k` clicks on the same button, each handled in full before the next.
pub open spec fn repeat_clicks(e: NavEvent, k: nat) -> Seq<SessionEvent>
    decreases k,
{
    if k == 0 {
        Seq::empty()
    } else {
        click_cycle(e) + repeat_clicks(e, (k - 1) as nat)
    }
}

/// The actions asked for by one click that ends on page `page`.
pub open spec fn cycle_actions(n: nat, page: nat, clamped: bool) -> Seq<Action> {
    seq![
        Action::Acknowledge,
        Action::EditPage { page: page as usize, row: row_for(page, n), clamped },
        Action::AwaitEvent,
    ]
}

/// The actions asked for by `k` "next" clicks from cursor `c`.
pub open spec fn walk_actions(n: nat, c: nat, k: nat) -> Seq<Action>
    decreases k,
{
    if k == 0 {
        Seq::empty()
    } else {
        cycle_actions(n, c + 1, false) + walk_actions(n, c + 1, (k - 1) as nat)
    }
}

/// The attachments of a page, as a list: one, or none.
pub open spec fn attachments_of<E, A>(p: Page<E, A>) -> Seq<A> {
    match p.attachment {
        Some(a) => seq![a],
        None => Seq::empty(),
    }
}

/// The attachments that a message carries after an action that shows a page.
pub open spec fn shown_attachments<E, A>(pages: Seq<Page<E, A>>, a: Action) -> Seq<A> {
    match a {
        Action::CreateReply { page, .. } => attachments_of(pages[page as int]),
        Action::EditPage { page, .. } => attachments_of(pages[page as int]),
        _ => Seq::empty(),
    }
}

/// Running through `a + b` is running through `a`, then through `b`.
pub proof fn lemma_run_concat(s: SessionModel, a: Seq<SessionEvent>, b: Seq<SessionEvent>)
    ensures
        run_events(s, a + b) == (
            run_events(run_events(s, a).0, b).0,
            run_events(s, a).1 + run_events(run_events(s, a).0, b).1,
        ),
    decreases a.len(),
{
    if a.len() == 0 {
        assert(a + b =~= b);
        assert(run_events(s, a).1 + run_events(s, b).1 =~= run_events(s, b).1);
    } else {
        let s1 = step(s, a[0]).0;
        assert((a + b).drop_first() =~= a.drop_first() + b);
        lemma_run_concat(s1, a.drop_first(), b);
        assert((a + b)[0] == a[0]);
        let x = step(s, a[0]).1;
        assert(seq![x] + (run_events(s1, a.drop_first()).1 + run_events(run_events(s1, a.drop_first()).0, b).1)
            =~= (seq![x] + run_events(s1, a.drop_first()).1) + run_events(run_events(s1, a.drop_first()).0, b).1);
    }
}

/// One click handled in full, from cursor `c`: the cursor moves to the
/// click's target and the page edit shows that target.
pub proof fn lemma_click_cycle(n: nat, c: nat, e: NavEvent)
    requires
        1 <= n <= usize::MAX,
        c < n,
    ensures
        run_events(listening(n, c), click_cycle(e)) == (
            listening(n, target(c, n, e)),
            cycle_actions(n, target(c, n, e), is_anomalous(c, n, e)),
        ),
        accepts_all(listening(n, c), click_cycle(e)),
{
    let evs = click_cycle(e);
    reveal_with_fuel(run_events, 4);
    reveal_with_fuel(accepts_all, 4);
    assert(evs.drop_first().drop_first().drop_first() =~= Seq::<SessionEvent>::empty());
    assert(evs.drop_first()[0] == SessionEvent::Acknowledged);
    assert(evs.drop_first().drop_first()[0] == SessionEvent::Edited);
    let t = target(c, n, e);
    assert(t < n);
    assert((t as usize) as nat == t);
    assert(run_events(listening(n, c), evs).1 =~= cycle_actions(n, t, is_anomalous(c, n, e)));
}

/// A list of one page is sent once, without buttons and without listening
/// for clicks: whatever the driver answers, the only action that follows the
/// first reply is to finish.
pub proof fn single_page_fast_path(evs: Seq<SessionEvent>)
    requires
        accepts_all(started(1), evs),
    ensures
        first_action(1) == (Action::CreateReply { page: 0, row: None }),
        run_events(started(1), evs).1.len() <= 1,
        forall|i: int|
            0 <= i < run_events(started(1), evs).1.len() ==> #[trigger] run_events(started(1), evs).1[i] is Finish,
{
    if evs.len() > 0 {
        reveal_with_fuel(run_events, 2);
        reveal_with_fuel(accepts_all, 2);
        let s1 = step(started(1), evs[0]).0;
        assert(s1.phase is Done);
        assert(evs.drop_first().len() == 0);
        assert(run_events(started(1), evs).1 =~= seq![step(started(1), evs[0]).1]);
    }
}

/// `k` "next" clicks from cursor `c`, with `c + k` still a page, move the
/// cursor to `c + k`; the edits show pages `c + 1`, ..., `c + k`, one per
/// click, in order, none skipped and none repeated.
pub proof fn next_clicks_walk_pages(n: nat, c: nat, k: nat)
    requires
        1 <= n <= usize::MAX,
        c + k < n,
    ensures
        run_events(listening(n, c), repeat_clicks(NavEvent::Next, k)) == (
            listening(n, c + k),
            walk_actions(n, c, k),
        ),
        accepts_all(listening(n, c), repeat_clicks(NavEvent::Next, k)),
        walk_actions(n, c, k).len() == 3 * k,
        forall|i: int|
            0 <= i < k ==> #[trigger] walk_actions(n, c, k)[3 * i + 1] == (Action::EditPage {
                page: (c + i + 1) as usize,
                row: row_for((c + i + 1) as nat, n),
                clamped: false,
            }),
    decreases k,
{
    if k > 0 {
        let cyc = click_cycle(NavEvent::Next);
        let rest = repeat_clicks(NavEvent::Next, (k - 1) as nat);
        lemma_click_cycle(n, c, NavEvent::Next);
        lemma_run_concat(listening(n, c), cyc, rest);
        next_clicks_walk_pages(n, c + 1, (k - 1) as nat);
        lemma_accepts_all_concat(listening(n, c), cyc, rest);
        let w = walk_actions(n, c + 1, (k - 1) as nat);
        assert forall|i: int| 0 <= i < k implies #[trigger] walk_actions(n, c, k)[3 * i + 1] == (
        Action::EditPage { page: (c + i + 1) as usize, row: row_for((c + i + 1) as nat, n), clamped: false })
            by {
            if i > 0 {
                let i1 = i - 1;
                assert(3 * i + 1 == 3 + (3 * i1 + 1));
                assert(w[3 * i1 + 1] == (Action::EditPage {
                    page: (c + 1 + i1 + 1) as usize,
                    row: row_for((c + 1 + i1 + 1) as nat, n),
                    clamped: false,
                }));
            }
        }
    }
}

/// Accepting all of `a + b` is accepting all of `a`, then all of `b`.
pub proof fn lemma_accepts_all_concat(s: SessionModel, a: Seq<SessionEvent>, b: Seq<SessionEvent>)
    ensures
        accepts_all(s, a + b) == (accepts_all(s, a) && accepts_all(run_events(s, a).0, b)),
    decreases a.len(),
{
    if a.len() == 0 {
        assert(a + b =~= b);
    } else {
        assert((a + b).drop_first() =~= a.drop_first() + b);
        assert((a + b)[0] == a[0]);
        lemma_accepts_all_concat(step(s, a[0]).0, a.drop_first(), b);
    }
}

/// A "back" click while the first page is shown, which the disabled button
/// should have prevented, does not panic and does not move the cursor: page
/// 0 is shown again and the edit is flagged as clamped.
pub proof fn back_at_first_page_is_clamped(n: nat)
    requires
        1 <= n <= usize::MAX,
    ensures
        run_events(listening(n, 0), click_cycle(NavEvent::Back)) == (
            listening(n, 0),
            cycle_actions(n, 0, true),
        ),
{
    lemma_click_cycle(n, 0, NavEvent::Back);
}

/// When the session's deadline passes, whether the session was waiting for a
/// click or handling one, exactly one more edit is asked for, the one that
/// removes the buttons; it leaves the shown page as it was, and the session
/// ends timed out, which the reply reports as success.
pub proof fn timeout_clears_buttons_once(s: SessionModel)
    requires
        s.wf(),
        accepts(s, SessionEvent::TimedOut),
    ensures
        run_events(s, seq![SessionEvent::TimedOut, SessionEvent::Cleared]) == (
            SessionModel { n: s.n, cursor: s.cursor, phase: Phase::Done(Outcome::TimedOut) },
            seq![Action::ClearComponents, Action::Finish(Outcome::TimedOut)],
        ),
        accepts_all(s, seq![SessionEvent::TimedOut, SessionEvent::Cleared]),
        Outcome::TimedOut.spec_result() is Ok,
{
    let evs = seq![SessionEvent::TimedOut, SessionEvent::Cleared];
    reveal_with_fuel(run_events, 3);
    reveal_with_fuel(accepts_all, 3);
    assert(evs.drop_first().drop_first() =~= Seq::<SessionEvent>::empty());
    assert(evs.drop_first()[0] == SessionEvent::Cleared);
    assert(run_events(s, evs).1 =~= seq![Action::ClearComponents, Action::Finish(Outcome::TimedOut)]);
}

/// Moving to a page replaces the attachments: the edit carries the new
/// page's attachment alone, so a page without one is shown with none, even
/// right after a page that had one.
pub proof fn edit_replaces_attachments<E, A>(pages: Seq<Page<E, A>>, c: nat, e: NavEvent)
    requires
        1 <= pages.len() <= usize::MAX,
        c < pages.len(),
    ensures
        ({
            let n = pages.len();
            let edit = run_events(listening(n, c), click_cycle(e)).1[1];
            &&& edit is EditPage
            &&& shown_attachments(pages, edit) == attachments_of(pages[target(c, n, e) as int])
            &&& pages[target(c, n, e) as int].attachment is None ==> shown_attachments(
                pages,
                edit,
            ).len() == 0
        }),
{
    lemma_click_cycle(pages.len(), c, e);
}

/// Clicks are handled strictly one at a time: while a click is being
/// acknowledged or its edit applied, no other click is taken. Two quick
/// "next" clicks thus give exactly two edits, each after its own
/// acknowledgment, in order, and the cursor ends two pages further, or at the
/// last page.
pub proof fn clicks_are_sequential(n: nat, c: nat)
    requires
        1 <= n <= usize::MAX,
        c < n,
    ensures
        forall|s: SessionModel, e: NavEvent|
            (s.phase is Acknowledging || s.phase is Editing) ==> !#[trigger] accepts(
                s,
                SessionEvent::Click(e),
            ),
        ({
            let c1 = target(c, n, NavEvent::Next);
            let c2 = target(c1, n, NavEvent::Next);
            &&& c2 == if c + 2 < n { c + 2 } else { (n - 1) as nat }
            &&& accepts_all(
                listening(n, c),
                click_cycle(NavEvent::Next) + click_cycle(NavEvent::Next),
            )
            &&& run_events(listening(n, c), click_cycle(NavEvent::Next) + click_cycle(NavEvent::Next))
                == (
                listening(n, c2),
                cycle_actions(n, c1, c + 1 >= n) + cycle_actions(n, c2, c1 + 1 >= n),
            )
        }),
{
    let cyc = click_cycle(NavEvent::Next);
    let c1 = target(c, n, NavEvent::Next);
    lemma_click_cycle(n, c, NavEvent::Next);
    lemma_click_cycle(n, c1, NavEvent::Next);
    lemma_run_concat(listening(n, c), cyc, cyc);
    lemma_accepts_all_concat(listening(n, c), cyc, cyc);
}

/// An action that names a page names one that exists, and a row it carries
/// is the one computed for that page.
pub open spec fn action_ok(n: nat, a: Action) -> bool {
    match a {
        Action::CreateReply { page, row } => page < n && (row matches Some(r) ==> r == row_for(
            page as nat,
            n,
        )),
        Action::EditPage { page, row, .. } => page < n && row == row_for(page as nat, n),
        _ => true,
    }
}

/// One accepted event keeps the session well formed and its actions well
/// aimed.
pub proof fn lemma_step_ok(s: SessionModel, ev: SessionEvent)
    requires
        s.wf(),
        accepts(s, ev),
    ensures
        step(s, ev).0.wf(),
        step(s, ev).0.n == s.n,
        action_ok(s.n, step(s, ev).1),
{
    if let Phase::Acknowledging(e) = s.phase {
        let t = target(s.cursor, s.n, e);
        assert(t < s.n);
        assert((t as usize) as nat == t);
    }
}

/// At all times, whatever the driver answers, the cursor stays within the
/// pages; every page that an action shows exists; and every row sent is the
/// one computed for its page: "back" disabled exactly on the first page,
/// "next" exactly on the last.
pub proof fn session_invariant(n: nat, evs: Seq<SessionEvent>)
    requires
        1 <= n <= usize::MAX,
        accepts_all(started(n), evs),
    ensures
        action_ok(n, first_action(n)),
        run_events(started(n), evs).0.wf(),
        run_events(started(n), evs).0.n == n,
        forall|i: int|
            0 <= i < run_events(started(n), evs).1.len() ==> action_ok(
                n,
                #[trigger] run_events(started(n), evs).1[i],
            ),
{
    lemma_run_ok(started(n), evs);
}

/// [`session_invariant`] from any well-formed state.
pub proof fn lemma_run_ok(s: SessionModel, evs: Seq<SessionEvent>)
    requires
        s.wf(),
        accepts_all(s, evs),
    ensures
        run_events(s, evs).0.wf(),
        run_events(s, evs).0.n == s.n,
        forall|i: int| 0 <= i < run_events(s, evs).1.len() ==> action_ok(s.n, #[trigger] run_events(s, evs).1[i]),
    decreases evs.len(),
{
    if evs.len() > 0 {
        lemma_step_ok(s, evs[0]);
        let (s1, a) = step(s, evs[0]);
        lemma_run_ok(s1, evs.drop_first());
        let acts = run_events(s, evs).1;
        assert(acts == seq![a] + run_events(s1, evs.drop_first()).1);
        assert forall|i: int| 0 <= i < acts.len() implies action_ok(s.n, #[trigger] acts[i]) by {
            if i > 0 {
                assert(acts[i] == run_events(s1, evs.drop_first()).1[i - 1]);
            }
        }
    }
}

/// With more than one page, the first reply shows page 0 with "back"
/// disabled and "next" enabled; once it is created, the message's
/// identifier is fetched, then the clicks on that message are subscribed
/// to, and the session waits for clicks with the cursor at 0.
pub proof fn multi_page_start(n: nat)
    requires
        2 <= n <= usize::MAX,
    ensures
        first_action(n) == (Action::CreateReply {
            page: 0,
            row: Some(RowState { at_first: true, at_last: false }),
        }),
        accepts_all(started(n), seq![SessionEvent::Created, SessionEvent::Resolved]),
        run_events(started(n), seq![SessionEvent::Created, SessionEvent::Resolved]) == (
            listening(n, 0),
            seq![Action::ResolveMessageId, Action::Subscribe],
        ),
{
    let evs = seq![SessionEvent::Created, SessionEvent::Resolved];
    reveal_with_fuel(run_events, 3);
    reveal_with_fuel(accepts_all, 3);
    assert(evs.drop_first().drop_first() =~= Seq::<SessionEvent>::empty());
    assert(evs.drop_first()[0] == SessionEvent::Resolved);
    assert(run_events(started(n), evs).1 =~= seq![Action::ResolveMessageId, Action::Subscribe]);
}

} // verus!

