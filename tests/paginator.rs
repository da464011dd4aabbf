use weeb_bot::paginator::{
    nav_event_from_id, render_row, Action, ButtonStyle, EmbedList, NavEvent, Outcome, Page,
    PaginatorError, Phase, RowState, Session, SessionEvent, DEFAULT_IDLE_TIMEOUT_SECS,
};

fn pages(n: usize) -> Vec<Page<String, String>> {
    (0..n)
        .map(|i| Page { embed: format!("embed {}", i), attachment: Some(format!("file{}.png", i)) })
        .collect()
}

fn listening_session(n: usize) -> Session<String, String> {
    let list = EmbedList::new(pages(n), 70).unwrap();
    let (mut session, first) = list.reply();
    assert_eq!(first, Action::CreateReply { page: 0, row: Some(RowState { at_first: true, at_last: false }) });
    assert_eq!(session.step(SessionEvent::Created), Action::ResolveMessageId);
    assert_eq!(session.step(SessionEvent::Resolved), Action::Subscribe);
    session
}

fn click(session: &mut Session<String, String>, e: NavEvent) -> Action {
    assert_eq!(session.step(SessionEvent::Click(e)), Action::Acknowledge);
    let edit = session.step(SessionEvent::Acknowledged);
    assert_eq!(session.step(SessionEvent::Edited), Action::AwaitEvent);
    edit
}

#[test]
fn single_page_sends_once_without_buttons() {
    let list = EmbedList::new(pages(1), 70).unwrap();
    let (mut session, first) = list.reply();
    assert_eq!(first, Action::CreateReply { page: 0, row: None });
    assert_eq!(session.step(SessionEvent::Created), Action::Finish(Outcome::Sent));
    assert_eq!(session.phase(), Phase::Done(Outcome::Sent));
    assert!(!session.accepts(SessionEvent::Click(NavEvent::Next)));
    assert!(!session.accepts(SessionEvent::TimedOut));
}

#[test]
fn single_page_send_failure_is_a_channel_error() {
    let list = EmbedList::new(pages(1), 70).unwrap();
    let (mut session, _) = list.reply();
    let last = session.step(SessionEvent::Failed);
    assert_eq!(last, Action::Finish(Outcome::ChannelFailed));
    assert_eq!(Outcome::ChannelFailed.result(), Err(PaginatorError::Channel));
}

#[test]
fn empty_pages_are_rejected() {
    let r = EmbedList::<String, String>::new(Vec::new(), 70);
    assert!(matches!(r, Err(PaginatorError::EmptyResult)));
    let r = EmbedList::<String, String>::with_default_timeout(Vec::new());
    assert!(matches!(r, Err(PaginatorError::EmptyResult)));
}

#[test]
fn default_timeout_is_seventy_seconds() {
    let list = EmbedList::with_default_timeout(pages(2)).unwrap();
    assert_eq!(list.idle_timeout_secs(), DEFAULT_IDLE_TIMEOUT_SECS);
    assert_eq!(DEFAULT_IDLE_TIMEOUT_SECS, 70);
}

#[test]
fn add_appends_pages() {
    let mut list = EmbedList::new(pages(1), 5).unwrap();
    list.add("extra".to_string(), None);
    assert_eq!(list.len(), 2);
    assert_eq!(list.page(1).embed, "extra");
    assert!(list.page(1).attachment.is_none());
    assert_eq!(list.idle_timeout_secs(), 5);
}

#[test]
fn row_disabled_state_for_all_combinations() {
    for at_first in [false, true] {
        for at_last in [false, true] {
            let row = render_row(at_first, at_last);
            assert_eq!(row.back.disabled, at_first);
            assert_eq!(row.next.disabled, at_last);
            assert_eq!(row.back.custom_id, "back");
            assert_eq!(row.back.label, "< Prev.");
            assert_eq!(row.next.custom_id, "next");
            assert_eq!(row.next.label, "Next >");
            assert_eq!(row.back.style, ButtonStyle::Secondary);
            assert_eq!(row.next.style, ButtonStyle::Secondary);
        }
    }
}

#[test]
fn row_state_renders_its_flags() {
    let row = RowState { at_first: false, at_last: true }.render();
    assert!(!row.back.disabled);
    assert!(row.next.disabled);
}

#[test]
fn next_clicks_walk_every_page_in_order() {
    let n = 5;
    let mut session = listening_session(n);
    for k in 1..n {
        let edit = click(&mut session, NavEvent::Next);
        assert_eq!(
            edit,
            Action::EditPage {
                page: k,
                row: RowState { at_first: false, at_last: k == n - 1 },
                clamped: false
            }
        );
        assert_eq!(session.cursor(), k);
    }
    assert_eq!(session.cursor(), n - 1);
}

#[test]
fn back_at_first_page_stays_at_zero() {
    let mut session = listening_session(3);
    let edit = click(&mut session, NavEvent::Back);
    assert_eq!(
        edit,
        Action::EditPage { page: 0, row: RowState { at_first: true, at_last: false }, clamped: true }
    );
    assert_eq!(session.cursor(), 0);
}

#[test]
fn next_at_last_page_stays_there() {
    let mut session = listening_session(2);
    click(&mut session, NavEvent::Next);
    let edit = click(&mut session, NavEvent::Next);
    assert_eq!(
        edit,
        Action::EditPage { page: 1, row: RowState { at_first: false, at_last: true }, clamped: true }
    );
    assert_eq!(session.cursor(), 1);
}

#[test]
fn timeout_removes_buttons_once() {
    let mut session = listening_session(3);
    click(&mut session, NavEvent::Next);
    assert_eq!(session.step(SessionEvent::TimedOut), Action::ClearComponents);
    assert_eq!(session.cursor(), 1);
    assert_eq!(session.step(SessionEvent::Cleared), Action::Finish(Outcome::TimedOut));
    assert_eq!(session.cursor(), 1);
    assert_eq!(Outcome::TimedOut.result(), Ok(()));
    assert!(!session.accepts(SessionEvent::Cleared));
}

#[test]
fn timeout_before_any_click_removes_buttons() {
    let mut session = listening_session(2);
    assert_eq!(session.step(SessionEvent::TimedOut), Action::ClearComponents);
    assert_eq!(session.step(SessionEvent::Cleared), Action::Finish(Outcome::TimedOut));
    assert_eq!(session.cursor(), 0);
}

#[test]
fn timeout_while_handling_a_click_removes_buttons() {
    let mut session = listening_session(3);
    assert_eq!(session.step(SessionEvent::Click(NavEvent::Next)), Action::Acknowledge);
    assert_eq!(session.step(SessionEvent::TimedOut), Action::ClearComponents);
    assert_eq!(session.step(SessionEvent::Cleared), Action::Finish(Outcome::TimedOut));
    assert_eq!(session.cursor(), 0);
}

#[test]
fn moving_to_a_page_without_attachment_sends_none() {
    let mut ps = pages(2);
    ps[1].attachment = None;
    let list = EmbedList::new(ps, 70).unwrap();
    let (mut session, _) = list.reply();
    session.step(SessionEvent::Created);
    session.step(SessionEvent::Resolved);
    assert!(session.page(0).attachment.is_some());
    let edit = click(&mut session, NavEvent::Next);
    match edit {
        Action::EditPage { page, .. } => {
            let attachments: Vec<&String> = session.page(page).attachment.iter().collect();
            assert!(attachments.is_empty());
            assert_eq!(session.page(page).embed, "embed 1");
        }
        other => panic!("unexpected action {:?}", other),
    }
}

#[test]
fn double_next_gives_two_ordered_edits() {
    let mut session = listening_session(4);
    assert_eq!(session.step(SessionEvent::Click(NavEvent::Next)), Action::Acknowledge);
    assert!(!session.accepts(SessionEvent::Click(NavEvent::Next)));
    let first = session.step(SessionEvent::Acknowledged);
    assert!(!session.accepts(SessionEvent::Click(NavEvent::Next)));
    assert_eq!(session.step(SessionEvent::Edited), Action::AwaitEvent);
    let second = click(&mut session, NavEvent::Next);
    assert_eq!(first, Action::EditPage { page: 1, row: RowState { at_first: false, at_last: false }, clamped: false });
    assert_eq!(second, Action::EditPage { page: 2, row: RowState { at_first: false, at_last: false }, clamped: false });
    assert_eq!(session.cursor(), 2);
}

#[test]
fn double_next_near_the_end_is_bounded() {
    let mut session = listening_session(2);
    click(&mut session, NavEvent::Next);
    click(&mut session, NavEvent::Next);
    assert_eq!(session.cursor(), 1);
}

#[test]
fn edit_failure_aborts_and_clears() {
    let mut session = listening_session(3);
    session.step(SessionEvent::Click(NavEvent::Next));
    session.step(SessionEvent::Acknowledged);
    assert_eq!(session.step(SessionEvent::Failed), Action::ClearComponents);
    assert_eq!(session.cursor(), 0);
    assert_eq!(session.step(SessionEvent::Cleared), Action::Finish(Outcome::ChannelFailed));
}

#[test]
fn acknowledge_failure_aborts_and_clears() {
    let mut session = listening_session(3);
    session.step(SessionEvent::Click(NavEvent::Back));
    assert_eq!(session.step(SessionEvent::Failed), Action::ClearComponents);
    assert_eq!(session.step(SessionEvent::Cleared), Action::Finish(Outcome::ChannelFailed));
}

#[test]
fn resolve_failure_clears_buttons() {
    let list = EmbedList::new(pages(2), 70).unwrap();
    let (mut session, _) = list.reply();
    session.step(SessionEvent::Created);
    assert_eq!(session.step(SessionEvent::Failed), Action::ClearComponents);
    assert_eq!(session.step(SessionEvent::Cleared), Action::Finish(Outcome::ChannelFailed));
}

#[test]
fn stream_end_finishes_without_clearing() {
    let mut session = listening_session(2);
    assert_eq!(session.step(SessionEvent::StreamEnded), Action::Finish(Outcome::StreamClosed));
    assert_eq!(Outcome::StreamClosed.result(), Ok(()));
}

#[test]
fn only_navigation_ids_decode() {
    assert_eq!(nav_event_from_id("next"), Some(NavEvent::Next));
    assert_eq!(nav_event_from_id("back"), Some(NavEvent::Back));
    assert_eq!(nav_event_from_id("nex"), None);
    assert_eq!(nav_event_from_id(""), None);
    assert_eq!(nav_event_from_id("Next"), None);
}

#[test]
fn session_keeps_pages_and_timeout() {
    let list = EmbedList::new(pages(3), 12).unwrap();
    let (session, _) = list.reply();
    assert_eq!(session.len(), 3);
    assert_eq!(session.idle_timeout_secs(), 12);
    assert_eq!(session.page(2).embed, "embed 2");
    assert_eq!(session.phase(), Phase::Creating);
}
