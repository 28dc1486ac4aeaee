use sidebar::navigation::{Destination, NavError};
use sidebar::controller::{
    action_states, archive_row_visible, direction_changed, folder_bar_visible, row_menu_halign,
    ActionStates, Effects, MenuAlign, NavMove, SessionInfo, Sidebar, SidebarAction, TextDirection,
    Visibility,
};

fn session(id: u64, archive_len: u32) -> SessionInfo {
    SessionInfo { id, archive_len, main_chat_list: 100 + id, has_folders: true }
}

#[test]
fn action_states_follow_flag_and_archive() {
    assert_eq!(
        action_states(true, 3),
        ActionStates { show_archived_chats: true, move_archive_row: true }
    );
    assert_eq!(
        action_states(true, 0),
        ActionStates { show_archived_chats: false, move_archive_row: true }
    );
    assert_eq!(
        action_states(false, 3),
        ActionStates { show_archived_chats: false, move_archive_row: false }
    );
    assert_eq!(
        action_states(false, 0),
        ActionStates { show_archived_chats: false, move_archive_row: false }
    );
}

#[test]
fn archive_shrinking_to_empty_disables_menu_action_only() {
    let mut sb = Sidebar::new(true);
    let e = sb.set_session(Some(session(1, 3)));
    assert_eq!(e.actions, Some(ActionStates { show_archived_chats: true, move_archive_row: true }));
    let e = sb.archive_list_changed(1, 0);
    assert_eq!(e.actions, Some(ActionStates { show_archived_chats: false, move_archive_row: true }));
}

#[test]
fn archive_row_visibility_combinations() {
    assert!(archive_row_visible(2, 7, Some(7)));
    assert!(!archive_row_visible(0, 7, Some(7)));
    assert!(!archive_row_visible(2, 7, Some(8)));
    assert!(!archive_row_visible(2, 7, None));
    assert!(!archive_row_visible(0, 7, None));
}

#[test]
fn folder_bar_hidden_without_folders() {
    let s = SessionInfo { id: 1, archive_len: 5, main_chat_list: 9, has_folders: false };
    assert!(!folder_bar_visible(Some(s)));
    assert!(!folder_bar_visible(None));
    assert!(folder_bar_visible(Some(SessionInfo { has_folders: true, ..s })));
    let mut sb = Sidebar::new(true);
    sb.set_session(Some(s));
    sb.select_chat_list(Some(9));
    assert_eq!(sb.visibility(), Visibility { folder_bar: false, archive_row: true });
}

#[test]
fn set_session_twice_is_silent() {
    let mut sb = Sidebar::new(true);
    let first = sb.set_session(Some(session(4, 2)));
    assert!(first.notify_session);
    assert_eq!(first.attach_listener, Some(4));
    assert_eq!(first.detach_listener, None);
    let second = sb.set_session(Some(session(4, 2)));
    assert_eq!(second, Effects::none());
    assert_eq!(sb.session(), Some(session(4, 2)));
}

#[test]
fn set_session_none_twice_is_silent() {
    let mut sb = Sidebar::new(false);
    assert_eq!(sb.set_session(None), Effects::none());
}

#[test]
fn swapping_sessions_moves_listener() {
    let mut sb = Sidebar::new(false);
    sb.set_session(Some(session(1, 0)));
    let e = sb.set_session(Some(session(2, 5)));
    assert_eq!(e.detach_listener, Some(1));
    assert_eq!(e.attach_listener, Some(2));
    assert_eq!(e.actions, Some(ActionStates { show_archived_chats: false, move_archive_row: false }));
    assert!(e.notify_session);
    let e = sb.set_session(None);
    assert_eq!(e.detach_listener, Some(2));
    assert_eq!(e.attach_listener, None);
    assert_eq!(e.actions, None);
    assert_eq!(e.visibility, Some(Visibility { folder_bar: false, archive_row: false }));
    assert!(e.notify_session);
}

#[test]
fn emptied_archive_returns_to_chats() {
    let mut sb = Sidebar::new(true);
    sb.set_session(Some(session(1, 2)));
    sb.show_archived_chats().unwrap();
    assert_eq!(sb.top(), Destination::ArchivedChats);
    let e = sb.archive_list_changed(1, 0);
    assert_eq!(e.navigation, Some(NavMove::PopTo(Destination::Chats)));
    assert_eq!(sb.top(), Destination::Chats);
    assert_eq!(sb.depth(), 1);
}

#[test]
fn growing_archive_keeps_pane() {
    let mut sb = Sidebar::new(true);
    sb.set_session(Some(session(1, 2)));
    sb.show_archived_chats().unwrap();
    let e = sb.archive_list_changed(1, 4);
    assert_eq!(e.navigation, None);
    assert_eq!(sb.top(), Destination::ArchivedChats);
}

#[test]
fn stale_session_events_are_ignored() {
    let mut sb = Sidebar::new(true);
    sb.set_session(Some(session(1, 2)));
    sb.show_archived_chats().unwrap();
    assert_eq!(sb.archive_list_changed(9, 0), Effects::none());
    assert_eq!(sb.folders_changed(9, false), Effects::none());
    assert_eq!(sb.top(), Destination::ArchivedChats);
    assert_eq!(sb.session(), Some(session(1, 2)));
}

#[test]
fn sessions_search_then_close_search() {
    let mut sb = Sidebar::new(true);
    let e = sb.show_sessions().unwrap();
    assert_eq!(e.navigation, Some(NavMove::Push(Destination::Sessions)));
    assert!(!e.reset_search);
    let e = sb.begin_chats_search();
    assert_eq!(e.navigation, Some(NavMove::Push(Destination::Search)));
    assert!(e.reset_search);
    assert_eq!(sb.depth(), 3);
    let e = sb.close_search();
    assert_eq!(e.navigation, Some(NavMove::PopTo(Destination::Chats)));
    assert_eq!(sb.top(), Destination::Chats);
    assert_eq!(sb.depth(), 1);
}

#[test]
fn showing_shown_pane_is_refused() {
    let mut sb = Sidebar::new(true);
    sb.show_sessions().unwrap();
    assert_eq!(sb.show_sessions(), Err(NavError::AlreadyShown));
    assert_eq!(sb.depth(), 2);
}

#[test]
fn settings_change_recomputes_with_session() {
    let mut sb = Sidebar::new(false);
    assert_eq!(sb.settings_changed(true).actions, None);
    assert!(sb.archive_row_in_main_menu());
    sb.set_session(Some(session(3, 1)));
    let e = sb.settings_changed(false);
    assert_eq!(e.actions, Some(ActionStates { show_archived_chats: false, move_archive_row: false }));
    assert_eq!(sb.action_states(), Some(ActionStates { show_archived_chats: false, move_archive_row: false }));
}

#[test]
fn move_archive_row_clears_setting() {
    let sb = Sidebar::new(true);
    let e = sb.move_archive_row();
    assert_eq!(e.write_archive_row_flag, Some(false));
    assert_eq!(e.navigation, None);
}

#[test]
fn selection_drives_archive_row() {
    let mut sb = Sidebar::new(true);
    sb.set_session(Some(session(1, 2)));
    assert_eq!(sb.selected_chat_list(), None);
    assert!(!sb.visibility().archive_row);
    let e = sb.select_chat_list(Some(101));
    assert_eq!(e.visibility, Some(Visibility { folder_bar: true, archive_row: true }));
    let e = sb.select_chat_list(Some(55));
    assert_eq!(e.visibility, Some(Visibility { folder_bar: true, archive_row: false }));
    let e = sb.folders_changed(1, false);
    assert_eq!(e.visibility, Some(Visibility { folder_bar: false, archive_row: false }));
}

#[test]
fn activate_dispatches_actions() {
    let mut sb = Sidebar::new(true);
    let e = sb.activate(SidebarAction::MenuShowArchivedChats).unwrap();
    assert_eq!(e.navigation, Some(NavMove::Push(Destination::ArchivedChats)));
    assert_eq!(sb.activate(SidebarAction::ShowArchivedChats), Err(NavError::AlreadyShown));
    let e = sb.activate(SidebarAction::MoveArchiveRowToChatList).unwrap();
    assert_eq!(e.write_archive_row_flag, Some(false));
    let e = sb.activate(SidebarAction::StartSearch).unwrap();
    assert!(e.reset_search);
    assert_eq!(sb.depth(), 3);
}

#[test]
fn action_names() {
    let names: Vec<&str> = SidebarAction::all().iter().map(|a| a.name()).collect();
    assert_eq!(
        names,
        vec![
            "sidebar.show-sessions",
            "sidebar.start-search",
            "sidebar.show-archived-chats",
            "sidebar-menu.show-archived-chats",
            "sidebar.move-archive-row-to-chat-list",
        ]
    );
}

#[test]
fn row_menu_alignment() {
    assert_eq!(row_menu_halign(TextDirection::Rtl), MenuAlign::End);
    assert_eq!(row_menu_halign(TextDirection::Ltr), MenuAlign::Start);
    assert_eq!(row_menu_halign(TextDirection::Neutral), MenuAlign::Start);
    assert_eq!(direction_changed(TextDirection::Ltr, TextDirection::Rtl, true), Some(MenuAlign::End));
    assert_eq!(direction_changed(TextDirection::Rtl, TextDirection::Ltr, true), Some(MenuAlign::Start));
    assert_eq!(direction_changed(TextDirection::Rtl, TextDirection::Rtl, true), None);
    assert_eq!(direction_changed(TextDirection::Ltr, TextDirection::Rtl, false), None);
}

#[test]
fn back_from_sessions_lets_it_open_again() {
    let mut sb = Sidebar::new(true);
    sb.show_sessions().unwrap();
    assert_eq!(sb.returned_to(Destination::Chats), Ok(Effects::none()));
    assert_eq!(sb.depth(), 1);
    let e = sb.show_sessions().unwrap();
    assert_eq!(e.navigation, Some(NavMove::Push(Destination::Sessions)));
    assert_eq!(sb.top(), Destination::Sessions);
}

#[test]
fn returned_to_middle_pane() {
    let mut sb = Sidebar::new(true);
    sb.show_archived_chats().unwrap();
    sb.begin_chats_search();
    assert_eq!(sb.returned_to(Destination::ArchivedChats), Ok(Effects::none()));
    assert_eq!(sb.top(), Destination::ArchivedChats);
    assert_eq!(sb.depth(), 2);
}

#[test]
fn returned_to_absent_pane_is_refused() {
    let mut sb = Sidebar::new(true);
    sb.show_sessions().unwrap();
    assert_eq!(sb.returned_to(Destination::Search), Err(NavError::NotShown));
    assert_eq!(sb.top(), Destination::Sessions);
    assert_eq!(sb.depth(), 2);
}

#[test]
fn search_opened_again_is_reset_without_push() {
    let mut sb = Sidebar::new(true);
    let first = sb.begin_chats_search();
    assert!(first.reset_search);
    assert_eq!(first.navigation, Some(NavMove::Push(Destination::Search)));
    let again = sb.begin_chats_search();
    assert!(again.reset_search);
    assert_eq!(again.navigation, None);
    assert_eq!(again, Effects { reset_search: true, ..Effects::none() });
    assert_eq!(sb.top(), Destination::Search);
    assert_eq!(sb.depth(), 2);
    let e = sb.activate(SidebarAction::StartSearch).unwrap();
    assert!(e.reset_search);
    assert_eq!(sb.depth(), 2);
}
