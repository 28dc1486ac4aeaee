//! The sidebar controller: session binding, derived visibility and action
//! enablement, driven by events and answering with effects.
//!
//! Each event is a method of [`Sidebar`] whose contract is a transition of
//! [`SidebarModel`]: the new model and the [`Effects`] that the widget layer
//! must apply, in the order of their fields.
use vstd::prelude::*;

use crate::navigation::{lemma_popped_to_chats, popped_to, stack_wf, Destination, NavError, NavigationStack};

verus! {

/// What the sidebar observes of a session: its identity, the size of its
/// archive chat list, the identity of its main chat list and whether its
/// folder list holds any folder.
#[derive(Debug, Clone, Copy, PartialEq, Eq)]
pub struct SessionInfo {
    pub id: u64,
    pub archive_len: u32,
    pub main_chat_list: u64,
    pub has_folders: bool,
}

/// Enablement of the two archive actions.
#[derive(Debug, Clone, Copy, PartialEq, Eq)]
pub struct ActionStates {
    /// "Show archived chats" from the main menu.
    pub show_archived_chats: bool,
    /// "Move archive row to chat list".
    pub move_archive_row: bool,
}

/// Visibility of the folder bar and of the archived-chats row.
#[derive(Debug, Clone, Copy, PartialEq, Eq)]
pub struct Visibility {
    pub folder_bar: bool,
    pub archive_row: bool,
}

/// A change of the shown pane that the widget layer must mirror.
#[derive(Debug, Clone, Copy, PartialEq, Eq)]
pub enum NavMove {
    Push(Destination),
    PopTo(Destination),
}

/// What the widget layer must do after an event, in this order.
#[derive(Debug, Clone, Copy, PartialEq, Eq)]
pub struct Effects {
    /// Disconnect the archive-size listener of this session.
    pub detach_listener: Option<u64>,
    /// Clear the search pane and give it the focus.
    pub reset_search: bool,
    /// Mirror this move on the navigation view.
    pub navigation: Option<NavMove>,
    /// Push these enablement states to the two actions.
    pub actions: Option<ActionStates>,
    /// Connect an archive-size listener to this session.
    pub attach_listener: Option<u64>,
    /// Store this value as the archive-row-in-main-menu setting.
    pub write_archive_row_flag: Option<bool>,
    /// Push these values to the folder bar and the archive row.
    pub visibility: Option<Visibility>,
    /// Tell observers that the bound session changed.
    pub notify_session: bool,
}

/// A user-invocable action of the sidebar.
#[derive(Debug, Clone, Copy, PartialEq, Eq, Structural)]
pub enum SidebarAction {
    ShowSessions,
    StartSearch,
    ShowArchivedChats,
    /// The same as `ShowArchivedChats`, offered in the main menu and enabled
    /// by the archive settings.
    MenuShowArchivedChats,
    MoveArchiveRowToChatList,
}

/// The direction in which the widget lays out text.
#[derive(Debug, Clone, Copy, PartialEq, Eq, Structural)]
pub enum TextDirection {
    /// No direction set.
    Neutral,
    Ltr,
    Rtl,
}

/// Horizontal alignment of the row menu.
#[derive(Debug, Clone, Copy, PartialEq, Eq, Structural)]
pub enum MenuAlign {
    Start,
    End,
}

/// The name under which an action is registered.
pub open spec fn action_name(a: SidebarAction) -> Seq<char> {
    match a {
        SidebarAction::ShowSessions => "sidebar.show-sessions"@,
        SidebarAction::StartSearch => "sidebar.start-search"@,
        SidebarAction::ShowArchivedChats => "sidebar.show-archived-chats"@,
        SidebarAction::MenuShowArchivedChats => "sidebar-menu.show-archived-chats"@,
        SidebarAction::MoveArchiveRowToChatList => "sidebar.move-archive-row-to-chat-list"@,
    }
}

/// The row menu opens toward the end of the line: right-aligned in
/// right-to-left layouts.
pub open spec fn halign_for(dir: TextDirection) -> MenuAlign {
    if dir == TextDirection::Rtl { MenuAlign::End } else { MenuAlign::Start }
}

/// The mathematical state of the sidebar.
pub struct SidebarModel {
    pub session: Option<SessionInfo>,
    pub selected_chat_list: Option<u64>,
    pub archive_row_in_main_menu: bool,
    pub stack: Seq<Destination>,
}

/// An effect set that asks for nothing.
pub open spec fn no_effects() -> Effects {
    Effects {
        detach_listener: None,
        reset_search: false,
        navigation: None,
        actions: None,
        attach_listener: None,
        write_archive_row_flag: None,
        visibility: None,
        notify_session: false,
    }
}

/// Enablement of the actions for a settings flag and an archive list size.
pub open spec fn actions_for(flag: bool, archive_len: nat) -> ActionStates {
    ActionStates { show_archived_chats: flag && archive_len > 0, move_archive_row: flag }
}

/// The archive row is shown when the archive holds a chat and the main chat
/// list is the selected one.
pub open spec fn archive_row_shown(archive_len: nat, main: u64, selected: Option<u64>) -> bool {
    archive_len > 0 && selected == Some(main)
}

/// The folder bar is shown when a session is bound and has folders.
pub open spec fn folder_bar_shown(session: Option<SessionInfo>) -> bool {
    match session {
        Some(s) => s.has_folders,
        None => false,
    }
}

pub open spec fn visibility_of(m: SidebarModel) -> Visibility {
    Visibility {
        folder_bar: folder_bar_shown(m.session),
        archive_row: match m.session {
            Some(s) => archive_row_shown(s.archive_len as nat, s.main_chat_list, m.selected_chat_list),
            None => false,
        },
    }
}

/// The enablement to push for a flag and a bound session; none without one.
pub open spec fn actions_after(flag: bool, session: Option<SessionInfo>) -> Option<ActionStates> {
    match session {
        Some(s) => Some(actions_for(flag, s.archive_len as nat)),
        None => None,
    }
}

pub open spec fn session_id(session: Option<SessionInfo>) -> Option<u64> {
    match session {
        Some(s) => Some(s.id),
        None => None,
    }
}

/// Two bindings are the same session when both are empty or both hold the
/// same identity.
pub open spec fn same_session(a: Option<SessionInfo>, b: Option<SessionInfo>) -> bool {
    session_id(a) == session_id(b)
}

pub open spec fn model_wf(m: SidebarModel) -> bool {
    stack_wf(m.stack)
}

/// Binding `session`: nothing where it is the bound one; else the old
/// listener goes, enablement is recomputed, a listener is attached, and the
/// change is announced.
pub open spec fn set_session_step(m: SidebarModel, session: Option<SessionInfo>) -> (SidebarModel, Effects) {
    if same_session(m.session, session) {
        (m, no_effects())
    } else {
        let n = SidebarModel { session, ..m };
        (n, Effects {
            detach_listener: session_id(m.session),
            actions: actions_after(m.archive_row_in_main_menu, session),
            attach_listener: session_id(session),
            visibility: Some(visibility_of(n)),
            notify_session: true,
            ..no_effects()
        })
    }
}

/// The archive list of session `id` now holds `len` chats. Events of a
/// session that is not bound are ignored. An empty archive returns to the
/// chat list; enablement is recomputed in any case.
pub open spec fn archive_changed_step(m: SidebarModel, id: u64, len: u32) -> (SidebarModel, Effects) {
    match m.session {
        Some(s) if s.id == id => {
            let s2 = SessionInfo { archive_len: len, ..s };
            let stack = if len == 0 { popped_to(m.stack, Destination::Chats) } else { m.stack };
            let n = SidebarModel { session: Some(s2), stack, ..m };
            (n, Effects {
                navigation: if len == 0 { Some(NavMove::PopTo(Destination::Chats)) } else { None },
                actions: Some(actions_for(m.archive_row_in_main_menu, len as nat)),
                visibility: Some(visibility_of(n)),
                ..no_effects()
            })
        },
        _ => (m, no_effects()),
    }
}

/// The folder list of session `id` gained its first folder or lost its last.
pub open spec fn folders_changed_step(m: SidebarModel, id: u64, has_folders: bool) -> (SidebarModel, Effects) {
    match m.session {
        Some(s) if s.id == id => {
            let n = SidebarModel { session: Some(SessionInfo { has_folders, ..s }), ..m };
            (n, Effects { visibility: Some(visibility_of(n)), ..no_effects() })
        },
        _ => (m, no_effects()),
    }
}

/// The folder bar selected another chat list, or none.
pub open spec fn selection_changed_step(m: SidebarModel, selected: Option<u64>) -> (SidebarModel, Effects) {
    let n = SidebarModel { selected_chat_list: selected, ..m };
    (n, Effects { visibility: Some(visibility_of(n)), ..no_effects() })
}

/// The setting changed: enablement is recomputed where a session is bound.
pub open spec fn settings_changed_step(m: SidebarModel, flag: bool) -> (SidebarModel, Effects) {
    let n = SidebarModel { archive_row_in_main_menu: flag, ..m };
    (n, Effects { actions: actions_after(flag, m.session), ..no_effects() })
}

/// Showing pane `d`: refused where it is already on the stack.
pub open spec fn show_step(m: SidebarModel, d: Destination) -> (SidebarModel, Result<Effects, NavError>) {
    if m.stack.contains(d) {
        (m, Err(NavError::AlreadyShown))
    } else {
        (SidebarModel { stack: m.stack.push(d), ..m }, Ok(Effects {
            navigation: Some(NavMove::Push(d)),
            ..no_effects()
        }))
    }
}

/// Opening the search: it is cleared and given the focus every time, and
/// pushed where it is not on the stack yet.
pub open spec fn search_step(m: SidebarModel) -> (SidebarModel, Effects) {
    if m.stack.contains(Destination::Search) {
        (m, Effects { reset_search: true, ..no_effects() })
    } else {
        (SidebarModel { stack: m.stack.push(Destination::Search), ..m }, Effects {
            reset_search: true,
            navigation: Some(NavMove::Push(Destination::Search)),
            ..no_effects()
        })
    }
}

/// Leaving the search: back to the chat list.
pub open spec fn close_search_step(m: SidebarModel) -> (SidebarModel, Effects) {
    (SidebarModel { stack: popped_to(m.stack, Destination::Chats), ..m }, Effects {
        navigation: Some(NavMove::PopTo(Destination::Chats)),
        ..no_effects()
    })
}

/// The view returned to pane `d` by itself (a back button, a swipe, a key):
/// everything above `d` leaves the stack, and nothing is asked of the view.
/// Refused where `d` is not on the stack.
pub open spec fn returned_to_step(m: SidebarModel, d: Destination) -> (SidebarModel, Result<Effects, NavError>) {
    if m.stack.contains(d) {
        (SidebarModel { stack: popped_to(m.stack, d), ..m }, Ok(no_effects()))
    } else {
        (m, Err(NavError::NotShown))
    }
}

/// Moving the archive row to the chat list clears the setting; the change
/// comes back as a settings event.
pub open spec fn move_archive_row_step(m: SidebarModel) -> (SidebarModel, Effects) {
    (m, Effects { write_archive_row_flag: Some(false), ..no_effects() })
}

/// What an action does: the three panes are shown, the last action asks for
/// the setting to be cleared.
pub open spec fn activate_step(m: SidebarModel, a: SidebarAction) -> (SidebarModel, Result<Effects, NavError>) {
    match a {
        SidebarAction::ShowSessions => show_step(m, Destination::Sessions),
        SidebarAction::StartSearch => {
            let (n, e) = search_step(m);
            (n, Ok(e))
        },
        SidebarAction::ShowArchivedChats => show_step(m, Destination::ArchivedChats),
        SidebarAction::MenuShowArchivedChats => show_step(m, Destination::ArchivedChats),
        SidebarAction::MoveArchiveRowToChatList => {
            let (n, e) = move_archive_row_step(m);
            (n, Ok(e))
        },
    }
}

/// Binding a session twice in a row: the second binding changes nothing and
/// asks for nothing, neither a notification nor a recompute.
pub proof fn lemma_set_session_idempotent(m: SidebarModel, session: Option<SessionInfo>)
    ensures
        set_session_step(set_session_step(m, session).0, session)
            == (set_session_step(m, session).0, no_effects()),
{
}

/// When the archive of the bound session empties while the archived chats are
/// shown, the sidebar returns to the chat list, which is then alone on the
/// stack.
pub proof fn lemma_empty_archive_returns_to_chats(m: SidebarModel, s: SessionInfo)
    requires
        model_wf(m),
        m.session == Some(s),
        s.archive_len > 0,
        m.stack.last() == Destination::ArchivedChats,
    ensures
        archive_changed_step(m, s.id, 0).0.stack.last() == Destination::Chats,
        archive_changed_step(m, s.id, 0).0.stack == seq![Destination::Chats],
        archive_changed_step(m, s.id, 0).1.navigation == Some(NavMove::PopTo(Destination::Chats)),
{
    lemma_popped_to_chats(m.stack);
}

/// Whether "move archive row to chat list" is enabled follows the setting
/// alone, whatever the size of the archive.
pub proof fn lemma_move_row_ignores_archive(flag: bool, len_a: nat, len_b: nat)
    ensures
        actions_for(flag, len_a).move_archive_row == actions_for(flag, len_b).move_archive_row,
        actions_for(flag, len_a).move_archive_row == flag,
{
}

impl SidebarAction {
    /// The name under which the action is registered.
    pub fn name(&self) -> (r: &'static str)
        ensures
            r@ == action_name(*self),
    {
        match self {
            SidebarAction::ShowSessions => {
                proof { reveal_strlit("sidebar.show-sessions"); }
                "sidebar.show-sessions"
            },
            SidebarAction::StartSearch => {
                proof { reveal_strlit("sidebar.start-search"); }
                "sidebar.start-search"
            },
            SidebarAction::ShowArchivedChats => {
                proof { reveal_strlit("sidebar.show-archived-chats"); }
                "sidebar.show-archived-chats"
            },
            SidebarAction::MenuShowArchivedChats => {
                proof { reveal_strlit("sidebar-menu.show-archived-chats"); }
                "sidebar-menu.show-archived-chats"
            },
            SidebarAction::MoveArchiveRowToChatList => {
                proof { reveal_strlit("sidebar.move-archive-row-to-chat-list"); }
                "sidebar.move-archive-row-to-chat-list"
            },
        }
    }

    /// Every action, in the order in which they are registered.
    pub fn all() -> (r: Vec<SidebarAction>)
        ensures
            r@ == seq![
                SidebarAction::ShowSessions,
                SidebarAction::StartSearch,
                SidebarAction::ShowArchivedChats,
                SidebarAction::MenuShowArchivedChats,
                SidebarAction::MoveArchiveRowToChatList,
            ],
    {
        vec![
            SidebarAction::ShowSessions,
            SidebarAction::StartSearch,
            SidebarAction::ShowArchivedChats,
            SidebarAction::MenuShowArchivedChats,
            SidebarAction::MoveArchiveRowToChatList,
        ]
    }
}

/// The alignment of the row menu in text direction `dir`.
pub fn row_menu_halign(dir: TextDirection) -> (r: MenuAlign)
    ensures
        r == halign_for(dir),
{
    match dir {
        TextDirection::Rtl => MenuAlign::End,
        _ => MenuAlign::Start,
    }
}

/// The new alignment of the row menu after a change of text direction from
/// `previous` to `current`; none where the direction did not change or the
/// menu was not built yet.
pub fn direction_changed(previous: TextDirection, current: TextDirection, menu_built: bool) -> (r: Option<MenuAlign>)
    ensures
        r == (if previous == current || !menu_built { None } else { Some(halign_for(current)) }),
{
    if previous == current || !menu_built {
        None
    } else {
        Some(row_menu_halign(current))
    }
}

impl Effects {
    /// An effect set that asks for nothing.
    pub fn none() -> (r: Effects)
        ensures
            r == no_effects(),
    {
        Effects {
            detach_listener: None,
            reset_search: false,
            navigation: None,
            actions: None,
            attach_listener: None,
            write_archive_row_flag: None,
            visibility: None,
            notify_session: false,
        }
    }
}

/// Enablement of the two archive actions: "show archived chats" needs the
/// setting and a non-empty archive, "move archive row" the setting alone.
pub fn action_states(archive_row_in_main_menu: bool, archive_len: u32) -> (r: ActionStates)
    ensures
        r == actions_for(archive_row_in_main_menu, archive_len as nat),
        r.show_archived_chats == (archive_row_in_main_menu && archive_len > 0),
        r.move_archive_row == archive_row_in_main_menu,
{
    ActionStates {
        show_archived_chats: archive_row_in_main_menu && archive_len > 0,
        move_archive_row: archive_row_in_main_menu,
    }
}

/// Whether the archived-chats row is shown: the archive holds a chat and the
/// selected chat list is the main one. No selection hides the row.
pub fn archive_row_visible(archive_len: u32, main_chat_list: u64, selected: Option<u64>) -> (r: bool)
    ensures
        r == archive_row_shown(archive_len as nat, main_chat_list, selected),
        r == (archive_len > 0 && selected == Some(main_chat_list)),
{
    archive_len > 0 && match selected {
        Some(sel) => sel == main_chat_list,
        None => false,
    }
}

/// Whether the folder bar is shown: a session is bound and has folders.
pub fn folder_bar_visible(session: Option<SessionInfo>) -> (r: bool)
    ensures
        r == folder_bar_shown(session),
        r == (session is Some && session->Some_0.has_folders),
{
    match session {
        Some(s) => s.has_folders,
        None => false,
    }
}

fn actions_for_session(flag: bool, session: Option<SessionInfo>) -> (r: Option<ActionStates>)
    ensures
        r == actions_after(flag, session),
{
    match session {
        Some(s) => Some(action_states(flag, s.archive_len)),
        None => None,
    }
}

fn id_of(session: Option<SessionInfo>) -> (r: Option<u64>)
    ensures
        r == session_id(session),
{
    match session {
        Some(s) => Some(s.id),
        None => None,
    }
}

/// The sidebar's state: the bound session, the selected chat list, the
/// setting that puts the archive row in the main menu, and the pane stack.
pub struct Sidebar {
    session: Option<SessionInfo>,
    selected_chat_list: Option<u64>,
    archive_row_in_main_menu: bool,
    nav: NavigationStack,
}

impl View for Sidebar {
    type V = SidebarModel;

    closed spec fn view(&self) -> SidebarModel {
        SidebarModel {
            session: self.session,
            selected_chat_list: self.selected_chat_list,
            archive_row_in_main_menu: self.archive_row_in_main_menu,
            stack: self.nav@,
        }
    }
}

impl Sidebar {
    pub open spec fn wf(&self) -> bool {
        model_wf(self@)
    }

    /// A sidebar with no session and no selection, showing the chat list.
    pub fn new(archive_row_in_main_menu: bool) -> (r: Sidebar)
        ensures
            r.wf(),
            r@ == (SidebarModel {
                session: None,
                selected_chat_list: None,
                archive_row_in_main_menu,
                stack: seq![Destination::Chats],
            }),
    {
        Sidebar { session: None, selected_chat_list: None, archive_row_in_main_menu, nav: NavigationStack::new() }
    }

    fn current_visibility(&self) -> (r: Visibility)
        ensures
            r == visibility_of(self@),
    {
        Visibility {
            folder_bar: folder_bar_visible(self.session),
            archive_row: match self.session {
                Some(s) => archive_row_visible(s.archive_len, s.main_chat_list, self.selected_chat_list),
                None => false,
            },
        }
    }

    /// Binds `session`, or none. Binding the bound session again does nothing.
    pub fn set_session(&mut self, session: Option<SessionInfo>) -> (r: Effects)
        requires
            old(self).wf(),
        ensures
            final(self).wf(),
            (final(self)@, r) == set_session_step(old(self)@, session),
    {
        let old_id = id_of(self.session);
        let new_id = id_of(session);
        if old_id == new_id {
            return Effects::none();
        }
        let actions = actions_for_session(self.archive_row_in_main_menu, session);
        self.session = session;
        let visibility = self.current_visibility();
        Effects {
            detach_listener: old_id,
            reset_search: false,
            navigation: None,
            actions,
            attach_listener: new_id,
            write_archive_row_flag: None,
            visibility: Some(visibility),
            notify_session: true,
        }
    }

    /// The archive chat list of session `id` now holds `len` chats.
    pub fn archive_list_changed(&mut self, id: u64, len: u32) -> (r: Effects)
        requires
            old(self).wf(),
        ensures
            final(self).wf(),
            (final(self)@, r) == archive_changed_step(old(self)@, id, len),
    {
        match self.session {
            Some(s) => {
                if s.id != id {
                    return Effects::none();
                }
                self.session = Some(SessionInfo { archive_len: len, ..s });
                let navigation = if len == 0 {
                    self.nav.pop_to_chats();
                    Some(NavMove::PopTo(Destination::Chats))
                } else {
                    None
                };
                let actions = action_states(self.archive_row_in_main_menu, len);
                let visibility = self.current_visibility();
                Effects {
                    detach_listener: None,
                    reset_search: false,
                    navigation,
                    actions: Some(actions),
                    attach_listener: None,
                    write_archive_row_flag: None,
                    visibility: Some(visibility),
                    notify_session: false,
                }
            },
            None => Effects::none(),
        }
    }

    /// The folder list of session `id` now has folders, or has none.
    pub fn folders_changed(&mut self, id: u64, has_folders: bool) -> (r: Effects)
        requires
            old(self).wf(),
        ensures
            final(self).wf(),
            (final(self)@, r) == folders_changed_step(old(self)@, id, has_folders),
    {
        match self.session {
            Some(s) => {
                if s.id != id {
                    return Effects::none();
                }
                self.session = Some(SessionInfo { has_folders, ..s });
                let visibility = self.current_visibility();
                Effects { visibility: Some(visibility), ..Effects::none() }
            },
            None => Effects::none(),
        }
    }

    /// The folder bar now selects `selected`, or nothing.
    pub fn select_chat_list(&mut self, selected: Option<u64>) -> (r: Effects)
        requires
            old(self).wf(),
        ensures
            final(self).wf(),
            (final(self)@, r) == selection_changed_step(old(self)@, selected),
    {
        self.selected_chat_list = selected;
        let visibility = self.current_visibility();
        Effects { visibility: Some(visibility), ..Effects::none() }
    }

    /// The archive-row-in-main-menu setting now holds `flag`.
    pub fn settings_changed(&mut self, flag: bool) -> (r: Effects)
        requires
            old(self).wf(),
        ensures
            final(self).wf(),
            (final(self)@, r) == settings_changed_step(old(self)@, flag),
    {
        self.archive_row_in_main_menu = flag;
        let actions = actions_for_session(flag, self.session);
        Effects { actions, ..Effects::none() }
    }

    fn show(&mut self, d: Destination) -> (r: Result<Effects, NavError>)
        requires
            old(self).wf(),
        ensures
            final(self).wf(),
            (final(self)@, r) == show_step(old(self)@, d),
    {
        match self.nav.push(d) {
            Ok(()) => Ok(Effects {
                navigation: Some(NavMove::Push(d)),
                ..Effects::none()
            }),
            Err(e) => Err(e),
        }
    }

    /// Shows the session switcher.
    pub fn show_sessions(&mut self) -> (r: Result<Effects, NavError>)
        requires
            old(self).wf(),
        ensures
            final(self).wf(),
            (final(self)@, r) == show_step(old(self)@, Destination::Sessions),
    {
        self.show(Destination::Sessions)
    }

    /// Opens the search, cleared and focused.
    pub fn begin_chats_search(&mut self) -> (r: Effects)
        requires
            old(self).wf(),
        ensures
            final(self).wf(),
            (final(self)@, r) == search_step(old(self)@),
    {
        let navigation = match self.nav.push(Destination::Search) {
            Ok(()) => Some(NavMove::Push(Destination::Search)),
            Err(_) => None,
        };
        Effects { reset_search: true, navigation, ..Effects::none() }
    }

    /// Shows the archived chats.
    pub fn show_archived_chats(&mut self) -> (r: Result<Effects, NavError>)
        requires
            old(self).wf(),
        ensures
            final(self).wf(),
            (final(self)@, r) == show_step(old(self)@, Destination::ArchivedChats),
    {
        self.show(Destination::ArchivedChats)
    }

    /// Leaves the search for the chat list.
    pub fn close_search(&mut self) -> (r: Effects)
        requires
            old(self).wf(),
        ensures
            final(self).wf(),
            (final(self)@, r) == close_search_step(old(self)@),
    {
        self.nav.pop_to_chats();
        Effects { navigation: Some(NavMove::PopTo(Destination::Chats)), ..Effects::none() }
    }

    /// Runs `action`.
    pub fn activate(&mut self, action: SidebarAction) -> (r: Result<Effects, NavError>)
        requires
            old(self).wf(),
        ensures
            final(self).wf(),
            (final(self)@, r) == activate_step(old(self)@, action),
    {
        match action {
            SidebarAction::ShowSessions => self.show_sessions(),
            SidebarAction::StartSearch => Ok(self.begin_chats_search()),
            SidebarAction::ShowArchivedChats => self.show_archived_chats(),
            SidebarAction::MenuShowArchivedChats => self.show_archived_chats(),
            SidebarAction::MoveArchiveRowToChatList => Ok(self.move_archive_row()),
        }
    }

    /// The pane shown.
    pub fn top(&self) -> (r: Destination)
        requires
            self.wf(),
        ensures
            r == self@.stack.last(),
    {
        self.nav.top()
    }

    /// The number of panes on the stack.
    pub fn depth(&self) -> (r: usize)
        ensures
            r == self@.stack.len(),
    {
        self.nav.depth()
    }

    /// The bound session.
    pub fn session(&self) -> (r: Option<SessionInfo>)
        ensures
            r == self@.session,
    {
        self.session
    }

    /// The chat list that the folder bar selects.
    pub fn selected_chat_list(&self) -> (r: Option<u64>)
        ensures
            r == self@.selected_chat_list,
    {
        self.selected_chat_list
    }

    /// The archive-row-in-main-menu setting as last seen.
    pub fn archive_row_in_main_menu(&self) -> (r: bool)
        ensures
            r == self@.archive_row_in_main_menu,
    {
        self.archive_row_in_main_menu
    }

    /// Visibility of the folder bar and of the archive row.
    pub fn visibility(&self) -> (r: Visibility)
        ensures
            r == visibility_of(self@),
    {
        self.current_visibility()
    }

    /// Enablement of the two actions; none while no session is bound.
    pub fn action_states(&self) -> (r: Option<ActionStates>)
        ensures
            r == actions_after(self@.archive_row_in_main_menu, self@.session),
    {
        actions_for_session(self.archive_row_in_main_menu, self.session)
    }

    /// The view returned to pane `d` by itself.
    pub fn returned_to(&mut self, d: Destination) -> (r: Result<Effects, NavError>)
        requires
            old(self).wf(),
        ensures
            final(self).wf(),
            (final(self)@, r) == returned_to_step(old(self)@, d),
    {
        match self.nav.pop_to(d) {
            Ok(()) => Ok(Effects::none()),
            Err(e) => Err(e),
        }
    }

    /// Asks for the archive row to leave the main menu.
    pub fn move_archive_row(&self) -> (r: Effects)
        ensures
            (self@, r) == move_archive_row_step(self@),
    {
        Effects { write_archive_row_flag: Some(false), ..Effects::none() }
    }
}

} // verus!
