//! The notification-area icon: how its hidden owner window routes the
//! messages it receives, and the tooltip it shows. Creating the window and
//! the icon is the caller's.

use vstd::prelude::*;

use crate::messages::{
    WM_APP, WM_COMMAND, WM_CONTEXTMENU, WM_DESTROY, WM_ENDSESSION, WM_LBUTTONUP,
    WM_QUERYENDSESSION, WM_RBUTTONUP,
};

verus! {

/// Callback message the shell sends to the tray window.
pub const WM_APP_TRAY: u32 = WM_APP + 1;
/// Stable id of our single tray icon (per-window scope).
pub const TRAY_ICON_UID: u32 = 1;

pub const IDM_OPEN: u32 = 100;
pub const IDM_SETTINGS: u32 = 101;
pub const IDM_EXIT: u32 = 102;

/// Length of the tooltip buffer of a notification icon, in UTF-16 code
/// units, terminator included.
pub const TIP_CAPACITY: usize = 128;

/// `WM_APP_TRAY` packs the mouse message in the LOW word of
/// lparam under NOTIFYICON_VERSION_4 (and as the entire lparam under the
/// legacy versions). Extracting just the low word handles both.
pub fn tray_event(lparam: isize) -> (event: u32)
    ensures
        event == (lparam & 0xFFFF) as int,
        event <= 0xFFFF,
{
    let low = lparam & 0xFFFF;
    assert(0 <= low <= 0xFFFF) by (bit_vector)
        requires
            low == lparam & 0xFFFF,
    ;
    low as u32
}

/// What the tray window does with a message.
#[derive(Copy, Clone, Debug, PartialEq, Eq, Structural)]
pub enum TrayRoute {
    /// Explorer restarted (`TaskbarCreated`): add the icon again.
    ReAddIcon,
    /// Shutdown query: answer at once that the window is ready.
    ReadyToEndSession,
    /// The session ends: remove the icon when `remove_icon` (the session
    /// really ends), then return.
    EndSession { remove_icon: bool },
    /// Ask the main window to restore and foreground itself.
    ShowMain,
    /// Show the context menu.
    ShowMenu,
    /// Show the settings dialog.
    OpenSettings,
    /// Ask the main window to exit.
    ExitApp,
    /// Handled: nothing to do, answer 0.
    Ignore,
    /// The tray window is being destroyed: remove the icon, free its state.
    Destroy,
    /// Default window procedure.
    Default,
}

/// The route of a tray-window message, given the id of the registered
/// `TaskbarCreated` message (0 where registration failed, which matches
/// nothing).
pub open spec fn tray_route(msg: u32, wparam: usize, lparam: isize, taskbar_created: u32) -> TrayRoute {
    if taskbar_created != 0 && msg == taskbar_created {
        TrayRoute::ReAddIcon
    } else if msg == WM_QUERYENDSESSION {
        TrayRoute::ReadyToEndSession
    } else if msg == WM_ENDSESSION {
        TrayRoute::EndSession { remove_icon: wparam != 0 }
    } else if msg == WM_APP_TRAY {
        let event = (lparam & 0xFFFF) as int;
        if event == WM_LBUTTONUP {
            TrayRoute::ShowMain
        } else if event == WM_RBUTTONUP || event == WM_CONTEXTMENU {
            TrayRoute::ShowMenu
        } else {
            TrayRoute::Ignore
        }
    } else if msg == WM_COMMAND {
        let command = (wparam & 0xFFFF) as int;
        if command == IDM_OPEN {
            TrayRoute::ShowMain
        } else if command == IDM_SETTINGS {
            TrayRoute::OpenSettings
        } else if command == IDM_EXIT {
            TrayRoute::ExitApp
        } else {
            TrayRoute::Ignore
        }
    } else if msg == WM_DESTROY {
        TrayRoute::Destroy
    } else {
        TrayRoute::Default
    }
}

/// Decides what the tray window's procedure does with `msg`.
pub fn route_tray_message(msg: u32, wparam: usize, lparam: isize, taskbar_created: u32) -> (route: TrayRoute)
    ensures
        route == tray_route(msg, wparam, lparam, taskbar_created),
{
    // Re-create the icon when explorer restarts: the shell broadcasts
    // `TaskbarCreated` to all top-level windows after it rebuilds the
    // notification area.
    if taskbar_created != 0 && msg == taskbar_created {
        return TrayRoute::ReAddIcon;
    }
    if msg == WM_QUERYENDSESSION {
        TrayRoute::ReadyToEndSession
    } else if msg == WM_ENDSESSION {
        TrayRoute::EndSession { remove_icon: wparam != 0 }
    } else if msg == WM_APP_TRAY {
        let event = tray_event(lparam);
        if event == WM_LBUTTONUP {
            TrayRoute::ShowMain
        } else if event == WM_RBUTTONUP || event == WM_CONTEXTMENU {
            TrayRoute::ShowMenu
        } else {
            TrayRoute::Ignore
        }
    } else if msg == WM_COMMAND {
        // LOWORD(wparam) is the menu id.
        let low = wparam & 0xFFFF;
        assert(low <= 0xFFFF) by (bit_vector)
            requires
                low == wparam & 0xFFFF,
        ;
        let command = low as u32;
        if command == IDM_OPEN {
            TrayRoute::ShowMain
        } else if command == IDM_SETTINGS {
            TrayRoute::OpenSettings
        } else if command == IDM_EXIT {
            TrayRoute::ExitApp
        } else {
            TrayRoute::Ignore
        }
    } else if msg == WM_DESTROY {
        TrayRoute::Destroy
    } else {
        TrayRoute::Default
    }
}

/// The tooltip buffer for `tip`: `capacity` code units holding as much of
/// `tip` as fits before a terminating NUL, then zeros.
pub open spec fn tip_buffer(tip: Seq<u16>, capacity: int) -> Seq<u16> {
    let copied = if tip.len() < capacity - 1 { tip.len() as int } else { capacity - 1 };
    Seq::new(capacity as nat, |i: int| if i < copied { tip[i] } else { 0u16 })
}

/// Fills a zeroed tooltip buffer of `capacity` code units with `tip`,
/// truncated so that the last cell stays the NUL terminator.
pub fn tooltip_buffer(tip: &[u16], capacity: usize) -> (buffer: Vec<u16>)
    requires
        capacity >= 1,
    ensures
        buffer@ == tip_buffer(tip@, capacity as int),
{
    let copy_len = if tip.len() < capacity - 1 {
        tip.len()
    } else {
        capacity - 1
    };
    let mut buffer: Vec<u16> = Vec::new();
    let mut i: usize = 0;
    while i < capacity
        invariant
            0 <= i <= capacity,
            copy_len <= tip@.len(),
            copy_len == (if tip@.len() < capacity - 1 { tip@.len() as int } else { capacity - 1 }),
            buffer@.len() == i,
            forall|k: int| 0 <= k < i ==> buffer@[k] == (if k < copy_len { tip@[k] } else { 0u16 }),
        decreases capacity - i,
    {
        if i < copy_len {
            buffer.push(tip[i]);
        } else {
            buffer.push(0);
        }
        i = i + 1;
    }
    assert(buffer@ == tip_buffer(tip@, capacity as int));
    buffer
}

/// Whether `id` can be the id of the registered `TaskbarCreated` message,
/// or 0 where registration failed: registered ids lie in `0xC000..=0xFFFF`.
pub open spec fn registered_or_none(id: u32) -> bool {
    id == 0 || 0xC000 <= id <= 0xFFFF
}

/// The tray window's routes. On the icon callback (`WM_APP + 1` = 0x8001)
/// only the low word of `lparam` counts (the mouse message under
/// NOTIFYICON_VERSION_4, where the high word holds the icon id): a left
/// button release (0x0202) shows the main window, a right button release
/// (0x0205) or context-menu key (0x007B) shows the menu, anything else is
/// ignored. On `WM_COMMAND` (0x0111) the low word of `wparam` is the menu
/// item: Open (100) shows the main window, Settings (101) opens the
/// dialog, Exit (102) exits, others are ignored. A shutdown query (0x0011)
/// is answered at once; session end (0x0016) removes the icon when
/// `wparam` is nonzero; `WM_DESTROY` (0x0002) cleans up; `TaskbarCreated`
/// re-adds the icon.
pub proof fn lemma_tray_routes(wparam: usize, lparam: isize, tc: u32)
    requires
        registered_or_none(tc),
    ensures
        ({
            let event = lparam & 0xFFFF;
            let route = tray_route(0x8001, wparam, lparam, tc);
            &&& event == 0x0202 ==> route == TrayRoute::ShowMain
            &&& (event == 0x0205 || event == 0x007B) ==> route == TrayRoute::ShowMenu
            &&& (event != 0x0202 && event != 0x0205 && event != 0x007B) ==> route == TrayRoute::Ignore
        }),
        ({
            let command = wparam & 0xFFFF;
            let route = tray_route(0x0111, wparam, lparam, tc);
            &&& command == 100 ==> route == TrayRoute::ShowMain
            &&& command == 101 ==> route == TrayRoute::OpenSettings
            &&& command == 102 ==> route == TrayRoute::ExitApp
            &&& (command != 100 && command != 101 && command != 102) ==> route == TrayRoute::Ignore
        }),
        tray_route(0x0011, wparam, lparam, tc) == TrayRoute::ReadyToEndSession,
        tray_route(0x0016, wparam, lparam, tc) == (TrayRoute::EndSession { remove_icon: wparam != 0 }),
        tray_route(0x0002, wparam, lparam, tc) == TrayRoute::Destroy,
        tc != 0 ==> tray_route(tc, wparam, lparam, tc) == TrayRoute::ReAddIcon,
{
}

/// On the icon callback the route depends on `lparam` only through its low
/// word: callbacks whose low words agree are routed alike.
pub proof fn lemma_tray_callback_reads_low_word(wparam: usize, lparam1: isize, lparam2: isize, tc: u32)
    requires
        registered_or_none(tc),
        lparam1 & 0xFFFF == lparam2 & 0xFFFF,
    ensures
        tray_route(0x8001, wparam, lparam1, tc) == tray_route(0x8001, wparam, lparam2, tc),
{
}

/// The tooltip buffer is `capacity` long, begins with as much of the tip
/// as fits while leaving room for the terminator, and is NUL from there on.
pub proof fn lemma_tip_buffer_is_terminated(tip: Seq<u16>, capacity: int)
    requires
        capacity >= 1,
    ensures
        ({
            let buf = tip_buffer(tip, capacity);
            let n = if tip.len() <= capacity - 1 { tip.len() as int } else { capacity - 1 };
            &&& buf.len() == capacity
            &&& forall|i: int| 0 <= i < n ==> #[trigger] buf[i] == tip[i]
            &&& forall|i: int| n <= i < capacity ==> #[trigger] buf[i] == 0
            &&& buf[capacity - 1] == 0
        }),
{
}

} // verus!
