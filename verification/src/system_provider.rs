use vstd::prelude::*;

verus! {

/// What the shell reports of the user's notification state.
#[derive(Clone, Copy, Debug, PartialEq, Eq, Structural)]
pub enum NotificationState {
    /// No full-screen application, no presentation, no quiet time.
    NotPresent,
    /// A full-screen application (a game or an F11 window) is in front.
    Busy,
    /// A Direct3D application runs in exclusive full-screen mode.
    RunningD3dFullScreen,
    /// Presentation mode is on.
    PresentationMode,
    /// Notifications may be shown.
    AcceptsNotifications,
    /// The quiet time after first sign-in.
    QuietTime,
    /// A Windows Store application is in front.
    App,
    /// A value the shell reported that none of the above names.
    Other(i32),
}

/// A rectangle in screen coordinates.
#[derive(Clone, Copy, Debug, PartialEq, Eq, Structural)]
pub struct Rect {
    pub left: i32,
    pub top: i32,
    pub right: i32,
    pub bottom: i32,
}

/// The process behind the foreground window, from what
/// `GetWindowThreadProcessId` gave back: its thread id (zero on failure)
/// and the process id it wrote.
pub fn foreground_pid(thread_id: u32, pid: u32) -> (r: Option<u32>)
    ensures
        r == (if thread_id == 0 { None } else { Some(pid) }),
{
    if thread_id == 0 {
        None
    } else {
        Some(pid)
    }
}

/// A window is full screen when both its monitor's area and its own
/// rectangle could be read and the two are the same rectangle.
pub fn is_fullscreen(monitor_read: bool, window_read: bool, window: Rect, monitor: Rect) -> (r: bool)
    ensures
        r == (monitor_read && window_read && window == monitor),
{
    if !monitor_read {
        return false;
    }
    if !window_read {
        return false;
    }
    window == monitor
}

/// The answer of the game lookup when no game is in front.
pub open spec fn no_game_found() -> Seq<char> {
    "ErrNoGameFound"@
}

/// The Windows system provider: finds the game in front and the product
/// name of a program.
#[derive(Clone, Copy)]
pub struct Win32Provider {}

impl Win32Provider {
    /// The process of the game in front, from what the system reported: the
    /// notification state (`None` when the query failed, which counts as no
    /// full-screen application), whether the foreground window is full
    /// screen, and what `GetWindowThreadProcessId` gave back. A game is in
    /// front only when the state is `Busy`, the window is full screen and the
    /// thread id is not zero; otherwise the answer is the error
    /// "ErrNoGameFound".
    pub fn game_pid_from(
        &self,
        state: Option<NotificationState>,
        fullscreen: bool,
        thread_id: u32,
        pid: u32,
    ) -> (r: Result<u32, String>)
        ensures
            (state == Some(NotificationState::Busy) && fullscreen && thread_id != 0) ==> r == Ok::<
                u32,
                String,
            >(pid),
            !(state == Some(NotificationState::Busy) && fullscreen && thread_id != 0) ==> (r matches Err(
                e,
            ) && e@ == no_game_found()),
    {
        let state = match state {
            Some(s) => s,
            None => NotificationState::NotPresent,
        };
        let busy = match state {
            NotificationState::Busy => true,
            _ => false,
        };
        if !busy || !fullscreen || thread_id == 0 {
            proof {
                reveal_strlit("ErrNoGameFound");
            }
            return Err(String::from_str("ErrNoGameFound"));
        }
        Ok(pid)
    }

    /// The product name of a program from its "Software.ProductName"
    /// property: the property when it could be read, else the empty text.
    pub fn product_name_from(&self, property: Option<String>) -> (r: Result<String, String>)
        ensures
            r matches Ok(name) && name@ == (match property {
                Some(p) => p@,
                None => Seq::<char>::empty(),
            }),
    {
        match property {
            Some(p) => Ok(p),
            None => Ok(String::new()),
        }
    }
}

} // verus!
