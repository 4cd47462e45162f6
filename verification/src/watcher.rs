use vstd::prelude::*;
use crate::format::{run_time_message, run_time_text};
use crate::games::{
    game_entry, game_index, games_view, has_game, lemma_game_index, lemma_with_game, names_unique,
    needs_session, with_game, with_last_run_time, with_session, Game, GameView,
};
use crate::ignore::{is_ignored, regex_set_compiles, regex_set_matches, strings_view};
use crate::system_provider::NotificationState;

verus! {

/// What the system told of the process behind the foreground window: its
/// executable name, the path of its executable, and how long (in seconds)
/// it has been running.
#[derive(Debug)]
pub struct ProcessInfo {
    pub name: String,
    pub exe: String,
    pub run_time: u64,
}

/// Why a look at the foreground window led to no report.
#[derive(Clone, Copy, Debug, PartialEq, Eq, Structural)]
pub enum SkipReason {
    /// The process could not be found.
    NoProcess,
    /// The process is this program itself.
    OwnProcess,
    /// The process name is on the ignore list.
    Ignored,
    /// The last report, or the start of the session, is too recent.
    TooSoon,
}

/// What the watcher decided after a look at the foreground window.
#[derive(Clone, Copy, Debug, PartialEq, Eq, Structural)]
pub enum Decision {
    Skip(SkipReason),
    /// Report the game at this index of the game list.
    Notify(usize),
}

/// The ignore list of the configuration does not compile.
#[derive(Clone, Copy, Debug, PartialEq, Eq, Structural)]
pub enum WatchError {
    InvalidIgnorePattern,
}

/// The watcher's memory: every game seen, with its sessions, and when the
/// overlay was last shown (milliseconds of a monotonic clock).
pub struct Watcher {
    games: Vec<Game>,
    last_shown: Option<u64>,
}

pub struct WatcherView {
    pub games: Seq<GameView>,
    pub last_shown: Option<u64>,
}

impl View for Watcher {
    type V = WatcherView;

    closed spec fn view(&self) -> WatcherView {
        WatcherView { games: games_view(self.games@), last_shown: self.last_shown }
    }
}

/// Milliseconds from `since` to `now`; zero if `now` is earlier.
pub open spec fn elapsed(now: u64, since: u64) -> int {
    if now >= since {
        now - since
    } else {
        0
    }
}

/// Less than `frequency` seconds have passed since the last showing.
pub open spec fn too_soon(last_shown: Option<u64>, now: u64, frequency: u32) -> bool {
    match last_shown {
        Some(t) => elapsed(now, t) < frequency * 1000,
        None => false,
    }
}

/// The watcher goes on to look at the foreground window when the state
/// query failed or a full-screen application is in front.
pub open spec fn watcher_proceeds(state: Option<NotificationState>) -> bool {
    match state {
        None => true,
        Some(NotificationState::Busy) => true,
        Some(_) => false,
    }
}

/// The watcher after seeing the game `name` in front as process `pid` at
/// `now`: the game is added if new, a session is started for the process if
/// the game's latest session is another process's (which also counts as a
/// showing at `now`), and the game is reported unless the last showing is
/// less than `frequency` seconds old.
pub open spec fn track_spec(pre: WatcherView, pid: u32, name: Seq<char>, now: u64, frequency: u32) -> (
    WatcherView,
    Decision,
) {
    let i = game_index(pre.games, name);
    let gs = with_game(pre.games, name);
    let started = needs_session(gs[i], pid);
    let last = if started {
        Some(now)
    } else {
        pre.last_shown
    };
    (
        WatcherView { games: gs.update(i, with_session(gs[i], pid, now)), last_shown: last },
        if too_soon(last, now, frequency) {
            Decision::Skip(SkipReason::TooSoon)
        } else {
            Decision::Notify(i as usize)
        },
    )
}

/// The watcher after one look at the foreground process `pid`, given what
/// was found of it (`name`: `None` if no process was found) and whether its
/// name is ignored: the process is skipped if missing, if it is this program
/// (`own_pid`) or if ignored; otherwise it is tracked.
pub open spec fn observe_spec(
    pre: WatcherView,
    pid: u32,
    own_pid: u32,
    name: Option<Seq<char>>,
    ignored: bool,
    now: u64,
    frequency: u32,
) -> (WatcherView, Decision) {
    match name {
        None => (pre, Decision::Skip(SkipReason::NoProcess)),
        Some(n) => if pid == own_pid {
            (pre, Decision::Skip(SkipReason::OwnProcess))
        } else if ignored {
            (pre, Decision::Skip(SkipReason::Ignored))
        } else {
            track_spec(pre, pid, n, now, frequency)
        },
    }
}

/// The name of the process found, if any.
pub open spec fn process_name(process: Option<&ProcessInfo>) -> Option<Seq<char>> {
    match process {
        Some(p) => Some(p.name@),
        None => None,
    }
}

/// The watcher after a report on game `i`: its friendly name is set and so
/// is the run time of its latest session.
pub open spec fn report_spec(pre: WatcherView, i: int, friendly_name: Seq<char>, run_time: u64) -> WatcherView {
    WatcherView {
        games: pre.games.update(
            i,
            with_last_run_time(GameView { friendly_name: friendly_name, ..pre.games[i] }, run_time),
        ),
        ..pre
    }
}

impl Watcher {
    /// The watcher's invariant: no two games share a name.
    pub open spec fn well_formed(&self) -> bool {
        names_unique(self@.games)
    }

    /// A watcher that has seen nothing and never shown the overlay.
    pub fn new() -> (w: Watcher)
        ensures
            w.well_formed(),
            w@.games == Seq::<GameView>::empty(),
            w@.last_shown == None::<u64>,
    {
        let w = Watcher { games: Vec::new(), last_shown: None };
        assert(w@.games =~= Seq::<GameView>::empty());
        w
    }

    /// Whether the watcher goes on to look at the foreground window after
    /// the notification state query (`None` when the query failed).
    pub fn proceeds(state: Option<NotificationState>) -> (r: bool)
        ensures
            r == watcher_proceeds(state),
    {
        match state {
            None => true,
            Some(NotificationState::Busy) => true,
            Some(_) => false,
        }
    }

    /// Whether the last showing is less than `frequency` seconds before `now`.
    fn shown_too_recently(&self, now: u64, frequency: u32) -> (r: bool)
        ensures
            r == too_soon(self@.last_shown, now, frequency),
    {
        match self.last_shown {
            Some(t) => {
                let e: u64 = if now >= t {
                    now - t
                } else {
                    0
                };
                e < (frequency as u64) * 1000
            },
            None => false,
        }
    }

    /// Sees the game `name` in front as process `pid` at `now`.
    pub fn track(&mut self, pid: u32, name: &String, now: u64, frequency: u32) -> (d: Decision)
        requires
            old(self).well_formed(),
        ensures
            final(self).well_formed(),
            (final(self)@, d) == track_spec(old(self)@, pid, name@, now, frequency),
    {
        let ghost pre = self@;
        proof {
            lemma_with_game(pre.games, name@);
        }
        let i = game_entry(&mut self.games, name);
        let ghost mid = games_view(self.games@);
        let mut g = self.games.remove(i);
        let started = g.see_process(pid, now);
        self.games.insert(i, g);
        assert(games_view(self.games@) =~= mid.update(i as int, with_session(mid[i as int], pid, now)));
        if started {
            self.last_shown = Some(now);
        }
        assert forall|a: int, b: int|
            0 <= a < self@.games.len() && 0 <= b < self@.games.len() && a != b implies self@.games[a].name
            != self@.games[b].name by {
            assert(self@.games[a].name == mid[a].name);
            assert(self@.games[b].name == mid[b].name);
        }
        if self.shown_too_recently(now, frequency) {
            Decision::Skip(SkipReason::TooSoon)
        } else {
            Decision::Notify(i)
        }
    }

    /// One look at the foreground process `pid`, given what was found of it
    /// and whether its name is on the ignore list.
    pub fn apply(
        &mut self,
        pid: u32,
        own_pid: u32,
        process: Option<&ProcessInfo>,
        ignored: bool,
        now: u64,
        frequency: u32,
    ) -> (d: Decision)
        requires
            old(self).well_formed(),
        ensures
            final(self).well_formed(),
            (final(self)@, d) == observe_spec(
                old(self)@,
                pid,
                own_pid,
                process_name(process),
                ignored,
                now,
                frequency,
            ),
    {
        match process {
            None => Decision::Skip(SkipReason::NoProcess),
            Some(p) => {
                if pid == own_pid {
                    Decision::Skip(SkipReason::OwnProcess)
                } else if ignored {
                    Decision::Skip(SkipReason::Ignored)
                } else {
                    self.track(pid, &p.name, now, frequency)
                }
            },
        }
    }

    /// One look at the foreground process `pid`: the process is skipped if
    /// missing or if it is this program; otherwise its name is held against
    /// the ignore list, which fails if the list does not compile, and a
    /// process that is not ignored is tracked.
    pub fn observe(
        &mut self,
        pid: u32,
        own_pid: u32,
        process: Option<&ProcessInfo>,
        ignore: &Vec<String>,
        now: u64,
        frequency: u32,
    ) -> (r: Result<Decision, WatchError>)
        requires
            old(self).well_formed(),
        ensures
            final(self).well_formed(),
            match process {
                None => r == Ok::<Decision, WatchError>(Decision::Skip(SkipReason::NoProcess))
                    && final(self)@ == old(self)@,
                Some(p) => if pid == own_pid {
                    r == Ok::<Decision, WatchError>(Decision::Skip(SkipReason::OwnProcess))
                        && final(self)@ == old(self)@
                } else if !regex_set_compiles(strings_view(ignore@)) {
                    r == Err::<Decision, WatchError>(WatchError::InvalidIgnorePattern)
                        && final(self)@ == old(self)@
                } else {
                    r matches Ok(d) && (final(self)@, d) == observe_spec(
                        old(self)@,
                        pid,
                        own_pid,
                        Some(p.name@),
                        regex_set_matches(strings_view(ignore@), p.name@),
                        now,
                        frequency,
                    )
                },
            },
    {
        match process {
            None => Ok(Decision::Skip(SkipReason::NoProcess)),
            Some(p) => {
                if pid == own_pid {
                    return Ok(Decision::Skip(SkipReason::OwnProcess));
                }
                match is_ignored(ignore, p.name.as_str()) {
                    Err(_) => Err(WatchError::InvalidIgnorePattern),
                    Ok(ignored) => Ok(self.apply(pid, own_pid, process, ignored, now, frequency)),
                }
            },
        }
    }

    /// Reports on game `i`: records its friendly name and the run time of
    /// its latest session, and gives the text to show.
    pub fn report(&mut self, i: usize, friendly_name: String, run_time: u64) -> (msg: String)
        requires
            old(self).well_formed(),
            i < old(self)@.games.len(),
            old(self)@.games[i as int].sessions.len() > 0,
        ensures
            final(self).well_formed(),
            final(self)@ == report_spec(old(self)@, i as int, friendly_name@, run_time),
            msg@ == run_time_text(run_time),
    {
        let ghost pre = self@;
        let mut g = self.games.remove(i);
        assert(g@ == pre.games[i as int]);
        g.friendly_name = friendly_name;
        g.set_last_run_time(run_time);
        self.games.insert(i, g);
        assert(self@.games =~= report_spec(pre, i as int, friendly_name@, run_time).games);
        assert forall|a: int, b: int|
            0 <= a < self@.games.len() && 0 <= b < self@.games.len() && a != b implies self@.games[a].name
            != self@.games[b].name by {
            assert(self@.games[a].name == pre.games[a].name);
            assert(self@.games[b].name == pre.games[b].name);
        }
        run_time_message(run_time)
    }

    /// The games seen so far.
    pub fn games(&self) -> (g: &Vec<Game>)
        ensures
            games_view(g@) == self@.games,
    {
        &self.games
    }

    /// When the overlay was last shown.
    pub fn last_shown(&self) -> (t: Option<u64>)
        ensures
            t == self@.last_shown,
    {
        self.last_shown
    }

    /// Records that the overlay was shown at `now`.
    pub fn mark_shown(&mut self, now: u64)
        ensures
            final(self)@ == (WatcherView { last_shown: Some(now), ..old(self)@ }),
    {
        self.last_shown = Some(now);
    }
}

/// Tracking keeps every game that was there, at its place and under its
/// name, adds at most one game, and keeps names unique.
pub proof fn law_track_keeps_games(pre: WatcherView, pid: u32, name: Seq<char>, now: u64, frequency: u32)
    requires
        names_unique(pre.games),
    ensures
        ({
            let post = track_spec(pre, pid, name, now, frequency).0;
            &&& names_unique(post.games)
            &&& pre.games.len() <= post.games.len() <= pre.games.len() + 1
            &&& forall|k: int| 0 <= k < pre.games.len() ==> #[trigger] post.games[k].name == pre.games[k].name
            &&& post.games.len() == pre.games.len() + 1 <==> !has_game(pre.games, name)
        }),
{
    lemma_with_game(pre.games, name);
    let post = track_spec(pre, pid, name, now, frequency).0;
    let gs = with_game(pre.games, name);
    assert forall|a: int, b: int|
        0 <= a < post.games.len() && 0 <= b < post.games.len() && a != b implies post.games[a].name
        != post.games[b].name by {
        assert(post.games[a].name == gs[a].name);
        assert(post.games[b].name == gs[b].name);
    }
    assert forall|k: int| 0 <= k < pre.games.len() implies #[trigger] post.games[k].name == pre.games[k].name by {
        assert(post.games[k].name == gs[k].name);
    }
}

/// A look that is skipped for a missing process, for this program's own
/// process or for an ignored name changes nothing.
pub proof fn law_skipped_look_changes_nothing(
    pre: WatcherView,
    pid: u32,
    own_pid: u32,
    name: Option<Seq<char>>,
    ignored: bool,
    now: u64,
    frequency: u32,
)
    requires
        names_unique(pre.games),
        observe_spec(pre, pid, own_pid, name, ignored, now, frequency).1 != Decision::Skip(
            SkipReason::TooSoon,
        ),
        observe_spec(pre, pid, own_pid, name, ignored, now, frequency).1 is Skip,
    ensures
        observe_spec(pre, pid, own_pid, name, ignored, now, frequency).0 == pre,
{
}

/// A report names the game that was seen, and that game's latest session is
/// the process that was seen, so the report can be made.
pub proof fn law_report_target(pre: WatcherView, pid: u32, name: Seq<char>, now: u64, frequency: u32)
    requires
        names_unique(pre.games),
        pre.games.len() < usize::MAX,
    ensures
        ({
            let (post, d) = track_spec(pre, pid, name, now, frequency);
            d matches Decision::Notify(i) ==> {
                &&& i < post.games.len()
                &&& post.games[i as int].name == name
                &&& post.games[i as int].sessions.len() > 0
                &&& post.games[i as int].sessions.last().pid == pid
            }
        }),
{
    lemma_with_game(pre.games, name);
}

/// The look that starts a new session does not report it (the start counts
/// as a showing), as long as reports are spaced at all.
pub proof fn law_new_session_not_reported(pre: WatcherView, pid: u32, name: Seq<char>, now: u64, frequency: u32)
    requires
        names_unique(pre.games),
        frequency > 0,
        needs_session(with_game(pre.games, name)[game_index(pre.games, name)], pid),
    ensures
        track_spec(pre, pid, name, now, frequency).1 == Decision::Skip(SkipReason::TooSoon),
{
}

/// No report comes less than `frequency` seconds after the last showing.
pub proof fn law_reports_are_spaced(
    pre: WatcherView,
    shown: u64,
    pid: u32,
    name: Seq<char>,
    now: u64,
    frequency: u32,
)
    requires
        names_unique(pre.games),
        pre.last_shown == Some(shown),
        shown <= now < shown + frequency * 1000,
    ensures
        track_spec(pre, pid, name, now, frequency).1 == Decision::Skip(SkipReason::TooSoon),
{
}

/// Seeing the same process again adds neither a game nor a session and
/// leaves the time of the last showing as it was.
pub proof fn law_repeat_look_adds_nothing(
    pre: WatcherView,
    pid: u32,
    name: Seq<char>,
    first: u64,
    second: u64,
    frequency: u32,
    other_frequency: u32,
)
    requires
        names_unique(pre.games),
    ensures
        ({
            let mid = track_spec(pre, pid, name, first, frequency).0;
            let post = track_spec(mid, pid, name, second, other_frequency).0;
            post.games == mid.games && post.last_shown == mid.last_shown
        }),
{
    lemma_with_game(pre.games, name);
    law_track_keeps_games(pre, pid, name, first, frequency);
    let mid = track_spec(pre, pid, name, first, frequency).0;
    let i = game_index(pre.games, name);
    assert(mid.games[i].name == name);
    lemma_game_index(mid.games, name, i);
    assert(with_game(mid.games, name) == mid.games);
    assert(!needs_session(mid.games[i], pid));
    assert(mid.games.update(i, mid.games[i]) =~= mid.games);
}

/// A report leaves the names of the games, the number of their sessions and
/// the time of the last showing as they were.
pub proof fn law_report_keeps_shape(pre: WatcherView, i: int, friendly_name: Seq<char>, run_time: u64)
    requires
        0 <= i < pre.games.len(),
        pre.games[i].sessions.len() > 0,
    ensures
        ({
            let post = report_spec(pre, i, friendly_name, run_time);
            &&& post.games.len() == pre.games.len()
            &&& post.last_shown == pre.last_shown
            &&& forall|k: int| 0 <= k < pre.games.len() ==> {
                &&& #[trigger] post.games[k].name == pre.games[k].name
                &&& post.games[k].sessions.len() == pre.games[k].sessions.len()
            }
            &&& post.games[i].friendly_name == friendly_name
            &&& post.games[i].sessions.last().run_time == run_time
        }),
{
}

/// A look at the process that already owns the game's latest session, when
/// the last showing is at least `frequency` seconds old (or there was none),
/// reports that game and changes nothing, however many sessions it has.
pub proof fn law_due_look_reports(
    pre: WatcherView,
    i: int,
    pid: u32,
    name: Seq<char>,
    now: u64,
    frequency: u32,
)
    requires
        names_unique(pre.games),
        pre.games.len() <= usize::MAX,
        0 <= i < pre.games.len(),
        pre.games[i].name == name,
        pre.games[i].sessions.len() > 0,
        pre.games[i].sessions.last().pid == pid,
        match pre.last_shown {
            None => true,
            Some(t) => t <= now && now - t >= frequency * 1000,
        },
    ensures
        track_spec(pre, pid, name, now, frequency).1 == Decision::Notify(i as usize),
        track_spec(pre, pid, name, now, frequency).0 == pre,
{
    lemma_game_index(pre.games, name, i);
    assert(pre.games.update(i, pre.games[i]) =~= pre.games);
}

/// A found process other than this program whose name is ignored is skipped
/// as ignored, and the watcher stays exactly as it was, whatever it holds.
pub proof fn law_ignored_look_changes_nothing(
    pre: WatcherView,
    pid: u32,
    own_pid: u32,
    name: Seq<char>,
    now: u64,
    frequency: u32,
)
    requires
        pid != own_pid,
    ensures
        observe_spec(pre, pid, own_pid, Some(name), true, now, frequency) == (
            pre,
            Decision::Skip(SkipReason::Ignored),
        ),
{
}

/// The watcher looks at the foreground window exactly when the state query
/// failed or a full-screen application is in front; every other state,
/// Direct3D exclusive mode included, is passed over.
pub proof fn law_watcher_proceeds_states(state: Option<NotificationState>)
    ensures
        watcher_proceeds(state) <==> (state is None || state == Some(NotificationState::Busy)),
        !watcher_proceeds(Some(NotificationState::AcceptsNotifications)),
        !watcher_proceeds(Some(NotificationState::RunningD3dFullScreen)),
{
}

} // verus!
