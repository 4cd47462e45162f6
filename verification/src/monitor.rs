use vstd::prelude::*;
use crate::format::{run_time_message, run_time_text};
use crate::games::{
    game_entry, game_index, games_view, lemma_game_index, lemma_with_game, names_unique,
    needs_session, with_game, with_last_run_time, with_session, Game, GameView,
};
use crate::system_provider::NotificationState;
use crate::watcher::ProcessInfo;

verus! {

/// The first, simpler watcher: it reports the run time of whatever
/// full-screen process is in front on every look, without an ignore list or
/// a pause between reports.
pub struct Monitor {
    games: Vec<Game>,
}

impl View for Monitor {
    type V = Seq<GameView>;

    closed spec fn view(&self) -> Seq<GameView> {
        games_view(self.games@)
    }
}

/// The monitor goes on to look at the foreground window when the state query
/// failed, a full-screen application is in front, or a Direct3D application
/// runs in exclusive full-screen mode.
pub open spec fn monitor_proceeds(state: Option<NotificationState>) -> bool {
    match state {
        None => true,
        Some(NotificationState::Busy) => true,
        Some(NotificationState::RunningD3dFullScreen) => true,
        Some(_) => false,
    }
}

/// The game list after seeing the game `name` in front as process `pid` at
/// `now`, running for `run_time` seconds: the game is added if new, a session
/// is started where the latest one is another process's, and the latest
/// session's run time is set.
pub open spec fn monitor_spec(pre: Seq<GameView>, pid: u32, name: Seq<char>, run_time: u64, now: u64) -> Seq<
    GameView,
> {
    let i = game_index(pre, name);
    let gs = with_game(pre, name);
    gs.update(i, with_last_run_time(with_session(gs[i], pid, now), run_time))
}

impl Monitor {
    /// The monitor's invariant: no two games share a name.
    pub open spec fn well_formed(&self) -> bool {
        names_unique(self@)
    }

    /// A monitor that has seen nothing.
    pub fn new() -> (m: Monitor)
        ensures
            m.well_formed(),
            m@ == Seq::<GameView>::empty(),
    {
        let m = Monitor { games: Vec::new() };
        assert(m@ =~= Seq::<GameView>::empty());
        m
    }

    /// The games seen so far.
    pub fn games(&self) -> (g: &Vec<Game>)
        ensures
            games_view(g@) == self@,
    {
        &self.games
    }

    /// Whether the monitor goes on to look at the foreground window after the
    /// notification state query (`None` when the query failed).
    pub fn proceeds(state: Option<NotificationState>) -> (r: bool)
        ensures
            r == monitor_proceeds(state),
    {
        match state {
            None => true,
            Some(NotificationState::Busy) => true,
            Some(NotificationState::RunningD3dFullScreen) => true,
            Some(_) => false,
        }
    }

    /// One look at the foreground process `pid` at `now`: nothing happens if
    /// no process was found; otherwise the game is tracked and the text of
    /// its run time is given to be sent.
    pub fn observe(&mut self, pid: u32, process: Option<&ProcessInfo>, now: u64) -> (msg: Option<String>)
        requires
            old(self).well_formed(),
        ensures
            final(self).well_formed(),
            match process {
                None => msg is None && final(self)@ == old(self)@,
                Some(p) => msg matches Some(m) && m@ == run_time_text(p.run_time) && final(self)@
                    == monitor_spec(old(self)@, pid, p.name@, p.run_time, now),
            },
    {
        match process {
            None => None,
            Some(p) => {
                let ghost pre = self@;
                proof {
                    lemma_with_game(pre, p.name@);
                }
                let i = game_entry(&mut self.games, &p.name);
                let ghost mid = games_view(self.games@);
                let mut g = self.games.remove(i);
                g.see_process(pid, now);
                g.set_last_run_time(p.run_time);
                self.games.insert(i, g);
                assert(self@ =~= monitor_spec(pre, pid, p.name@, p.run_time, now));
                assert forall|a: int, b: int|
                    0 <= a < self@.len() && 0 <= b < self@.len() && a != b implies self@[a].name
                    != self@[b].name by {
                    assert(self@[a].name == mid[a].name);
                    assert(self@[b].name == mid[b].name);
                }
                Some(run_time_message(p.run_time))
            },
        }
    }
}

/// Seeing the same process again adds neither a game nor a session: only
/// the run time of its latest session changes.
pub proof fn law_monitor_repeat_look(
    pre: Seq<GameView>,
    pid: u32,
    name: Seq<char>,
    first_run_time: u64,
    second_run_time: u64,
    first: u64,
    second: u64,
)
    requires
        names_unique(pre),
    ensures
        ({
            let mid = monitor_spec(pre, pid, name, first_run_time, first);
            let post = monitor_spec(mid, pid, name, second_run_time, second);
            let i = game_index(pre, name);
            &&& post.len() == mid.len()
            &&& post == mid.update(i, with_last_run_time(mid[i], second_run_time))
            &&& forall|k: int| 0 <= k < mid.len() ==> #[trigger] post[k].sessions.len() == mid[k].sessions.len()
        }),
{
    lemma_with_game(pre, name);
    let mid = monitor_spec(pre, pid, name, first_run_time, first);
    let i = game_index(pre, name);
    assert(mid[i].name == name);
    assert forall|a: int, b: int| 0 <= a < mid.len() && 0 <= b < mid.len() && a != b implies mid[a].name
        != mid[b].name by {
        assert(mid[a].name == with_game(pre, name)[a].name);
        assert(mid[b].name == with_game(pre, name)[b].name);
    }
    lemma_game_index(mid, name, i);
    assert(with_game(mid, name) == mid);
    assert(!needs_session(mid[i], pid));
}

/// The monitor looks at the foreground window exactly when the state query
/// failed, a full-screen application is in front, or a Direct3D application
/// runs in exclusive full-screen mode; the ordinary desktop states are passed
/// over.
pub proof fn law_monitor_proceeds_states(state: Option<NotificationState>)
    ensures
        monitor_proceeds(state) <==> (state is None || state == Some(NotificationState::Busy) || state
            == Some(NotificationState::RunningD3dFullScreen)),
        !monitor_proceeds(Some(NotificationState::AcceptsNotifications)),
        !monitor_proceeds(Some(NotificationState::NotPresent)),
        !monitor_proceeds(Some(NotificationState::QuietTime)),
        !monitor_proceeds(Some(NotificationState::PresentationMode)),
        !monitor_proceeds(Some(NotificationState::App)),
{
}

/// After a look at a found process, the game of that name has a latest
/// session owned by the process whose run time is the process's run time,
/// whether the session was just started or not; every other game stays as
/// it was.
pub proof fn law_monitor_records_run_time(
    pre: Seq<GameView>,
    pid: u32,
    name: Seq<char>,
    run_time: u64,
    now: u64,
)
    requires
        names_unique(pre),
    ensures
        ({
            let post = monitor_spec(pre, pid, name, run_time, now);
            exists|i: int|
                0 <= i < post.len() && #[trigger] post[i].name == name && post[i].sessions.len() > 0
                    && post[i].sessions.last().pid == pid && post[i].sessions.last().run_time
                    == run_time
        }),
        ({
            let post = monitor_spec(pre, pid, name, run_time, now);
            forall|k: int| 0 <= k < pre.len() && pre[k].name != name ==> #[trigger] post[k] == pre[k]
        }),
{
    lemma_with_game(pre, name);
    let post = monitor_spec(pre, pid, name, run_time, now);
    let i = game_index(pre, name);
    assert(post[i].name == name);
    assert forall|k: int| 0 <= k < pre.len() && pre[k].name != name implies #[trigger] post[k] == pre[k] by {
        assert(k != i);
        assert(with_game(pre, name)[k] == pre[k]);
    }
}

} // verus!
