use vstd::prelude::*;

verus! {

/// A stretch of time in which a session's window had the focus: its start
/// and its end, in milliseconds of a monotonic clock (`None` while unknown).
#[derive(Clone, Copy, Debug, PartialEq, Eq, Structural)]
pub struct FocusSpan(pub Option<u64>, pub Option<u64>);

/// One run of a game: the process it ran as, when it had the focus, and how
/// long (in seconds) it had been running when last seen.
#[derive(Debug)]
pub struct Session {
    pub pid: u32,
    pub focus_spans: Vec<FocusSpan>,
    pub run_time: u64,
}

/// A program that was seen in front, full screen, with its sessions.
#[derive(Debug)]
pub struct Game {
    pub name: String,
    pub friendly_name: String,
    pub focus_time_total: u64,
    pub focus_time_7_days: u64,
    pub run_time_total: u64,
    pub run_time_7_days: u64,
    pub sessions: Vec<Session>,
}

pub struct SessionView {
    pub pid: u32,
    pub focus_spans: Seq<FocusSpan>,
    pub run_time: u64,
}

pub struct GameView {
    pub name: Seq<char>,
    pub friendly_name: Seq<char>,
    pub focus_time_total: u64,
    pub focus_time_7_days: u64,
    pub run_time_total: u64,
    pub run_time_7_days: u64,
    pub sessions: Seq<SessionView>,
}

impl View for Session {
    type V = SessionView;

    open spec fn view(&self) -> SessionView {
        SessionView { pid: self.pid, focus_spans: self.focus_spans@, run_time: self.run_time }
    }
}

impl View for Game {
    type V = GameView;

    open spec fn view(&self) -> GameView {
        GameView {
            name: self.name@,
            friendly_name: self.friendly_name@,
            focus_time_total: self.focus_time_total,
            focus_time_7_days: self.focus_time_7_days,
            run_time_total: self.run_time_total,
            run_time_7_days: self.run_time_7_days,
            sessions: self.sessions@.map_values(|s: Session| s@),
        }
    }
}

/// The view of a list of games.
pub open spec fn games_view(games: Seq<Game>) -> Seq<GameView> {
    games.map_values(|g: Game| g@)
}

/// A game seen for the first time: its friendly name is its name, every
/// counter is zero and it has no session.
pub open spec fn fresh_game(name: Seq<char>) -> GameView {
    GameView {
        name: name,
        friendly_name: name,
        focus_time_total: 0,
        focus_time_7_days: 0,
        run_time_total: 0,
        run_time_7_days: 0,
        sessions: Seq::empty(),
    }
}

/// A session that starts now: the process, one focus span open since `now`,
/// and no run time yet.
pub open spec fn fresh_session(pid: u32, now: u64) -> SessionView {
    SessionView { pid: pid, focus_spans: seq![FocusSpan(Some(now), None)], run_time: 0 }
}

/// No two games of the list have the same name.
pub open spec fn names_unique(gs: Seq<GameView>) -> bool {
    forall|i: int, j: int| 0 <= i < gs.len() && 0 <= j < gs.len() && i != j ==> gs[i].name != gs[j].name
}

/// The list holds a game of this name.
pub open spec fn has_game(gs: Seq<GameView>, name: Seq<char>) -> bool {
    exists|i: int| 0 <= i < gs.len() && gs[i].name == name
}

/// Where the game of this name stands, or the length of the list where
/// there is none (the place it takes when it is added).
pub open spec fn game_index(gs: Seq<GameView>, name: Seq<char>) -> int {
    if has_game(gs, name) {
        choose|i: int| 0 <= i < gs.len() && gs[i].name == name
    } else {
        gs.len() as int
    }
}

/// The list after looking up the game of this name, adding a fresh one if
/// there is none.
pub open spec fn with_game(gs: Seq<GameView>, name: Seq<char>) -> Seq<GameView> {
    if has_game(gs, name) {
        gs
    } else {
        gs.push(fresh_game(name))
    }
}

/// The game needs a new session for `pid`: it has none, or its latest
/// session belongs to another process.
pub open spec fn needs_session(g: GameView, pid: u32) -> bool {
    g.sessions.len() == 0 || g.sessions.last().pid != pid
}

/// The game after seeing process `pid` at `now`: a fresh session is added
/// where one is needed.
pub open spec fn with_session(g: GameView, pid: u32, now: u64) -> GameView {
    if needs_session(g, pid) {
        GameView { sessions: g.sessions.push(fresh_session(pid, now)), ..g }
    } else {
        g
    }
}

/// The game with the run time of its latest session set.
pub open spec fn with_last_run_time(g: GameView, run_time: u64) -> GameView {
    GameView {
        sessions: g.sessions.update(
            g.sessions.len() - 1,
            SessionView { run_time: run_time, ..g.sessions.last() },
        ),
        ..g
    }
}

/// In a list without repeated names, the index of a present name is the one
/// that holds it.
pub proof fn lemma_game_index(gs: Seq<GameView>, name: Seq<char>, i: int)
    requires
        names_unique(gs),
        0 <= i < gs.len(),
        gs[i].name == name,
    ensures
        has_game(gs, name),
        game_index(gs, name) == i,
{
}

/// Adding a game by name keeps names unique, and the game then stands at
/// `game_index` with that name.
pub proof fn lemma_with_game(gs: Seq<GameView>, name: Seq<char>)
    requires
        names_unique(gs),
    ensures
        names_unique(with_game(gs, name)),
        0 <= game_index(gs, name) < with_game(gs, name).len(),
        with_game(gs, name)[game_index(gs, name)].name == name,
        with_game(gs, name).len() == gs.len() + (if has_game(gs, name) { 0int } else { 1int }),
{
    if has_game(gs, name) {
        let i = choose|i: int| 0 <= i < gs.len() && gs[i].name == name;
        assert(0 <= i < gs.len() && gs[i].name == name);
    }
}

impl Game {
    /// A game seen for the first time, named `name`.
    pub fn new(name: String) -> (g: Game)
        ensures
            g@ == fresh_game(name@),
    {
        let friendly_name = name.clone();
        let g = Game {
            name: name,
            friendly_name: friendly_name,
            focus_time_total: 0,
            focus_time_7_days: 0,
            run_time_total: 0,
            run_time_7_days: 0,
            sessions: Vec::new(),
        };
        assert(g@.sessions =~= Seq::<SessionView>::empty());
        g
    }

    /// Starts a session for process `pid` at `now` where one is needed;
    /// tells whether it did.
    pub fn see_process(&mut self, pid: u32, now: u64) -> (started: bool)
        ensures
            started == needs_session(old(self)@, pid),
            final(self)@ == with_session(old(self)@, pid, now),
            final(self).sessions.len() > 0,
    {
        let n = self.sessions.len();
        if n == 0 || self.sessions[n - 1].pid != pid {
            let mut spans: Vec<FocusSpan> = Vec::new();
            spans.push(FocusSpan(Some(now), None));
            let s = Session { pid: pid, focus_spans: spans, run_time: 0 };
            assert(s@ == fresh_session(pid, now)) by {
                assert(s@.focus_spans =~= seq![FocusSpan(Some(now), None)]);
            }
            self.sessions.push(s);
            assert(self@.sessions =~= old(self)@.sessions.push(fresh_session(pid, now)));
            true
        } else {
            false
        }
    }

    /// Sets the run time of the latest session.
    pub fn set_last_run_time(&mut self, run_time: u64)
        requires
            old(self).sessions.len() > 0,
        ensures
            final(self)@ == with_last_run_time(old(self)@, run_time),
    {
        let n = self.sessions.len();
        let mut last = self.sessions.pop().unwrap();
        last.run_time = run_time;
        self.sessions.push(last);
        assert(self@.sessions =~= old(self)@.sessions.update(
            n - 1,
            SessionView { run_time: run_time, ..old(self)@.sessions.last() },
        ));
    }
}

/// Looks up the game of this name.
pub fn find_game(games: &Vec<Game>, name: &String) -> (r: Option<usize>)
    requires
        names_unique(games_view(games@)),
    ensures
        match r {
            Some(i) => has_game(games_view(games@), name@) && i as int == game_index(
                games_view(games@),
                name@,
            ),
            None => !has_game(games_view(games@), name@),
        },
{
    let ghost gs = games_view(games@);
    let mut i: usize = 0;
    while i < games.len()
        invariant
            i <= games.len(),
            gs == games_view(games@),
            names_unique(gs),
            forall|j: int| 0 <= j < i ==> gs[j].name != name@,
        decreases games.len() - i,
    {
        if games[i].name == *name {
            proof {
                lemma_game_index(gs, name@, i as int);
            }
            return Some(i);
        }
        i = i + 1;
    }
    None
}

/// The index of the game of this name, which is added fresh if it is not
/// there yet.
pub fn game_entry(games: &mut Vec<Game>, name: &String) -> (i: usize)
    requires
        names_unique(games_view(old(games)@)),
    ensures
        games_view(final(games)@) == with_game(games_view(old(games)@), name@),
        i as int == game_index(games_view(old(games)@), name@),
        i < final(games).len(),
        names_unique(games_view(final(games)@)),
{
    proof {
        lemma_with_game(games_view(games@), name@);
    }
    match find_game(games, name) {
        Some(i) => i,
        None => {
            let i = games.len();
            games.push(Game::new(name.clone()));
            assert(games_view(games@) =~= games_view(old(games)@).push(fresh_game(name@)));
            i
        },
    }
}

} // verus!
