//! The monitor session: the registry of per-player scenes, how the events of
//! the live stream change it, and how browser commands map onto upstream
//! commands.

use crate::clock::{in_bound, TIME_BOUND};
use crate::judge::UpstreamJudge;
use crate::scene::{events_in_bound, judges_pushed, scene_started, GameScene, START_DELAY};
use crate::touch::{apply_frames, TouchFrame};
use vstd::prelude::*;

verus! {

/// State of a room as the game server reports it.
#[derive(Debug, Clone, Copy, PartialEq, Eq, Structural)]
pub enum RoomState {
    /// Choosing a chart, with the chart chosen so far.
    SelectChart(Option<i32>),
    WaitingForReady,
    Playing,
}

/// An event of the live stream, reduced to what the session acts on.
#[derive(Debug)]
pub enum LiveEvent {
    /// Authentication succeeded; the room the monitor is in, if any.
    Authenticated(Option<RoomState>),
    AuthFailed,
    /// Joined a room with these players, in this state.
    Joined { users: Vec<i32>, state: RoomState },
    JoinFailed,
    Left,
    /// Touch frames of a player.
    Touches { player: i32, frames: Vec<TouchFrame> },
    Judges { player: i32, judges: Vec<UpstreamJudge> },
    StateChange(RoomState),
    UserJoin(i32),
    UserLeave(i32),
    /// A chat message announcing the chosen chart.
    SelectChart(i32),
    /// Any other chat message.
    OtherMessage,
}

/// Commands of the browser.
#[derive(Debug, Clone, Copy, PartialEq, Eq, Structural)]
pub enum WsCommand {
    Join { room_id: i32 },
    Leave,
    Ready,
}

/// Commands to the game server.
#[derive(Debug, Clone, Copy, PartialEq, Eq, Structural)]
pub enum ClientCommand {
    JoinRoom { id: i32, monitor: bool },
    LeaveRoom,
    Ready,
    Ping,
}

/// The upstream command of a browser command: a join is always a join as
/// monitor.
pub fn translate_command(cmd: WsCommand) -> (r: ClientCommand)
    ensures
        r == match cmd {
            WsCommand::Join { room_id } => ClientCommand::JoinRoom { id: room_id, monitor: true },
            WsCommand::Leave => ClientCommand::LeaveRoom,
            WsCommand::Ready => ClientCommand::Ready,
        },
{
    match cmd {
        WsCommand::Join { room_id } => ClientCommand::JoinRoom { id: room_id, monitor: true },
        WsCommand::Leave => ClientCommand::LeaveRoom,
        WsCommand::Ready => ClientCommand::Ready,
    }
}

/// Whether a scene is as `GameScene::new_headless` makes it for `id`.
pub open spec fn fresh_scene(s: GameScene, id: i32) -> bool {
    &&& s.wf()
    &&& s.user_id == id
    &&& !s.attached
    &&& s.chart_renderer is None
    &&& s.time.pause_wall is Some
    &&& s.judge_pause_time is None
    &&& s.target_time is None
    &&& s.unpause_signal is None
    &&& s.start_wall_time is None
    &&& s.pending_judges@.len() == 0
    &&& s.fx is None
}

/// The players of a list of scenes, in order.
pub open spec fn ids_of(s: Seq<GameScene>) -> Seq<i32> {
    s.map_values(|g: GameScene| g.user_id)
}

/// The scenes after `ids` joined, in order: a fresh scene at the end for each
/// player who has none yet.
pub open spec fn joined_ids(ids: Seq<i32>, users: Seq<i32>) -> Seq<i32>
    decreases users.len(),
{
    if users.len() == 0 {
        ids
    } else {
        let before = joined_ids(ids, users.drop_last());
        if before.contains(users.last()) {
            before
        } else {
            before.push(users.last())
        }
    }
}

proof fn lemma_unique_index(sc: Seq<GameScene>, k: int)
    requires
        ids_of(sc).no_duplicates(),
        0 <= k < sc.len(),
    ensures
        forall|i: int| 0 <= i < sc.len() && i != k ==> sc[i].user_id != sc[k].user_id,
{
    assert forall|i: int| 0 <= i < sc.len() && i != k implies sc[i].user_id != sc[k].user_id by {
        assert(ids_of(sc)[i] == sc[i].user_id);
        assert(ids_of(sc)[k] == sc[k].user_id);
    }
}

proof fn lemma_absent(sc: Seq<GameScene>, id: i32)
    requires
        !ids_of(sc).contains(id),
    ensures
        forall|i: int| 0 <= i < sc.len() ==> sc[i].user_id != id,
{
    assert forall|i: int| 0 <= i < sc.len() implies sc[i].user_id != id by {
        assert(ids_of(sc)[i] == sc[i].user_id);
    }
}

/// The scene registry of a session and the chart chosen in its room.
pub struct GameMonitor {
    pub scenes: Vec<GameScene>,
    pub selected_chart_id: Option<i32>,
}

impl GameMonitor {
    /// At most one scene per player, each well formed.
    pub open spec fn wf(&self) -> bool {
        &&& ids_of(self.scenes@).no_duplicates()
        &&& forall|i: int| 0 <= i < self.scenes@.len() ==> (#[trigger] self.scenes@[i]).wf()
    }

    pub open spec fn ids(&self) -> Seq<i32> {
        ids_of(self.scenes@)
    }

    pub fn new() -> (r: GameMonitor)
        ensures
            r.wf(),
            r.scenes@.len() == 0,
            r.selected_chart_id is None,
    {
        GameMonitor { scenes: Vec::new(), selected_chart_id: None }
    }

    /// The position of the scene of `id`.
    pub fn find_scene(&self, id: i32) -> (r: Option<usize>)
        ensures
            match r {
                Some(k) => k < self.scenes@.len() && self.scenes@[k as int].user_id == id,
                None => !self.ids().contains(id),
            },
    {
        let mut k: usize = 0;
        while k < self.scenes.len()
            invariant
                0 <= k <= self.scenes@.len(),
                forall|j: int| 0 <= j < k ==> self.scenes@[j].user_id != id,
            decreases self.scenes@.len() - k,
        {
            if self.scenes[k].user_id == id {
                return Some(k);
            }
            k = k + 1;
        }
        proof {
            if self.ids().contains(id) {
                let j = choose|j: int| 0 <= j < self.ids().len() && self.ids()[j] == id;
                assert(self.scenes@[j].user_id == id);
            }
        }
        None
    }

    /// Adds a headless scene for `id` unless it has one.
    pub fn ensure_scene(&mut self, id: i32, wall: i64)
        requires
            old(self).wf(),
            0 <= wall <= TIME_BOUND,
        ensures
            final(self).wf(),
            final(self).selected_chart_id == old(self).selected_chart_id,
            old(self).ids().contains(id) ==> final(self).scenes@ == old(self).scenes@,
            !old(self).ids().contains(id) ==> {
                &&& final(self).scenes@.len() == old(self).scenes@.len() + 1
                &&& final(self).scenes@.drop_last() == old(self).scenes@
                &&& fresh_scene(final(self).scenes@.last(), id)
            },
            final(self).ids() == if old(self).ids().contains(id) {
                old(self).ids()
            } else {
                old(self).ids().push(id)
            },
    {
        match self.find_scene(id) {
            Some(k) => {
                proof {
                    assert(self.ids()[k as int] == id);
                }
            },
            None => {
                let s = GameScene::new_headless(id, wall);
                self.scenes.push(s);
                proof {
                    assert(self.scenes@.drop_last() =~= old(self).scenes@);
                    assert(self.ids() =~= old(self).ids().push(id));
                    assert forall|i: int, j: int|
                        0 <= i < self.ids().len() && 0 <= j < self.ids().len() && i != j implies self.ids()[i]
                        != self.ids()[j] by {
                        if i < old(self).ids().len() && j < old(self).ids().len() {
                            assert(old(self).ids()[i] != old(self).ids()[j]);
                        } else if i < old(self).ids().len() {
                            assert(old(self).ids()[i] == self.ids()[i]);
                        } else {
                            assert(old(self).ids()[j] == self.ids()[j]);
                        }
                    }
                }
            },
        }
    }

    /// Drops the scene of `id`, if any.
    pub fn destroy_scene(&mut self, id: i32)
        requires
            old(self).wf(),
        ensures
            final(self).wf(),
            final(self).selected_chart_id == old(self).selected_chart_id,
            !final(self).ids().contains(id),
            !old(self).ids().contains(id) ==> final(self).scenes@ == old(self).scenes@,
            forall|k: int|
                0 <= k < old(self).scenes@.len() && old(self).scenes@[k].user_id == id
                    ==> final(self).scenes@ == old(self).scenes@.remove(k),
    {
        match self.find_scene(id) {
            Some(k) => {
                let _ = self.scenes.remove(k);
                proof {
                    let o = old(self).ids();
                    assert(o[k as int] == id);
                    assert forall|j: int|
                        0 <= j < old(self).scenes@.len() && old(self).scenes@[j].user_id == id implies j == k by {
                        assert(o[j] == old(self).scenes@[j].user_id);
                        if j != k {
                            assert(o[j] == o[k as int]);
                        }
                    }
                    assert(self.ids() =~= o.remove(k as int));
                    assert forall|j: int| 0 <= j < o.len() && o[j] == id implies j == k by {
                        if j != k {
                            assert(o[j] == o[k as int]);
                        }
                    }
                    assert forall|j: int| 0 <= j < self.ids().len() implies self.ids()[j] != id by {
                        if j < k {
                            assert(self.ids()[j] == o[j]);
                        } else {
                            assert(self.ids()[j] == o[j + 1]);
                        }
                    }
                    assert forall|i: int, j: int|
                        0 <= i < self.ids().len() && 0 <= j < self.ids().len() && i != j implies self.ids()[i]
                        != self.ids()[j] by {
                        let oi = if i < k { i } else { i + 1 };
                        let oj = if j < k { j } else { j + 1 };
                        assert(self.ids()[i] == o[oi]);
                        assert(self.ids()[j] == o[oj]);
                    }
                    assert forall|i: int| 0 <= i < self.scenes@.len() implies (#[trigger] self.scenes@[i]).wf() by {
                        let oi = if i < k { i } else { i + 1 };
                        assert(self.scenes@[i] == old(self).scenes@[oi]);
                    }
                }
            },
            None => {
                proof {
                    assert forall|j: int| 0 <= j < old(self).scenes@.len() implies old(self).scenes@[j].user_id != id by {
                        assert(old(self).ids()[j] == old(self).scenes@[j].user_id);
                    }
                }
            },
        }
    }

    /// Marks the start of the game in every scene (see `GameScene::start`).
    pub fn start_all_scenes(&mut self, wall: i64)
        requires
            old(self).wf(),
            0 <= wall <= TIME_BOUND - START_DELAY,
        ensures
            final(self).wf(),
            final(self).selected_chart_id == old(self).selected_chart_id,
            final(self).scenes@.len() == old(self).scenes@.len(),
            forall|i: int|
                0 <= i < old(self).scenes@.len() ==> {
                    let o = #[trigger] old(self).scenes@[i];
                    let s = final(self).scenes@[i];
                    scene_started(s, o, wall)
                },
    {
        let mut k: usize = 0;
        while k < self.scenes.len()
            invariant
                0 <= k <= self.scenes@.len(),
                self.scenes@.len() == old(self).scenes@.len(),
                self.selected_chart_id == old(self).selected_chart_id,
                0 <= wall <= TIME_BOUND - START_DELAY,
                forall|i: int| 0 <= i < self.scenes@.len() ==> (#[trigger] self.scenes@[i]).wf(),
                forall|i: int| k <= i < self.scenes@.len() ==> self.scenes@[i] == old(self).scenes@[i],
                forall|i: int|
                    0 <= i < k ==> {
                        let o = #[trigger] old(self).scenes@[i];
                        let s = self.scenes@[i];
                        scene_started(s, o, wall)
                    },
            decreases self.scenes@.len() - k,
        {
            self.scenes[k].start(wall);
            k = k + 1;
        }
        proof {
            assert(self.ids() =~= old(self).ids());
        }
    }

    /// Applies one event of the live stream. Returns the chart to fetch,
    /// when the room waits for its players to be ready and a chart is
    /// chosen; the browser fetches it and reports ready by itself.
    pub fn handle_event(&mut self, ev: LiveEvent, wall: i64) -> (r: Option<i32>)
        requires
            old(self).wf(),
            0 <= wall <= TIME_BOUND - START_DELAY,
            ev matches LiveEvent::Judges { judges, .. } ==> events_in_bound(judges@),
            ev matches LiveEvent::Touches { frames, .. } ==> (frames@.len() > 0 ==> in_bound(frames@.last().time as int)),
        ensures
            final(self).wf(),
            r == match ev {
                LiveEvent::StateChange(RoomState::WaitingForReady) => old(self).selected_chart_id,
                _ => None,
            },
            final(self).selected_chart_id == match ev {
                LiveEvent::Authenticated(Some(RoomState::SelectChart(Some(id)))) => Some(id),
                LiveEvent::Joined { state: RoomState::SelectChart(Some(id)), .. } => Some(id),
                LiveEvent::SelectChart(id) => Some(id),
                LiveEvent::Left => None,
                _ => old(self).selected_chart_id,
            },
            ev is Joined ==> final(self).ids() == joined_ids(old(self).ids(), ev->users@),
            ev is Left ==> final(self).scenes@.len() == 0,
            ev is UserJoin ==> final(self).ids() == if old(self).ids().contains(ev->UserJoin_0) {
                old(self).ids()
            } else {
                old(self).ids().push(ev->UserJoin_0)
            },
            ev is UserLeave ==> !final(self).ids().contains(ev->UserLeave_0) && forall|x: i32|
                x != ev->UserLeave_0 ==> (final(self).ids().contains(x) == old(self).ids().contains(x)),
            ev == LiveEvent::StateChange(RoomState::Playing) ==> final(self).ids() == old(self).ids()
                && final(self).scenes@.len() == old(self).scenes@.len() && forall|i: int|
                0 <= i < old(self).scenes@.len() ==> scene_started(
                    final(self).scenes@[i],
                    #[trigger] old(self).scenes@[i],
                    wall,
                ),
            ev is Judges ==> final(self).ids() == old(self).ids() && forall|i: int|
                0 <= i < old(self).scenes@.len() ==> {
                    let o = #[trigger] old(self).scenes@[i];
                    let s = final(self).scenes@[i];
                    &&& o.user_id != ev->Judges_player ==> s == o
                    &&& o.user_id == ev->Judges_player ==> judges_pushed(s, o, ev->judges@)
                },
            ev is Touches ==> final(self).ids() == old(self).ids() && forall|i: int|
                0 <= i < old(self).scenes@.len() ==> {
                    let o = #[trigger] old(self).scenes@[i];
                    let s = final(self).scenes@[i];
                    &&& o.user_id != ev->Touches_player ==> s == o
                    &&& o.user_id == ev->Touches_player && ev->frames@.len() > 0 ==> s.target_time
                        == crate::scene::raised(o.target_time, ev->frames@.last().time)
                    &&& o.user_id == ev->Touches_player ==> (s.touches.active_view(), s.touches.fading_view())
                        == apply_frames(
                        o.touches.active_view(),
                        o.touches.fading_view(),
                        ev->frames@,
                        ev->frames@.len(),
                    )
                },
            !(ev is Joined || ev is Left || ev is UserJoin || ev is UserLeave || ev is Judges || ev is Touches
                || ev == LiveEvent::StateChange(RoomState::Playing)) ==> final(self).scenes@ == old(self).scenes@,
    {
        match &ev {
            LiveEvent::Authenticated(state) => {
                if let Some(RoomState::SelectChart(Some(id))) = state {
                    self.selected_chart_id = Some(*id);
                }
                None
            },
            LiveEvent::Joined { users, state } => {
                let mut i: usize = 0;
                while i < users.len()
                    invariant
                        self.wf(),
                        0 <= i <= users@.len(),
                        0 <= wall <= TIME_BOUND - START_DELAY,
                        self.ids() == joined_ids(old(self).ids(), users@.take(i as int)),
                        self.selected_chart_id == old(self).selected_chart_id,
                    decreases users@.len() - i,
                {
                    self.ensure_scene(users[i], wall);
                    proof {
                        assert(users@.take(i + 1).drop_last() =~= users@.take(i as int));
                    }
                    i = i + 1;
                }
                proof {
                    assert(users@.take(users@.len() as int) =~= users@);
                    assert(self.ids() == joined_ids(old(self).ids(), users@));
                }
                if let RoomState::SelectChart(Some(id)) = state {
                    self.selected_chart_id = Some(*id);
                }
                None
            },
            LiveEvent::Left => {
                self.scenes = Vec::new();
                self.selected_chart_id = None;
                proof {
                    assert(self.ids() =~= Seq::<i32>::empty());
                }
                None
            },
            LiveEvent::StateChange(state) => {
                match *state {
                    RoomState::Playing => {
                        self.start_all_scenes(wall);
                        None
                    },
                    RoomState::WaitingForReady => self.selected_chart_id,
                    _ => None,
                }
            },
            LiveEvent::UserJoin(id) => {
                self.ensure_scene(*id, wall);
                None
            },
            LiveEvent::UserLeave(id) => {
                self.destroy_scene(*id);
                let ghost id = *id;
                proof {
                    let o = old(self).ids();
                    let n = self.ids();
                    if o.contains(id) {
                        let k = choose|k: int| 0 <= k < o.len() && o[k] == id;
                        assert(old(self).scenes@[k].user_id == id);
                        assert(self.scenes@ == old(self).scenes@.remove(k));
                        assert(n =~= o.remove(k));
                        assert forall|x: i32| x != id implies (n.contains(x) == o.contains(x)) by {
                            if o.contains(x) {
                                let j = choose|j: int| 0 <= j < o.len() && o[j] == x;
                                let jj = if j < k { j } else { j - 1 };
                                assert(n[jj] == x);
                            }
                            if n.contains(x) {
                                let j = choose|j: int| 0 <= j < n.len() && n[j] == x;
                                let jj = if j < k { j } else { j + 1 };
                                assert(o[jj] == x);
                            }
                        }
                    } else {
                        assert(n =~= o);
                    }
                }
                None
            },
            LiveEvent::Touches { player, frames } => {
                match self.find_scene(*player) {
                    Some(k) => {
                        self.scenes[k].push_touches(frames);
                        proof {
                            lemma_unique_index(old(self).scenes@, k as int);
                            assert(self.ids() =~= old(self).ids());
                        }
                    },
                    None => {
                        proof {
                            lemma_absent(old(self).scenes@, *player);
                        }
                    },
                }
                None
            },
            LiveEvent::Judges { player, judges } => {
                match self.find_scene(*player) {
                    Some(k) => {
                        self.scenes[k].push_judges(judges);
                        proof {
                            lemma_unique_index(old(self).scenes@, k as int);
                            assert(self.ids() =~= old(self).ids());
                        }
                    },
                    None => {
                        proof {
                            lemma_absent(old(self).scenes@, *player);
                        }
                    },
                }
                None
            },
            LiveEvent::SelectChart(id) => {
                self.selected_chart_id = Some(*id);
                None
            },
            _ => None,
        }
    }
}

/// Time between two pings to the game server.
pub const HEARTBEAT_INTERVAL: i64 = 5000;

/// How long a ping waits for its pong.
pub const HEARTBEAT_TIMEOUT: i64 = 3000;

/// Missed pongs in a row after which the connection is given up.
pub const MAX_MISSED_PONGS: u8 = 3;

/// What came of one ping.
#[derive(Debug, Clone, Copy, PartialEq, Eq, Structural)]
pub enum HeartbeatEvent {
    /// The ping could not be sent.
    SendFailed,
    /// The pong came within the timeout.
    Pong,
    /// No pong within the timeout.
    Timeout,
}

/// What the heartbeat loop does next.
#[derive(Debug, Clone, Copy, PartialEq, Eq, Structural)]
pub enum HeartbeatAction {
    /// Wait for the interval and ping again.
    Continue,
    /// Close the upstream connection.
    Disconnect,
}

/// The heartbeat's memory: pongs missed in a row.
#[derive(Debug, Clone, Copy, PartialEq, Eq, Structural)]
pub struct Heartbeat {
    pub missed: u8,
}

impl Heartbeat {
    pub fn new() -> (r: Heartbeat)
        ensures
            r.missed == 0,
    {
        Heartbeat { missed: 0 }
    }

    /// The decision after one ping: a pong clears the count of missed pongs;
    /// the third missed pong in a row, or a ping that could not be sent,
    /// ends the connection.
    pub fn on_event(&mut self, ev: HeartbeatEvent) -> (r: HeartbeatAction)
        requires
            old(self).missed < MAX_MISSED_PONGS,
        ensures
            match ev {
                HeartbeatEvent::SendFailed => r == HeartbeatAction::Disconnect && final(self).missed
                    == old(self).missed,
                HeartbeatEvent::Pong => r == HeartbeatAction::Continue && final(self).missed == 0,
                HeartbeatEvent::Timeout => final(self).missed == old(self).missed + 1 && (r
                    == HeartbeatAction::Disconnect) == (final(self).missed >= MAX_MISSED_PONGS),
            },
            r == HeartbeatAction::Continue ==> final(self).missed < MAX_MISSED_PONGS,
    {
        match ev {
            HeartbeatEvent::SendFailed => HeartbeatAction::Disconnect,
            HeartbeatEvent::Pong => {
                self.missed = 0;
                HeartbeatAction::Continue
            },
            HeartbeatEvent::Timeout => {
                self.missed = self.missed + 1;
                if self.missed >= MAX_MISSED_PONGS {
                    HeartbeatAction::Disconnect
                } else {
                    HeartbeatAction::Continue
                }
            },
        }
    }
}

} // verus!
