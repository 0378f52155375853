use phira_monitor::judge::{MpJudgement, UpstreamJudge};
use phira_monitor::touch::{TouchFrame, TouchPoint};
use phira_monitor::session::{Heartbeat, HeartbeatAction, HeartbeatEvent};
use phira_monitor::session::{translate_command, ClientCommand, GameMonitor, LiveEvent, RoomState, WsCommand};

fn ids(m: &GameMonitor) -> Vec<i32> {
    m.scenes.iter().map(|s| s.user_id).collect()
}

#[test]
fn browser_commands_map_to_upstream() {
    assert_eq!(translate_command(WsCommand::Join { room_id: 9 }), ClientCommand::JoinRoom { id: 9, monitor: true });
    assert_eq!(translate_command(WsCommand::Leave), ClientCommand::LeaveRoom);
    assert_eq!(translate_command(WsCommand::Ready), ClientCommand::Ready);
}

#[test]
fn registry_follows_room_membership() {
    let mut m = GameMonitor::new();
    let r = m.handle_event(LiveEvent::Joined { users: vec![3, 5, 3], state: RoomState::SelectChart(Some(42)) }, 0);
    assert_eq!(r, None);
    assert_eq!(ids(&m), vec![3, 5]);
    assert_eq!(m.selected_chart_id, Some(42));
    m.handle_event(LiveEvent::UserJoin(8), 0);
    m.handle_event(LiveEvent::UserJoin(5), 0);
    assert_eq!(ids(&m), vec![3, 5, 8]);
    m.handle_event(LiveEvent::UserLeave(5), 0);
    assert_eq!(ids(&m), vec![3, 8]);
    m.handle_event(LiveEvent::UserLeave(77), 0);
    assert_eq!(ids(&m), vec![3, 8]);
    m.handle_event(LiveEvent::Left, 0);
    assert!(m.scenes.is_empty());
    assert_eq!(m.selected_chart_id, None);
}

#[test]
fn chart_selection_and_fetch_trigger() {
    let mut m = GameMonitor::new();
    assert_eq!(m.handle_event(LiveEvent::StateChange(RoomState::WaitingForReady), 0), None);
    m.handle_event(LiveEvent::SelectChart(17), 0);
    assert_eq!(m.handle_event(LiveEvent::StateChange(RoomState::WaitingForReady), 0), Some(17));
    m.handle_event(LiveEvent::Authenticated(Some(RoomState::SelectChart(Some(4)))), 0);
    assert_eq!(m.selected_chart_id, Some(4));
    m.handle_event(LiveEvent::OtherMessage, 0);
    m.handle_event(LiveEvent::AuthFailed, 0);
    assert_eq!(m.selected_chart_id, Some(4));
}

#[test]
fn events_route_to_the_named_scene_and_playing_starts_all() {
    let mut m = GameMonitor::new();
    m.handle_event(LiveEvent::Joined { users: vec![1, 2], state: RoomState::WaitingForReady }, 0);
    let judges = vec![UpstreamJudge { time: 1500, line_id: 0, note_id: 0, judgement: MpJudgement::Perfect }];
    m.handle_event(LiveEvent::Judges { player: 2, judges }, 0);
    m.handle_event(
        LiveEvent::Touches {
            player: 1,
            frames: vec![
                TouchFrame { time: 700, points: vec![TouchPoint { finger: 0, x: 10, y: 20 }] },
                TouchFrame { time: 800, points: vec![TouchPoint { finger: 0, x: 15, y: 25 }] },
            ],
        },
        0,
    );
    m.handle_event(LiveEvent::Judges { player: 9, judges: vec![] }, 0);
    assert_eq!(m.scenes[0].pending_judges.len(), 0);
    assert_eq!(m.scenes[0].target_time, Some(800));
    assert_eq!(m.scenes[0].touches.active[0].path, vec![(700, 10, 20), (800, 15, 25)]);
    assert_eq!(m.scenes[1].pending_judges.len(), 1);
    assert_eq!(m.scenes[1].target_time, Some(1500));
    assert_eq!(m.scenes[1].unpause_signal, Some(1500));
    m.handle_event(LiveEvent::StateChange(RoomState::Playing), 4000);
    assert_eq!(m.scenes[0].start_wall_time, Some(4000));
    assert_eq!(m.scenes[1].start_wall_time, Some(4000));
    m.handle_event(LiveEvent::StateChange(RoomState::Playing), 9000);
    assert_eq!(m.scenes[0].start_wall_time, Some(4000));
}

#[test]
fn heartbeat_gives_up_after_three_missed_pongs() {
    let mut h = Heartbeat::new();
    assert_eq!(h.on_event(HeartbeatEvent::Timeout), HeartbeatAction::Continue);
    assert_eq!(h.on_event(HeartbeatEvent::Timeout), HeartbeatAction::Continue);
    assert_eq!(h.on_event(HeartbeatEvent::Pong), HeartbeatAction::Continue);
    assert_eq!(h.missed, 0);
    assert_eq!(h.on_event(HeartbeatEvent::Timeout), HeartbeatAction::Continue);
    assert_eq!(h.on_event(HeartbeatEvent::Timeout), HeartbeatAction::Continue);
    assert_eq!(h.on_event(HeartbeatEvent::Timeout), HeartbeatAction::Disconnect);
    let mut g = Heartbeat::new();
    assert_eq!(g.on_event(HeartbeatEvent::SendFailed), HeartbeatAction::Disconnect);
}
