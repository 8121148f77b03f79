use media_sessions::aggregator::{Action, EventAggregator, ManagerEvent, MediaEvent, SessionUpdateEvent};
use media_sessions::control::{control_outcome, resolve_control, select_target};
use media_sessions::error::ControlError;
use media_sessions::model::{
    ActiveSessionChange, ActiveSessionRemove, PlaybackModel, PlaybackStatus, PlaybackType,
    SessionControl, SessionCreate, SessionModel, SessionRemove, SessionUpdate,
};

fn created(source: &str) -> ManagerEvent {
    ManagerEvent::SessionCreated { source: source.to_string() }
}

fn playing_model(source: &str) -> SessionModel {
    SessionModel {
        playback: Some(PlaybackModel {
            status: PlaybackStatus::Playing,
            playback_type: PlaybackType::Unknown,
            rate_bits: 1.0f64.to_bits(),
            shuffle: false,
            auto_repeat: None,
        }),
        timeline: None,
        media: None,
        source: source.to_string(),
    }
}

#[test]
fn player_session_lifecycle() {
    let mut agg = EventAggregator::new();
    let actions = agg.handle_manager_event(created("Player.exe"));
    assert_eq!(
        actions,
        vec![
            Action::Emit(MediaEvent::SessionCreate(SessionCreate {
                session_id: 0,
                source: "Player.exe".to_string(),
            })),
            Action::Subscribe { session_id: 0 },
        ]
    );
    let update = agg.handle_session_update(0, SessionUpdateEvent::Model(playing_model("Player.exe")));
    assert_eq!(
        update,
        Some(SessionUpdate {
            session_id: 0,
            source: "Player.exe".to_string(),
            session_model: playing_model("Player.exe"),
            image: None,
        })
    );
    let update = update.unwrap();
    let playback = update.session_model.playback.unwrap();
    assert_eq!(playback.status, PlaybackStatus::Playing);
    assert_eq!(f64::from_bits(playback.rate_bits), 1.0);
    assert!(update.session_model.timeline.is_none());
    assert!(update.session_model.media.is_none());

    let actions = agg.handle_manager_event(ManagerEvent::SessionRemoved { session_id: 0 });
    assert_eq!(
        actions,
        vec![
            Action::Unsubscribe { session_id: 0 },
            Action::Emit(MediaEvent::SessionRemove(SessionRemove { session_id: 0 })),
        ]
    );
    let late = agg.handle_session_update(0, SessionUpdateEvent::Model(playing_model("Player.exe")));
    assert_eq!(late, None);
}

#[test]
fn media_update_carries_image() {
    let mut agg = EventAggregator::new();
    agg.handle_manager_event(created("a.exe"));
    agg.handle_manager_event(created("b.exe"));
    let update = agg
        .handle_session_update(1, SessionUpdateEvent::Media(playing_model("b.exe"), Some(vec![1, 2, 3])))
        .unwrap();
    assert_eq!(update.session_id, 1);
    assert_eq!(update.source, "b.exe");
    assert_eq!(update.image, Some(vec![1, 2, 3]));
}

#[test]
fn update_without_create_is_dropped() {
    let mut agg = EventAggregator::new();
    assert_eq!(agg.handle_session_update(0, SessionUpdateEvent::Model(playing_model("x"))), None);
    agg.handle_manager_event(created("x"));
    assert!(agg.handle_session_update(0, SessionUpdateEvent::Model(playing_model("x"))).is_some());
    assert_eq!(agg.handle_session_update(1, SessionUpdateEvent::Model(playing_model("x"))), None);
}

#[test]
fn ids_are_not_reused() {
    let mut agg = EventAggregator::new();
    agg.handle_manager_event(created("a.exe"));
    agg.handle_manager_event(ManagerEvent::SessionRemoved { session_id: 0 });
    let actions = agg.handle_manager_event(created("a.exe"));
    assert_eq!(actions[1], Action::Subscribe { session_id: 1 });
    assert_eq!(agg.registry().next_id(), 2);
    assert_eq!(agg.registry().lookup(0), None);
    assert_eq!(agg.registry().lookup(1), Some("a.exe".to_string()));
}

#[test]
fn remove_unknown_session_is_noop() {
    let mut agg = EventAggregator::new();
    assert!(agg.handle_manager_event(ManagerEvent::SessionRemoved { session_id: 7 }).is_empty());
    agg.handle_manager_event(created("a.exe"));
    agg.handle_manager_event(ManagerEvent::SessionRemoved { session_id: 0 });
    assert!(agg.handle_manager_event(ManagerEvent::SessionRemoved { session_id: 0 }).is_empty());
    assert_eq!(agg.registry().next_id(), 1);
}

#[test]
fn current_session_change_then_remove() {
    let mut agg = EventAggregator::new();
    let actions = agg.handle_manager_event(ManagerEvent::CurrentSessionChanged { session_id: Some(3) });
    assert_eq!(
        actions,
        vec![Action::Emit(MediaEvent::CurrentSessionChange(ActiveSessionChange { session_id: 3 }))]
    );
    assert_eq!(agg.current_session(), Some(3));
    let actions = agg.handle_manager_event(ManagerEvent::CurrentSessionChanged { session_id: None });
    assert_eq!(actions, vec![Action::Emit(MediaEvent::CurrentSessionRemove(ActiveSessionRemove))]);
    assert_eq!(agg.current_session(), None);
}

#[test]
fn second_current_session_change_wins() {
    let mut agg = EventAggregator::new();
    agg.handle_manager_event(ManagerEvent::CurrentSessionChanged { session_id: Some(1) });
    agg.handle_manager_event(ManagerEvent::CurrentSessionChanged { session_id: Some(2) });
    assert_eq!(agg.current_session(), Some(2));
}

#[test]
fn control_unknown_source_is_not_found() {
    let mut agg = EventAggregator::new();
    agg.handle_manager_event(created("a.exe"));
    let before = agg.registry().next_id();
    let r = resolve_control(agg.registry(), &"b.exe".to_string(), SessionControl::Play);
    assert_eq!(r, Err(ControlError::NotFound));
    assert_eq!(agg.registry().next_id(), before);
    assert_eq!(agg.registry().find_source(&"b.exe".to_string()), None);
}

#[test]
fn control_resolves_first_active_session() {
    let mut agg = EventAggregator::new();
    agg.handle_manager_event(created("a.exe"));
    agg.handle_manager_event(created("b.exe"));
    agg.handle_manager_event(created("b.exe"));
    agg.handle_manager_event(ManagerEvent::SessionRemoved { session_id: 1 });
    let r = resolve_control(agg.registry(), &"b.exe".to_string(), SessionControl::SkipNext).unwrap();
    assert_eq!(r.session_id, 2);
    assert_eq!(r.source, "b.exe");
    assert_eq!(r.control, SessionControl::SkipNext);
}

#[test]
fn control_target_selection_and_outcome() {
    let sources = vec!["a.exe".to_string(), "b.exe".to_string(), "b.exe".to_string()];
    assert_eq!(select_target(&sources, &"b.exe".to_string()), Ok(1));
    assert_eq!(select_target(&sources, &"c.exe".to_string()), Err(ControlError::NotFound));
    assert_eq!(select_target(&Vec::new(), &"a.exe".to_string()), Err(ControlError::NotFound));
    assert_eq!(control_outcome(true), Ok(()));
    assert_eq!(control_outcome(false), Err(ControlError::RejectedByTarget));
}
