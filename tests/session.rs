use pong_server::game::{paddle_start_y, Attachment, Coord, Game, JoinError, Lifecycle, PADDLE_START_Y_BITS};
use pong_server::protocol::{decode_event, ClientEventType, MoveEvent, ProtocolError};
use pong_server::slot::Slot;
use pong_server::store::GameStore;
use pong_server::tick::{apply_step, Delivery, ServerEvent, StepResult};

fn coord(y: f32) -> Coord {
    Coord { bits: y.to_bits() }
}

fn quiet_step() -> StepResult {
    StepResult {
        ball_x: coord(50.0),
        ball_y: coord(20.0),
        left_wall_contact: false,
        right_wall_contact: false,
    }
}

fn two_player_store(id: &str) -> GameStore {
    let mut store = GameStore::new();
    assert!(store.insert_game(id.to_string()));
    assert_eq!(store.join(id), Ok(Slot::Left));
    assert_eq!(store.join(id), Ok(Slot::Right));
    store
}

#[test]
fn both_players_ready_true_when_both_ready() {
    let mut game = Game::new("123".into());
    game.add_player();
    game.add_player();
    game.set_player_ready("p1");
    game.set_player_ready("p2");

    assert_eq!(game.both_players_ready(), true)
}

#[test]
fn can_decode_ready_event() {
    assert_eq!(decode_event(Some("ready"), None), Ok(ClientEventType::ReadyEvent));
}

#[test]
fn decodes_move_with_its_coordinate() {
    let r = decode_event(Some("move"), Some(coord(42.0)));
    assert_eq!(r, Ok(ClientEventType::MoveEvent(MoveEvent { y: coord(42.0) })));
    match r {
        Ok(ClientEventType::MoveEvent(e)) => assert_eq!(f32::from_bits(e.y.bits), 42.0),
        _ => panic!("expected a move event"),
    }
}

#[test]
fn decode_rejects_missing_unknown_and_malformed() {
    assert_eq!(decode_event(None, Some(coord(1.0))), Err(ProtocolError::MissingEventType));
    assert_eq!(decode_event(Some("jump"), None), Err(ProtocolError::UnknownEventType));
    assert_eq!(decode_event(Some("Ready"), None), Err(ProtocolError::UnknownEventType));
    assert_eq!(decode_event(Some("move"), None), Err(ProtocolError::MalformedBody));
}

#[test]
fn slot_names_round_trip() {
    assert_eq!(Slot::from_id("p1"), Some(Slot::Left));
    assert_eq!(Slot::from_id("p2"), Some(Slot::Right));
    assert_eq!(Slot::from_id("p3"), None);
    assert_eq!(Slot::from_id(""), None);
    assert_eq!(Slot::Left.id(), "p1");
    assert_eq!(Slot::Right.id(), "p2");
    assert_eq!(Slot::Left.other(), Slot::Right);
}

#[test]
fn start_coordinate_is_centred_paddle() {
    let h: f32 = 100.0 / 3.0 * 2.0;
    let y: f32 = h / 2.0 - 8.0 / 2.0;
    assert_eq!(PADDLE_START_Y_BITS, y.to_bits());
    assert_eq!(paddle_start_y(), coord(y));
}

#[test]
fn joins_fill_left_then_right_then_fail() {
    let mut store = GameStore::new();
    assert!(store.insert_game("g".to_string()));
    assert_eq!(store.join("g"), Ok(Slot::Left));
    assert_eq!(store.get("g").unwrap().lifecycle(), Lifecycle::WaitingForPlayers);
    assert_eq!(store.join("g"), Ok(Slot::Right));
    assert_eq!(store.get("g").unwrap().lifecycle(), Lifecycle::WaitingForReady);
    assert_eq!(store.join("g"), Err(JoinError::SessionFull));
    assert_eq!(store.join("g"), Err(JoinError::SessionFull));
    assert_eq!(store.get("g").unwrap().num_players(), 2);
}

#[test]
fn join_unknown_session_is_not_found() {
    let mut store = GameStore::new();
    assert_eq!(store.join("nope"), Err(JoinError::SessionNotFound));
    assert!(store.insert_game("a".to_string()));
    assert!(!store.insert_game("a".to_string()));
    assert_eq!(store.join("b"), Err(JoinError::SessionNotFound));
}

#[test]
fn created_sessions_are_distinct_and_joinable() {
    let mut store = GameStore::new();
    let a = store.create_session().unwrap();
    let b = store.create_session().unwrap();
    assert_ne!(a, b);
    assert_eq!(store.join(&a), Ok(Slot::Left));
    assert_eq!(store.join(&b), Ok(Slot::Left));
}

#[test]
fn game_add_player_reports_full() {
    let mut game = Game::new("x".into());
    assert_eq!(game.add_player(), Ok(Slot::Left));
    assert_eq!(game.add_player(), Ok(Slot::Right));
    assert_eq!(game.add_player(), Err(JoinError::SessionFull));
    assert_eq!(game.num_players(), 2);
}

#[test]
fn not_ready_when_fresh_or_single_player() {
    let mut game = Game::new("x".into());
    assert!(!game.both_players_ready());
    game.add_player();
    assert!(!game.set_player_ready("p1"));
    assert!(!game.both_players_ready());
    assert!(!game.set_player_ready("p2"));
    assert_eq!(game.lifecycle(), Lifecycle::WaitingForPlayers);
}

#[test]
fn ready_signal_fires_once() {
    let mut store = two_player_store("g");
    assert!(!store.mark_ready("g", Slot::Right));
    assert!(!store.mark_ready("g", Slot::Right));
    assert!(store.mark_ready("g", Slot::Left));
    assert!(!store.mark_ready("g", Slot::Left));
    assert!(!store.mark_ready("g", Slot::Right));
    assert_eq!(store.get("g").unwrap().lifecycle(), Lifecycle::Active);
    assert!(!store.mark_ready("other", Slot::Left));
}

#[test]
fn move_then_read_gives_the_coordinate() {
    let mut store = two_player_store("g");
    assert!(store.apply_move("g", Slot::Left, coord(12.5)));
    assert_eq!(store.position("g", Slot::Left), Some(coord(12.5)));
    assert_eq!(store.position("g", Slot::Right), Some(paddle_start_y()));
    assert!(store.apply_move("g", Slot::Left, coord(3.0)));
    assert_eq!(store.snapshot_positions("g"), Some((coord(3.0), paddle_start_y())));
    assert!(!store.apply_move("missing", Slot::Left, coord(1.0)));
    assert_eq!(store.snapshot_positions("missing"), None);
}

#[test]
fn move_for_free_slot_is_ignored() {
    let mut store = GameStore::new();
    assert!(store.insert_game("g".to_string()));
    assert_eq!(store.join("g"), Ok(Slot::Left));
    assert!(!store.apply_move("g", Slot::Right, coord(9.0)));
    assert_eq!(store.position("g", Slot::Right), None);
    assert_eq!(store.snapshot_positions("g"), None);
}

#[test]
fn tick_is_refused_until_active() {
    let mut store = two_player_store("g");
    assert!(store.apply_tick_result("g", quiet_step()).is_none());
    assert!(store.apply_tick_result("missing", quiet_step()).is_none());
}

#[test]
fn left_wall_contact_scores_for_right_and_resets() {
    let mut store = two_player_store("s");
    let (ltx, _lrx) = tokio::sync::mpsc::unbounded_channel::<String>();
    let (rtx, _rrx) = tokio::sync::mpsc::unbounded_channel::<String>();
    assert!(store.attach_channel("s", Slot::Left, ltx));
    assert!(store.attach_channel("s", Slot::Right, rtx));
    assert!(!store.mark_ready("s", Slot::Left));
    assert!(store.mark_ready("s", Slot::Right));
    assert!(store.apply_move("s", Slot::Left, coord(1.0)));
    assert!(store.apply_move("s", Slot::Right, coord(2.0)));

    let step = StepResult { left_wall_contact: true, ..quiet_step() };
    let out = store.apply_tick_result("s", step).unwrap();
    assert_eq!(out.scorer, Some(Slot::Right));
    let end = ServerEvent::EndPoint { p1_score: 0, p2_score: 1 };
    assert_eq!(
        out.deliveries,
        vec![Delivery { to: Slot::Left, event: end }, Delivery { to: Slot::Right, event: end }]
    );
    assert_eq!(store.snapshot_positions("s"), Some((paddle_start_y(), paddle_start_y())));

    let game = store.get("s").unwrap();
    assert_eq!(game.get_player("p1").unwrap().score, 0);
    assert_eq!(game.get_player("p2").unwrap().score, 1);
}

#[test]
fn right_wall_contact_scores_for_left() {
    let mut store = two_player_store("s");
    store.mark_ready("s", Slot::Left);
    store.mark_ready("s", Slot::Right);
    let both = StepResult { left_wall_contact: true, right_wall_contact: true, ..quiet_step() };
    let right = StepResult { right_wall_contact: true, ..quiet_step() };
    assert_eq!(store.apply_tick_result("s", right).unwrap().scorer, Some(Slot::Left));
    assert_eq!(store.apply_tick_result("s", right).unwrap().scorer, Some(Slot::Left));
    assert_eq!(store.apply_tick_result("s", both).unwrap().scorer, Some(Slot::Right));
    let game = store.get("s").unwrap();
    assert_eq!(game.get_player("p1").unwrap().score, 2);
    assert_eq!(game.get_player("p2").unwrap().score, 1);
    assert!(store.apply_tick_result("s", quiet_step()).unwrap().deliveries.is_empty());
}

#[test]
fn move_without_channel_applies_and_skips_that_slot() {
    let mut store = two_player_store("s");
    let (ltx, _lrx) = tokio::sync::mpsc::unbounded_channel::<String>();
    assert!(store.attach_channel("s", Slot::Left, ltx));
    store.mark_ready("s", Slot::Left);
    store.mark_ready("s", Slot::Right);
    assert!(store.apply_move("s", Slot::Right, coord(17.0)));
    assert_eq!(store.position("s", Slot::Right), Some(coord(17.0)));

    let out = store.apply_tick_result("s", quiet_step()).unwrap();
    assert_eq!(out.scorer, None);
    assert_eq!(
        out.deliveries,
        vec![Delivery {
            to: Slot::Left,
            event: ServerEvent::UpdateScreen {
                ball_x: coord(50.0),
                ball_y: coord(20.0),
                opponent_y: coord(17.0),
            },
        }]
    );
}

#[test]
fn update_screen_carries_the_opponent_paddle() {
    let mut game = Game::new("u".into());
    game.add_player();
    game.add_player();
    let (ltx, _l) = tokio::sync::mpsc::unbounded_channel::<String>();
    let (rtx, _r) = tokio::sync::mpsc::unbounded_channel::<String>();
    assert!(game.set_player_tx("p1", ltx));
    assert!(game.set_player_tx("p2", rtx));
    assert!(game.update_player_pos("p1", coord(5.0)));
    assert!(game.update_player_pos("p2", coord(6.0)));
    let out = apply_step(&mut game, &quiet_step());
    let ev = |y: f32| ServerEvent::UpdateScreen {
        ball_x: coord(50.0),
        ball_y: coord(20.0),
        opponent_y: coord(y),
    };
    assert_eq!(
        out.deliveries,
        vec![Delivery { to: Slot::Left, event: ev(6.0) }, Delivery { to: Slot::Right, event: ev(5.0) }]
    );
}

#[test]
fn unknown_player_names_change_nothing() {
    let mut game = Game::new("z".into());
    game.add_player();
    let (tx, _rx) = tokio::sync::mpsc::unbounded_channel::<String>();
    assert!(!game.set_player_tx("p3", tx));
    assert!(!game.set_player_ready("left"));
    assert!(!game.update_player_pos("p2", coord(1.0)));
    assert!(!game.inc_player_score("p2"));
    assert!(game.inc_player_score("p1"));
    assert_eq!(game.get_player("p1").unwrap().score, 1);
    assert!(game.get_player("p2").is_none());
}

#[test]
fn attached_queue_is_the_one_handed_in() {
    let mut store = two_player_store("q");
    let (tx, mut rx) = tokio::sync::mpsc::unbounded_channel::<String>();
    assert!(store.attach_channel("q", Slot::Right, tx));
    let game = store.get("q").unwrap();
    assert!(matches!(game.get_player("p1").unwrap().tx, Attachment::Detached));
    match &game.get_player("p2").unwrap().tx {
        Attachment::Attached(queue) => queue.send("hello".to_string()).unwrap(),
        Attachment::Detached => panic!("expected an attached queue"),
    }
    assert_eq!(rx.try_recv().unwrap(), "hello");
    let (other, _o) = tokio::sync::mpsc::unbounded_channel::<String>();
    assert!(!store.attach_channel("missing", Slot::Left, other));
}
