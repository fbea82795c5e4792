use server::clock::Instant;
use server::domain::games::store::{
    difficulty_for, scale, GameSession, GameStore, Score,
};
use server::domain::payments::store::{GamePayment, PaymentStore, PrizePayout};
use server::domain::users::routes::RegisterPayload;
use server::domain::users::store::{User, UserStore};
use server::domain::{map_error, Error};
use server::table::{check_ids, following_id, rank};

// 2024-01-05T00:00:00Z
const JAN_5: i64 = 1_704_412_800;

fn at(seconds: i64) -> Instant {
    Instant::from_unix_seconds(seconds).unwrap()
}

fn players() -> UserStore {
    let mut users = UserStore::new();
    users.login_at("aaaaaaaa11111111".to_string(), &at(JAN_5), "t1").unwrap();
    users.login_at("bbbbbbbb22222222".to_string(), &at(JAN_5), "t2").unwrap();
    users.login_at("cccccccc33333333".to_string(), &at(JAN_5), "t3").unwrap();
    users
}

#[test]
fn difficulty_grows_a_tenth_a_minute_up_to_three() {
    assert_eq!(difficulty_for(0), 10);
    assert_eq!(difficulty_for(1), 11);
    assert_eq!(difficulty_for(19), 29);
    assert_eq!(difficulty_for(20), 30);
    assert_eq!(difficulty_for(21), 30);
    assert_eq!(difficulty_for(i64::MAX), 30);
    assert_eq!(difficulty_for(-3), 7);
    assert_eq!(difficulty_for(i64::MIN), i64::MIN + 10);
    let mut last = difficulty_for(-50);
    for m in -49..60 {
        let d = difficulty_for(m);
        assert!(d >= last);
        last = d;
    }
}

#[test]
fn difficulty_in_tenths_agrees_with_the_factor_in_floating_point() {
    for m in 0..=40i64 {
        let factor: f64 = (1.0 + (m as f64 * 0.1)).min(3.0);
        let tenths = difficulty_for(m);
        assert!((factor * 10.0 - tenths as f64).abs() < 1e-9);
        assert_eq!(scale(5, tenths), (5.0 * factor) as u64);
        assert_eq!(scale(1, tenths), (1.0 * factor) as u64);
        assert_eq!(scale(10, tenths), (10.0 * factor) as u64);
    }
}

#[test]
fn scaling_rounds_down_and_stops_at_zero() {
    assert_eq!(scale(5, 10), 5);
    assert_eq!(scale(5, 30), 15);
    assert_eq!(scale(5, 13), 6);
    assert_eq!(scale(1, 19), 1);
    assert_eq!(scale(1, 20), 2);
    assert_eq!(scale(10, 17), 17);
    assert_eq!(scale(5, 0), 0);
    assert_eq!(scale(5, -7), 0);
    assert_eq!(scale(10, i64::MAX), i64::MAX as u64);
}

#[test]
fn row_ids_start_at_one_and_may_run_out() {
    assert_eq!(following_id(0), Some(1));
    assert_eq!(following_id(41), Some(42));
    assert_eq!(following_id(i64::MAX), None);
    assert!(check_ids(&vec![]));
    assert!(check_ids(&vec![1, 2, 9]));
    assert!(!check_ids(&vec![0, 1]));
    assert!(!check_ids(&vec![1, 1]));
    assert!(!check_ids(&vec![2, 1]));
    assert!(!check_ids(&vec![-1]));
}

#[test]
fn ranking_is_by_score_then_by_row() {
    let keys = vec![Some(5), None, Some(9), Some(5), Some(9), Some(-1)];
    assert_eq!(rank(&keys, 10), vec![2, 4, 0, 3, 5]);
    assert_eq!(rank(&keys, 3), vec![2, 4, 0]);
    assert_eq!(rank(&keys, 1), vec![2]);
    assert_eq!(rank(&keys, 0), Vec::<usize>::new());
    assert_eq!(rank(&keys, -1), vec![2, 4, 0, 3, 5]);
    assert_eq!(rank(&vec![None, None], 5), Vec::<usize>::new());
    assert_eq!(rank(&vec![], 5), Vec::<usize>::new());
}

#[test]
fn login_adds_a_player_once() {
    let mut users = UserStore::new();
    let info = users.login_at("0123456789abcdef".to_string(), &at(JAN_5), "tok").unwrap();
    assert_eq!(info.username, "player_01234567");
    assert_eq!(info.pubkey, "0123456789abcdef");
    assert_eq!(info.session_id, "session_tok");
    let again = users.login_at("0123456789abcdef".to_string(), &at(JAN_5 + 9), "tok2").unwrap();
    assert_eq!(again.username, "player_01234567");
    assert_eq!(again.session_id, "session_tok2");
    let rows = users.rows();
    assert_eq!(rows.len(), 1);
    assert_eq!(rows[0].id, 1);
    assert_eq!(rows[0].created_at, "2024-01-05T00:00:00.000000000Z");
    assert_eq!(rows[0].updated_at, rows[0].created_at);
    let short = users.login_at("abc".to_string(), &at(JAN_5), "t").unwrap();
    assert_eq!(short.username, "player_abc");
    assert_eq!(users.rows()[1].id, 2);
}

#[test]
fn register_refuses_a_known_key() {
    let mut users = UserStore::new();
    let named = users
        .register_at(
            "0123456789abcdef".to_string(),
            RegisterPayload { username: Some("ace".to_string()) },
            &at(JAN_5),
            "t",
        )
        .unwrap();
    assert_eq!(named.username, "ace");
    let err = users
        .register_at(
            "0123456789abcdef".to_string(),
            RegisterPayload { username: None },
            &at(JAN_5),
            "t",
        )
        .unwrap_err();
    match &err {
        Error::InvalidInput(m) => assert_eq!(m, "User already exists with pubkey: 0123456789abcdef"),
        other => panic!("{:?}", other),
    }
    assert_eq!(err.message(), "Invalid input: User already exists with pubkey: 0123456789abcdef");
    let other = users
        .register_at("ffffffffffff".to_string(), RegisterPayload { username: None }, &at(JAN_5), "t")
        .unwrap();
    assert_eq!(other.username, "player_ffffffff");
    assert_eq!(users.rows().len(), 2);
    assert!(users.find_by_pubkey("nobody".to_string()).unwrap().is_none());
    assert_eq!(users.find_by_pubkey("ffffffffffff".to_string()).unwrap().unwrap().id, 2);
    assert_eq!(users.find_by_id(1).unwrap().username, "ace");
    assert!(users.find_by_id(3).is_none());
    assert!(users.ping().is_ok());
}

#[test]
fn login_and_register_by_the_clock() {
    let mut users = UserStore::new();
    let a = users.login("0123456789abcdef".to_string()).unwrap();
    assert!(a.session_id.starts_with("session_"));
    assert_eq!(a.session_id.len(), 8 + 36);
    let b = users.register("fedcba9876543210".to_string(), RegisterPayload { username: None }).unwrap();
    assert_eq!(b.username, "player_fedcba98");
    assert!(users.register("fedcba9876543210".to_string(), RegisterPayload { username: None }).is_err());
    assert_eq!(users.rows().len(), 2);
}

#[test]
fn user_table_is_restored_only_in_order() {
    let row = |id: i64, key: &str| User {
        id,
        nostr_pubkey: key.to_string(),
        username: "n".to_string(),
        created_at: "c".to_string(),
        updated_at: "u".to_string(),
    };
    assert!(UserStore::restore(vec![row(1, "a"), row(5, "b")]).is_some());
    assert!(UserStore::restore(vec![]).is_some());
    assert!(UserStore::restore(vec![row(5, "a"), row(1, "b")]).is_none());
    assert!(UserStore::restore(vec![row(0, "a")]).is_none());
    assert!(UserStore::restore(vec![row(2, "a"), row(2, "b")]).is_none());
    let mut full = UserStore::restore(vec![row(i64::MAX, "a")]).unwrap();
    match full.login_at("new".to_string(), &at(JAN_5), "t") {
        Err(Error::Database(_)) => {}
        other => panic!("{:?}", other),
    }
    assert_eq!(full.rows().len(), 1);
}

#[test]
fn session_starts_at_difficulty_one() {
    let mut games = GameStore::new();
    let s = games.create_session_at(7, "tok", &at(JAN_5)).unwrap();
    assert_eq!(s.id, 1);
    assert_eq!(s.session_id, "session_tok");
    assert_eq!(s.user_id, 7);
    assert_eq!(s.start_time, "2024-01-05T00:00:00.000000000Z");
    assert_eq!(s.last_active, s.start_time);
    assert_eq!(s.difficulty_tenths, 10);
    let t = games.create_session_at(8, "tok2", &at(JAN_5 + 1)).unwrap();
    assert_eq!(t.id, 2);
    assert_eq!(games.find_session("session_tok").unwrap().unwrap().user_id, 7);
    assert!(games.find_session("tok").unwrap().is_none());
    assert_eq!(games.sessions().len(), 2);
}

#[test]
fn refresh_follows_the_minutes_since_the_start() {
    let mut games = GameStore::new();
    games.create_session_at(7, "tok", &at(JAN_5)).unwrap();
    games.create_session_at(8, "other", &at(JAN_5)).unwrap();
    let mut last = 0;
    for (seconds, tenths) in [(0, 10), (59, 10), (60, 11), (600, 20), (1199, 29), (1200, 30), (86_400, 30)] {
        let s = games.update_session_activity_at("session_tok", &at(JAN_5 + seconds)).unwrap();
        assert_eq!(s.difficulty_tenths, tenths);
        assert!(s.difficulty_tenths >= last);
        last = s.difficulty_tenths;
        assert_eq!(s.start_time, "2024-01-05T00:00:00.000000000Z");
        assert_eq!(s.last_active, at(JAN_5 + seconds).to_iso8601());
        let stored = games.find_session("session_tok").unwrap().unwrap();
        assert_eq!(stored.difficulty_tenths, tenths);
        assert_eq!(stored.last_active, s.last_active);
    }
    // The other session is not touched.
    let other = games.find_session("session_other").unwrap().unwrap();
    assert_eq!(other.difficulty_tenths, 10);
    assert_eq!(other.last_active, other.start_time);
    // A refresh from before the start gives less than one.
    let early = games.update_session_activity_at("session_tok", &at(JAN_5 - 180)).unwrap();
    assert_eq!(early.difficulty_tenths, 7);
}

#[test]
fn refresh_fails_for_missing_and_unreadable_sessions() {
    let mut games = GameStore::new();
    match games.update_session_activity_at("session_none", &at(JAN_5)) {
        Err(Error::NotFound(m)) => assert_eq!(m, "Session not found: session_none"),
        other => panic!("{:?}", other),
    }
    let broken = GameSession {
        id: 1,
        session_id: "session_x".to_string(),
        user_id: 1,
        start_time: "2024-01-05 0:00:00.0 +00:00:00".to_string(),
        last_active: "".to_string(),
        difficulty_tenths: 10,
    };
    let mut games = GameStore::restore(vec![broken], vec![], vec![]).unwrap();
    match games.update_session_activity_at("session_x", &at(JAN_5)) {
        Err(Error::InvalidInput(m)) => assert_eq!(m, "Invalid date format in session start time"),
        other => panic!("{:?}", other),
    }
    assert_eq!(games.sessions()[0].last_active, "");
    match games.update_session_activity("session_none") {
        Err(Error::NotFound(_)) => {}
        other => panic!("{:?}", other),
    }
}

#[test]
fn sessions_by_the_clock() {
    let mut games = GameStore::new();
    let s = games.create_session(3).unwrap();
    assert!(s.session_id.starts_with("session_"));
    let r = games.update_session_activity(&s.session_id).unwrap();
    assert_eq!(r.difficulty_tenths, 10);
    assert_eq!(r.start_time, s.start_time);
    let c = games.create_game_config(&r).unwrap();
    assert!(c.config_id.starts_with("config_"));
    assert_eq!(c.asteroids.initial_count, 5);
    let now_ms = Instant::now().unwrap().unix_seconds() as u64 * 1000;
    assert!(c.expiration_time > now_ms);
    assert!(c.expiration_time <= now_ms + 301_000);
    let sc = games.submit_score(3, 10, 1, 5).unwrap();
    assert_eq!(sc.id, 1);
    assert_eq!(games.scores().len(), 1);
}

#[test]
fn config_scales_with_difficulty() {
    let mut games = GameStore::new();
    let mut s = games.create_session_at(7, "tok", &at(JAN_5)).unwrap();
    let c = games.create_game_config_at(&s, "c1", &at(JAN_5 + 10)).unwrap();
    assert_eq!(c.version, "1.0.0");
    assert_eq!(c.config_id, "config_c1");
    assert_eq!(c.session_id, "session_tok");
    assert_eq!(c.expiration_time, (JAN_5 as u64 + 310) * 1000);
    assert_eq!(c.fps, 60);
    assert_eq!(c.ship.radius, 10);
    assert_eq!(c.ship.turn_speed_milli, 100);
    assert_eq!(c.ship.thrust_milli, 100);
    assert_eq!(c.ship.friction_milli, 50);
    assert_eq!(c.ship.invulnerability_time, 3000);
    assert_eq!((c.bullets.speed, c.bullets.radius, c.bullets.max_count, c.bullets.life_time), (5, 2, 10, 60));
    assert_eq!(c.asteroids.initial_count, 5);
    assert_eq!(c.asteroids.speed, 1);
    assert_eq!(c.asteroids.size, 30);
    assert_eq!((c.asteroids.vertices.min, c.asteroids.vertices.max), (7, 15));
    assert_eq!(c.scoring.points_per_asteroid, 10);
    assert_eq!(c.scoring.level_multiplier_milli, 1500);
    s.difficulty_tenths = 30;
    let hard = games.create_game_config_at(&s, "c2", &at(JAN_5)).unwrap();
    assert_eq!(hard.asteroids.initial_count, 15);
    assert_eq!(hard.asteroids.speed, 3);
    assert_eq!(hard.scoring.points_per_asteroid, 30);
    s.difficulty_tenths = 17;
    let mid = games.create_game_config_at(&s, "c3", &at(JAN_5)).unwrap();
    assert_eq!(mid.asteroids.initial_count, 8);
    assert_eq!(mid.asteroids.speed, 1);
    assert_eq!(mid.scoring.points_per_asteroid, 17);
    let records = games.configs();
    assert_eq!(records.len(), 3);
    assert_eq!(records[0].id, 1);
    assert_eq!(records[0].config_id, "config_c1");
    assert_eq!(records[0].user_id, 7);
    assert_eq!(records[0].version, "1.0.0");
    assert_eq!(records[0].created_at, "2024-01-05T00:00:10.000000000Z");
    assert_eq!(records[0].expiration_time, "2024-01-05T00:05:10.000000000Z");
}

#[test]
fn config_before_the_epoch_and_at_the_end_of_time() {
    let mut games = GameStore::new();
    let s = games.create_session_at(7, "tok", &at(-1000)).unwrap();
    let c = games.create_game_config_at(&s, "c", &at(-1000)).unwrap();
    assert_eq!(c.expiration_time, (-700_000i64) as u64);
    match games.create_game_config_at(&s, "c", &at(253_402_300_799 - 200)) {
        Err(Error::InvalidInput(m)) => assert_eq!(m, "Expiration time is out of range"),
        other => panic!("{:?}", other),
    }
    assert_eq!(games.configs().len(), 1);
}

#[test]
fn scores_are_ranked_highest_first() {
    let users = players();
    let mut games = GameStore::new();
    let t = at(JAN_5);
    games.submit_score_at(1, 50, 1, 10, &t).unwrap();
    games.submit_score_at(2, 90, 2, 20, &t).unwrap();
    games.submit_score_at(1, 90, 3, 30, &t).unwrap();
    games.submit_score_at(9, 500, 9, 99, &t).unwrap(); // no such player
    games.submit_score_at(3, 10, 1, 5, &t).unwrap();
    games.submit_score_at(1, 70, 1, 5, &t).unwrap();
    let board = games.get_top_scores(&users, 10).unwrap();
    let ids: Vec<i64> = board.iter().map(|s| s.id).collect();
    assert_eq!(ids, vec![2, 3, 6, 1, 5]);
    assert_eq!(board[0].username, "player_bbbbbbbb");
    assert_eq!(board[1].username, "player_aaaaaaaa");
    assert_eq!(board[0].score, 90);
    assert_eq!(board[0].level, 2);
    assert_eq!(board[0].play_time, 20);
    assert_eq!(board[0].created_at, "2024-01-05T00:00:00.000000000Z");
    let top2: Vec<i64> = games.get_top_scores(&users, 2).unwrap().iter().map(|s| s.id).collect();
    assert_eq!(top2, vec![2, 3]);
    assert!(games.get_top_scores(&users, 0).unwrap().is_empty());
    assert_eq!(games.get_top_scores(&users, -1).unwrap().len(), 5);
    let mine: Vec<i64> = games.get_user_scores(1, 10).unwrap().iter().map(|s| s.score).collect();
    assert_eq!(mine, vec![90, 70, 50]);
    let best: Vec<i64> = games.get_user_scores(1, 1).unwrap().iter().map(|s| s.id).collect();
    assert_eq!(best, vec![3]);
    assert!(games.get_user_scores(4, 10).unwrap().is_empty());
    assert_eq!(games.get_user_scores(9, 10).unwrap().len(), 1);
}

#[test]
fn game_tables_are_restored_only_in_order() {
    let score = |id: i64| Score { id, user_id: 1, score: 1, level: 1, play_time: 1, created_at: "c".to_string() };
    assert!(GameStore::restore(vec![], vec![], vec![score(1), score(2)]).is_some());
    assert!(GameStore::restore(vec![], vec![], vec![score(2), score(1)]).is_none());
    let mut full = GameStore::restore(vec![], vec![], vec![score(i64::MAX)]).unwrap();
    match full.submit_score_at(1, 1, 1, 1, &at(JAN_5)) {
        Err(Error::Database(_)) => {}
        other => panic!("{:?}", other),
    }
    assert!(full.ping().is_ok());
}

#[test]
fn entry_fee_opens_pending() {
    let mut ledger = PaymentStore::new();
    let p = ledger.create_game_payment_at(7, "pid-1", "lnbc500", 500, &at(JAN_5)).unwrap();
    assert_eq!(p.id, 1);
    assert_eq!(p.user_id, 7);
    assert_eq!(p.payment_id, "pid-1");
    assert_eq!(p.invoice, "lnbc500");
    assert_eq!(p.amount_sats, 500);
    assert_eq!(p.status, "pending");
    assert_eq!(p.created_at, "2024-01-05T00:00:00.000000000Z");
    assert_eq!(p.updated_at, p.created_at);
    assert!(p.paid_at.is_none());
    assert_eq!(ledger.get_payment_by_id("pid-1").unwrap().unwrap().id, 1);
    assert!(ledger.get_payment_by_id("pid-2").unwrap().is_none());
    assert_eq!(ledger.payments().len(), 1);
    let q = ledger.create_game_payment(7, "pid-2", "lnbc1", 500).unwrap();
    assert_eq!(q.id, 2);
    assert_eq!(q.status, "pending");
}

#[test]
fn status_update_sets_the_time_of_payment_only_for_paid() {
    let mut ledger = PaymentStore::new();
    ledger.create_game_payment_at(7, "a", "lnbc1", 500, &at(JAN_5)).unwrap();
    ledger.create_game_payment_at(7, "b", "lnbc2", 500, &at(JAN_5)).unwrap();
    let paid = ledger.update_payment_status_at("a", "paid", &at(JAN_5 + 60)).unwrap().unwrap();
    assert_eq!(paid.status, "paid");
    assert_eq!(paid.updated_at, "2024-01-05T00:01:00.000000000Z");
    assert_eq!(paid.paid_at.as_deref(), Some("2024-01-05T00:01:00.000000000Z"));
    assert_eq!(paid.created_at, "2024-01-05T00:00:00.000000000Z");
    let failed = ledger.update_payment_status_at("b", "failed", &at(JAN_5 + 61)).unwrap().unwrap();
    assert_eq!(failed.status, "failed");
    assert!(failed.paid_at.is_none());
    assert_eq!(failed.updated_at, "2024-01-05T00:01:01.000000000Z");
    assert!(ledger.update_payment_status_at("zzz", "paid", &at(JAN_5)).unwrap().is_none());
}

#[test]
fn settled_payment_never_moves_again() {
    let mut ledger = PaymentStore::new();
    ledger.create_game_payment_at(7, "a", "lnbc1", 500, &at(JAN_5)).unwrap();
    ledger.create_game_payment_at(7, "b", "lnbc2", 500, &at(JAN_5)).unwrap();
    ledger.create_game_payment_at(7, "c", "lnbc3", 500, &at(JAN_5)).unwrap();
    let paid = ledger.update_payment_status_at("a", "paid", &at(JAN_5 + 60)).unwrap().unwrap();
    let failed = ledger.update_payment_status_at("b", "failed", &at(JAN_5 + 61)).unwrap().unwrap();
    for (i, status) in ["failed", "pending", "paid", "refunded", ""].iter().enumerate() {
        let later = at(JAN_5 + 100 + i as i64);
        let a = ledger.update_payment_status_at("a", status, &later).unwrap().unwrap();
        assert_eq!(format!("{:?}", a), format!("{:?}", paid));
        let b = ledger.update_payment_status_at("b", status, &later).unwrap().unwrap();
        assert_eq!(format!("{:?}", b), format!("{:?}", failed));
    }
    assert_eq!(ledger.update_payment_status("a", "failed").unwrap().unwrap().status, "paid");
    assert_eq!(ledger.update_payment_status("b", "paid").unwrap().unwrap().status, "failed");
    assert!(ledger.has_valid_payment_at(7, &at(JAN_5 + 120)).unwrap());
    // A pending payment given "pending" stays as it was created.
    let c = ledger.update_payment_status_at("c", "pending", &at(JAN_5 + 200)).unwrap().unwrap();
    assert_eq!(c.status, "pending");
    assert_eq!(c.updated_at, "2024-01-05T00:00:00.000000000Z");
    assert!(c.paid_at.is_none());
    // Any other status settles it.
    let c = ledger.update_payment_status_at("c", "refunded", &at(JAN_5 + 300)).unwrap().unwrap();
    assert_eq!(c.status, "refunded");
    assert!(c.paid_at.is_none());
    let c = ledger.update_payment_status_at("c", "paid", &at(JAN_5 + 400)).unwrap().unwrap();
    assert_eq!(c.status, "refunded");
}

#[test]
fn prize_is_settled_without_a_clock() {
    let mut ledger = PaymentStore::new();
    ledger.record_daily_winner_at(2, "2024-01-05", 90, 1350, &at(JAN_5)).unwrap();
    ledger.record_daily_winner_at(3, "2024-01-05", 90, 1350, &at(JAN_5)).unwrap();
    ledger.update_prize_with_invoice_at(2, "2024-01-05", "lnbc9", &at(JAN_5 + 5)).unwrap();
    let p = ledger.update_prize_status_undated(1, "paid", Some("prov-1")).unwrap();
    assert_eq!(p.status, "paid");
    assert_eq!(p.payment_id.as_deref(), Some("prov-1"));
    assert_eq!(p.updated_at, "2024-01-05T00:00:05.000000000Z");
    assert_eq!(p.paid_at.as_deref(), Some("2024-01-05T00:00:05.000000000Z"));
    assert_eq!(p.payment_request.as_deref(), Some("lnbc9"));
    assert!(ledger.get_pending_prize_for_user(2, "2024-01-05").unwrap().is_none());
    let q = ledger.update_prize_status_undated(2, "failed", None).unwrap();
    assert_eq!(q.status, "failed");
    assert!(q.paid_at.is_none());
    assert_eq!(q.updated_at, "2024-01-05T00:00:00.000000000Z");
    assert!(ledger.update_prize_status_undated(9, "paid", None).is_none());
    assert_eq!(ledger.payouts().len(), 2);
}

#[test]
fn status_update_twice_changes_nothing() {
    let mut ledger = PaymentStore::new();
    ledger.create_game_payment_at(7, "a", "lnbc1", 500, &at(JAN_5)).unwrap();
    let first = ledger.update_payment_status_at("a", "paid", &at(JAN_5 + 60)).unwrap().unwrap();
    let second = ledger.update_payment_status_at("a", "paid", &at(JAN_5 + 5000)).unwrap().unwrap();
    assert_eq!(format!("{:?}", first), format!("{:?}", second));
    let stored = ledger.get_payment_by_id("a").unwrap().unwrap();
    assert_eq!(format!("{:?}", stored), format!("{:?}", first));
    assert_eq!(stored.paid_at.as_deref(), Some("2024-01-05T00:01:00.000000000Z"));
    let by_clock = ledger.update_payment_status("a", "paid").unwrap().unwrap();
    assert_eq!(format!("{:?}", by_clock), format!("{:?}", first));
}

#[test]
fn pending_payment_is_the_latest_created() {
    let mut ledger = PaymentStore::new();
    assert!(ledger.get_pending_payment_for_user(7).unwrap().is_none());
    ledger.create_game_payment_at(7, "a", "i", 500, &at(JAN_5 + 10)).unwrap();
    ledger.create_game_payment_at(7, "b", "i", 500, &at(JAN_5 + 30)).unwrap();
    ledger.create_game_payment_at(7, "c", "i", 500, &at(JAN_5 + 20)).unwrap();
    ledger.create_game_payment_at(8, "d", "i", 500, &at(JAN_5 + 99)).unwrap();
    assert_eq!(ledger.get_pending_payment_for_user(7).unwrap().unwrap().payment_id, "b");
    ledger.update_payment_status_at("b", "failed", &at(JAN_5 + 40)).unwrap();
    assert_eq!(ledger.get_pending_payment_for_user(7).unwrap().unwrap().payment_id, "c");
    // Of two created at the same time, the one added last.
    ledger.create_game_payment_at(7, "e", "i", 500, &at(JAN_5 + 20)).unwrap();
    assert_eq!(ledger.get_pending_payment_for_user(7).unwrap().unwrap().payment_id, "e");
    assert_eq!(ledger.get_pending_payment_for_user(8).unwrap().unwrap().payment_id, "d");
    assert!(ledger.get_pending_payment_for_user(9).unwrap().is_none());
}

#[test]
fn payment_admits_for_an_hour() {
    let mut ledger = PaymentStore::new();
    ledger.create_game_payment_at(7, "a", "i", 500, &at(JAN_5)).unwrap();
    assert!(!ledger.has_valid_payment_at(7, &at(JAN_5)).unwrap());
    ledger.update_payment_status_at("a", "paid", &at(JAN_5 + 10 * 3600)).unwrap();
    let paid = JAN_5 + 10 * 3600;
    assert!(ledger.has_valid_payment_at(7, &at(paid)).unwrap());
    assert!(ledger.has_valid_payment_at(7, &at(paid + 1800)).unwrap());
    assert!(ledger.has_valid_payment_at(7, &at(paid + 3599)).unwrap());
    assert!(!ledger.has_valid_payment_at(7, &at(paid + 3600)).unwrap());
    assert!(!ledger.has_valid_payment_at(7, &at(paid + 3601)).unwrap());
    assert!(!ledger.has_valid_payment_at(7, &at(paid + 86_400)).unwrap());
    assert!(!ledger.has_valid_payment_at(8, &at(paid)).unwrap());
    assert!(ledger.has_valid_payment_since(7, "2024-01-05T09:59:59"));
    assert!(!ledger.has_valid_payment_since(7, "2024-01-05T10:00:00.000000000Z"));
    // One hour before the first instant cannot be written.
    match ledger.has_valid_payment_at(7, &at(-62_167_219_200 + 10)) {
        Err(Error::InvalidInput(m)) => assert_eq!(m, "Validity window is out of range"),
        other => panic!("{:?}", other),
    }
    assert!(!ledger.has_valid_payment(7).unwrap());
    ledger.create_game_payment(8, "n", "i", 500).unwrap();
    ledger.update_payment_status("n", "paid").unwrap();
    assert!(ledger.has_valid_payment(8).unwrap());
}

#[test]
fn games_are_counted_by_the_text_of_the_day() {
    let mut ledger = PaymentStore::new();
    for (i, seconds) in [3600, 9 * 3600 + 30, 23 * 3600 + 59 * 60 + 58, 86_400 + 5].iter().enumerate() {
        let id = format!("p{}", i);
        ledger.create_game_payment_at(7, &id, "i", 500, &at(JAN_5)).unwrap();
        ledger.update_payment_status_at(&id, "paid", &at(JAN_5 + seconds)).unwrap();
    }
    ledger.create_game_payment_at(7, "open", "i", 500, &at(JAN_5 + 50)).unwrap();
    ledger.create_game_payment_at(7, "bad", "i", 500, &at(JAN_5 + 50)).unwrap();
    ledger.update_payment_status_at("bad", "failed", &at(JAN_5 + 60)).unwrap();
    assert_eq!(ledger.count_games_for_date("2024-01-05").unwrap(), 3);
    assert_eq!(ledger.count_games_for_date("2024-01-06").unwrap(), 1);
    assert_eq!(ledger.count_games_for_date("2024-01-04").unwrap(), 0);
    assert_eq!(ledger.count_games_for_date("unknown").unwrap(), 0);
    // The day ends with the text "T23:59:59": a payment in the last second
    // of the day is written with a fraction, sorts after that text, and is
    // not counted; nor is it counted for the next day.
    ledger.create_game_payment_at(7, "late", "i", 500, &at(JAN_5)).unwrap();
    ledger.update_payment_status_at("late", "paid", &at(JAN_5 + 86_399)).unwrap();
    assert_eq!(ledger.count_games_for_date("2024-01-05").unwrap(), 3);
    assert_eq!(ledger.count_games_for_date("2024-01-06").unwrap(), 1);
}

#[test]
fn top_scorer_is_the_first_to_reach_the_highest_score() {
    let users = players();
    let mut games = GameStore::new();
    let ledger = PaymentStore::new();
    assert!(ledger.get_top_scorer_for_date(&games, &users, "2024-01-05").unwrap().is_none());
    games.submit_score_at(1, 50, 1, 10, &at(JAN_5 + 10)).unwrap();
    games.submit_score_at(2, 90, 2, 20, &at(JAN_5 + 20)).unwrap();
    games.submit_score_at(3, 90, 3, 30, &at(JAN_5 + 30)).unwrap();
    games.submit_score_at(2, 20, 3, 30, &at(JAN_5 + 40)).unwrap();
    games.submit_score_at(9, 999, 3, 30, &at(JAN_5 + 50)).unwrap(); // no such player
    games.submit_score_at(1, 700, 3, 30, &at(JAN_5 + 86_400 + 5)).unwrap(); // next day
    games.submit_score_at(2, 5, 3, 30, &at(JAN_5 - 5)).unwrap(); // day before
    let top = ledger.get_top_scorer_for_date(&games, &users, "2024-01-05").unwrap().unwrap();
    assert_eq!(top.user_id, 2);
    assert_eq!(top.score, 90);
    assert_eq!(top.games_played, 2);
    assert_eq!(top.username, "player_bbbbbbbb");
    assert!(ledger.check_top_scorer(&games, &users, 2, "2024-01-05").unwrap());
    assert!(!ledger.check_top_scorer(&games, &users, 3, "2024-01-05").unwrap());
    assert!(!ledger.check_top_scorer(&games, &users, 1, "2024-01-05").unwrap());
    let next = ledger.get_top_scorer_for_date(&games, &users, "2024-01-06").unwrap().unwrap();
    assert_eq!((next.user_id, next.score, next.games_played), (1, 700, 1));
    let before = ledger.get_top_scorer_for_date(&games, &users, "2024-01-04").unwrap().unwrap();
    assert_eq!((before.user_id, before.score, before.games_played), (2, 5, 1));
    assert!(ledger.get_top_scorer_for_date(&games, &users, "2024-01-07").unwrap().is_none());
    assert!(!ledger.check_top_scorer(&games, &users, 1, "2024-01-07").unwrap());
}

#[test]
fn winner_is_recorded_once() {
    let mut ledger = PaymentStore::new();
    assert!(!ledger.check_prize_claimed(2, "2024-01-05").unwrap());
    let first = ledger.record_daily_winner_at(2, "2024-01-05", 90, 1350, &at(JAN_5 + 86_700)).unwrap();
    assert_eq!(first.id, 1);
    assert_eq!(first.user_id, 2);
    assert_eq!(first.date, "2024-01-05");
    assert_eq!(first.score, 90);
    assert_eq!(first.amount_sats, 1350);
    assert!(first.payment_request.is_none());
    assert!(first.payment_id.is_none());
    assert_eq!(first.status, "pending");
    assert_eq!(first.created_at, "2024-01-06T00:05:00.000000000Z");
    assert_eq!(first.updated_at, first.created_at);
    assert!(first.paid_at.is_none());
    let again = ledger.record_daily_winner_at(2, "2024-01-05", 0, 9999, &at(JAN_5 + 90_000)).unwrap();
    assert_eq!(format!("{:?}", again), format!("{:?}", first));
    assert_eq!(ledger.payouts().len(), 1);
    assert!(ledger.check_prize_claimed(2, "2024-01-05").unwrap());
    assert!(!ledger.check_prize_claimed(2, "2024-01-06").unwrap());
    assert!(!ledger.check_prize_claimed(3, "2024-01-05").unwrap());
    let other_day = ledger.record_daily_winner_at(2, "2024-01-06", 1, 450, &at(JAN_5)).unwrap();
    assert_eq!(other_day.id, 2);
    let other_user = ledger.record_daily_winner(3, "2024-01-05", 1, 450).unwrap();
    assert_eq!(other_user.id, 3);
    let same = ledger.record_daily_winner(3, "2024-01-05", 5, 5).unwrap();
    assert_eq!(same.amount_sats, 450);
    assert_eq!(ledger.payouts().len(), 3);
}

#[test]
fn invoice_goes_only_on_an_open_prize() {
    let mut ledger = PaymentStore::new();
    assert!(ledger.update_prize_with_invoice_at(2, "2024-01-05", "lnbc9", &at(JAN_5)).unwrap().is_none());
    ledger.record_daily_winner_at(2, "2024-01-05", 90, 1350, &at(JAN_5)).unwrap();
    ledger.record_daily_winner_at(3, "2024-01-05", 90, 1350, &at(JAN_5)).unwrap();
    let p = ledger.update_prize_with_invoice_at(2, "2024-01-05", "lnbc9", &at(JAN_5 + 5)).unwrap().unwrap();
    assert_eq!(p.payment_request.as_deref(), Some("lnbc9"));
    assert_eq!(p.updated_at, "2024-01-05T00:00:05.000000000Z");
    assert_eq!(p.created_at, "2024-01-05T00:00:00.000000000Z");
    assert_eq!(p.status, "pending");
    let q = ledger.update_prize_with_invoice_at(2, "2024-01-05", "lnbc10", &at(JAN_5 + 6)).unwrap().unwrap();
    assert_eq!(q.payment_request.as_deref(), Some("lnbc10"));
    assert!(ledger.payouts()[1].payment_request.is_none());
    assert_eq!(ledger.get_pending_prize_for_user(2, "2024-01-05").unwrap().unwrap().id, 1);
    let done = ledger.update_prize_status_at(1, "paid", Some("prov-1"), &at(JAN_5 + 9)).unwrap().unwrap();
    assert_eq!(done.status, "paid");
    assert_eq!(done.payment_id.as_deref(), Some("prov-1"));
    assert_eq!(done.paid_at.as_deref(), Some("2024-01-05T00:00:09.000000000Z"));
    assert_eq!(done.payment_request.as_deref(), Some("lnbc10"));
    assert!(ledger.get_pending_prize_for_user(2, "2024-01-05").unwrap().is_none());
    assert!(ledger.update_prize_with_invoice_at(2, "2024-01-05", "lnbc11", &at(JAN_5 + 10)).unwrap().is_none());
    assert_eq!(ledger.payouts()[0].payment_request.as_deref(), Some("lnbc10"));
    assert!(ledger.check_prize_claimed(2, "2024-01-05").unwrap());
    let failed = ledger.update_prize_status_at(2, "failed", None, &at(JAN_5 + 11)).unwrap().unwrap();
    assert_eq!(failed.status, "failed");
    assert!(failed.payment_id.is_none());
    assert!(failed.paid_at.is_none());
    assert!(ledger.update_prize_status_at(77, "paid", None, &at(JAN_5)).unwrap().is_none());
    assert!(ledger.update_prize_status(77, "paid", None).unwrap().is_none());
    assert!(ledger.update_prize_with_invoice(3, "2024-01-05", "lnbc1").unwrap().is_none());
    assert!(ledger.ping().is_ok());
}

#[test]
fn ledger_is_restored_only_in_order() {
    let payment = |id: i64| GamePayment {
        id,
        user_id: 1,
        payment_id: "p".to_string(),
        invoice: "i".to_string(),
        amount_sats: 500,
        status: "pending".to_string(),
        created_at: "c".to_string(),
        updated_at: "u".to_string(),
        paid_at: None,
    };
    let prize = |id: i64, user: i64, date: &str| PrizePayout {
        id,
        user_id: user,
        date: date.to_string(),
        score: 1,
        amount_sats: 450,
        payment_request: None,
        payment_id: None,
        status: "pending".to_string(),
        created_at: "c".to_string(),
        updated_at: "u".to_string(),
        paid_at: None,
    };
    assert!(PaymentStore::restore(vec![payment(1), payment(2)], vec![prize(1, 1, "d"), prize(2, 1, "e"), prize(3, 2, "d")]).is_some());
    assert!(PaymentStore::restore(vec![payment(2), payment(1)], vec![]).is_none());
    assert!(PaymentStore::restore(vec![], vec![prize(2, 1, "d"), prize(1, 2, "d")]).is_none());
    assert!(PaymentStore::restore(vec![], vec![prize(1, 1, "d"), prize(2, 1, "d")]).is_none());
    let mut full = PaymentStore::restore(vec![payment(i64::MAX)], vec![prize(i64::MAX, 1, "d")]).unwrap();
    match full.create_game_payment_at(1, "x", "i", 500, &at(JAN_5)) {
        Err(Error::Database(_)) => {}
        other => panic!("{:?}", other),
    }
    match full.record_daily_winner_at(2, "d", 1, 1, &at(JAN_5)) {
        Err(Error::Database(m)) => assert_eq!(m, "database or disk is full"),
        other => panic!("{:?}", other),
    }
    // The prize that is already there is found even in a full table.
    assert_eq!(full.record_daily_winner_at(1, "d", 1, 1, &at(JAN_5)).unwrap().id, i64::MAX);
}

#[test]
fn errors_map_to_statuses() {
    let r = map_error(Error::NotFound("a".to_string()));
    assert_eq!((r.status, r.message.as_str()), (404, "a"));
    let r = map_error(Error::InvalidInput("b".to_string()));
    assert_eq!((r.status, r.message.as_str()), (400, "b"));
    let r = map_error(Error::Authentication("c".to_string()));
    assert_eq!((r.status, r.message.as_str()), (401, "c"));
    let r = map_error(Error::Database("d".to_string()));
    assert_eq!((r.status, r.message.as_str()), (500, "Internal server error"));
    let r = map_error(Error::Thread("e".to_string()));
    assert_eq!((r.status, r.message.as_str()), (500, "Internal server error"));
    assert_eq!(Error::Database("d".to_string()).message(), "Database error: d");
    assert_eq!(Error::NotFound("d".to_string()).message(), "Resource not found: d");
    assert_eq!(Error::Authentication("d".to_string()).message(), "Authentication error: d");
    assert_eq!(Error::Thread("d".to_string()).message(), "Thread error: d");
}
