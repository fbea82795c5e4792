use server::clock::Instant;
use server::daily_tasks::{run_daily_tasks, run_daily_tasks_at, DailyOutcome};
use server::domain::games::routes::{
    get_game_config, get_game_config_at, get_top_scores, get_user_scores, health,
    invoice_fetched, invoice_fetched_at, invoice_requested, payment_status_checked,
    payment_status_checked_at, start_new_session, start_new_session_at, submit_score,
    submit_score_at, ConfigQuery, ScoreSubmission, SessionAction, SessionReply, SessionStep,
};
use server::domain::games::store::GameStore;
use server::domain::payments::routes::{
    check_payment_status, check_prize_eligibility, check_prize_eligibility_at, claim_prize,
    claim_prize_at, payment_status_answered, payment_status_answered_at,
    prize_payment_finished, prize_payment_finished_at, prize_payment_finished_undated,
    ClaimPrizeRequest, ClaimStep, StatusStep,
};
use server::domain::payments::store::{PaymentStore, PrizePayout};
use server::domain::users::store::UserStore;
use server::lightning::models::{LightningError, Payment};
use server::lightning::service::{HttpReply, LightningService};
use server::routes::system::health_check;
use server::startup::{database_path, database_url, listen_address, AppState};
use server::config::Settings;

// 2024-01-05T00:00:00Z
const JAN_5: i64 = 1_704_412_800;
const ALICE: &str = "aaaaaaaa11111111";
const BOB: &str = "bbbbbbbb22222222";

fn at(seconds: i64) -> Instant {
    Instant::from_unix_seconds(seconds).unwrap()
}

fn state() -> AppState {
    let mut users = UserStore::new();
    users.login_at(ALICE.to_string(), &at(JAN_5), "t").unwrap();
    users.login_at(BOB.to_string(), &at(JAN_5), "t").unwrap();
    AppState {
        ui_dir: "./ui".to_string(),
        remote_url: "http://127.0.0.1:8900".to_string(),
        user_store: users,
        game_store: GameStore::new(),
        payment_store: PaymentStore::new(),
        lightning_service: LightningService::new(
            "https://api/".to_string(),
            "k".to_string(),
            "o".to_string(),
            "e".to_string(),
            "w".to_string(),
        ),
    }
}

fn provider_says(status: &str) -> Result<Option<Payment>, LightningError> {
    Ok(Some(Payment::from_json(&format!("{{\"id\":\"x\",\"status\":\"{}\"}}", status)).unwrap()))
}

fn failed(step: SessionStep) -> (u16, String) {
    match step.action {
        SessionAction::Respond(SessionReply::Failed(e)) => (e.status, e.message),
        other => panic!("{:?}", other),
    }
}

#[test]
fn health_says_ok() {
    assert_eq!(health(), "OK");
    assert_eq!(health_check(&state()).unwrap(), 200);
}

#[test]
fn addresses_come_from_the_settings() {
    let s = Settings::default();
    assert_eq!(listen_address(&s), "127.0.0.1:8900");
    assert_eq!(database_path(&s), "./data/game.db");
    assert_eq!(database_url(&s), "sqlite:./data/game.db");
}

#[test]
fn unpaid_player_is_asked_to_pay_and_let_in_once_paid() {
    let mut st = state();
    let now = at(JAN_5 + 10 * 3600);
    // No payment yet: an invoice is requested.
    let step = start_new_session_at(&mut st, ALICE, &now, "s1", "c1");
    assert_eq!(step.pause_millis, 0);
    let user_id = match step.action {
        SessionAction::RequestInvoice { user_id, description } => {
            assert_eq!(description, "Asteroids Game Entry Fee - User:aaaaaaaa11111111");
            user_id
        }
        other => panic!("{:?}", other),
    };
    assert_eq!(user_id, 1);
    // The provider accepts: the invoice is fetched, first try.
    let step = invoice_requested(user_id, Ok("pay-1".to_string()));
    let (payment_id, attempt) = match step.action {
        SessionAction::FetchInvoice { user_id: 1, payment_id, attempt } => (payment_id, attempt),
        other => panic!("{:?}", other),
    };
    assert_eq!((payment_id.as_str(), attempt, step.pause_millis), ("pay-1", 1, 0));
    // Not there yet: pause, then the second try.
    let step = invoice_fetched_at(&mut st, 1, payment_id.clone(), 1, Ok(None), &now);
    assert_eq!(step.pause_millis, 5000);
    assert!(matches!(step.action, SessionAction::FetchInvoice { user_id: 1, attempt: 2, .. }));
    assert!(st.payment_store.payments().is_empty());
    // There: 402 with the fresh invoice.
    let step = invoice_fetched_at(&mut st, 1, payment_id, 2, Ok(Some("lnbc500n1".to_string())), &now);
    assert_eq!(step.pause_millis, 0);
    match step.action {
        SessionAction::Respond(SessionReply::PaymentRequired(n)) => {
            assert_eq!(n.invoice, "lnbc500n1");
            assert_eq!(n.payment_id, "pay-1");
            assert_eq!(n.amount_sats, 500);
            assert_eq!(n.created_at, "2024-01-05T10:00:00.000000000Z");
            assert!(n.message.is_none());
            assert!(n.error.is_none());
        }
        other => panic!("{:?}", other),
    }
    assert_eq!(st.payment_store.payments().len(), 1);
    // Asking again: the open payment is checked with the provider.
    let later = at(JAN_5 + 10 * 3600 + 30);
    let step = start_new_session_at(&mut st, ALICE, &later, "s2", "c2");
    let pending = match step.action {
        SessionAction::CheckStatus { user_id: 1, pending } => pending,
        other => panic!("{:?}", other),
    };
    assert_eq!(pending.payment_id, "pay-1");
    // Still receiving: the same invoice again, nothing new is charged.
    let step = payment_status_checked_at(&mut st, ALICE, 1, pending.clone(), provider_says("receiving"), &later, "s2", "c2");
    match step.action {
        SessionAction::Respond(SessionReply::PaymentRequired(n)) => {
            assert_eq!(n.invoice, "lnbc500n1");
            assert_eq!(n.payment_id, "pay-1");
        }
        other => panic!("{:?}", other),
    }
    assert_eq!(st.payment_store.payments().len(), 1);
    assert!(st.game_store.sessions().is_empty());
    // Completed: 201 with a configuration that expires later.
    let step = payment_status_checked_at(&mut st, ALICE, 1, pending, provider_says("completed"), &later, "s3", "c3");
    match step.action {
        SessionAction::Respond(SessionReply::Created(r)) => {
            assert_eq!(r.config.session_id, "session_s3");
            assert_eq!(r.config.config_id, "config_c3");
            assert_eq!(r.config.asteroids.initial_count, 5);
            assert!(r.config.expiration_time > (later.unix_seconds() as u64) * 1000);
            assert_eq!(r.config.expiration_time, (later.unix_seconds() as u64 + 300) * 1000);
        }
        other => panic!("{:?}", other),
    }
    assert_eq!(st.payment_store.payments()[0].status, "paid");
    // Within the hour a new session needs no new payment.
    let soon = at(JAN_5 + 10 * 3600 + 1800);
    let step = start_new_session_at(&mut st, ALICE, &soon, "s4", "c4");
    assert!(matches!(step.action, SessionAction::Respond(SessionReply::Created(_))));
    assert_eq!(st.game_store.sessions().len(), 2);
    // After the hour the player is asked to pay again.
    let late = at(JAN_5 + 11 * 3600 + 31);
    let step = start_new_session_at(&mut st, ALICE, &late, "s5", "c5");
    assert!(matches!(step.action, SessionAction::RequestInvoice { .. }));
    // Another player is not let in on this payment.
    let step = start_new_session_at(&mut st, BOB, &soon, "s6", "c6");
    assert!(matches!(step.action, SessionAction::RequestInvoice { user_id: 2, .. }));
    // Nor is a key that is no player's.
    assert_eq!(failed(start_new_session_at(&mut st, "nobody", &soon, "s", "c")), (401, "User not found".to_string()));
}

#[test]
fn failed_payment_leads_to_a_new_invoice() {
    let mut st = state();
    let now = at(JAN_5);
    let pending = st.payment_store.create_game_payment_at(1, "pay-1", "lnbc1", 500, &now).unwrap();
    let step = payment_status_checked_at(&mut st, ALICE, 1, pending.clone(), provider_says("failed"), &now, "s", "c");
    match step.action {
        SessionAction::RequestInvoice { user_id: 1, description } => {
            assert_eq!(description, "Asteroids Game Entry Fee - User:aaaaaaaa11111111")
        }
        other => panic!("{:?}", other),
    }
    assert_eq!(st.payment_store.payments()[0].status, "failed");
    assert!(st.payment_store.get_pending_payment_for_user(1).unwrap().is_none());
    // The provider does not know the payment yet, or cannot be asked.
    let pending = st.payment_store.create_game_payment_at(1, "pay-2", "lnbc2", 500, &now).unwrap();
    match payment_status_checked_at(&mut st, ALICE, 1, pending.clone(), Ok(None), &now, "s", "c").action {
        SessionAction::Respond(SessionReply::PaymentRequired(n)) => {
            assert_eq!(n.invoice, "lnbc2");
            assert_eq!(n.message.as_deref(), Some("Payment processing, please wait"));
            assert!(n.error.is_none());
        }
        other => panic!("{:?}", other),
    }
    let answer = Err(LightningError::ApiError("x".to_string()));
    match payment_status_checked_at(&mut st, ALICE, 1, pending, answer, &now, "s", "c").action {
        SessionAction::Respond(SessionReply::PaymentRequired(n)) => {
            assert_eq!(n.error.as_deref(), Some("Could not verify payment status. Please try again."));
            assert!(n.message.is_none());
        }
        other => panic!("{:?}", other),
    }
    assert_eq!(st.payment_store.payments()[1].status, "pending");
}

#[test]
fn invoice_is_given_up_after_ten_tries() {
    let mut st = state();
    let now = at(JAN_5);
    assert_eq!(
        failed(invoice_requested(1, Err(LightningError::ApiError("x".to_string())))),
        (500, "Failed to create payment invoice".to_string())
    );
    for attempt in 1..10u32 {
        let step = invoice_fetched_at(&mut st, 1, "p".to_string(), attempt, Ok(None), &now);
        assert_eq!(step.pause_millis, 5000);
        match step.action {
            SessionAction::FetchInvoice { user_id: 1, payment_id, attempt: next } => {
                assert_eq!(payment_id, "p");
                assert_eq!(next, attempt + 1);
            }
            other => panic!("{:?}", other),
        }
    }
    let step = invoice_fetched_at(&mut st, 1, "p".to_string(), 10, Ok(None), &now);
    assert_eq!(step.pause_millis, 5000);
    assert_eq!(failed(step), (500, "Failed to generate Lightning invoice. Please try again.".to_string()));
    let step = invoice_fetched_at(&mut st, 1, "p".to_string(), 3, Err(LightningError::ApiError("x".to_string())), &now);
    assert_eq!(step.pause_millis, 0);
    assert_eq!(failed(step), (500, "Failed to retrieve payment invoice".to_string()));
    assert!(st.payment_store.payments().is_empty());
    let step = invoice_fetched(&mut st, 1, "p".to_string(), 10, Ok(None));
    assert_eq!(failed(step).0, 500);
}

#[test]
fn session_handler_by_the_clock() {
    let mut st = state();
    let step = start_new_session(&mut st, ALICE);
    assert!(matches!(step.action, SessionAction::RequestInvoice { user_id: 1, .. }));
    let step = invoice_fetched(&mut st, 1, "pay-1".to_string(), 1, Ok(Some("lnbc5".to_string())));
    assert!(matches!(step.action, SessionAction::Respond(SessionReply::PaymentRequired(_))));
    let step = start_new_session(&mut st, ALICE);
    let pending = match step.action {
        SessionAction::CheckStatus { pending, .. } => pending,
        other => panic!("{:?}", other),
    };
    let step = payment_status_checked(&mut st, ALICE, 1, pending, provider_says("completed"));
    let config = match step.action {
        SessionAction::Respond(SessionReply::Created(r)) => r.config,
        other => panic!("{:?}", other),
    };
    let now_ms = Instant::now().unwrap().unix_seconds() as u64 * 1000;
    assert!(config.expiration_time > now_ms);
    assert!(matches!(start_new_session(&mut st, ALICE).action, SessionAction::Respond(SessionReply::Created(_))));
    assert_eq!(failed(start_new_session(&mut st, "nobody")).0, 401);
}

#[test]
fn configuration_is_for_the_players_own_session() {
    let mut st = state();
    let now = at(JAN_5);
    let fresh = get_game_config_at(&mut st, ALICE, ConfigQuery { session_id: None }, &now, "s1", "c1").unwrap();
    assert_eq!(fresh.session_id, "session_s1");
    assert_eq!(fresh.asteroids.initial_count, 5);
    let later = at(JAN_5 + 20 * 60);
    let q = ConfigQuery { session_id: Some("session_s1".to_string()) };
    let hard = get_game_config_at(&mut st, ALICE, q, &later, "s2", "c2").unwrap();
    assert_eq!(hard.session_id, "session_s1");
    assert_eq!(hard.config_id, "config_c2");
    assert_eq!(hard.asteroids.initial_count, 15);
    assert_eq!(hard.scoring.points_per_asteroid, 30);
    let q = ConfigQuery { session_id: Some("session_s1".to_string()) };
    let e = get_game_config_at(&mut st, BOB, q, &later, "s", "c").unwrap_err();
    assert_eq!((e.status, e.message.as_str()), (403, "Session belongs to a different user"));
    let q = ConfigQuery { session_id: Some("session_zz".to_string()) };
    let e = get_game_config_at(&mut st, ALICE, q, &later, "s", "c").unwrap_err();
    assert_eq!((e.status, e.message.as_str()), (404, "Session not found: session_zz"));
    let e = get_game_config_at(&mut st, "nobody", ConfigQuery { session_id: None }, &later, "s", "c").unwrap_err();
    assert_eq!((e.status, e.message.as_str()), (404, "User not found"));
    assert_eq!(st.game_store.configs().len(), 2);
    let by_clock = get_game_config(&mut st, BOB, ConfigQuery { session_id: None }).unwrap();
    assert_eq!(by_clock.fps, 60);
    assert_eq!(st.game_store.sessions().len(), 2);
}

#[test]
fn scores_need_the_players_own_session() {
    let mut st = state();
    let now = at(JAN_5);
    st.game_store.create_session_at(1, "s1", &now).unwrap();
    let sub = |session: &str, score: i64| ScoreSubmission {
        score,
        level: 2,
        play_time: 30,
        session_id: session.to_string(),
    };
    let r = submit_score_at(&mut st, ALICE, sub("session_s1", 120), &now).unwrap();
    assert_eq!((r.id, r.score, r.level, r.play_time), (1, 120, 2, 30));
    assert_eq!(r.created_at, "2024-01-05T00:00:00.000000000Z");
    let e = submit_score_at(&mut st, BOB, sub("session_s1", 1), &now).unwrap_err();
    assert_eq!((e.status, e.message.as_str()), (403, "Session belongs to a different user"));
    let e = submit_score_at(&mut st, ALICE, sub("session_zz", 1), &now).unwrap_err();
    assert_eq!((e.status, e.message.as_str()), (404, "Session not found"));
    let e = submit_score_at(&mut st, "nobody", sub("session_s1", 1), &now).unwrap_err();
    assert_eq!((e.status, e.message.as_str()), (401, "User not found"));
    submit_score(&mut st, ALICE, sub("session_s1", 300)).unwrap();
    submit_score(&mut st, ALICE, sub("session_s1", 50)).unwrap();
    let mine: Vec<i64> = get_user_scores(&st, ALICE).unwrap().iter().map(|s| s.score).collect();
    assert_eq!(mine, vec![300, 120, 50]);
    assert!(get_user_scores(&st, BOB).unwrap().is_empty());
    assert_eq!(get_user_scores(&st, "nobody").unwrap_err().status, 401);
    let board = get_top_scores(&st).unwrap();
    assert_eq!(board.len(), 3);
    assert_eq!(board[0].score, 300);
    assert_eq!(board[0].username, "player_aaaaaaaa");
    for i in 0..12 {
        submit_score(&mut st, ALICE, sub("session_s1", 1000 + i)).unwrap();
    }
    assert_eq!(get_top_scores(&st).unwrap().len(), 10);
    assert_eq!(get_user_scores(&st, ALICE).unwrap().len(), 10);
    assert_eq!(get_top_scores(&st).unwrap()[0].score, 1011);
}

#[test]
fn payment_status_is_reconciled_with_the_provider() {
    let mut st = state();
    let now = at(JAN_5);
    st.payment_store.create_game_payment_at(1, "pay-1", "lnbc1", 500, &now).unwrap();
    match check_payment_status(&st, "nobody", "pay-1") {
        StatusStep::Respond(Err(e)) => assert_eq!((e.status, e.message.as_str()), (401, "User not found")),
        other => panic!("{:?}", other),
    }
    match check_payment_status(&st, ALICE, "pay-9") {
        StatusStep::Respond(Err(e)) => assert_eq!((e.status, e.message.as_str()), (404, "Payment not found")),
        other => panic!("{:?}", other),
    }
    match check_payment_status(&st, BOB, "pay-1") {
        StatusStep::Respond(Err(e)) => {
            assert_eq!((e.status, e.message.as_str()), (403, "Payment belongs to another user"))
        }
        other => panic!("{:?}", other),
    }
    let payment = match check_payment_status(&st, ALICE, "pay-1") {
        StatusStep::AskProvider { payment } => payment,
        other => panic!("{:?}", other),
    };
    let b = payment_status_answered_at(&mut st, payment.clone(), provider_says("receiving"), &now);
    assert_eq!((b.status.as_str(), b.payment_id.as_str()), ("pending", "pay-1"));
    assert!(b.message.is_none() && b.error.is_none());
    let b = payment_status_answered_at(&mut st, payment.clone(), Ok(None), &now);
    assert_eq!(b.status, "pending");
    assert_eq!(b.message.as_deref(), Some("Payment not found in Lightning API yet"));
    let b = payment_status_answered_at(&mut st, payment.clone(), Err(LightningError::ApiError("x".to_string())), &now);
    assert_eq!(b.status, "pending");
    assert_eq!(b.error.as_deref(), Some("Could not verify payment status with payment provider."));
    assert_eq!(st.payment_store.payments()[0].status, "pending");
    let b = payment_status_answered_at(&mut st, payment.clone(), provider_says("completed"), &at(JAN_5 + 5));
    assert_eq!(b.status, "paid");
    assert_eq!(st.payment_store.payments()[0].paid_at.as_deref(), Some("2024-01-05T00:00:05.000000000Z"));
    // Once paid the ledger answers by itself.
    match check_payment_status(&st, ALICE, "pay-1") {
        StatusStep::Respond(Ok(b)) => assert_eq!((b.status.as_str(), b.payment_id.as_str()), ("paid", "pay-1")),
        other => panic!("{:?}", other),
    }
    // The same answer a second time changes nothing.
    payment_status_answered_at(&mut st, payment, provider_says("completed"), &at(JAN_5 + 500));
    assert_eq!(st.payment_store.payments()[0].paid_at.as_deref(), Some("2024-01-05T00:00:05.000000000Z"));
    let p2 = st.payment_store.create_game_payment_at(2, "pay-2", "lnbc2", 500, &now).unwrap();
    let b = payment_status_answered(&mut st, p2, provider_says("failed"));
    assert_eq!(b.status, "failed");
    assert_eq!(st.payment_store.payments()[1].status, "failed");
}

fn played_day(st: &mut AppState) {
    // On 2024-01-05 Alice scores 90, Bob 40; three games are paid that day,
    // one the day after.
    st.game_store.submit_score_at(1, 90, 1, 1, &at(JAN_5 + 100)).unwrap();
    st.game_store.submit_score_at(2, 40, 1, 1, &at(JAN_5 + 200)).unwrap();
    for (i, seconds) in [3600, 7200, 80_000, 86_400 + 60].iter().enumerate() {
        let id = format!("p{}", i);
        st.payment_store.create_game_payment_at(1, &id, "i", 500, &at(JAN_5)).unwrap();
        st.payment_store.update_payment_status_at(&id, "paid", &at(JAN_5 + seconds)).unwrap();
    }
}

#[test]
fn the_winner_of_yesterday_is_eligible() {
    let mut st = state();
    played_day(&mut st);
    let today = at(JAN_5 + 86_400 + 3600);
    let e = check_prize_eligibility_at(&mut st, "nobody", &today).unwrap_err();
    assert_eq!(e.status, 401);
    let loser = check_prize_eligibility_at(&mut st, BOB, &today).unwrap();
    assert!(!loser.info.eligible);
    assert_eq!(loser.info.message, "You were not the top scorer for yesterday's games");
    assert!(st.payment_store.payouts().is_empty());
    let first = check_prize_eligibility_at(&mut st, ALICE, &today).unwrap();
    assert!(first.info.eligible);
    assert_eq!(first.info.date, "2024-01-05");
    assert_eq!(first.info.amount, 1350);
    assert_eq!(first.info.message, "You can claim your prize by submitting a Lightning invoice");
    assert!(first.status.is_none());
    assert!(first.has_payment_request.is_none());
    let rows = st.payment_store.payouts();
    assert_eq!(rows.len(), 1);
    assert_eq!((rows[0].user_id, rows[0].date.as_str(), rows[0].score, rows[0].amount_sats), (1, "2024-01-05", 0, 1350));
    // Asked again, the recorded prize is offered, and nothing is added.
    let second = check_prize_eligibility_at(&mut st, ALICE, &at(JAN_5 + 86_400 + 7200)).unwrap();
    assert!(second.info.eligible);
    assert_eq!(second.info.amount, 1350);
    assert_eq!(second.status.as_deref(), Some("pending"));
    assert_eq!(second.has_payment_request, Some(false));
    assert_eq!(st.payment_store.payouts().len(), 1);
    // Once settled, there is nothing left to claim.
    st.payment_store.update_prize_status_at(1, "paid", Some("x"), &today).unwrap();
    let done = check_prize_eligibility_at(&mut st, ALICE, &today).unwrap();
    assert!(!done.info.eligible);
    assert_eq!(done.info.message, "You have already claimed your prize for yesterday");
    // Two days later yesterday is another day, with a game paid but no score.
    let none = check_prize_eligibility_at(&mut st, ALICE, &at(JAN_5 + 2 * 86_400 + 5)).unwrap();
    assert!(!none.info.eligible);
    let by_clock = check_prize_eligibility(&mut st, ALICE).unwrap();
    assert!(!by_clock.info.eligible);
}

#[test]
fn no_paid_games_no_prize() {
    let mut st = state();
    st.game_store.submit_score_at(1, 90, 1, 1, &at(JAN_5 + 100)).unwrap();
    let r = check_prize_eligibility_at(&mut st, ALICE, &at(JAN_5 + 86_400 + 5)).unwrap();
    assert!(!r.info.eligible);
    assert_eq!(r.info.message, "No prize pool available for yesterday");
    assert!(st.payment_store.payouts().is_empty());
    let e = check_prize_eligibility_at(&mut st, ALICE, &at(-62_167_219_200 + 5)).unwrap_err();
    assert_eq!((e.status, e.message.as_str()), (400, "Date is out of range"));
}

#[test]
fn two_eligibility_checks_record_one_prize() {
    let mut st = state();
    played_day(&mut st);
    let today = at(JAN_5 + 86_400 + 3600);
    let a = check_prize_eligibility_at(&mut st, ALICE, &today).unwrap();
    let b = check_prize_eligibility_at(&mut st, ALICE, &today).unwrap();
    assert!(a.info.eligible && b.info.eligible);
    assert_eq!(a.info.amount, b.info.amount);
    st.payment_store.record_daily_winner_at(1, "2024-01-05", 90, 1350, &today).unwrap();
    st.payment_store.record_daily_winner_at(1, "2024-01-05", 90, 1350, &today).unwrap();
    let rows = st.payment_store.payouts();
    assert_eq!(rows.iter().filter(|p| p.user_id == 1 && p.date == "2024-01-05").count(), 1);
}

#[test]
fn claim_with_a_bad_invoice_is_refused_whoever_asks() {
    let mut st = state();
    played_day(&mut st);
    let today = at(JAN_5 + 86_400 + 3600);
    check_prize_eligibility_at(&mut st, ALICE, &today).unwrap();
    let claim = |invoice: &str, date: &str| ClaimPrizeRequest { invoice: invoice.to_string(), date: date.to_string() };
    for (who, invoice, date) in [
        (ALICE, "lntb1350", "2024-01-05"),
        (ALICE, "", "2024-01-05"),
        (ALICE, "LNBC1350", "2024-01-05"),
        (BOB, "bitcoin:abc", "2024-01-05"),
        (BOB, "lnb", "1999-01-01"),
    ] {
        match claim_prize_at(&mut st, who, claim(invoice, date), &today) {
            ClaimStep::Respond(Err(e)) => assert_eq!((e.status, e.message.as_str()), (400, "Invalid Lightning invoice")),
            other => panic!("{:?}", other),
        }
        match claim_prize(&mut st, who, claim(invoice, date)) {
            ClaimStep::Respond(Err(e)) => assert_eq!(e.status, 400),
            other => panic!("{:?}", other),
        }
    }
    assert!(st.payment_store.payouts()[0].payment_request.is_none());
    match claim_prize_at(&mut st, "nobody", claim("lntb1", "2024-01-05"), &today) {
        ClaimStep::Respond(Err(e)) => assert_eq!(e.status, 401),
        other => panic!("{:?}", other),
    }
}

#[test]
fn prize_is_claimed_and_paid() {
    let mut st = state();
    played_day(&mut st);
    let today = at(JAN_5 + 86_400 + 3600);
    let claim = |invoice: &str, date: &str| ClaimPrizeRequest { invoice: invoice.to_string(), date: date.to_string() };
    // Before the winner is on record there is nothing to claim.
    match claim_prize_at(&mut st, ALICE, claim("lnbc1350", "2024-01-05"), &today) {
        ClaimStep::Respond(Err(e)) => {
            assert_eq!((e.status, e.message.as_str()), (404, "No eligible prize found for this date"))
        }
        other => panic!("{:?}", other),
    }
    check_prize_eligibility_at(&mut st, ALICE, &today).unwrap();
    match claim_prize_at(&mut st, BOB, claim("lnbc1350", "2024-01-05"), &today) {
        ClaimStep::Respond(Err(e)) => {
            assert_eq!((e.status, e.message.as_str()), (403, "You were not the top scorer for this date"))
        }
        other => panic!("{:?}", other),
    }
    let (prize_id, amount_sats) = match claim_prize_at(&mut st, ALICE, claim("lnbc1350", "2024-01-05"), &today) {
        ClaimStep::Pay { prize_id, invoice, amount_msats, amount_sats } => {
            assert_eq!(invoice, "lnbc1350");
            assert_eq!(amount_msats, 1_350_000);
            assert_eq!(amount_sats, 1350);
            (prize_id, amount_sats)
        }
        other => panic!("{:?}", other),
    };
    assert_eq!(prize_id, 1);
    assert_eq!(st.payment_store.payouts()[0].payment_request.as_deref(), Some("lnbc1350"));
    let seen = check_prize_eligibility_at(&mut st, ALICE, &today).unwrap();
    assert_eq!(seen.has_payment_request, Some(true));
    // The payout fails: the prize is marked failed and cannot be claimed again.
    let mut failing = state();
    played_day(&mut failing);
    check_prize_eligibility_at(&mut failing, ALICE, &today).unwrap();
    claim_prize_at(&mut failing, ALICE, claim("lnbc1350", "2024-01-05"), &today);
    let outcome = Err(LightningError::PaymentTimeout("Timeout waiting for payment x".to_string()));
    let e = prize_payment_finished_at(&mut failing, 1, 1350, outcome, &today).unwrap_err();
    assert_eq!(e.status, 500);
    assert_eq!(e.message, "Failed to send payment: Timeout waiting for payment: Timeout waiting for payment x");
    assert_eq!(failing.payment_store.payouts()[0].status, "failed");
    assert!(failing.payment_store.payouts()[0].payment_id.is_none());
    match claim_prize_at(&mut failing, ALICE, claim("lnbc1350", "2024-01-05"), &today) {
        ClaimStep::Respond(Err(e)) => assert_eq!(e.status, 404),
        other => panic!("{:?}", other),
    }
    // The payout succeeds.
    let paid = Payment::from_json(r#"{"id":"out-7","status":"completed"}"#).unwrap();
    let body = prize_payment_finished_at(&mut st, prize_id, amount_sats, Ok(paid), &at(JAN_5 + 86_400 + 3700)).unwrap();
    assert!(body.success);
    assert_eq!(body.message, "Prize payment sent successfully");
    assert_eq!(body.payment_id, "out-7");
    assert_eq!(body.amount, 1350);
    let row = &st.payment_store.payouts()[0];
    assert_eq!(row.status, "paid");
    assert_eq!(row.payment_id.as_deref(), Some("out-7"));
    assert_eq!(row.paid_at.as_deref(), Some("2024-01-06T01:01:40.000000000Z"));
    let nameless = Payment::from_json(r#"{"status":"completed"}"#).unwrap();
    let body = prize_payment_finished(&mut st, prize_id, amount_sats, Ok(nameless)).unwrap();
    assert_eq!(body.payment_id, "unknown");
}

#[test]
fn settlement_records_the_winner_once_a_day() {
    let mut st = state();
    played_day(&mut st);
    assert!(matches!(run_daily_tasks_at(&mut st, &at(JAN_5 + 86_400 + 4 * 60)), DailyOutcome::OutsideWindow));
    assert!(matches!(run_daily_tasks_at(&mut st, &at(JAN_5 + 86_400 + 3600 + 6 * 60)), DailyOutcome::OutsideWindow));
    assert!(st.payment_store.payouts().is_empty());
    match run_daily_tasks_at(&mut st, &at(JAN_5 + 86_400 + 6 * 60)) {
        DailyOutcome::Recorded { date, user_id, prize_sats } => {
            assert_eq!((date.as_str(), user_id, prize_sats), ("2024-01-05", 1, 1350))
        }
        other => panic!("{:?}", other),
    }
    let rows = st.payment_store.payouts();
    assert_eq!(rows.len(), 1);
    assert_eq!((rows[0].user_id, rows[0].score, rows[0].amount_sats, rows[0].status.as_str()), (1, 90, 1350, "pending"));
    assert_eq!(rows[0].created_at, "2024-01-06T00:06:00.000000000Z");
    // A second tick in the window, as after a restart, records nothing new.
    assert!(matches!(run_daily_tasks_at(&mut st, &at(JAN_5 + 86_400 + 14 * 60)), DailyOutcome::Recorded { .. }));
    assert_eq!(st.payment_store.payouts().len(), 1);
    assert_eq!(st.payment_store.payouts()[0].created_at, "2024-01-06T00:06:00.000000000Z");
    // The day after: a game was paid, nobody scored.
    match run_daily_tasks_at(&mut st, &at(JAN_5 + 2 * 86_400 + 5 * 60)) {
        DailyOutcome::NoScores { date } => assert_eq!(date, "2024-01-06"),
        other => panic!("{:?}", other),
    }
    // A day with scores and no paid game.
    st.game_store.submit_score_at(2, 5, 1, 1, &at(JAN_5 + 3 * 86_400 + 50)).unwrap();
    match run_daily_tasks_at(&mut st, &at(JAN_5 + 4 * 86_400 + 10 * 60)) {
        DailyOutcome::NoGames { date } => assert_eq!(date, "2024-01-08"),
        other => panic!("{:?}", other),
    }
    assert_eq!(st.payment_store.payouts().len(), 1);
    match run_daily_tasks(&mut st) {
        DailyOutcome::OutsideWindow | DailyOutcome::NoScores { .. } => {}
        other => panic!("{:?}", other),
    }
}

#[test]
fn settlement_reports_a_full_ledger() {
    let mut st = state();
    played_day(&mut st);
    let full = PrizePayout {
        id: i64::MAX,
        user_id: 2,
        date: "2020-01-01".to_string(),
        score: 1,
        amount_sats: 450,
        payment_request: None,
        payment_id: None,
        status: "paid".to_string(),
        created_at: "c".to_string(),
        updated_at: "u".to_string(),
        paid_at: None,
    };
    st.payment_store = PaymentStore::restore(st.payment_store.payments(), vec![full]).unwrap();
    match run_daily_tasks_at(&mut st, &at(JAN_5 + 86_400 + 6 * 60)) {
        DailyOutcome::RecordFailed { date, error } => {
            assert_eq!(date, "2024-01-05");
            assert_eq!(error.message(), "Database error: database or disk is full");
        }
        other => panic!("{:?}", other),
    }
    assert_eq!(st.payment_store.payouts().len(), 1);
    // The player is told of the prize all the same; nothing is recorded.
    let r = check_prize_eligibility_at(&mut st, ALICE, &at(JAN_5 + 86_400 + 3600)).unwrap();
    assert!(r.info.eligible);
    assert_eq!(r.info.amount, 1350);
    assert_eq!(st.payment_store.payouts().len(), 1);
}

#[test]
fn payout_is_settled_without_a_clock() {
    let mut st = state();
    played_day(&mut st);
    let today = at(JAN_5 + 86_400 + 3600);
    check_prize_eligibility_at(&mut st, ALICE, &today).unwrap();
    let claim = ClaimPrizeRequest { invoice: "lnbc1350".to_string(), date: "2024-01-05".to_string() };
    claim_prize_at(&mut st, ALICE, claim, &today);
    let paid = Payment::from_json(r#"{"id":"out-7","status":"completed"}"#).unwrap();
    let body = prize_payment_finished_undated(&mut st, 1, 1350, Ok(paid)).unwrap();
    assert!(body.success);
    assert_eq!(body.payment_id, "out-7");
    assert_eq!(body.amount, 1350);
    let row = &st.payment_store.payouts()[0];
    assert_eq!(row.status, "paid");
    assert_eq!(row.payment_id.as_deref(), Some("out-7"));
    assert_eq!(row.paid_at.as_deref(), Some("2024-01-06T01:00:00.000000000Z"));
    // The prize cannot be claimed a second time.
    let again = ClaimPrizeRequest { invoice: "lnbc1350".to_string(), date: "2024-01-05".to_string() };
    match claim_prize_at(&mut st, ALICE, again, &today) {
        ClaimStep::Respond(Err(e)) => assert_eq!(e.status, 404),
        other => panic!("{:?}", other),
    }
    let mut failing = state();
    played_day(&mut failing);
    check_prize_eligibility_at(&mut failing, ALICE, &today).unwrap();
    let outcome = Err(LightningError::ApiError("x".to_string()));
    let e = prize_payment_finished_undated(&mut failing, 1, 1350, outcome).unwrap_err();
    assert_eq!((e.status, e.message.as_str()), (500, "Failed to send payment: API error: x"));
    assert_eq!(failing.payment_store.payouts()[0].status, "failed");
}

#[test]
fn a_payment_held_as_failed_is_not_let_in_later() {
    let mut st = state();
    let now = at(JAN_5);
    let pending = st.payment_store.create_game_payment_at(1, "pay-1", "lnbc1", 500, &now).unwrap();
    st.payment_store.update_payment_status_at("pay-1", "failed", &now).unwrap();
    // The provider changes its word: the ledger keeps what it has settled.
    let b = payment_status_answered_at(&mut st, pending.clone(), provider_says("completed"), &at(JAN_5 + 9));
    assert_eq!(b.payment_id, "pay-1");
    let row = &st.payment_store.payments()[0];
    assert_eq!(row.status, "failed");
    assert!(row.paid_at.is_none());
    assert_eq!(row.updated_at, "2024-01-05T00:00:00.000000000Z");
    payment_status_checked_at(&mut st, ALICE, 1, pending, provider_says("completed"), &at(JAN_5 + 9), "s", "c");
    assert_eq!(st.payment_store.payments()[0].status, "failed");
    assert!(!st.payment_store.has_valid_payment_at(1, &at(JAN_5 + 10)).unwrap());
}

#[test]
fn a_malformed_invoice_answer_ends_the_request() {
    let mut st = state();
    let answer = LightningService::payment_invoice_from(Ok(HttpReply {
        status: 200,
        body: r#"{"type":"onchain","direction":"receive"}"#.to_string(),
    }));
    assert!(matches!(answer, Err(LightningError::PaymentError(_))));
    let step = invoice_fetched_at(&mut st, 1, "p".to_string(), 1, answer, &at(JAN_5));
    assert_eq!(step.pause_millis, 0);
    assert_eq!(failed(step), (500, "Failed to retrieve payment invoice".to_string()));
    assert!(st.payment_store.payments().is_empty());
}
