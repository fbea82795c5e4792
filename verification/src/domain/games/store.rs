//! Game sessions with their difficulty, the configurations handed out for
//! them, and the scores that players submit.

use vstd::prelude::*;
use vstd::string::*;
use crate::clock::{
    iso8601_instant, iso8601_text, representable, whole_minutes_between, Instant,
};
use crate::domain::users::store::{find_user_id_from, UserStore, UserView};
use crate::domain::{clock_stopped, current_time, new_token, Error};
use crate::ident::{
    config_id_for, config_name, is_uuid_v7_text, session_id_for, session_name,
};
use crate::table::{
    check_ids, following_id, ids_in_order, is_ranking, lemma_push_in_order, next_id, positions,
    rank, ranked, wide,
};
use crate::text::{concat2, str_eq};

verus! {

/// Seconds for which a configuration stays valid.
pub const CONFIG_LIFETIME_SECONDS: i64 = 300;

/// A game session. Its difficulty is kept in tenths: 10 is the factor 1.0,
/// 30 the factor 3.0.
#[derive(Debug)]
pub struct GameSession {
    pub id: i64,
    pub session_id: String,
    pub user_id: i64,
    pub start_time: String,
    pub last_active: String,
    pub difficulty_tenths: i64,
}

/// A game session as plain values.
pub struct GameSessionView {
    pub id: int,
    pub session_id: Seq<char>,
    pub user_id: int,
    pub start_time: Seq<char>,
    pub last_active: Seq<char>,
    pub difficulty_tenths: int,
}

impl View for GameSession {
    type V = GameSessionView;

    open spec fn view(&self) -> GameSessionView {
        GameSessionView {
            id: self.id as int,
            session_id: self.session_id@,
            user_id: self.user_id as int,
            start_time: self.start_time@,
            last_active: self.last_active@,
            difficulty_tenths: self.difficulty_tenths as int,
        }
    }
}

impl Clone for GameSession {
    fn clone(&self) -> (copy: Self)
        ensures
            copy@ == self@,
    {
        GameSession {
            id: self.id,
            session_id: self.session_id.clone(),
            user_id: self.user_id,
            start_time: self.start_time.clone(),
            last_active: self.last_active.clone(),
            difficulty_tenths: self.difficulty_tenths,
        }
    }
}

/// The record kept of a configuration that was handed out.
#[derive(Debug)]
pub struct GameConfig {
    pub id: i64,
    pub config_id: String,
    pub user_id: i64,
    pub version: String,
    pub created_at: String,
    pub expiration_time: String,
}

/// The record of a configuration as plain values.
pub struct GameConfigView {
    pub id: int,
    pub config_id: Seq<char>,
    pub user_id: int,
    pub version: Seq<char>,
    pub created_at: Seq<char>,
    pub expiration_time: Seq<char>,
}

impl View for GameConfig {
    type V = GameConfigView;

    open spec fn view(&self) -> GameConfigView {
        GameConfigView {
            id: self.id as int,
            config_id: self.config_id@,
            user_id: self.user_id as int,
            version: self.version@,
            created_at: self.created_at@,
            expiration_time: self.expiration_time@,
        }
    }
}

impl Clone for GameConfig {
    fn clone(&self) -> (copy: Self)
        ensures
            copy@ == self@,
    {
        GameConfig {
            id: self.id,
            config_id: self.config_id.clone(),
            user_id: self.user_id,
            version: self.version.clone(),
            created_at: self.created_at.clone(),
            expiration_time: self.expiration_time.clone(),
        }
    }
}

/// A submitted score.
#[derive(Debug)]
pub struct Score {
    pub id: i64,
    pub user_id: i64,
    pub score: i64,
    pub level: i64,
    pub play_time: i64,
    pub created_at: String,
}

/// A submitted score as plain values.
pub struct ScoreView {
    pub id: int,
    pub user_id: int,
    pub score: int,
    pub level: int,
    pub play_time: int,
    pub created_at: Seq<char>,
}

impl View for Score {
    type V = ScoreView;

    open spec fn view(&self) -> ScoreView {
        ScoreView {
            id: self.id as int,
            user_id: self.user_id as int,
            score: self.score as int,
            level: self.level as int,
            play_time: self.play_time as int,
            created_at: self.created_at@,
        }
    }
}

impl Clone for Score {
    fn clone(&self) -> (copy: Self)
        ensures
            copy@ == self@,
    {
        Score {
            id: self.id,
            user_id: self.user_id,
            score: self.score,
            level: self.level,
            play_time: self.play_time,
            created_at: self.created_at.clone(),
        }
    }
}

/// A score with the name of the player who made it.
#[derive(Debug)]
pub struct ScoreWithUsername {
    pub id: i64,
    pub username: String,
    pub score: i64,
    pub level: i64,
    pub play_time: i64,
    pub created_at: String,
}

/// A score with its player's name, as plain values.
pub struct ScoreWithUsernameView {
    pub id: int,
    pub username: Seq<char>,
    pub score: int,
    pub level: int,
    pub play_time: int,
    pub created_at: Seq<char>,
}

impl View for ScoreWithUsername {
    type V = ScoreWithUsernameView;

    open spec fn view(&self) -> ScoreWithUsernameView {
        ScoreWithUsernameView {
            id: self.id as int,
            username: self.username@,
            score: self.score as int,
            level: self.level as int,
            play_time: self.play_time as int,
            created_at: self.created_at@,
        }
    }
}

/// The parameters of one game. Fractions are kept in thousandths.
#[derive(Debug)]
pub struct GameConfigResponse {
    pub version: String,
    pub config_id: String,
    pub session_id: String,
    pub expiration_time: u64,
    pub fps: u64,
    pub ship: ShipConfig,
    pub bullets: BulletsConfig,
    pub asteroids: AsteroidsConfig,
    pub scoring: ScoringConfig,
}

/// The ship. Turn speed, thrust and friction are in thousandths.
#[derive(Clone, Copy, Debug, PartialEq, Eq, Structural)]
pub struct ShipConfig {
    pub radius: u64,
    pub turn_speed_milli: u64,
    pub thrust_milli: u64,
    pub friction_milli: u64,
    pub invulnerability_time: u64,
}

#[derive(Clone, Copy, Debug, PartialEq, Eq, Structural)]
pub struct BulletsConfig {
    pub speed: u64,
    pub radius: u64,
    pub max_count: u64,
    pub life_time: u64,
}

#[derive(Clone, Copy, Debug, PartialEq, Eq, Structural)]
pub struct AsteroidsConfig {
    pub initial_count: u64,
    pub speed: u64,
    pub size: u64,
    pub vertices: VerticesConfig,
}

#[derive(Clone, Copy, Debug, PartialEq, Eq, Structural)]
pub struct VerticesConfig {
    pub min: u64,
    pub max: u64,
}

/// The scoring. The level multiplier is in thousandths.
#[derive(Clone, Copy, Debug, PartialEq, Eq, Structural)]
pub struct ScoringConfig {
    pub points_per_asteroid: u64,
    pub level_multiplier_milli: u64,
}

/// The difficulty, in tenths, of a session that has run for
/// `elapsed_minutes`: one tenth more each minute, from 10 up to 30.
pub open spec fn difficulty_tenths(elapsed_minutes: int) -> int {
    if elapsed_minutes >= 20 {
        30
    } else {
        10 + elapsed_minutes
    }
}

/// `base` times the difficulty, rounded down; nothing below zero.
pub open spec fn scaled(base: int, tenths: int) -> int {
    if tenths <= 0 {
        0
    } else {
        (base * tenths) / 10
    }
}

/// The number that a signed count of milliseconds is as an unsigned one: a
/// negative count wraps round.
pub open spec fn as_unsigned(millis: int) -> int {
    if millis >= 0 {
        millis
    } else {
        millis + 0x1_0000_0000_0000_0000
    }
}

/// The difficulty of a session that has run for `elapsed_minutes`.
pub fn difficulty_for(elapsed_minutes: i64) -> (tenths: i64)
    ensures
        tenths == difficulty_tenths(elapsed_minutes as int),
{
    if elapsed_minutes >= 20 {
        30
    } else {
        10 + elapsed_minutes
    }
}

/// `base` times a difficulty given in tenths, rounded down.
pub fn scale(base: u8, tenths: i64) -> (r: u64)
    requires
        base <= 10,
    ensures
        r == scaled(base as int, tenths as int),
{
    if tenths <= 0 {
        0
    } else {
        assert(0 <= (base as int) * (tenths as int) <= 10 * (tenths as int)) by (nonlinear_arith)
            requires
                0 <= base <= 10,
                0 < tenths,
        ;
        let wide: u128 = (base as u128) * (tenths as u128);
        (wide / 10) as u64
    }
}

/// The difficulty never falls as a session grows older.
pub proof fn lemma_difficulty_monotonic(earlier: int, later: int)
    requires
        earlier <= later,
    ensures
        difficulty_tenths(earlier) <= difficulty_tenths(later),
{
}

/// The difficulty of a session that did not start in the future lies
/// between 10 and 30 tenths.
pub proof fn lemma_difficulty_bounds(elapsed_minutes: int)
    requires
        elapsed_minutes >= 0,
    ensures
        10 <= difficulty_tenths(elapsed_minutes) <= 30,
{
}

/// Between two refreshes of one session, the later of which is not before
/// the earlier, the difficulty does not fall.
pub proof fn lemma_refresh_monotonic(start: int, first: int, second: int)
    requires
        first <= second,
    ensures
        difficulty_tenths(whole_minutes_between(start, first)) <= difficulty_tenths(
            whole_minutes_between(start, second),
        ),
{
    lemma_whole_minutes_monotonic(start, first, second);
}

/// Two refreshes of one session, the second not before the first, read the
/// same start, and the second leaves the session no easier than the first.
pub proof fn lemma_refresh_twice(
    rows: Seq<GameSessionView>,
    session_id: Seq<char>,
    i: int,
    start: int,
    first: int,
    first_text: Seq<char>,
    second: int,
    second_text: Seq<char>,
)
    requires
        0 <= i < rows.len(),
        rows[i].session_id == session_id,
        first <= second,
    ensures
        ({
            let once = refreshed_sessions(
                rows,
                session_id,
                first_text,
                difficulty_tenths(whole_minutes_between(start, first)),
            );
            let twice = refreshed_sessions(
                once,
                session_id,
                second_text,
                difficulty_tenths(whole_minutes_between(start, second)),
            );
            &&& once[i].start_time == rows[i].start_time
            &&& twice[i].start_time == rows[i].start_time
            &&& once[i].difficulty_tenths == difficulty_tenths(whole_minutes_between(start, first))
            &&& twice[i].difficulty_tenths == difficulty_tenths(
                whole_minutes_between(start, second),
            )
            &&& once[i].difficulty_tenths <= twice[i].difficulty_tenths
        }),
{
    lemma_refresh_monotonic(start, first, second);
}

/// The minutes elapsed do not fall as time goes on.
pub proof fn lemma_whole_minutes_monotonic(start: int, first: int, second: int)
    requires
        first <= second,
    ensures
        whole_minutes_between(start, first) <= whole_minutes_between(start, second),
{
    if first >= start {
        assert((first - start) / 60_000_000_000 <= (second - start) / 60_000_000_000)
            by (nonlinear_arith)
            requires
                0 <= first - start <= second - start,
        ;
    } else if second >= start {
        assert((start - first) / 60_000_000_000 >= 0) by (nonlinear_arith)
            requires
                start - first >= 0,
        ;
        assert((second - start) / 60_000_000_000 >= 0) by (nonlinear_arith)
            requires
                second - start >= 0,
        ;
    } else {
        assert((start - second) / 60_000_000_000 <= (start - first) / 60_000_000_000)
            by (nonlinear_arith)
            requires
                0 <= start - second <= start - first,
        ;
    }
}

/// The asteroid count is five times the difficulty, rounded down: 5 at the
/// factor 1.0 and 15 at 3.0.
pub proof fn lemma_asteroid_count(tenths: int)
    requires
        tenths > 0,
    ensures
        scaled(5, tenths) == tenths / 2,
        scaled(5, 10) == 5,
        scaled(5, 30) == 15,
{
    assert((5 * tenths) / 10 == tenths / 2) by (nonlinear_arith)
        requires
            tenths > 0,
    ;
}

/// The three tables of the game store.
pub struct GamesView {
    pub sessions: Seq<GameSessionView>,
    pub configs: Seq<GameConfigView>,
    pub scores: Seq<ScoreView>,
}

pub open spec fn session_views(rows: Seq<GameSession>) -> Seq<GameSessionView> {
    Seq::new(rows.len(), |i: int| rows[i]@)
}

pub open spec fn config_views(rows: Seq<GameConfig>) -> Seq<GameConfigView> {
    Seq::new(rows.len(), |i: int| rows[i]@)
}

pub open spec fn score_views(rows: Seq<Score>) -> Seq<ScoreView> {
    Seq::new(rows.len(), |i: int| rows[i]@)
}

pub open spec fn leaderboard_views(rows: Seq<ScoreWithUsername>) -> Seq<ScoreWithUsernameView> {
    Seq::new(rows.len(), |i: int| rows[i]@)
}

pub open spec fn session_ids(rows: Seq<GameSessionView>) -> Seq<int> {
    Seq::new(rows.len(), |i: int| rows[i].id)
}

pub open spec fn config_ids(rows: Seq<GameConfigView>) -> Seq<int> {
    Seq::new(rows.len(), |i: int| rows[i].id)
}

pub open spec fn score_ids(rows: Seq<ScoreView>) -> Seq<int> {
    Seq::new(rows.len(), |i: int| rows[i].id)
}

impl GamesView {
    /// The tables are in order: in each the ids grow from row to row.
    pub open spec fn in_order(self) -> bool {
        &&& ids_in_order(session_ids(self.sessions))
        &&& ids_in_order(config_ids(self.configs))
        &&& ids_in_order(score_ids(self.scores))
    }

    /// The tables with nothing in them.
    pub open spec fn empty() -> GamesView {
        GamesView { sessions: Seq::empty(), configs: Seq::empty(), scores: Seq::empty() }
    }
}

/// The position of the first session from `i` on whose identifier is
/// `session_id`.
pub open spec fn find_session_from(rows: Seq<GameSessionView>, session_id: Seq<char>, i: int)
    -> Option<int>
    decreases rows.len() - i,
{
    if i < 0 || i >= rows.len() {
        None
    } else if rows[i].session_id == session_id {
        Some(i)
    } else {
        find_session_from(rows, session_id, i + 1)
    }
}

/// The session that `create_session` adds to `rows`.
pub open spec fn started_session(
    rows: Seq<GameSessionView>,
    user_id: int,
    token: Seq<char>,
    now: Seq<char>,
) -> GameSessionView {
    GameSessionView {
        id: next_id(session_ids(rows)),
        session_id: session_name(token),
        user_id,
        start_time: now,
        last_active: now,
        difficulty_tenths: 10,
    }
}

/// A session after a refresh at `now` that found the difficulty `tenths`.
pub open spec fn refreshed_session(row: GameSessionView, now: Seq<char>, tenths: int)
    -> GameSessionView {
    GameSessionView { last_active: now, difficulty_tenths: tenths, ..row }
}

/// The sessions after a refresh of `session_id`: every row with that
/// identifier is touched, the others stay.
pub open spec fn refreshed_sessions(
    rows: Seq<GameSessionView>,
    session_id: Seq<char>,
    now: Seq<char>,
    tenths: int,
) -> Seq<GameSessionView> {
    Seq::new(
        rows.len(),
        |i: int|
            if rows[i].session_id == session_id {
                refreshed_session(rows[i], now, tenths)
            } else {
                rows[i]
            },
    )
}

/// The start of a session as an instant, where its text names one.
pub open spec fn session_start(row: GameSessionView) -> Option<int> {
    match iso8601_instant(row.start_time) {
        Some(n) => if representable(n) {
            Some(n)
        } else {
            None
        },
        None => None,
    }
}

/// The record that `create_game_config` adds to `rows`.
pub open spec fn issued_config(
    rows: Seq<GameConfigView>,
    user_id: int,
    token: Seq<char>,
    now: Seq<char>,
    expiry: Seq<char>,
) -> GameConfigView {
    GameConfigView {
        id: next_id(config_ids(rows)),
        config_id: config_name(token),
        user_id,
        version: "1.0.0"@,
        created_at: now,
        expiration_time: expiry,
    }
}

/// The score that `submit_score` adds to `rows`.
pub open spec fn submitted_score(
    rows: Seq<ScoreView>,
    user_id: int,
    score: int,
    level: int,
    play_time: int,
    now: Seq<char>,
) -> ScoreView {
    ScoreView { id: next_id(score_ids(rows)), user_id, score, level, play_time, created_at: now }
}

/// Whether `config` is the configuration of a session with the identifier
/// `session_id` and the difficulty `tenths`, named after `token`, that
/// expires `expiration` milliseconds after the epoch.
pub open spec fn is_config_for(
    config: GameConfigResponse,
    session_id: Seq<char>,
    tenths: int,
    token: Seq<char>,
    expiration: int,
) -> bool {
    &&& config.version@ == "1.0.0"@
    &&& config.config_id@ == config_name(token)
    &&& config.session_id@ == session_id
    &&& config.expiration_time == as_unsigned(expiration)
    &&& config.fps == 60
    &&& config.ship == (ShipConfig {
        radius: 10,
        turn_speed_milli: 100,
        thrust_milli: 100,
        friction_milli: 50,
        invulnerability_time: 3000,
    })
    &&& config.bullets == (BulletsConfig { speed: 5, radius: 2, max_count: 10, life_time: 60 })
    &&& config.asteroids.initial_count == scaled(5, tenths)
    &&& config.asteroids.speed == scaled(1, tenths)
    &&& config.asteroids.size == 30
    &&& config.asteroids.vertices == (VerticesConfig { min: 7, max: 15 })
    &&& config.scoring.points_per_asteroid == scaled(10, tenths)
    &&& config.scoring.level_multiplier_milli == 1500
}

/// The scores by which the leaderboard ranks: a score takes part where its
/// player is known.
pub open spec fn leaderboard_keys(scores: Seq<ScoreView>, users: Seq<UserView>) -> Seq<
    Option<i64>,
> {
    Seq::new(
        scores.len(),
        |i: int|
            if find_user_id_from(users, scores[i].user_id, 0) is Some {
                Some(scores[i].score as i64)
            } else {
                None
            },
    )
}

/// The scores by which a player's own list ranks: those of that player.
pub open spec fn personal_keys(scores: Seq<ScoreView>, user_id: int) -> Seq<Option<i64>> {
    Seq::new(
        scores.len(),
        |i: int|
            if scores[i].user_id == user_id {
                Some(scores[i].score as i64)
            } else {
                None
            },
    )
}

/// A score with the name of its player, who is known.
pub open spec fn named_score(score: ScoreView, users: Seq<UserView>) -> ScoreWithUsernameView {
    ScoreWithUsernameView {
        id: score.id,
        username: users[find_user_id_from(users, score.user_id, 0)->0].username,
        score: score.score,
        level: score.level,
        play_time: score.play_time,
        created_at: score.created_at,
    }
}

/// `out` is the leaderboard of `scores` up to `limit` rows: the scores of
/// known players, highest first, the earlier submission first among equals.
pub open spec fn is_leaderboard(
    scores: Seq<ScoreView>,
    users: Seq<UserView>,
    limit: int,
    out: Seq<ScoreWithUsernameView>,
) -> bool {
    exists|picks: Seq<int>|
        {
            &&& is_ranking(leaderboard_keys(scores, users), limit, picks)
            &&& out.len() == picks.len()
            &&& forall|k: int|
                0 <= k < picks.len() ==> #[trigger] out[k] == named_score(scores[picks[k]], users)
        }
}

/// `out` is the list of the best scores of `user_id` up to `limit` rows,
/// highest first, the earlier submission first among equals.
pub open spec fn is_personal_best(
    scores: Seq<ScoreView>,
    user_id: int,
    limit: int,
    out: Seq<ScoreView>,
) -> bool {
    exists|picks: Seq<int>|
        {
            &&& is_ranking(personal_keys(scores, user_id), limit, picks)
            &&& out.len() == picks.len()
            &&& forall|k: int| 0 <= k < picks.len() ==> #[trigger] out[k] == scores[picks[k]]
        }
}

/// The game store: sessions, configuration records and scores, each in the
/// order in which its rows were added.
pub struct GameStore {
    sessions: Vec<GameSession>,
    configs: Vec<GameConfig>,
    scores: Vec<Score>,
}

impl View for GameStore {
    type V = GamesView;

    closed spec fn view(&self) -> GamesView {
        GamesView {
            sessions: session_views(self.sessions@),
            configs: config_views(self.configs@),
            scores: score_views(self.scores@),
        }
    }
}

fn session_id_list(rows: &Vec<GameSession>) -> (ids: Vec<i64>)
    ensures
        wide(ids@) == session_ids(session_views(rows@)),
{
    let mut ids: Vec<i64> = Vec::new();
    let mut i: usize = 0;
    while i < rows.len()
        invariant
            i <= rows.len(),
            ids.len() == i,
            forall|j: int| 0 <= j < i ==> ids@[j] == rows@[j].id,
        decreases rows.len() - i,
    {
        ids.push(rows[i].id);
        i += 1;
    }
    assert(wide(ids@) =~= session_ids(session_views(rows@)));
    ids
}

fn config_id_list(rows: &Vec<GameConfig>) -> (ids: Vec<i64>)
    ensures
        wide(ids@) == config_ids(config_views(rows@)),
{
    let mut ids: Vec<i64> = Vec::new();
    let mut i: usize = 0;
    while i < rows.len()
        invariant
            i <= rows.len(),
            ids.len() == i,
            forall|j: int| 0 <= j < i ==> ids@[j] == rows@[j].id,
        decreases rows.len() - i,
    {
        ids.push(rows[i].id);
        i += 1;
    }
    assert(wide(ids@) =~= config_ids(config_views(rows@)));
    ids
}

fn score_id_list(rows: &Vec<Score>) -> (ids: Vec<i64>)
    ensures
        wide(ids@) == score_ids(score_views(rows@)),
{
    let mut ids: Vec<i64> = Vec::new();
    let mut i: usize = 0;
    while i < rows.len()
        invariant
            i <= rows.len(),
            ids.len() == i,
            forall|j: int| 0 <= j < i ==> ids@[j] == rows@[j].id,
        decreases rows.len() - i,
    {
        ids.push(rows[i].id);
        i += 1;
    }
    assert(wide(ids@) =~= score_ids(score_views(rows@)));
    ids
}

/// The detail of the error for a session that is not in the table.
pub open spec fn session_not_found(session_id: Seq<char>) -> Seq<char> {
    "Session not found: "@ + session_id
}

impl GameStore {
    #[verifier::type_invariant]
    spec fn in_order(self) -> bool {
        &&& ids_in_order(session_ids(session_views(self.sessions@)))
        &&& ids_in_order(config_ids(config_views(self.configs@)))
        &&& ids_in_order(score_ids(score_views(self.scores@)))
    }

    /// A store with empty tables.
    pub fn new() -> (store: Self)
        ensures
            store@ == GamesView::empty(),
    {
        let store = GameStore { sessions: Vec::new(), configs: Vec::new(), scores: Vec::new() };
        assert(store@.sessions =~= Seq::<GameSessionView>::empty());
        assert(store@.configs =~= Seq::<GameConfigView>::empty());
        assert(store@.scores =~= Seq::<ScoreView>::empty());
        store
    }

    /// A store that holds the given rows, where each table is in order.
    pub fn restore(sessions: Vec<GameSession>, configs: Vec<GameConfig>, scores: Vec<Score>) -> (r:
        Option<Self>)
        ensures
            r is Some <==> (GamesView {
                sessions: session_views(sessions@),
                configs: config_views(configs@),
                scores: score_views(scores@),
            }).in_order(),
            r matches Some(store) ==> store@ == (GamesView {
                sessions: session_views(sessions@),
                configs: config_views(configs@),
                scores: score_views(scores@),
            }),
    {
        let a = session_id_list(&sessions);
        let b = config_id_list(&configs);
        let c = score_id_list(&scores);
        if check_ids(&a) && check_ids(&b) && check_ids(&c) {
            Some(GameStore { sessions, configs, scores })
        } else {
            None
        }
    }

    /// The tables are in order.
    pub fn check(&self)
        ensures
            self@.in_order(),
    {
        proof {
            use_type_invariant(self);
        }
    }

    /// A copy of every session, in table order.
    pub fn sessions(&self) -> (copy: Vec<GameSession>)
        ensures
            session_views(copy@) == self@.sessions,
    {
        let mut copy: Vec<GameSession> = Vec::new();
        let mut i: usize = 0;
        while i < self.sessions.len()
            invariant
                i <= self.sessions.len(),
                copy.len() == i,
                forall|j: int| 0 <= j < i ==> copy@[j]@ == self.sessions@[j]@,
            decreases self.sessions.len() - i,
        {
            copy.push(self.sessions[i].clone());
            i += 1;
        }
        assert(session_views(copy@) =~= self@.sessions);
        copy
    }

    /// A copy of every configuration record, in table order.
    pub fn configs(&self) -> (copy: Vec<GameConfig>)
        ensures
            config_views(copy@) == self@.configs,
    {
        let mut copy: Vec<GameConfig> = Vec::new();
        let mut i: usize = 0;
        while i < self.configs.len()
            invariant
                i <= self.configs.len(),
                copy.len() == i,
                forall|j: int| 0 <= j < i ==> copy@[j]@ == self.configs@[j]@,
            decreases self.configs.len() - i,
        {
            copy.push(self.configs[i].clone());
            i += 1;
        }
        assert(config_views(copy@) =~= self@.configs);
        copy
    }

    /// A copy of every score, in table order.
    pub fn scores(&self) -> (copy: Vec<Score>)
        ensures
            score_views(copy@) == self@.scores,
    {
        let mut copy: Vec<Score> = Vec::new();
        let mut i: usize = 0;
        while i < self.scores.len()
            invariant
                i <= self.scores.len(),
                copy.len() == i,
                forall|j: int| 0 <= j < i ==> copy@[j]@ == self.scores@[j]@,
            decreases self.scores.len() - i,
        {
            copy.push(self.scores[i].clone());
            i += 1;
        }
        assert(score_views(copy@) =~= self@.scores);
        copy
    }

    /// The scores, in table order.
    pub fn score_rows(&self) -> (rows: &Vec<Score>)
        ensures
            score_views(rows@) == self@.scores,
    {
        &self.scores
    }

    /// Whether the store answers. One held in memory always does.
    pub fn ping(&self) -> (r: Result<(), Error>)
        ensures
            r is Ok,
    {
        Ok(())
    }

    /// Starts a session for `user_id` at `now`, named after `token`, with the
    /// difficulty 1.0. The table is full once an id has reached the largest.
    pub fn create_session_at(&mut self, user_id: i64, token: &str, now: &Instant) -> (r: Result<
        GameSession,
        Error,
    >)
        ensures
            next_id(session_ids(old(self)@.sessions)) <= i64::MAX <==> r is Ok,
            match r {
                Ok(session) => {
                    &&& session@ == started_session(
                        old(self)@.sessions,
                        user_id as int,
                        token@,
                        now.text(),
                    )
                    &&& final(self)@ == (GamesView {
                        sessions: old(self)@.sessions.push(session@),
                        ..old(self)@
                    })
                },
                Err(e) => e is Database && final(self)@ == old(self)@,
            },
    {
        proof {
            use_type_invariant(&*self);
        }
        let n = self.sessions.len();
        let last: i64 = if n == 0 {
            0
        } else {
            self.sessions[n - 1].id
        };
        let id = match following_id(last) {
            Some(id) => id,
            None => {
                return Err(Error::Database(String::from_str("database or disk is full")));
            },
        };
        let stamp = now.to_iso8601();
        let session = GameSession {
            id,
            session_id: session_id_for(token),
            user_id,
            start_time: stamp.clone(),
            last_active: stamp,
            difficulty_tenths: 10,
        };
        let copy = session.clone();
        let ghost before = session_views(self.sessions@);
        let mut rows: Vec<GameSession> = Vec::new();
        core::mem::swap(&mut self.sessions, &mut rows);
        rows.push(session);
        proof {
            let after = session_views(rows@);
            assert(after =~= before.push(copy@));
            assert(session_ids(after) =~= session_ids(before).push(next_id(session_ids(before))));
            lemma_push_in_order(session_ids(before));
        }
        self.sessions = rows;
        Ok(copy)
    }

    /// Starts a session for `user_id` now, under a fresh identifier.
    pub fn create_session(&mut self, user_id: i64) -> (r: Result<GameSession, Error>)
        ensures
            match r {
                Ok(session) => {
                    &&& exists|token: Seq<char>, at: int|
                        representable(at) && is_uuid_v7_text(token) && session@
                            == #[trigger] started_session(
                            old(self)@.sessions,
                            user_id as int,
                            token,
                            iso8601_text(at),
                        )
                    &&& final(self)@ == (GamesView {
                        sessions: old(self)@.sessions.push(session@),
                        ..old(self)@
                    })
                },
                Err(e) => {
                    &&& final(self)@ == old(self)@
                    &&& clock_stopped(e) || (e is Database && next_id(
                        session_ids(old(self)@.sessions),
                    ) > i64::MAX)
                },
            },
    {
        let now = match current_time() {
            Ok(now) => now,
            Err(e) => {
                return Err(e);
            },
        };
        let token = match new_token(&now) {
            Ok(token) => token,
            Err(e) => {
                return Err(e);
            },
        };
        let ghost before = self@.sessions;
        let r = self.create_session_at(user_id, token.as_str(), &now);
        proof {
            if r is Ok {
                assert(r->Ok_0@ == started_session(
                    before,
                    user_id as int,
                    token@,
                    iso8601_text(now.nanos()),
                ));
            }
        }
        r
    }

    /// The first session whose identifier is `session_id`.
    pub fn find_session(&self, session_id: &str) -> (r: Result<Option<GameSession>, Error>)
        ensures
            match find_session_from(self@.sessions, session_id@, 0) {
                Some(i) => r matches Ok(Some(s)) && 0 <= i < self@.sessions.len() && s@
                    == self@.sessions[i] && s.session_id@ == session_id@,
                None => r matches Ok(None),
            },
    {
        let mut i: usize = 0;
        while i < self.sessions.len()
            invariant
                i <= self.sessions.len(),
                find_session_from(self@.sessions, session_id@, 0) == find_session_from(
                    self@.sessions,
                    session_id@,
                    i as int,
                ),
                self@.sessions == session_views(self.sessions@),
            decreases self.sessions.len() - i,
        {
            if str_eq(self.sessions[i].session_id.as_str(), session_id) {
                return Ok(Some(self.sessions[i].clone()));
            }
            i += 1;
        }
        Ok(None)
    }

    /// Refreshes a session at `now`: its difficulty becomes that of the
    /// minutes since its start, and `now` its last activity. A session that
    /// is not in the table is not found; one whose start cannot be read is
    /// invalid. Neither changes anything.
    pub fn update_session_activity_at(&mut self, session_id: &str, now: &Instant) -> (r: Result<
        GameSession,
        Error,
    >)
        ensures
            find_session_from(old(self)@.sessions, session_id@, 0) matches Some(i) ==> 0 <= i < old(
                self,
            )@.sessions.len() && old(self)@.sessions[i].session_id == session_id@,
            match find_session_from(old(self)@.sessions, session_id@, 0) {
                None => {
                    &&& r matches Err(e) && e is NotFound && e.detail() == session_not_found(
                        session_id@,
                    )
                    &&& final(self)@ == old(self)@
                },
                Some(i) => match session_start(old(self)@.sessions[i]) {
                    None => {
                        &&& r matches Err(e) && e is InvalidInput && e.detail()
                            == "Invalid date format in session start time"@
                        &&& final(self)@ == old(self)@
                    },
                    Some(start) => {
                        let tenths = difficulty_tenths(whole_minutes_between(start, now.nanos()));
                        &&& r matches Ok(s) && s@ == refreshed_session(
                            old(self)@.sessions[i],
                            now.text(),
                            tenths,
                        )
                        &&& final(self)@ == (GamesView {
                            sessions: refreshed_sessions(
                                old(self)@.sessions,
                                session_id@,
                                now.text(),
                                tenths,
                            ),
                            ..old(self)@
                        })
                    },
                },
            },
    {
        proof {
            use_type_invariant(&*self);
        }
        let session = match self.find_session(session_id) {
            Ok(Some(s)) => s,
            _ => {
                return Err(Error::NotFound(concat2("Session not found: ", session_id)));
            },
        };
        let start = match Instant::parse_iso8601(session.start_time.as_str()) {
            Some(start) => start,
            None => {
                return Err(
                    Error::InvalidInput(
                        String::from_str("Invalid date format in session start time"),
                    ),
                );
            },
        };
        let tenths = difficulty_for(now.minutes_since(&start));
        let stamp = now.to_iso8601();
        let ghost before = session_views(self.sessions@);
        let mut old_rows: Vec<GameSession> = Vec::new();
        core::mem::swap(&mut self.sessions, &mut old_rows);
        let mut rows: Vec<GameSession> = Vec::new();
        let mut i: usize = 0;
        while i < old_rows.len()
            invariant
                i <= old_rows.len(),
                rows.len() == i,
                before == session_views(old_rows@),
                stamp@ == now.text(),
                forall|j: int|
                    0 <= j < i ==> #[trigger] rows@[j]@ == refreshed_sessions(
                        before,
                        session_id@,
                        now.text(),
                        tenths as int,
                    )[j],
            decreases old_rows.len() - i,
        {
            let row = &old_rows[i];
            if str_eq(row.session_id.as_str(), session_id) {
                rows.push(
                    GameSession {
                        id: row.id,
                        session_id: row.session_id.clone(),
                        user_id: row.user_id,
                        start_time: row.start_time.clone(),
                        last_active: stamp.clone(),
                        difficulty_tenths: tenths,
                    },
                );
            } else {
                rows.push(row.clone());
            }
            i += 1;
        }
        proof {
            let after = session_views(rows@);
            assert(after =~= refreshed_sessions(before, session_id@, now.text(), tenths as int));
            assert(session_ids(after) =~= session_ids(before));
        }
        self.sessions = rows;
        Ok(
            GameSession {
                id: session.id,
                session_id: session.session_id,
                user_id: session.user_id,
                start_time: session.start_time,
                last_active: stamp,
                difficulty_tenths: tenths,
            },
        )
    }

    /// Refreshes a session now.
    pub fn update_session_activity(&mut self, session_id: &str) -> (r: Result<GameSession, Error>)
        ensures
            match find_session_from(old(self)@.sessions, session_id@, 0) {
                None => {
                    &&& final(self)@ == old(self)@
                    &&& r matches Err(e) && e is NotFound && e.detail() == session_not_found(
                        session_id@,
                    )
                },
                Some(i) => match r {
                    Ok(s) => exists|at: int|
                        #![trigger iso8601_text(at)]
                        {
                            let tenths = difficulty_tenths(
                                whole_minutes_between(
                                    session_start(old(self)@.sessions[i])->0,
                                    at,
                                ),
                            );
                            &&& representable(at)
                            &&& session_start(old(self)@.sessions[i]) is Some
                            &&& s@ == refreshed_session(
                                old(self)@.sessions[i],
                                iso8601_text(at),
                                tenths,
                            )
                            &&& final(self)@ == (GamesView {
                                sessions: refreshed_sessions(
                                    old(self)@.sessions,
                                    session_id@,
                                    iso8601_text(at),
                                    tenths,
                                ),
                                ..old(self)@
                            })
                        },
                    Err(e) => {
                        &&& final(self)@ == old(self)@
                        &&& clock_stopped(e) || (session_start(old(self)@.sessions[i]) is None
                            && e is InvalidInput && e.detail()
                            == "Invalid date format in session start time"@)
                    },
                },
            },
    {
        let now = match current_time() {
            Ok(now) => now,
            Err(e) => {
                match self.find_session(session_id) {
                    Ok(Some(_)) => {
                        return Err(e);
                    },
                    _ => {
                        return Err(Error::NotFound(concat2("Session not found: ", session_id)));
                    },
                }
            },
        };
        let r = self.update_session_activity_at(session_id, &now);
        proof {
            assert(now.text() == iso8601_text(now.nanos()));
        }
        r
    }

    /// The detail of the error for a configuration that would expire after
    /// the last instant that can be written.
    pub open spec fn expiry_out_of_range() -> Seq<char> {
        "Expiration time is out of range"@
    }

    /// Hands out the configuration of `session` at `now`, named after
    /// `token`, and keeps a record of it. The configuration expires five
    /// minutes after `now`.
    pub fn create_game_config_at(
        &mut self,
        session: &GameSession,
        token: &str,
        now: &Instant,
    ) -> (r: Result<GameConfigResponse, Error>)
        ensures
            r is Ok <==> representable(now.nanos() + 300 * 1_000_000_000) && next_id(
                config_ids(old(self)@.configs),
            ) <= i64::MAX,
            match r {
                Ok(config) => {
                    &&& representable(now.nanos() + 300 * 1_000_000_000)
                    &&& is_config_for(
                        config,
                        session.session_id@,
                        session.difficulty_tenths as int,
                        token@,
                        ((now.nanos() + 300 * 1_000_000_000) / 1_000_000_000) * 1000,
                    )
                    &&& final(self)@ == (GamesView {
                        configs: old(self)@.configs.push(
                            issued_config(
                                old(self)@.configs,
                                session.user_id as int,
                                token@,
                                now.text(),
                                iso8601_text(now.nanos() + 300 * 1_000_000_000),
                            ),
                        ),
                        ..old(self)@
                    })
                },
                Err(e) => {
                    &&& final(self)@ == old(self)@
                    &&& if !representable(now.nanos() + 300 * 1_000_000_000) {
                        e is InvalidInput && e.detail() == Self::expiry_out_of_range()
                    } else {
                        e is Database && next_id(config_ids(old(self)@.configs)) > i64::MAX
                    }
                },
            },
    {
        proof {
            use_type_invariant(&*self);
        }
        let expiry = match now.shifted(CONFIG_LIFETIME_SECONDS) {
            Some(expiry) => expiry,
            None => {
                return Err(
                    Error::InvalidInput(String::from_str("Expiration time is out of range")),
                );
            },
        };
        let n = self.configs.len();
        let last: i64 = if n == 0 {
            0
        } else {
            self.configs[n - 1].id
        };
        let id = match following_id(last) {
            Some(id) => id,
            None => {
                return Err(Error::Database(String::from_str("database or disk is full")));
            },
        };
        let config_id = config_id_for(token);
        let record = GameConfig {
            id,
            config_id: config_id.clone(),
            user_id: session.user_id,
            version: String::from_str("1.0.0"),
            created_at: now.to_iso8601(),
            expiration_time: expiry.to_iso8601(),
        };
        let ghost added = record@;
        let ghost before = config_views(self.configs@);
        let mut rows: Vec<GameConfig> = Vec::new();
        core::mem::swap(&mut self.configs, &mut rows);
        rows.push(record);
        proof {
            let after = config_views(rows@);
            assert(after =~= before.push(added));
            assert(config_ids(after) =~= config_ids(before).push(next_id(config_ids(before))));
            lemma_push_in_order(config_ids(before));
        }
        self.configs = rows;
        let seconds = expiry.unix_seconds();
        let millis: i64 = seconds * 1000;
        let expiration_time: u64 = if millis >= 0 {
            millis as u64
        } else {
            ((millis + 0x4000_0000_0000_0000 + 0x4000_0000_0000_0000) as u64)
                + 0x8000_0000_0000_0000u64
        };
        let tenths = session.difficulty_tenths;
        Ok(
            GameConfigResponse {
                version: String::from_str("1.0.0"),
                config_id,
                session_id: session.session_id.clone(),
                expiration_time,
                fps: 60,
                ship: ShipConfig {
                    radius: 10,
                    turn_speed_milli: 100,
                    thrust_milli: 100,
                    friction_milli: 50,
                    invulnerability_time: 3000,
                },
                bullets: BulletsConfig { speed: 5, radius: 2, max_count: 10, life_time: 60 },
                asteroids: AsteroidsConfig {
                    initial_count: scale(5, tenths),
                    speed: scale(1, tenths),
                    size: 30,
                    vertices: VerticesConfig { min: 7, max: 15 },
                },
                scoring: ScoringConfig {
                    points_per_asteroid: scale(10, tenths),
                    level_multiplier_milli: 1500,
                },
            },
        )
    }

    /// Hands out the configuration of `session` now, under a fresh
    /// identifier.
    pub fn create_game_config(&mut self, session: &GameSession) -> (r: Result<
        GameConfigResponse,
        Error,
    >)
        ensures
            match r {
                Ok(config) => exists|token: Seq<char>, at: int|
                    #![trigger config_name(token), iso8601_text(at)]
                    {
                        &&& representable(at)
                        &&& representable(at + 300 * 1_000_000_000)
                        &&& is_uuid_v7_text(token)
                        &&& is_config_for(
                            config,
                            session.session_id@,
                            session.difficulty_tenths as int,
                            token,
                            ((at + 300 * 1_000_000_000) / 1_000_000_000) * 1000,
                        )
                        &&& final(self)@ == (GamesView {
                            configs: old(self)@.configs.push(
                                issued_config(
                                    old(self)@.configs,
                                    session.user_id as int,
                                    token,
                                    iso8601_text(at),
                                    iso8601_text(at + 300 * 1_000_000_000),
                                ),
                            ),
                            ..old(self)@
                        })
                    },
                Err(e) => {
                    &&& final(self)@ == old(self)@
                    &&& clock_stopped(e) || (e is InvalidInput && e.detail()
                        == Self::expiry_out_of_range()) || (e is Database && next_id(
                        config_ids(old(self)@.configs),
                    ) > i64::MAX)
                },
            },
    {
        let now = match current_time() {
            Ok(now) => now,
            Err(e) => {
                return Err(e);
            },
        };
        let token = match new_token(&now) {
            Ok(token) => token,
            Err(e) => {
                return Err(e);
            },
        };
        let r = self.create_game_config_at(session, token.as_str(), &now);
        proof {
            assert(now.text() == iso8601_text(now.nanos()));
            assert(config_name(token@) == config_name(token@));
        }
        r
    }

    /// Records a score at `now`. The table is full once an id has reached
    /// the largest.
    pub fn submit_score_at(
        &mut self,
        user_id: i64,
        score: i64,
        level: i64,
        play_time: i64,
        now: &Instant,
    ) -> (r: Result<Score, Error>)
        ensures
            next_id(score_ids(old(self)@.scores)) <= i64::MAX <==> r is Ok,
            match r {
                Ok(row) => {
                    &&& row@ == submitted_score(
                        old(self)@.scores,
                        user_id as int,
                        score as int,
                        level as int,
                        play_time as int,
                        now.text(),
                    )
                    &&& final(self)@ == (GamesView {
                        scores: old(self)@.scores.push(row@),
                        ..old(self)@
                    })
                },
                Err(e) => e is Database && final(self)@ == old(self)@,
            },
    {
        proof {
            use_type_invariant(&*self);
        }
        let n = self.scores.len();
        let last: i64 = if n == 0 {
            0
        } else {
            self.scores[n - 1].id
        };
        let id = match following_id(last) {
            Some(id) => id,
            None => {
                return Err(Error::Database(String::from_str("database or disk is full")));
            },
        };
        let row = Score { id, user_id, score, level, play_time, created_at: now.to_iso8601() };
        let copy = row.clone();
        let ghost before = score_views(self.scores@);
        let mut rows: Vec<Score> = Vec::new();
        core::mem::swap(&mut self.scores, &mut rows);
        rows.push(row);
        proof {
            let after = score_views(rows@);
            assert(after =~= before.push(copy@));
            assert(score_ids(after) =~= score_ids(before).push(next_id(score_ids(before))));
            lemma_push_in_order(score_ids(before));
        }
        self.scores = rows;
        Ok(copy)
    }

    /// Records a score now.
    pub fn submit_score(&mut self, user_id: i64, score: i64, level: i64, play_time: i64) -> (r:
        Result<Score, Error>)
        ensures
            match r {
                Ok(row) => {
                    &&& exists|at: int|
                        representable(at) && row@ == submitted_score(
                            old(self)@.scores,
                            user_id as int,
                            score as int,
                            level as int,
                            play_time as int,
                            #[trigger] iso8601_text(at),
                        )
                    &&& final(self)@ == (GamesView {
                        scores: old(self)@.scores.push(row@),
                        ..old(self)@
                    })
                },
                Err(e) => {
                    &&& final(self)@ == old(self)@
                    &&& clock_stopped(e) || (e is Database && next_id(
                        score_ids(old(self)@.scores),
                    ) > i64::MAX)
                },
            },
    {
        let now = match current_time() {
            Ok(now) => now,
            Err(e) => {
                return Err(e);
            },
        };
        let r = self.submit_score_at(user_id, score, level, play_time, &now);
        proof {
            assert(now.text() == iso8601_text(now.nanos()));
        }
        r
    }

    /// The leaderboard: the `limit` best scores of known players, each with
    /// its player's name. A negative limit asks for all.
    pub fn get_top_scores(&self, users: &UserStore, limit: i64) -> (r: Result<
        Vec<ScoreWithUsername>,
        Error,
    >)
        ensures
            r matches Ok(board) && is_leaderboard(
                self@.scores,
                users@,
                limit as int,
                leaderboard_views(board@),
            ),
    {
        let ghost keys_spec = leaderboard_keys(self@.scores, users@);
        let mut keys: Vec<Option<i64>> = Vec::new();
        let mut i: usize = 0;
        while i < self.scores.len()
            invariant
                i <= self.scores.len(),
                keys.len() == i,
                self@.scores == score_views(self.scores@),
                keys_spec == leaderboard_keys(self@.scores, users@),
                forall|j: int| 0 <= j < i ==> keys@[j] == keys_spec[j],
            decreases self.scores.len() - i,
        {
            if users.knows(self.scores[i].user_id) {
                keys.push(Some(self.scores[i].score));
            } else {
                keys.push(None);
            }
            i += 1;
        }
        assert(keys@ =~= keys_spec);
        let picks = rank(&keys, limit);
        let ghost chosen = positions(picks@);
        let mut board: Vec<ScoreWithUsername> = Vec::new();
        let mut k: usize = 0;
        while k < picks.len()
            invariant
                k <= picks.len(),
                board.len() == k,
                self@.scores == score_views(self.scores@),
                chosen == positions(picks@),
                keys@ == leaderboard_keys(self@.scores, users@),
                is_ranking(keys@, limit as int, chosen),
                forall|j: int|
                    0 <= j < k ==> #[trigger] board@[j]@ == named_score(
                        self@.scores[chosen[j]],
                        users@,
                    ),
            decreases picks.len() - k,
        {
            let at = picks[k];
            assert(ranked(keys@, chosen[k as int]));
            let row = &self.scores[at];
            let username = match users.find_by_id(row.user_id) {
                Some(user) => user.username,
                None => String::from_str(""),
            };
            board.push(
                ScoreWithUsername {
                    id: row.id,
                    username,
                    score: row.score,
                    level: row.level,
                    play_time: row.play_time,
                    created_at: row.created_at.clone(),
                },
            );
            k += 1;
        }
        proof {
            let out = leaderboard_views(board@);
            assert forall|j: int| 0 <= j < chosen.len() implies #[trigger] out[j] == named_score(
                self@.scores[chosen[j]],
                users@,
            ) by {
                assert(board@[j]@ == named_score(self@.scores[chosen[j]], users@));
            }
            assert(is_leaderboard(self@.scores, users@, limit as int, out));
        }
        Ok(board)
    }

    /// The `limit` best scores of `user_id`, highest first. A negative limit
    /// asks for all.
    pub fn get_user_scores(&self, user_id: i64, limit: i64) -> (r: Result<Vec<Score>, Error>)
        ensures
            r matches Ok(list) && is_personal_best(
                self@.scores,
                user_id as int,
                limit as int,
                score_views(list@),
            ),
    {
        let ghost keys_spec = personal_keys(self@.scores, user_id as int);
        let mut keys: Vec<Option<i64>> = Vec::new();
        let mut i: usize = 0;
        while i < self.scores.len()
            invariant
                i <= self.scores.len(),
                keys.len() == i,
                self@.scores == score_views(self.scores@),
                keys_spec == personal_keys(self@.scores, user_id as int),
                forall|j: int| 0 <= j < i ==> keys@[j] == keys_spec[j],
            decreases self.scores.len() - i,
        {
            if self.scores[i].user_id == user_id {
                keys.push(Some(self.scores[i].score));
            } else {
                keys.push(None);
            }
            i += 1;
        }
        assert(keys@ =~= keys_spec);
        let picks = rank(&keys, limit);
        let ghost chosen = positions(picks@);
        let mut list: Vec<Score> = Vec::new();
        let mut k: usize = 0;
        while k < picks.len()
            invariant
                k <= picks.len(),
                list.len() == k,
                self@.scores == score_views(self.scores@),
                chosen == positions(picks@),
                keys@ == personal_keys(self@.scores, user_id as int),
                is_ranking(keys@, limit as int, chosen),
                forall|j: int| 0 <= j < k ==> #[trigger] list@[j]@ == self@.scores[chosen[j]],
            decreases picks.len() - k,
        {
            let at = picks[k];
            assert(ranked(keys@, chosen[k as int]));
            list.push(self.scores[at].clone());
            k += 1;
        }
        proof {
            let out = score_views(list@);
            assert forall|j: int| 0 <= j < chosen.len() implies #[trigger] out[j]
                == self@.scores[chosen[j]] by {
                assert(list@[j]@ == self@.scores[chosen[j]]);
            }
            assert(is_personal_best(self@.scores, user_id as int, limit as int, out));
        }
        Ok(list)
    }
}

} // verus!
