//! The players that the service knows, by public key.

use vstd::prelude::*;
use vstd::string::*;
use crate::clock::{iso8601_text, representable, Instant};
use crate::domain::{clock_stopped, current_time, new_token, Error};
use crate::domain::users::routes::RegisterPayload;
use crate::ident::{is_uuid_v7_text, session_id_for, session_name};
use crate::table::{check_ids, following_id, ids_in_order, lemma_push_in_order, next_id, wide};
use crate::text::{concat2, leading, opt_text, str_eq, take_chars};

verus! {

/// A player.
#[derive(Debug)]
pub struct User {
    pub id: i64,
    pub nostr_pubkey: String,
    pub username: String,
    pub created_at: String,
    pub updated_at: String,
}

/// What a player is, as plain values.
pub struct UserView {
    pub id: int,
    pub nostr_pubkey: Seq<char>,
    pub username: Seq<char>,
    pub created_at: Seq<char>,
    pub updated_at: Seq<char>,
}

impl View for User {
    type V = UserView;

    open spec fn view(&self) -> UserView {
        UserView {
            id: self.id as int,
            nostr_pubkey: self.nostr_pubkey@,
            username: self.username@,
            created_at: self.created_at@,
            updated_at: self.updated_at@,
        }
    }
}

impl Clone for User {
    fn clone(&self) -> (copy: Self)
        ensures
            copy@ == self@,
    {
        User {
            id: self.id,
            nostr_pubkey: self.nostr_pubkey.clone(),
            username: self.username.clone(),
            created_at: self.created_at.clone(),
            updated_at: self.updated_at.clone(),
        }
    }
}

/// What a player is told after logging in or registering.
#[derive(Debug)]
pub struct UserInfo {
    pub username: String,
    pub pubkey: String,
    pub session_id: String,
}

/// The views of a table of players, row by row.
pub open spec fn user_views(rows: Seq<User>) -> Seq<UserView> {
    Seq::new(rows.len(), |i: int| rows[i]@)
}

/// The ids of a table of players, row by row.
pub open spec fn user_ids(rows: Seq<UserView>) -> Seq<int> {
    Seq::new(rows.len(), |i: int| rows[i].id)
}

/// A table of players is in order when its ids are.
pub open spec fn users_in_order(rows: Seq<UserView>) -> bool {
    ids_in_order(user_ids(rows))
}

/// The id that the next row of a table gets: one more than the last.
pub open spec fn next_user_id(rows: Seq<UserView>) -> int {
    next_id(user_ids(rows))
}

/// The position of the first player from `i` on whose key is `pubkey`.
pub open spec fn find_pubkey_from(rows: Seq<UserView>, pubkey: Seq<char>, i: int) -> Option<int>
    decreases rows.len() - i,
{
    if i < 0 || i >= rows.len() {
        None
    } else if rows[i].nostr_pubkey == pubkey {
        Some(i)
    } else {
        find_pubkey_from(rows, pubkey, i + 1)
    }
}

/// The position of the first player from `i` on whose id is `id`.
pub open spec fn find_user_id_from(rows: Seq<UserView>, id: int, i: int) -> Option<int>
    decreases rows.len() - i,
{
    if i < 0 || i >= rows.len() {
        None
    } else if rows[i].id == id {
        Some(i)
    } else {
        find_user_id_from(rows, id, i + 1)
    }
}

/// The name given to a player who chose none: `player_` and the first eight
/// characters of the key.
pub open spec fn default_username(pubkey: Seq<char>) -> Seq<char> {
    "player_"@ + leading(pubkey, 8)
}

/// The row that `create_user` adds to `rows`.
pub open spec fn new_user(
    rows: Seq<UserView>,
    pubkey: Seq<char>,
    username: Seq<char>,
    now: Seq<char>,
) -> UserView {
    UserView {
        id: next_user_id(rows),
        nostr_pubkey: pubkey,
        username,
        created_at: now,
        updated_at: now,
    }
}

/// The players, in the order in which they were added.
pub struct UserStore {
    users: Vec<User>,
}

impl View for UserStore {
    type V = Seq<UserView>;

    closed spec fn view(&self) -> Seq<UserView> {
        user_views(self.users@)
    }
}

impl UserStore {
    #[verifier::type_invariant]
    spec fn in_order(self) -> bool {
        users_in_order(user_views(self.users@))
    }

    /// An empty table.
    pub fn new() -> (store: Self)
        ensures
            store@ == Seq::<UserView>::empty(),
    {
        let store = UserStore { users: Vec::new() };
        assert(store@ =~= Seq::<UserView>::empty());
        store
    }

    /// A table that holds `rows`, where they are in order.
    pub fn restore(rows: Vec<User>) -> (r: Option<Self>)
        ensures
            r is Some <==> users_in_order(user_views(rows@)),
            r matches Some(store) ==> store@ == user_views(rows@),
    {
        let mut ids: Vec<i64> = Vec::new();
        let mut i: usize = 0;
        while i < rows.len()
            invariant
                i <= rows.len(),
                ids.len() == i,
                forall|j: int| 0 <= j < i ==> ids@[j] == rows@[j].id,
            decreases rows.len() - i,
        {
            ids.push(rows[i].id);
            i += 1;
        }
        assert(wide(ids@) =~= user_ids(user_views(rows@)));
        if check_ids(&ids) {
            Some(UserStore { users: rows })
        } else {
            None
        }
    }

    /// A copy of every row, in table order.
    pub fn rows(&self) -> (copy: Vec<User>)
        ensures
            user_views(copy@) == self@,
    {
        let mut copy: Vec<User> = Vec::new();
        let mut i: usize = 0;
        while i < self.users.len()
            invariant
                i <= self.users.len(),
                copy.len() == i,
                forall|j: int| 0 <= j < i ==> copy@[j]@ == self.users@[j]@,
            decreases self.users.len() - i,
        {
            copy.push(self.users[i].clone());
            i += 1;
        }
        assert(user_views(copy@) =~= self@);
        copy
    }

    /// The tables are in order.
    pub fn check(&self)
        ensures
            users_in_order(self@),
    {
        proof {
            use_type_invariant(self);
        }
    }

    /// Whether the store answers. One held in memory always does.
    pub fn ping(&self) -> (r: Result<(), Error>)
        ensures
            r is Ok,
    {
        Ok(())
    }

    /// The first player whose key is `pubkey`.
    pub fn find_by_pubkey(&self, pubkey: String) -> (r: Result<Option<User>, Error>)
        ensures
            match find_pubkey_from(self@, pubkey@, 0) {
                Some(i) => r matches Ok(Some(u)) && 0 <= i < self@.len() && u@ == self@[i]
                    && u.nostr_pubkey@ == pubkey@,
                None => r matches Ok(None),
            },
    {
        let mut i: usize = 0;
        while i < self.users.len()
            invariant
                i <= self.users.len(),
                find_pubkey_from(self@, pubkey@, 0) == find_pubkey_from(self@, pubkey@, i as int),
                self@ == user_views(self.users@),
            decreases self.users.len() - i,
        {
            if str_eq(self.users[i].nostr_pubkey.as_str(), pubkey.as_str()) {
                return Ok(Some(self.users[i].clone()));
            }
            i += 1;
        }
        Ok(None)
    }

    /// The player whose id is `id`.
    pub fn find_by_id(&self, id: i64) -> (r: Option<User>)
        ensures
            match find_user_id_from(self@, id as int, 0) {
                Some(i) => r matches Some(u) && 0 <= i < self@.len() && u@ == self@[i] && u.id
                    == id,
                None => r is None,
            },
    {
        let mut i: usize = 0;
        while i < self.users.len()
            invariant
                i <= self.users.len(),
                find_user_id_from(self@, id as int, 0) == find_user_id_from(
                    self@,
                    id as int,
                    i as int,
                ),
                self@ == user_views(self.users@),
            decreases self.users.len() - i,
        {
            if self.users[i].id == id {
                return Some(self.users[i].clone());
            }
            i += 1;
        }
        None
    }

    /// Whether a player has the id `id`.
    pub fn knows(&self, id: i64) -> (known: bool)
        ensures
            known == (find_user_id_from(self@, id as int, 0) is Some),
    {
        let mut i: usize = 0;
        while i < self.users.len()
            invariant
                i <= self.users.len(),
                find_user_id_from(self@, id as int, 0) == find_user_id_from(
                    self@,
                    id as int,
                    i as int,
                ),
                self@ == user_views(self.users@),
            decreases self.users.len() - i,
        {
            if self.users[i].id == id {
                return true;
            }
            i += 1;
        }
        false
    }

    /// Adds a player and returns the new row. The table is full once an id
    /// has reached the largest row id.
    fn create_user(&mut self, pubkey: String, username: String, now: &Instant) -> (r: Result<
        User,
        Error,
    >)
        ensures
            next_user_id(old(self)@) <= i64::MAX <==> r is Ok,
            match r {
                Ok(user) => {
                    &&& user@ == new_user(old(self)@, pubkey@, username@, now.text())
                    &&& final(self)@ == old(self)@.push(user@)
                },
                Err(e) => e is Database && final(self)@ == old(self)@,
            },
    {
        proof {
            use_type_invariant(&*self);
        }
        let n = self.users.len();
        let last: i64 = if n == 0 {
            0
        } else {
            self.users[n - 1].id
        };
        let id = match following_id(last) {
            Some(id) => id,
            None => {
                return Err(Error::Database(String::from_str("database or disk is full")));
            },
        };
        let stamp = now.to_iso8601();
        let user = User {
            id,
            nostr_pubkey: pubkey,
            username,
            created_at: stamp.clone(),
            updated_at: stamp,
        };
        let copy = user.clone();
        let ghost before = user_views(self.users@);
        let mut rows: Vec<User> = Vec::new();
        core::mem::swap(&mut self.users, &mut rows);
        rows.push(user);
        proof {
            let after = user_views(rows@);
            assert(after =~= before.push(copy@));
            assert(user_ids(after) =~= user_ids(before).push(next_id(user_ids(before))));
            lemma_push_in_order(user_ids(before));
        }
        self.users = rows;
        Ok(copy)
    }

    /// Logs a player in at `now`: the player with this key, added first under
    /// the default name where the key is new. The session named in the answer
    /// carries `token`.
    pub fn login_at(&mut self, pubkey: String, now: &Instant, token: &str) -> (r: Result<
        UserInfo,
        Error,
    >)
        ensures
            match find_pubkey_from(old(self)@, pubkey@, 0) {
                Some(i) => {
                    &&& final(self)@ == old(self)@
                    &&& r matches Ok(info) && info.username@ == old(self)@[i].username
                },
                None => {
                    &&& next_user_id(old(self)@) <= i64::MAX <==> r is Ok
                    &&& match r {
                        Ok(info) => {
                            &&& info.username@ == default_username(pubkey@)
                            &&& final(self)@ == old(self)@.push(
                                new_user(
                                    old(self)@,
                                    pubkey@,
                                    default_username(pubkey@),
                                    now.text(),
                                ),
                            )
                        },
                        Err(e) => e is Database && final(self)@ == old(self)@,
                    }
                },
            },
            r matches Ok(info) ==> info.pubkey@ == pubkey@ && info.session_id@ == session_name(
                token@,
            ),
    {
        let found = self.find_by_pubkey(pubkey.clone());
        let user = match found {
            Ok(Some(user)) => user,
            Ok(None) => {
                let username = concat2("player_", take_chars(pubkey.as_str(), 8).as_str());
                match self.create_user(pubkey.clone(), username, now) {
                    Ok(user) => user,
                    Err(e) => {
                        return Err(e);
                    },
                }
            },
            Err(e) => {
                return Err(e);
            },
        };
        Ok(UserInfo { username: user.username, pubkey, session_id: session_id_for(token) })
    }

    /// Logs a player in now, under a fresh session identifier.
    pub fn login(&mut self, pubkey: String) -> (r: Result<UserInfo, Error>)
        ensures
            match r {
                Ok(info) => {
                    &&& info.pubkey@ == pubkey@
                    &&& match find_pubkey_from(old(self)@, pubkey@, 0) {
                        Some(i) => final(self)@ == old(self)@ && info.username@ == old(
                            self,
                        )@[i].username,
                        None => {
                            &&& info.username@ == default_username(pubkey@)
                            &&& final(self)@.len() == old(self)@.len() + 1
                            &&& final(self)@.drop_last() == old(self)@
                            &&& final(self)@.last().nostr_pubkey == pubkey@
                            &&& final(self)@.last().username == default_username(pubkey@)
                        },
                    }
                },
                Err(e) => {
                    &&& final(self)@ == old(self)@
                    &&& clock_stopped(e) || (e is Database && find_pubkey_from(
                        old(self)@,
                        pubkey@,
                        0,
                    ) is None && next_user_id(old(self)@) > i64::MAX)
                },
            },
            r matches Ok(info) ==> exists|token: Seq<char>|
                is_uuid_v7_text(token) && info.session_id@ == #[trigger] session_name(token),
            r is Ok && find_pubkey_from(old(self)@, pubkey@, 0) is None ==> exists|at: int|
                representable(at) && final(self)@ == old(self)@.push(
                    new_user(
                        old(self)@,
                        pubkey@,
                        default_username(pubkey@),
                        #[trigger] iso8601_text(at),
                    ),
                ),
    {
        let now = match current_time() {
            Ok(now) => now,
            Err(e) => {
                return Err(e);
            },
        };
        let token = match new_token(&now) {
            Ok(token) => token,
            Err(e) => {
                return Err(e);
            },
        };
        let ghost before = self@;
        let r = self.login_at(pubkey, &now, token.as_str());
        proof {
            if r is Ok {
                assert(r->Ok_0.session_id@ == session_name(token@));
                if find_pubkey_from(before, pubkey@, 0) is None {
                    assert(self@.drop_last() =~= before);
                    assert(now.text() == iso8601_text(now.nanos()));
                }
            }
        }
        r
    }

    /// The detail of the error for a key that is already registered.
    pub open spec fn already_registered(pubkey: Seq<char>) -> Seq<char> {
        "User already exists with pubkey: "@ + pubkey
    }

    /// The name under which `register` adds a player: the one asked for, or
    /// the default.
    pub open spec fn chosen_username(pubkey: Seq<char>, wanted: Option<Seq<char>>) -> Seq<char> {
        match wanted {
            Some(name) => name,
            None => default_username(pubkey),
        }
    }

    /// Registers a new player at `now`. A key that is already in the table is
    /// refused.
    pub fn register_at(
        &mut self,
        pubkey: String,
        payload: RegisterPayload,
        now: &Instant,
        token: &str,
    ) -> (r: Result<UserInfo, Error>)
        ensures
            match find_pubkey_from(old(self)@, pubkey@, 0) {
                Some(_) => {
                    &&& final(self)@ == old(self)@
                    &&& r matches Err(e) && e is InvalidInput && e.detail()
                        == Self::already_registered(pubkey@)
                },
                None => {
                    &&& next_user_id(old(self)@) <= i64::MAX <==> r is Ok
                    &&& match r {
                        Ok(info) => {
                            &&& info.username@ == Self::chosen_username(
                                pubkey@,
                                opt_text(payload.username),
                            )
                            &&& info.pubkey@ == pubkey@
                            &&& info.session_id@ == session_name(token@)
                            &&& final(self)@ == old(self)@.push(
                                new_user(old(self)@, pubkey@, info.username@, now.text()),
                            )
                        },
                        Err(e) => e is Database && final(self)@ == old(self)@,
                    }
                },
            },
    {
        let found = self.find_by_pubkey(pubkey.clone());
        match found {
            Ok(Some(_)) => {
                return Err(
                    Error::InvalidInput(
                        concat2("User already exists with pubkey: ", pubkey.as_str()),
                    ),
                );
            },
            Ok(None) => {},
            Err(e) => {
                return Err(e);
            },
        }
        let username = match payload.username {
            Some(name) => name,
            None => concat2("player_", take_chars(pubkey.as_str(), 8).as_str()),
        };
        let user = match self.create_user(pubkey.clone(), username, now) {
            Ok(user) => user,
            Err(e) => {
                return Err(e);
            },
        };
        Ok(UserInfo { username: user.username, pubkey, session_id: session_id_for(token) })
    }

    /// Registers a new player now, under a fresh session identifier.
    pub fn register(&mut self, pubkey: String, payload: RegisterPayload) -> (r: Result<
        UserInfo,
        Error,
    >)
        ensures
            match r {
                Ok(info) => {
                    &&& find_pubkey_from(old(self)@, pubkey@, 0) is None
                    &&& info.pubkey@ == pubkey@
                    &&& info.username@ == Self::chosen_username(
                        pubkey@,
                        opt_text(payload.username),
                    )
                    &&& final(self)@.len() == old(self)@.len() + 1
                    &&& final(self)@.drop_last() == old(self)@
                    &&& final(self)@.last().nostr_pubkey == pubkey@
                    &&& final(self)@.last().username == info.username@
                },
                Err(e) => {
                    &&& final(self)@ == old(self)@
                    &&& clock_stopped(e) || if find_pubkey_from(old(self)@, pubkey@, 0) is Some {
                        e is InvalidInput && e.detail() == Self::already_registered(pubkey@)
                    } else {
                        e is Database && next_user_id(old(self)@) > i64::MAX
                    }
                },
            },
            find_pubkey_from(old(self)@, pubkey@, 0) is Some ==> r is Err,
            r matches Ok(info) ==> exists|token: Seq<char>|
                is_uuid_v7_text(token) && info.session_id@ == #[trigger] session_name(token),
            r matches Ok(info) ==> exists|at: int|
                representable(at) && final(self)@ == old(self)@.push(
                    new_user(old(self)@, pubkey@, info.username@, #[trigger] iso8601_text(at)),
                ),
    {
        let now = match current_time() {
            Ok(now) => now,
            Err(e) => {
                return Err(e);
            },
        };
        let token = match new_token(&now) {
            Ok(token) => token,
            Err(e) => {
                return Err(e);
            },
        };
        let ghost before = self@;
        let r = self.register_at(pubkey, payload, &now, token.as_str());
        proof {
            if r is Ok {
                assert(self@.drop_last() =~= before);
                assert(r->Ok_0.session_id@ == session_name(token@));
                assert(now.text() == iso8601_text(now.nanos()));
            }
        }
        r
    }
}

} // verus!
