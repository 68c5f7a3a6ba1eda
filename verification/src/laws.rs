//! What holds of the library as a whole.
//!
//! The database belongs to the caller, so what its statements mean is written down here over plain
//! tables: `set_up`, `changed`, `found` and `listed` say how a database that does what the
//! statements say is set up and answers a request. The laws that need a database hold of every one
//! that does so.

use vstd::prelude::*;
use vstd::utf8::encode_utf8;

use crate::auth::{code_answer, logout_request, password_answer, ReplyView};
use crate::db::{
    ascii_spelling, code_verdict, coded_user, creation_next, credential_verdict, follows_verdict,
    found_row, list_answer, login_end, named_user, names_in, open_next, open_start, session_answer,
    session_lookup, session_start, session_user, Access, AuthResultView, CredentialView,
    LoginStepView, NamedUserView, NewUserStepView, NewUserView, OpenStepView, PoolView,
    UserAccountView, VerdictView,
};
use crate::password::password_matches;
use crate::request::{creation_failure, NameList, Op};
use crate::session::SESSION_SECONDS;
use crate::sql::{integer_at, schema, text_at, Cell};
use crate::text::occurs;
use crate::totp::{enrollment, enrollment_succeeds, totp_verdict, usable_clock};

verus! {

// ---------------------------------------------------------------------------------------------
// The tables, and what the statements do to them
// ---------------------------------------------------------------------------------------------
/// A row of the accounts.
pub struct StoredUser {
    pub username: Seq<char>,
    pub password_hash: Seq<char>,
    pub totp_secret: Option<Seq<char>>,
    pub totp_enabled: bool,
}

/// A row of the sessions.
pub struct StoredSession {
    pub user_id: i64,
    pub expires_at: i64,
}

/// A row of the preferences.
pub struct StoredPreferences {
    pub theme: Seq<char>,
    pub front_page: Seq<char>,
    pub layout: Seq<char>,
    pub wide: Seq<char>,
    pub blur_spoiler: Seq<char>,
    pub show_nsfw: Seq<char>,
    pub blur_nsfw: Seq<char>,
    pub hide_hls_notification: Seq<char>,
    pub video_quality: Seq<char>,
    pub hide_sidebar_and_summary: Seq<char>,
    pub use_hls: Seq<char>,
    pub autoplay_videos: Seq<char>,
    pub fixed_navbar: Seq<char>,
    pub comment_sort: Seq<char>,
    pub post_sort: Seq<char>,
    pub hide_awards: Seq<char>,
    pub hide_score: Seq<char>,
    pub remove_default_feeds: Seq<char>,
}

/// The preferences that the schema gives where none are written: a fixed bar at the top of the page,
/// and nothing else chosen.
pub open spec fn default_preferences() -> StoredPreferences {
    StoredPreferences {
        theme: ""@,
        front_page: ""@,
        layout: ""@,
        wide: ""@,
        blur_spoiler: ""@,
        show_nsfw: ""@,
        blur_nsfw: ""@,
        hide_hls_notification: ""@,
        video_quality: ""@,
        hide_sidebar_and_summary: ""@,
        use_hls: ""@,
        autoplay_videos: ""@,
        fixed_navbar: "on"@,
        comment_sort: ""@,
        post_sort: ""@,
        hide_awards: ""@,
        hide_score: ""@,
        remove_default_feeds: ""@,
    }
}

/// The tables: accounts and preferences by the account's number, sessions by their token, and the
/// pairs of an account and a community in each list.
#[verifier::ext_equal]
pub struct Tables {
    pub users: Map<i64, StoredUser>,
    pub sessions: Map<Seq<char>, StoredSession>,
    pub preferences: Map<i64, StoredPreferences>,
    pub subscriptions: Set<(i64, Seq<char>)>,
    pub filters: Set<(i64, Seq<char>)>,
}

/// Whether an account has this name.
pub open spec fn name_taken(t: Tables, username: Seq<char>) -> bool {
    exists|id: i64| #[trigger] t.users.contains_key(id) && t.users[id].username == username
}

/// Whether no two accounts have the same name.
pub open spec fn names_unique(t: Tables) -> bool {
    forall|a: i64, b: i64|
        #[trigger] t.users.contains_key(a) && #[trigger] t.users.contains_key(b)
            && t.users[a].username == t.users[b].username ==> a == b
}

/// The pairs in a list.
pub open spec fn pairs_in(t: Tables, list: NameList) -> Set<(i64, Seq<char>)> {
    match list {
        NameList::Subscriptions => t.subscriptions,
        NameList::Filters => t.filters,
    }
}

/// The tables with another list.
pub open spec fn with_list(t: Tables, list: NameList, pairs: Set<(i64, Seq<char>)>) -> Tables {
    match list {
        NameList::Subscriptions => Tables { subscriptions: pairs, ..t },
        NameList::Filters => Tables { filters: pairs, ..t },
    }
}

/// The tables with other one-time-password data of an account; the same ones where it is not there.
pub open spec fn with_totp(
    t: Tables,
    id: i64,
    secret: Option<Seq<char>>,
    enabled: bool,
) -> Tables {
    if t.users.contains_key(id) {
        Tables {
            users: t.users.insert(
                id,
                StoredUser { totp_secret: secret, totp_enabled: enabled, ..t.users[id] },
            ),
            ..t
        }
    } else {
        t
    }
}

/// Whether a database with the tables `before` may answer a change with `reply` and have the tables
/// `after` then. A change that fails changes nothing.
pub open spec fn changed(
    op: Op,
    before: Tables,
    after: Tables,
    reply: Result<i64, Seq<char>>,
) -> bool {
    match reply {
        Err(_) => after == before,
        Ok(row) => match op {
            Op::InsertUser { username, password_hash } => {
                &&& !name_taken(before, username)
                &&& !before.users.contains_key(row)
                &&& after == (Tables {
                    users: before.users.insert(
                        row,
                        StoredUser {
                            username,
                            password_hash,
                            totp_secret: None,
                            totp_enabled: false,
                        },
                    ),
                    ..before
                })
            },
            Op::InsertPreferences { user_id } => {
                &&& !before.preferences.contains_key(user_id)
                &&& after == (Tables {
                    preferences: before.preferences.insert(user_id, default_preferences()),
                    ..before
                })
            },
            Op::InsertSession { user_id, token, expires_at } => {
                &&& !before.sessions.contains_key(token)
                &&& after == (Tables {
                    sessions: before.sessions.insert(token, StoredSession { user_id, expires_at }),
                    ..before
                })
            },
            Op::DeleteSession { token } => after == (Tables {
                sessions: before.sessions.remove(token),
                ..before
            }),
            Op::EnableTotp { user_id, secret } => after == with_totp(
                before,
                user_id,
                Some(secret),
                true,
            ),
            Op::DisableTotp { user_id } => after == with_totp(before, user_id, None, false),
            Op::AddName { list, user_id, subreddit } => after == with_list(
                before,
                list,
                pairs_in(before, list).insert((user_id, subreddit)),
            ),
            Op::RemoveName { list, user_id, subreddit } => after == with_list(
                before,
                list,
                pairs_in(before, list).remove((user_id, subreddit)),
            ),
            _ => after == before,
        },
    }
}

/// A flag as a column holds it.
pub open spec fn flag_cell(flag: bool) -> Cell {
    Cell::Integer(
        if flag {
            1
        } else {
            0
        },
    )
}

/// The row that `FIND_USER_BY_NAME` gives of an account.
pub open spec fn row_by_name(id: i64, user: StoredUser) -> Seq<Cell> {
    seq![
        Cell::Integer(id),
        Cell::Text(user.username),
        Cell::Text(user.password_hash),
        flag_cell(user.totp_enabled),
    ]
}

/// The row that `FIND_USER_BY_ID` gives of an account.
pub open spec fn row_by_id(user: StoredUser) -> Seq<Cell> {
    seq![
        Cell::Text(user.username),
        match user.totp_secret {
            Some(secret) => Cell::Text(secret),
            None => Cell::Null,
        },
        Cell::Text(user.password_hash),
    ]
}

/// The row that `FIND_SESSION` gives of an account.
pub open spec fn row_of_session(id: i64, user: StoredUser) -> Seq<Cell> {
    seq![Cell::Integer(id), Cell::Text(user.username), flag_cell(user.totp_enabled)]
}

/// Whether a database with these tables may answer a lookup with `reply`. A lookup that fails says
/// nothing of the tables.
pub open spec fn found(
    op: Op,
    t: Tables,
    reply: Result<Option<Seq<Cell>>, Seq<char>>,
) -> bool {
    match reply {
        Err(_) => true,
        Ok(row) => match op {
            Op::FindUserByName { username } => match row {
                Some(cells) => exists|id: i64| #[trigger]
                    t.users.contains_key(id) && t.users[id].username == username && cells
                        == row_by_name(id, t.users[id]),
                None => !name_taken(t, username),
            },
            Op::FindUserById { user_id } => row == (if t.users.contains_key(user_id) {
                Some(row_by_id(t.users[user_id]))
            } else {
                None
            }),
            Op::FindSession { token, now } => row == (if t.sessions.contains_key(token)
                && t.sessions[token].expires_at > now && t.users.contains_key(
                t.sessions[token].user_id,
            ) {
                let id = t.sessions[token].user_id;
                Some(row_of_session(id, t.users[id]))
            } else {
                None
            }),
            _ => true,
        },
    }
}

/// Whether `a` comes before `b` where bytes are compared from the first on.
pub open spec fn precedes(a: Seq<u8>, b: Seq<u8>) -> bool {
    exists|k: int|
        0 <= k <= a.len() && k < b.len() && a.take(k) == #[trigger] b.take(k) && (k == a.len()
            || a[k] < b[k])
}

/// Whether these are the names that an account has in a list: each once, in the order of their
/// bytes.
pub open spec fn names_of(t: Tables, list: NameList, user_id: i64, names: Seq<Seq<char>>) -> bool {
    &&& names.no_duplicates()
    &&& forall|n: Seq<char>| #[trigger] names.contains(n) <==> pairs_in(t, list).contains(
        (user_id, n),
    )
    &&& forall|i: int, j: int|
        0 <= i < j < names.len() ==> precedes(
            encode_utf8(#[trigger] names[i]),
            encode_utf8(#[trigger] names[j]),
        )
}

/// Rows of one text each.
pub open spec fn text_rows(names: Seq<Seq<char>>) -> Seq<Seq<Cell>> {
    Seq::new(names.len(), |i: int| seq![Cell::Text(names[i])])
}

/// Whether a database with these tables may answer a listing with `reply`.
pub open spec fn listed(
    list: NameList,
    user_id: i64,
    t: Tables,
    reply: Result<Seq<Seq<Cell>>, Seq<char>>,
) -> bool {
    reply matches Ok(rows) ==> exists|names: Seq<Seq<char>>| #[trigger]
        names_of(t, list, user_id, names) && rows == text_rows(names)
}

/// An account as the library shows it.
pub open spec fn shown(id: i64, user: StoredUser) -> UserAccountView {
    UserAccountView { id, username: user.username, totp_enabled: user.totp_enabled }
}

// ---------------------------------------------------------------------------------------------
// Opening the database
// ---------------------------------------------------------------------------------------------
/// The tables of the database.
pub enum TableName {
    Users,
    Sessions,
    Preferences,
    Subscriptions,
    Filters,
}

/// A file of the database: which tables were made in it, and the rows.
#[verifier::ext_equal]
pub struct Store {
    pub made: Set<TableName>,
    pub rows: Tables,
}

/// The table that the schema's statement at a place makes; the last four make indexes.
pub open spec fn made_by(at: int) -> Set<TableName> {
    if at == 0 {
        set![TableName::Users]
    } else if at == 1 {
        set![TableName::Sessions]
    } else if at == 2 {
        set![TableName::Preferences]
    } else if at == 3 {
        set![TableName::Subscriptions]
    } else if at == 4 {
        set![TableName::Filters]
    } else {
        set![]
    }
}

/// Whether running the schema's statement at a place may be answered with `reply` and leave the file
/// as `after`: it makes its table where it is missing, without rows, and keeps it as it is where it
/// is there.
pub open spec fn set_up(
    at: int,
    before: Store,
    after: Store,
    reply: Result<(), Seq<char>>,
) -> bool {
    match reply {
        Err(_) => after == before,
        Ok(()) => after == (Store { made: before.made.union(made_by(at)), rows: before.rows }),
    }
}

/// Whether every table was made.
pub open spec fn complete(store: Store) -> bool {
    forall|name: TableName| #[trigger] store.made.contains(name)
}

/// Whether a file goes through these states when the schema's statements run, one after the other,
/// and are answered with these replies.
pub open spec fn setting_up(stores: Seq<Store>, replies: Seq<Result<(), Seq<char>>>) -> bool {
    &&& replies.len() <= schema().len()
    &&& stores.len() == replies.len() + 1
    &&& forall|i: int|
        0 <= i < replies.len() ==> set_up(i, stores[i], #[trigger] stores[i + 1], replies[i])
}

proof fn lemma_setting_up(stores: Seq<Store>, replies: Seq<Result<(), Seq<char>>>, n: int)
    requires
        setting_up(stores, replies),
        0 <= n <= replies.len(),
    ensures
        stores[n].rows == stores[0].rows,
        stores[0].made.subset_of(stores[n].made),
        (forall|i: int| 0 <= i < n ==> #[trigger] replies[i] is Ok) ==> forall|i: int|
            0 <= i < n ==> #[trigger] made_by(i).subset_of(stores[n].made),
        complete(stores[0]) ==> stores[n] == stores[0],
    decreases n,
{
    if n > 0 {
        lemma_setting_up(stores, replies, n - 1);
        assert(set_up(n - 1, stores[n - 1], stores[n - 1 + 1], replies[n - 1]));
        if forall|i: int| 0 <= i < n ==> #[trigger] replies[i] is Ok {
            assert(replies[n - 1] is Ok);
            assert forall|i: int| 0 <= i < n implies #[trigger] made_by(i).subset_of(
                stores[n].made,
            ) by {
                if i < n - 1 {
                    assert(made_by(i).subset_of(stores[n - 1].made));
                }
            }
        }
        if complete(stores[0]) {
            assert(stores[n].made =~= stores[0].made) by {
                assert forall|name: TableName| stores[n].made.contains(name)
                    == stores[0].made.contains(name) by {
                    assert(stores[0].made.contains(name));
                }
            }
        }
    }
}

/// Setting a file up keeps every row that is in it, whether or not it succeeds, and makes every
/// table where it does.
pub proof fn setting_up_keeps_rows(stores: Seq<Store>, replies: Seq<Result<(), Seq<char>>>)
    requires
        setting_up(stores, replies),
    ensures
        stores.last().rows == stores[0].rows,
        replies.len() == schema().len() && (forall|i: int|
            0 <= i < replies.len() ==> #[trigger] replies[i] is Ok) ==> complete(stores.last()),
{
    lemma_setting_up(stores, replies, replies.len() as int);
    if replies.len() == schema().len() && forall|i: int|
        0 <= i < replies.len() ==> #[trigger] replies[i] is Ok {
        let made = stores.last().made;
        assert forall|name: TableName| #[trigger] made.contains(name) by {
            assert(made_by(0).subset_of(made) && made_by(1).subset_of(made));
            assert(made_by(2).subset_of(made) && made_by(3).subset_of(made));
            assert(made_by(4).subset_of(made));
            match name {
                TableName::Users => assert(made_by(0).contains(name)),
                TableName::Sessions => assert(made_by(1).contains(name)),
                TableName::Preferences => assert(made_by(2).contains(name)),
                TableName::Subscriptions => assert(made_by(3).contains(name)),
                TableName::Filters => assert(made_by(4).contains(name)),
            }
        }
    }
}

/// Setting a file up again that has every table changes nothing in it.
pub proof fn setting_up_again_changes_nothing(
    stores: Seq<Store>,
    replies: Seq<Result<(), Seq<char>>>,
)
    requires
        setting_up(stores, replies),
        complete(stores[0]),
    ensures
        stores.last() == stores[0],
{
    lemma_setting_up(stores, replies, replies.len() as int);
}

/// How opening a file ends, from `done` statements on: `replies` says how opening it went, and then
/// how each statement went.
pub open spec fn open_outcome(done: nat, replies: Seq<Result<(), Seq<char>>>) -> PoolView
    decreases schema().len() - done,
{
    match open_next(done, replies[done as int]) {
        OpenStepView::Done(pool) => pool,
        OpenStepView::Run { done: next, .. } => open_outcome(next, replies),
        OpenStepView::Open(_) => PoolView::Unconfigured,
    }
}

proof fn lemma_open_outcome(done: nat, replies: Seq<Result<(), Seq<char>>>)
    requires
        done <= schema().len(),
        replies.len() == schema().len() + 1,
    ensures
        open_outcome(done, replies) is Ready <==> forall|i: int|
            done <= i < replies.len() ==> #[trigger] replies[i] is Ok,
        forall|k: int|
            done <= k < replies.len() && #[trigger] replies[k] is Err && (forall|i: int|
                done <= i < k ==> #[trigger] replies[i] is Ok) ==> open_outcome(done, replies)
                == PoolView::Failed(replies[k]->Err_0),
    decreases schema().len() - done,
{
    if done < schema().len() && replies[done as int] is Ok {
        lemma_open_outcome(done + 1, replies);
        assert forall|k: int|
            done <= k < replies.len() && #[trigger] replies[k] is Err && (forall|i: int|
                done <= i < k ==> #[trigger] replies[i] is Ok) implies open_outcome(done, replies)
            == PoolView::Failed(replies[k]->Err_0) by {
            assert(k != done);
        }
    } else if replies[done as int] is Err {
        assert forall|k: int|
            done <= k < replies.len() && #[trigger] replies[k] is Err && (forall|i: int|
                done <= i < k ==> #[trigger] replies[i] is Ok) implies k == done by {
            if k > done {
                assert(replies[done as int] is Ok);
            }
        }
    }
}

/// Accounts can be used exactly where the setting names a file and opening it and every statement of
/// the schema went well. A failure ends in the first error.
pub proof fn enabled_exactly_after_set_up(
    path: Option<Seq<char>>,
    replies: Seq<Result<(), Seq<char>>>,
)
    requires
        replies.len() == schema().len() + 1,
    ensures
        path is None ==> open_start(path) == OpenStepView::Done(PoolView::Unconfigured),
        path matches Some(p) ==> open_start(path) == OpenStepView::Open(p),
        open_outcome(0, replies) is Ready <==> forall|i: int|
            0 <= i < replies.len() ==> #[trigger] replies[i] is Ok,
        forall|k: int|
            0 <= k < replies.len() && #[trigger] replies[k] is Err && (forall|i: int|
                0 <= i < k ==> #[trigger] replies[i] is Ok) ==> open_outcome(0, replies)
                == PoolView::Failed(replies[k]->Err_0),
{
    lemma_open_outcome(0, replies);
}

// ---------------------------------------------------------------------------------------------
// Accounts
// ---------------------------------------------------------------------------------------------
/// Every change keeps account names unique.
pub proof fn names_stay_unique(
    op: Op,
    before: Tables,
    after: Tables,
    reply: Result<i64, Seq<char>>,
)
    requires
        names_unique(before),
        changed(op, before, after, reply),
    ensures
        names_unique(after),
{
    assert forall|a: i64, b: i64|
        #[trigger] after.users.contains_key(a) && #[trigger] after.users.contains_key(b)
            && after.users[a].username == after.users[b].username implies a == b by {
        if op is InsertUser && reply is Ok {
            let id = reply->Ok_0;
            assert(a != id ==> before.users.contains_key(a));
            assert(b != id ==> before.users.contains_key(b));
        } else {
            assert(before.users.contains_key(a) && before.users.contains_key(b));
        }
    }
}

/// In every state that changes lead to, account names are unique if they were at first.
pub proof fn names_are_unique_in_every_state(
    states: Seq<Tables>,
    ops: Seq<Op>,
    replies: Seq<Result<i64, Seq<char>>>,
    n: int,
)
    requires
        ops.len() == replies.len(),
        states.len() == ops.len() + 1,
        names_unique(states[0]),
        forall|i: int|
            0 <= i < ops.len() ==> changed(
                ops[i],
                states[i],
                #[trigger] states[i + 1],
                replies[i],
            ),
        0 <= n < states.len(),
    ensures
        names_unique(states[n]),
    decreases n,
{
    if n > 0 {
        names_are_unique_in_every_state(states, ops, replies, n - 1);
        assert(changed(ops[n - 1], states[n - 1], states[n - 1 + 1], replies[n - 1]));
        names_stay_unique(ops[n - 1], states[n - 1], states[n], replies[n - 1]);
    }
}

/// Every change keeps an account with its name and its password; only turning one-time passwords on
/// or off for this account touches its secret.
pub proof fn accounts_stay(
    id: i64,
    op: Op,
    before: Tables,
    after: Tables,
    reply: Result<i64, Seq<char>>,
)
    requires
        before.users.contains_key(id),
        changed(op, before, after, reply),
    ensures
        after.users.contains_key(id),
        after.users[id].username == before.users[id].username,
        after.users[id].password_hash == before.users[id].password_hash,
        !(op matches Op::EnableTotp { user_id, .. } && user_id == id) && !(op matches Op::DisableTotp {
            user_id,
        } && user_id == id) ==> after.users[id] == before.users[id],
{
}

/// An account whose name is taken is not created: the attempt ends in an error and changes nothing.
/// Where the database says that a name must be unique, the account holder is told that it is taken.
pub proof fn taken_name_is_refused(
    username: Seq<char>,
    password_hash: Seq<char>,
    before: Tables,
    after: Tables,
    reply: Result<i64, Seq<char>>,
)
    requires
        name_taken(before, username),
        changed(Op::InsertUser { username, password_hash }, before, after, reply),
    ensures
        after == before,
        reply matches Err(e) && creation_next(NewUserView::AddingAccount, reply)
            == NewUserStepView::Done(Err(creation_failure(e))),
        reply matches Err(e) && occurs("UNIQUE constraint"@, e) ==> creation_next(
            NewUserView::AddingAccount,
            reply,
        ) == NewUserStepView::Done(Err("Username already exists"@)),
{
}

/// Whether adding an account fails only where its name is taken, and is then answered as SQLite
/// answers.
pub open spec fn fails_by_constraint_only(
    username: Seq<char>,
    before: Tables,
    reply: Result<i64, Seq<char>>,
) -> bool {
    reply is Err ==> name_taken(before, username) && reply == Err::<i64, Seq<char>>(
        "UNIQUE constraint failed: users.username"@,
    )
}

/// Where nothing but the tables decides, whoever asks for a taken name is told that it is taken,
/// whatever the password, and every row stays.
pub proof fn taken_name_is_told(
    username: Seq<char>,
    password_hash: Seq<char>,
    before: Tables,
    after: Tables,
    reply: Result<i64, Seq<char>>,
)
    requires
        name_taken(before, username),
        changed(Op::InsertUser { username, password_hash }, before, after, reply),
        fails_by_constraint_only(username, before, reply),
    ensures
        creation_next(NewUserView::AddingAccount, reply) == NewUserStepView::Done(
            Err("Username already exists"@),
        ),
        after == before,
{
    reveal_strlit("UNIQUE constraint");
    reveal_strlit("UNIQUE constraint failed: users.username");
    let text = "UNIQUE constraint failed: users.username"@;
    let words = "UNIQUE constraint"@;
    assert(text.subrange(0, 0int + words.len()) =~= words);
    assert(occurs(words, text));
}

/// Creating an account takes two changes, and where both succeed the account and its preferences
/// are there under the number that is given back, the preferences with their defaults.
pub proof fn created_account_is_there(
    username: Seq<char>,
    password_hash: Seq<char>,
    before: Tables,
    between: Tables,
    after: Tables,
    id: i64,
    row: i64,
)
    requires
        changed(Op::InsertUser { username, password_hash }, before, between, Ok(id)),
        creation_next(NewUserView::AddingAccount, Ok(id)) is Run,
        changed(
            creation_next(NewUserView::AddingAccount, Ok(id))->Run_0,
            between,
            after,
            Ok(row),
        ),
    ensures
        creation_next(creation_next(NewUserView::AddingAccount, Ok(id))->Run_1, Ok(row))
            == NewUserStepView::Done(Ok(id)),
        !before.users.contains_key(id),
        after.users.contains_key(id),
        after.users[id] == (StoredUser {
            username,
            password_hash,
            totp_secret: None,
            totp_enabled: false,
        }),
        after.preferences.contains_key(id),
        after.preferences[id] == default_preferences(),
{
}

/// The preferences of an account stay as they are through every change.
pub proof fn preferences_stay(
    id: i64,
    op: Op,
    before: Tables,
    after: Tables,
    reply: Result<i64, Seq<char>>,
)
    requires
        before.preferences.contains_key(id),
        changed(op, before, after, reply),
    ensures
        after.preferences.contains_key(id),
        after.preferences[id] == before.preferences[id],
{
}

/// Whoever created an account with a password logs in with it.
pub proof fn created_account_logs_in(
    username: Seq<char>,
    password: Seq<char>,
    password_hash: Seq<char>,
    before: Tables,
    after: Tables,
    id: i64,
    row: Option<Seq<Cell>>,
    clock: Option<u64>,
)
    requires
        password_matches(password, password_hash),
        changed(Op::InsertUser { username, password_hash }, before, after, Ok(id)),
        found(Op::FindUserByName { username }, after, Ok(row)),
    ensures
        credential_verdict(CredentialView::Password(password), Ok(row), clock)
            == VerdictView::Accepted(UserAccountView { id, username, totp_enabled: false }),
{
    assert(after.users.contains_key(id));
    assert(name_taken(after, username));
    lemma_lookup_by_name(username, after, id, row);
}

/// In a database without two accounts of one name, a lookup by name finds the account of that name.
proof fn lemma_lookup_by_name(
    username: Seq<char>,
    t: Tables,
    id: i64,
    row: Option<Seq<Cell>>,
)
    requires
        t.users.contains_key(id),
        t.users[id].username == username,
        forall|other: i64|
            #[trigger] t.users.contains_key(other) && t.users[other].username == username ==> other
                == id,
        found(Op::FindUserByName { username }, t, Ok(row)),
    ensures
        row == Some(row_by_name(id, t.users[id])),
        named_user(row->0) == Some(
            NamedUserView {
                id,
                username,
                password_hash: t.users[id].password_hash,
                totp_enabled: t.users[id].totp_enabled,
            },
        ),
{
    assert(name_taken(t, username));
    let cells = row->0;
    let other = choose|other: i64| #[trigger]
        t.users.contains_key(other) && t.users[other].username == username && cells == row_by_name(
            other,
            t.users[other],
        );
    assert(other == id);
    assert(integer_at(cells, 0) == Some(id));
}

/// What a password does for an account that is in the database: a wrong one is refused, a right one
/// opens the account, or is not enough where the account has one-time passwords turned on.
pub proof fn password_decides(
    id: i64,
    password: Seq<char>,
    t: Tables,
    row: Option<Seq<Cell>>,
    clock: Option<u64>,
)
    requires
        names_unique(t),
        t.users.contains_key(id),
        found(Op::FindUserByName { username: t.users[id].username }, t, Ok(row)),
    ensures
        credential_verdict(CredentialView::Password(password), Ok(row), clock) == (
        if !password_matches(password, t.users[id].password_hash) {
            VerdictView::Refused(AuthResultView::InvalidCredentials)
        } else if t.users[id].totp_enabled {
            VerdictView::Refused(AuthResultView::RequiresTwoFactor(id))
        } else {
            VerdictView::Accepted(shown(id, t.users[id]))
        }),
{
    lemma_lookup_by_name(t.users[id].username, t, id, row);
}

/// What a code does for an account that is in the database: an account without a secret has no
/// code, and any other accepts the codes of its secret.
pub proof fn code_decides(
    id: i64,
    code: Seq<char>,
    t: Tables,
    row: Option<Seq<Cell>>,
    clock: Option<u64>,
)
    requires
        t.users.contains_key(id),
        found(Op::FindUserById { user_id: id }, t, Ok(row)),
    ensures
        credential_verdict(CredentialView::Code { user_id: id, code }, Ok(row), clock) == (
        match t.users[id].totp_secret {
            Some(secret) => code_verdict(
                id,
                t.users[id].username,
                totp_verdict(secret, code, usable_clock(clock)),
            ),
            None => VerdictView::Refused(AuthResultView::InvalidCredentials),
        }),
{
}

/// An unknown name is answered as a wrong password is, so that the answer does not tell which names
/// are taken.
pub proof fn unknown_name_is_answered_as_wrong_password(
    username: Seq<char>,
    password: Seq<char>,
    t: Tables,
    row: Option<Seq<Cell>>,
    clock: Option<u64>,
)
    requires
        !name_taken(t, username),
        found(Op::FindUserByName { username }, t, Ok(row)),
    ensures
        credential_verdict(CredentialView::Password(password), Ok(row), clock)
            == VerdictView::Refused(AuthResultView::InvalidCredentials),
{
}

// ---------------------------------------------------------------------------------------------
// Sessions
// ---------------------------------------------------------------------------------------------
/// A session is opened only for a credential that proves the account: a right password of an
/// account that needs no code, or a code that its secret accepts.
pub proof fn session_needs_proof(
    credential: CredentialView,
    reply: Result<Option<Seq<Cell>>, Seq<char>>,
    clock: Option<u64>,
    op: Op,
    account: UserAccountView,
    token: Seq<char>,
)
    requires
        follows_verdict(
            credential_verdict(credential, reply, clock),
            LoginStepView::Store(op, account, token),
        ),
    ensures
        found_row(reply) is Some,
        match credential {
            CredentialView::Password(password) => {
                &&& named_user(found_row(reply)->0) matches Some(user)
                &&& password_matches(password, user.password_hash)
                &&& !user.totp_enabled
                &&& account.id == user.id
            },
            CredentialView::Code { user_id, code } => {
                &&& coded_user(found_row(reply)->0) matches Some((_, secret))
                &&& totp_verdict(secret, code, usable_clock(clock)) == Ok::<bool, Seq<char>>(true)
                &&& account.id == user_id
            },
        },
        op matches Op::InsertSession { user_id, token: stored, .. } && user_id == account.id
            && stored == token,
{
}

/// A login succeeds only after its session was stored, and then gives the token of that session.
pub proof fn success_means_stored(
    account: UserAccountView,
    token: Seq<char>,
    reply: Result<i64, Seq<char>>,
)
    ensures
        reply is Ok <==> login_end(account, token, reply) == AuthResultView::Success(
            account,
            token,
        ),
{
}

/// A session that is in the database is recognized before it ends and not after, and then gives its
/// account.
pub proof fn stored_session_decides(
    token: Seq<char>,
    seen: u64,
    t: Tables,
    reply: Result<Option<Seq<Cell>>, Seq<char>>,
)
    requires
        seen <= i64::MAX,
        t.sessions.contains_key(token),
        t.users.contains_key(t.sessions[token].user_id),
        reply is Ok,
        found(session_lookup(Access::Granted, token, Some(seen))->0, t, reply),
    ensures
        session_answer(reply) == (if seen < t.sessions[token].expires_at {
            Some(shown(t.sessions[token].user_id, t.users[t.sessions[token].user_id]))
        } else {
            None
        }),
{
    let id = t.sessions[token].user_id;
    assert(session_user(row_of_session(id, t.users[id])) == Some(shown(id, t.users[id])));
}

/// A browser is handed a session exactly where the login succeeded, and then the one that was stored.
pub proof fn only_success_opens_session(user_id: i64, result: AuthResultView)
    ensures
        password_answer(result) is OpenSession <==> result is Success,
        code_answer(user_id, result) is OpenSession <==> result is Success,
        result matches AuthResultView::Success(_, token) ==> password_answer(result) == (
        ReplyView::OpenSession { location: "/account"@, token }) && code_answer(user_id, result)
            == password_answer(result),
{
}

/// A session opened at one time is recognized at another exactly until seven days have passed, and
/// then gives its account.
pub proof fn session_lasts_seven_days(
    account: UserAccountView,
    token: Seq<char>,
    opened: u64,
    seen: u64,
    before: Tables,
    after: Tables,
    row: i64,
    reply: Result<Option<Seq<Cell>>, Seq<char>>,
)
    requires
        opened + SESSION_SECONDS <= i64::MAX,
        seen <= i64::MAX,
        session_start(account, Ok(token), Some(opened)) is Store,
        changed(session_start(account, Ok(token), Some(opened))->Store_0, before, after, Ok(row)),
        after.users.contains_key(account.id),
        reply is Ok,
        found(session_lookup(Access::Granted, token, Some(seen))->0, after, reply),
    ensures
        session_answer(reply) == (if seen < opened + 604800 {
            Some(shown(account.id, after.users[account.id]))
        } else {
            None
        }),
{
    stored_session_decides(token, seen, after, reply);
}

/// Every session can be opened: with a token and a clock that is not past its range the session is
/// stored.
pub proof fn session_can_be_opened(account: UserAccountView, token: Seq<char>, clock: u64)
    requires
        clock + SESSION_SECONDS <= i64::MAX,
    ensures
        session_start(account, Ok(token), Some(clock)) == LoginStepView::Store(
            Op::InsertSession {
                user_id: account.id,
                token,
                expires_at: (clock + 604800) as i64,
            },
            account,
            token,
        ),
{
}

/// After logging out, the token is not recognized at any time.
pub proof fn ended_session_is_not_recognized(
    token: Seq<char>,
    before: Tables,
    after: Tables,
    row: i64,
    clock: Option<u64>,
    reply: Result<Option<Seq<Cell>>, Seq<char>>,
)
    requires
        changed(
            logout_request(Access::Granted, Some(token))->0,
            before,
            after,
            Ok(row),
        ),
        found(session_lookup(Access::Granted, token, clock)->0, after, reply),
    ensures
        session_answer(reply) is None,
{
}

/// A token that was never stored is not recognized.
pub proof fn unknown_token_is_not_recognized(
    token: Seq<char>,
    t: Tables,
    clock: Option<u64>,
    reply: Result<Option<Seq<Cell>>, Seq<char>>,
)
    requires
        !t.sessions.contains_key(token),
        found(session_lookup(Access::Granted, token, clock)->0, t, reply),
    ensures
        session_answer(reply) is None,
{
}

/// Opening or ending one session leaves every other as it was.
pub proof fn other_sessions_stay(
    op: Op,
    token: Seq<char>,
    before: Tables,
    after: Tables,
    reply: Result<i64, Seq<char>>,
)
    requires
        changed(op, before, after, reply),
        op matches Op::InsertSession { token: t, .. } ==> t != token,
        op matches Op::DeleteSession { token: t } ==> t != token,
    ensures
        after.sessions.contains_key(token) == before.sessions.contains_key(token),
        before.sessions.contains_key(token) ==> after.sessions[token] == before.sessions[token],
{
}

// ---------------------------------------------------------------------------------------------
// One-time passwords
// ---------------------------------------------------------------------------------------------
/// Every account that could be created can be enrolled for one-time passwords.
pub proof fn created_account_can_enroll(username: Seq<char>, secret: Seq<u8>)
    requires
        ascii_spelling(username),
        secret.len() >= 16,
    ensures
        enrollment(secret, username) is Ok,
{
    if username.contains(':') {
        let i = choose|i: int| 0 <= i < username.len() && username[i] == ':';
        assert(username[i] as int <= 127);
    }
    enrollment_succeeds(secret, username);
}

/// Once an account has turned one-time passwords on, its password alone opens no session, and the
/// codes of the secret it gave do.
pub proof fn enabled_totp_is_needed(
    id: i64,
    secret: Seq<char>,
    before: Tables,
    after: Tables,
    changed_row: i64,
    password: Seq<char>,
    by_name: Option<Seq<Cell>>,
    code: Seq<char>,
    by_id: Option<Seq<Cell>>,
    clock: Option<u64>,
)
    requires
        names_unique(before),
        before.users.contains_key(id),
        changed(Op::EnableTotp { user_id: id, secret }, before, after, Ok(changed_row)),
        found(Op::FindUserByName { username: before.users[id].username }, after, Ok(by_name)),
        found(Op::FindUserById { user_id: id }, after, Ok(by_id)),
    ensures
        credential_verdict(CredentialView::Password(password), Ok(by_name), clock) == (
        if password_matches(password, before.users[id].password_hash) {
            VerdictView::Refused(AuthResultView::RequiresTwoFactor(id))
        } else {
            VerdictView::Refused(AuthResultView::InvalidCredentials)
        }),
        credential_verdict(CredentialView::Code { user_id: id, code }, Ok(by_id), clock)
            == code_verdict(
            id,
            before.users[id].username,
            totp_verdict(secret, code, usable_clock(clock)),
        ),
{
    names_stay_unique(Op::EnableTotp { user_id: id, secret }, before, after, Ok(changed_row));
    password_decides(id, password, after, by_name, clock);
    code_decides(id, code, after, by_id, clock);
}

/// Once an account has turned one-time passwords off, its password alone opens a session again, and
/// no code does.
pub proof fn disabled_totp_is_not_needed(
    id: i64,
    before: Tables,
    after: Tables,
    changed_row: i64,
    password: Seq<char>,
    by_name: Option<Seq<Cell>>,
    code: Seq<char>,
    by_id: Option<Seq<Cell>>,
    clock: Option<u64>,
)
    requires
        names_unique(before),
        before.users.contains_key(id),
        changed(Op::DisableTotp { user_id: id }, before, after, Ok(changed_row)),
        found(Op::FindUserByName { username: before.users[id].username }, after, Ok(by_name)),
        found(Op::FindUserById { user_id: id }, after, Ok(by_id)),
    ensures
        credential_verdict(CredentialView::Password(password), Ok(by_name), clock) == (
        if password_matches(password, before.users[id].password_hash) {
            VerdictView::Accepted(
                UserAccountView {
                    id,
                    username: before.users[id].username,
                    totp_enabled: false,
                },
            )
        } else {
            VerdictView::Refused(AuthResultView::InvalidCredentials)
        }),
        credential_verdict(CredentialView::Code { user_id: id, code }, Ok(by_id), clock)
            == VerdictView::Refused(AuthResultView::InvalidCredentials),
{
    names_stay_unique(Op::DisableTotp { user_id: id }, before, after, Ok(changed_row));
    password_decides(id, password, after, by_name, clock);
    code_decides(id, code, after, by_id, clock);
}

// ---------------------------------------------------------------------------------------------
// Subscriptions and filters
// ---------------------------------------------------------------------------------------------
proof fn lemma_names_in_text_rows(names: Seq<Seq<char>>)
    ensures
        names_in(text_rows(names)) == names,
    decreases names.len(),
{
    if names.len() > 0 {
        lemma_names_in_text_rows(names.drop_last());
        assert(text_rows(names).drop_last() =~= text_rows(names.drop_last()));
        assert(text_rows(names).last() == seq![Cell::Text(names.last())]);
        assert(text_at(text_rows(names).last(), 0) == Some(names.last()));
        assert(names.drop_last().push(names.last()) =~= names);
    } else {
        assert(text_rows(names) =~= Seq::empty());
        assert(names =~= Seq::empty());
    }
}

/// A listing gives the names that the account has in the list: each once, in order.
pub proof fn listing_is_exact(
    list: NameList,
    user_id: i64,
    t: Tables,
    rows: Seq<Seq<Cell>>,
)
    requires
        listed(list, user_id, t, Ok(rows)),
    ensures
        list_answer(Ok(rows)) matches Ok(names) && names_of(t, list, user_id, names),
{
    let names = choose|names: Seq<Seq<char>>| #[trigger]
        names_of(t, list, user_id, names) && rows == text_rows(names);
    lemma_names_in_text_rows(names);
}

/// A name that was added is listed; every other name, account and list stays as it was.
pub proof fn added_name_is_listed(
    list: NameList,
    user_id: i64,
    name: Seq<char>,
    before: Tables,
    after: Tables,
    row: i64,
    rows: Seq<Seq<Cell>>,
)
    requires
        changed(Op::AddName { list, user_id, subreddit: name }, before, after, Ok(row)),
        listed(list, user_id, after, Ok(rows)),
    ensures
        list_answer(Ok(rows)) matches Ok(names) && names.contains(name),
        forall|l: NameList, u: i64, n: Seq<char>|
            (l, u, n) != (list, user_id, name) ==> pairs_in(after, l).contains((u, n))
                == #[trigger] pairs_in(before, l).contains((u, n)),
{
    listing_is_exact(list, user_id, after, rows);
    assert(pairs_in(after, list).contains((user_id, name)));
}

/// A name that was removed is not listed; every other name, account and list stays as it was.
pub proof fn removed_name_is_not_listed(
    list: NameList,
    user_id: i64,
    name: Seq<char>,
    before: Tables,
    after: Tables,
    row: i64,
    rows: Seq<Seq<Cell>>,
)
    requires
        changed(Op::RemoveName { list, user_id, subreddit: name }, before, after, Ok(row)),
        listed(list, user_id, after, Ok(rows)),
    ensures
        list_answer(Ok(rows)) matches Ok(names) && !names.contains(name),
        forall|l: NameList, u: i64, n: Seq<char>|
            (l, u, n) != (list, user_id, name) ==> pairs_in(after, l).contains((u, n))
                == #[trigger] pairs_in(before, l).contains((u, n)),
{
    listing_is_exact(list, user_id, after, rows);
    assert(!pairs_in(after, list).contains((user_id, name)));
}

/// Adding a name twice is the same as adding it once.
pub proof fn adding_twice_is_adding_once(
    list: NameList,
    user_id: i64,
    name: Seq<char>,
    before: Tables,
    once: Tables,
    twice: Tables,
    first: i64,
    second: i64,
)
    requires
        changed(Op::AddName { list, user_id, subreddit: name }, before, once, Ok(first)),
        changed(Op::AddName { list, user_id, subreddit: name }, once, twice, Ok(second)),
    ensures
        twice == once,
{
    assert(twice =~= once);
}

/// Removing a name that was just added gives the tables back as they were, unless the name was
/// there before.
pub proof fn removing_undoes_adding(
    list: NameList,
    user_id: i64,
    name: Seq<char>,
    before: Tables,
    between: Tables,
    after: Tables,
    first: i64,
    second: i64,
)
    requires
        !pairs_in(before, list).contains((user_id, name)),
        changed(Op::AddName { list, user_id, subreddit: name }, before, between, Ok(first)),
        changed(Op::RemoveName { list, user_id, subreddit: name }, between, after, Ok(second)),
    ensures
        after == before,
{
    assert(after =~= before);
}

/// Removing a name that is not in the list changes nothing.
pub proof fn removing_absent_changes_nothing(
    list: NameList,
    user_id: i64,
    name: Seq<char>,
    before: Tables,
    after: Tables,
    row: i64,
)
    requires
        !pairs_in(before, list).contains((user_id, name)),
        changed(Op::RemoveName { list, user_id, subreddit: name }, before, after, Ok(row)),
    ensures
        after == before,
{
    assert(after =~= before);
}

/// Adding two names in either order leads to the same tables.
pub proof fn additions_commute(
    list: NameList,
    user_id: i64,
    a: Seq<char>,
    b: Seq<char>,
    before: Tables,
    with_a: Tables,
    with_ab: Tables,
    with_b: Tables,
    with_ba: Tables,
    rows: (i64, i64, i64, i64),
)
    requires
        changed(Op::AddName { list, user_id, subreddit: a }, before, with_a, Ok(rows.0)),
        changed(Op::AddName { list, user_id, subreddit: b }, with_a, with_ab, Ok(rows.1)),
        changed(Op::AddName { list, user_id, subreddit: b }, before, with_b, Ok(rows.2)),
        changed(Op::AddName { list, user_id, subreddit: a }, with_b, with_ba, Ok(rows.3)),
    ensures
        with_ab == with_ba,
        pairs_in(with_ab, list) == pairs_in(before, list).insert((user_id, a)).insert(
            (user_id, b),
        ),
{
    assert(with_ab =~= with_ba);
}

proof fn lemma_precedes_one_way(a: Seq<u8>, b: Seq<u8>)
    requires
        precedes(a, b),
    ensures
        !precedes(b, a),
{
    let k = choose|k: int|
        0 <= k <= a.len() && k < b.len() && a.take(k) == #[trigger] b.take(k) && (k == a.len()
            || a[k] < b[k]);
    if precedes(b, a) {
        let m = choose|m: int|
            0 <= m <= b.len() && m < a.len() && b.take(m) == #[trigger] a.take(m) && (m == b.len()
                || b[m] < a[m]);
        if k < m {
            assert(b.take(m)[k] == a.take(m)[k]);
        } else if m < k {
            assert(a.take(k)[m] == b.take(k)[m]);
        }
    }
}

/// The names that an account has in a list have one order only.
pub proof fn names_are_determined(
    list: NameList,
    user_id: i64,
    t: Tables,
    a: Seq<Seq<char>>,
    b: Seq<Seq<char>>,
)
    requires
        names_of(t, list, user_id, a),
        names_of(t, list, user_id, b),
    ensures
        a == b,
{
    assert forall|n: Seq<char>| #[trigger] a.contains(n) == b.contains(n) by {
        assert(a.contains(n) <==> pairs_in(t, list).contains((user_id, n)));
        assert(b.contains(n) <==> pairs_in(t, list).contains((user_id, n)));
    }
    lemma_sorted_is_unique(a, b);
}

/// Whether each text comes before every later one.
spec fn sorted(names: Seq<Seq<char>>) -> bool {
    forall|i: int, j: int|
        0 <= i < j < names.len() ==> precedes(
            encode_utf8(#[trigger] names[i]),
            encode_utf8(#[trigger] names[j]),
        )
}

proof fn lemma_sorted_is_unique(a: Seq<Seq<char>>, b: Seq<Seq<char>>)
    requires
        sorted(a),
        sorted(b),
        forall|n: Seq<char>| #[trigger] a.contains(n) == b.contains(n),
    ensures
        a == b,
    decreases a.len(),
{
    if a.len() == 0 {
        if b.len() > 0 {
            assert(b.contains(b[0]));
            assert(a.contains(b[0]));
        }
        assert(a =~= b);
    } else {
        let x = a.last();
        assert(a.contains(a[a.len() - 1]));
        assert(b.contains(x));
        let y = b.last();
        assert(b.contains(b[b.len() - 1]));
        assert(a.contains(y));
        let i = choose|i: int| 0 <= i < b.len() && b[i] == x;
        let j = choose|j: int| 0 <= j < a.len() && a[j] == y;
        if x != y {
            assert(precedes(encode_utf8(b[i]), encode_utf8(b[b.len() - 1])));
            assert(precedes(encode_utf8(a[j]), encode_utf8(a[a.len() - 1])));
            lemma_precedes_one_way(encode_utf8(x), encode_utf8(y));
        }
        let c = a.drop_last();
        let d = b.drop_last();
        assert forall|n: Seq<char>| #[trigger] c.contains(n) == d.contains(n) by {
            lemma_last_is_last_only(a, n);
            lemma_last_is_last_only(b, n);
            assert(a.contains(n) == b.contains(n));
        }
        lemma_sorted_is_unique(c, d);
        assert(a =~= c.push(x));
        assert(b =~= d.push(y));
    }
}

proof fn lemma_last_is_last_only(names: Seq<Seq<char>>, n: Seq<char>)
    requires
        sorted(names),
        names.len() > 0,
    ensures
        names.drop_last().contains(n) <==> names.contains(n) && n != names.last(),
{
    let init = names.drop_last();
    if init.contains(n) {
        let i = choose|i: int| 0 <= i < init.len() && init[i] == n;
        assert(names[i] == n);
        assert(precedes(encode_utf8(names[i]), encode_utf8(names[names.len() - 1])));
        if n == names.last() {
            lemma_precedes_one_way(encode_utf8(n), encode_utf8(n));
        }
    }
    if names.contains(n) && n != names.last() {
        let i = choose|i: int| 0 <= i < names.len() && names[i] == n;
        assert(init[i] == n);
    }
}

/// A listing depends on nothing but what the account has in the list: two that are made while that
/// is the same are the same, whatever else has changed.
pub proof fn listing_is_determined(
    list: NameList,
    user_id: i64,
    first: Tables,
    second: Tables,
    first_rows: Seq<Seq<Cell>>,
    second_rows: Seq<Seq<Cell>>,
)
    requires
        forall|n: Seq<char>| #[trigger]
            pairs_in(first, list).contains((user_id, n)) == pairs_in(second, list).contains(
                (user_id, n),
            ),
        listed(list, user_id, first, Ok(first_rows)),
        listed(list, user_id, second, Ok(second_rows)),
    ensures
        list_answer(Ok(first_rows)) == list_answer(Ok(second_rows)),
{
    listing_is_exact(list, user_id, first, first_rows);
    listing_is_exact(list, user_id, second, second_rows);
    let a = list_answer(Ok(first_rows))->Ok_0;
    let b = list_answer(Ok(second_rows))->Ok_0;
    assert(names_of(first, list, user_id, b)) by {
        assert forall|n: Seq<char>| #[trigger] b.contains(n) <==> pairs_in(first, list).contains(
            (user_id, n),
        ) by {
            assert(b.contains(n) <==> pairs_in(second, list).contains((user_id, n)));
        }
    }
    names_are_determined(list, user_id, first, a, b);
}

/// After a name was added and removed again, the list reads as it did before, unless the name was in
/// it before; so does every other list.
pub proof fn removing_restores_listing(
    list: NameList,
    user_id: i64,
    name: Seq<char>,
    before: Tables,
    between: Tables,
    after: Tables,
    changed_rows: (i64, i64),
    shown_list: NameList,
    shown_user: i64,
    rows_before: Seq<Seq<Cell>>,
    rows_after: Seq<Seq<Cell>>,
)
    requires
        !pairs_in(before, list).contains((user_id, name)),
        changed(Op::AddName { list, user_id, subreddit: name }, before, between, Ok(changed_rows.0)),
        changed(
            Op::RemoveName { list, user_id, subreddit: name },
            between,
            after,
            Ok(changed_rows.1),
        ),
        listed(shown_list, shown_user, before, Ok(rows_before)),
        listed(shown_list, shown_user, after, Ok(rows_after)),
    ensures
        list_answer(Ok(rows_after)) == list_answer(Ok(rows_before)),
{
    removing_undoes_adding(
        list,
        user_id,
        name,
        before,
        between,
        after,
        changed_rows.0,
        changed_rows.1,
    );
    listing_is_determined(shown_list, shown_user, after, before, rows_after, rows_before);
}

/// Adding two names in either order makes the list read the same, with both names and every name
/// that was in it.
pub proof fn order_of_additions_is_not_listed(
    list: NameList,
    user_id: i64,
    a: Seq<char>,
    b: Seq<char>,
    before: Tables,
    with_a: Tables,
    with_ab: Tables,
    with_b: Tables,
    with_ba: Tables,
    changed_rows: (i64, i64, i64, i64),
    rows_ab: Seq<Seq<Cell>>,
    rows_ba: Seq<Seq<Cell>>,
)
    requires
        changed(Op::AddName { list, user_id, subreddit: a }, before, with_a, Ok(changed_rows.0)),
        changed(Op::AddName { list, user_id, subreddit: b }, with_a, with_ab, Ok(changed_rows.1)),
        changed(Op::AddName { list, user_id, subreddit: b }, before, with_b, Ok(changed_rows.2)),
        changed(Op::AddName { list, user_id, subreddit: a }, with_b, with_ba, Ok(changed_rows.3)),
        listed(list, user_id, with_ab, Ok(rows_ab)),
        listed(list, user_id, with_ba, Ok(rows_ba)),
    ensures
        list_answer(Ok(rows_ab)) == list_answer(Ok(rows_ba)),
        list_answer(Ok(rows_ab)) matches Ok(names) && forall|n: Seq<char>| #[trigger]
            names.contains(n) <==> n == a || n == b || pairs_in(before, list).contains(
                (user_id, n),
            ),
{
    additions_commute(
        list,
        user_id,
        a,
        b,
        before,
        with_a,
        with_ab,
        with_b,
        with_ba,
        changed_rows,
    );
    listing_is_determined(list, user_id, with_ab, with_ba, rows_ab, rows_ba);
    listing_is_exact(list, user_id, with_ab, rows_ab);
}

/// A listing of one list and account reads the same after a name was added to or removed from
/// another.
pub proof fn other_listings_stay(
    op: Op,
    list: NameList,
    user_id: i64,
    before: Tables,
    after: Tables,
    reply: Result<i64, Seq<char>>,
    rows_before: Seq<Seq<Cell>>,
    rows_after: Seq<Seq<Cell>>,
)
    requires
        changed(op, before, after, reply),
        op matches Op::AddName { list: l, user_id: u, .. } ==> (l, u) != (list, user_id),
        op matches Op::RemoveName { list: l, user_id: u, .. } ==> (l, u) != (list, user_id),
        listed(list, user_id, before, Ok(rows_before)),
        listed(list, user_id, after, Ok(rows_after)),
    ensures
        list_answer(Ok(rows_after)) == list_answer(Ok(rows_before)),
{
    listing_is_determined(list, user_id, after, before, rows_after, rows_before);
}

} // verus!
