use vstd::prelude::*;

use crate::errors::{QueryUserError, UserUpdateError};
use crate::user::{emails_match, lemma_row_round_trip, normalized_email, Credentials, CredentialsRow, User};

verus! {

/// An in-memory user and credential store with the same rules as the database:
/// ids are assigned in increasing order, credentials always belong to an
/// existing user, and every write either happens whole or not at all.
#[derive(Debug)]
pub struct InMemoryUserStore {
    users: Vec<User>,
    credentials: Vec<CredentialsRow>,
    next_user_id: i32,
    next_credentials_id: i32,
}

/// The first index at or after `i` of a user whose email is `email` once both
/// are normalised.
pub open spec fn first_user_with_email(users: Seq<User>, email: Seq<char>, i: int) -> Option<int>
    decreases users.len() - i,
{
    if i < 0 || i >= users.len() {
        None
    } else if normalized_email(users[i].email@) == normalized_email(email) {
        Some(i)
    } else {
        first_user_with_email(users, email, i + 1)
    }
}

/// The first index at or after `i` of a credentials row of user `user_id`.
pub open spec fn first_row_of_user(rows: Seq<CredentialsRow>, user_id: i32, i: int) -> Option<int>
    decreases rows.len() - i,
{
    if i < 0 || i >= rows.len() {
        None
    } else if rows[i].user_id == user_id {
        Some(i)
    } else {
        first_row_of_user(rows, user_id, i + 1)
    }
}

/// `rows` after setting the password of every row of user `user_id`.
pub open spec fn rows_with_password(rows: Seq<CredentialsRow>, user_id: i32, password: String) -> Seq<CredentialsRow> {
    Seq::new(
        rows.len(),
        |i: int|
            if rows[i].user_id == user_id {
                CredentialsRow { password: password, ..rows[i] }
            } else {
                rows[i]
            },
    )
}

impl InMemoryUserStore {
    pub closed spec fn users_spec(&self) -> Seq<User> {
        self.users@
    }

    pub closed spec fn rows_spec(&self) -> Seq<CredentialsRow> {
        self.credentials@
    }

    pub closed spec fn next_user_id_spec(&self) -> i32 {
        self.next_user_id
    }

    pub closed spec fn next_credentials_id_spec(&self) -> i32 {
        self.next_credentials_id
    }

    pub open spec fn has_user(&self, id: i32) -> bool {
        exists|k: int| 0 <= k < self.users_spec().len() && (#[trigger] self.users_spec()[k]).id == id
    }

    /// Ids are positive, below the next id to assign and strictly increasing,
    /// and every credentials row names an existing user.
    pub open spec fn wf(&self) -> bool {
        let users = self.users_spec();
        let rows = self.rows_spec();
        &&& 1 <= self.next_user_id_spec()
        &&& 1 <= self.next_credentials_id_spec()
        &&& forall|k: int| 0 <= k < users.len() ==> 0 < #[trigger] users[k].id < self.next_user_id_spec()
        &&& forall|k: int, l: int| 0 <= k < l < users.len() ==> users[k].id < users[l].id
        &&& forall|k: int| 0 <= k < rows.len() ==> 0 < #[trigger] rows[k].id < self.next_credentials_id_spec()
        &&& forall|k: int, l: int| 0 <= k < l < rows.len() ==> rows[k].id < rows[l].id
        &&& forall|k: int| 0 <= k < rows.len() ==> self.has_user(#[trigger] rows[k].user_id)
    }

    pub fn new() -> (r: InMemoryUserStore)
        ensures
            r.wf(),
            r.users_spec().len() == 0,
            r.rows_spec().len() == 0,
            r.next_user_id_spec() == 1,
            r.next_credentials_id_spec() == 1,
    {
        InMemoryUserStore { users: Vec::new(), credentials: Vec::new(), next_user_id: 1, next_credentials_id: 1 }
    }

    /// An empty store whose next ids are the given ones.
    pub fn with_next_ids(next_user_id: i32, next_credentials_id: i32) -> (r: InMemoryUserStore)
        requires
            1 <= next_user_id,
            1 <= next_credentials_id,
        ensures
            r.wf(),
            r.users_spec().len() == 0,
            r.rows_spec().len() == 0,
            r.next_user_id_spec() == next_user_id,
            r.next_credentials_id_spec() == next_credentials_id,
    {
        InMemoryUserStore { users: Vec::new(), credentials: Vec::new(), next_user_id, next_credentials_id }
    }

    fn user_index(&self, id: i32) -> (r: Option<usize>)
        ensures
            match r {
                Some(k) => k < self.users@.len() && self.users@[k as int].id == id,
                None => !self.has_user(id),
            },
    {
        let mut k: usize = 0;
        while k < self.users.len()
            invariant
                k <= self.users@.len(),
                forall|j: int| 0 <= j < k ==> self.users@[j].id != id,
            decreases self.users@.len() - k,
        {
            if self.users[k].id == id {
                return Some(k);
            }
            k = k + 1;
        }
        None
    }

    fn row_index(&self, id: i32) -> (r: Option<usize>)
        ensures
            match r {
                Some(k) => k < self.credentials@.len() && self.credentials@[k as int].id == id,
                None => forall|j: int| 0 <= j < self.credentials@.len() ==> self.credentials@[j].id != id,
            },
    {
        let mut k: usize = 0;
        while k < self.credentials.len()
            invariant
                k <= self.credentials@.len(),
                forall|j: int| 0 <= j < k ==> self.credentials@[j].id != id,
            decreases self.credentials@.len() - k,
        {
            if self.credentials[k].id == id {
                return Some(k);
            }
            k = k + 1;
        }
        None
    }

    pub fn find_by_id(&self, id: i32) -> (r: Result<User, QueryUserError>)
        requires
            self.wf(),
        ensures
            self.has_user(id) <==> r is Ok,
            r matches Ok(u) ==> u.id == id && self.users_spec().contains(u),
            r is Err ==> r == Err::<User, QueryUserError>(QueryUserError::NotFound),
    {
        match self.user_index(id) {
            Some(k) => {
                proof {
                    assert(self.users@[k as int] == self.users_spec()[k as int]);
                }
                Ok(self.users[k].duplicate())
            },
            None => Err(QueryUserError::NotFound),
        }
    }

    /// The first user whose email matches `email` once both are normalised:
    /// surrounding whitespace and ASCII case do not count.
    pub fn find_by_email(&self, email: &str) -> (r: Result<User, QueryUserError>)
        ensures
            r == match first_user_with_email(self.users_spec(), email@, 0) {
                Some(k) => Ok(self.users_spec()[k]),
                None => Err(QueryUserError::NotFound),
            },
    {
        let mut k: usize = 0;
        while k < self.users.len()
            invariant
                k <= self.users@.len(),
                first_user_with_email(self.users@, email@, k as int) == first_user_with_email(
                    self.users@,
                    email@,
                    0,
                ),
            decreases self.users@.len() - k,
        {
            if emails_match(self.users[k].email.as_str(), email) {
                return Ok(self.users[k].duplicate());
            }
            k = k + 1;
        }
        Err(QueryUserError::NotFound)
    }

    /// The credentials in the first row of user `user_id`.
    pub fn find_credentials_by_user_id(&self, user_id: i32) -> (r: Result<Credentials, QueryUserError>)
        ensures
            r == match first_row_of_user(self.rows_spec(), user_id, 0) {
                Some(k) => Ok(self.rows_spec()[k].credentials_spec()),
                None => Err(QueryUserError::NotFound),
            },
    {
        let mut k: usize = 0;
        while k < self.credentials.len()
            invariant
                k <= self.credentials@.len(),
                first_row_of_user(self.credentials@, user_id, k as int) == first_row_of_user(
                    self.credentials@,
                    user_id,
                    0,
                ),
            decreases self.credentials@.len() - k,
        {
            if self.credentials[k].user_id == user_id {
                return Ok(self.credentials[k].to_credentials());
            }
            k = k + 1;
        }
        Err(QueryUserError::NotFound)
    }
    /// Whether a credentials row has this id.
    pub open spec fn has_row(&self, id: i32) -> bool {
        exists|k: int| 0 <= k < self.rows_spec().len() && (#[trigger] self.rows_spec()[k]).id == id
    }

    /// Saves credentials and returns them as read back from the store.
    /// Credentials without a user fail before anything is written, as do
    /// credentials naming a user that does not exist. `id == 0` inserts a row
    /// under a fresh, non-zero id; any other id updates the row with that id in
    /// place. A write that fails leaves the store unchanged.
    pub fn save_credentials(&mut self, credentials: Credentials) -> (r: Result<Credentials, UserUpdateError>)
        requires
            old(self).wf(),
        ensures
            final(self).wf(),
            r is Err ==> *final(self) == *old(self),
            r matches Ok(c) ==> c.id != 0,
            credentials.user_id == 0 ==> r == Err::<Credentials, UserUpdateError>(
                UserUpdateError::MissingUserId,
            ),
            credentials.user_id != 0 && !old(self).has_user(credentials.user_id) ==> r == Err::<
                Credentials,
                UserUpdateError,
            >(UserUpdateError::UnknownUser),
            credentials.user_id != 0 && old(self).has_user(credentials.user_id) && credentials.id
                == 0 ==> {
                let id = old(self).next_credentials_id_spec();
                let stored = (Credentials { id: id, ..credentials });
                if id == i32::MAX {
                    r == Err::<Credentials, UserUpdateError>(UserUpdateError::IdsExhausted)
                } else {
                    &&& r == Ok::<Credentials, UserUpdateError>(stored)
                    &&& forall|k: int|
                        0 <= k < old(self).rows_spec().len() ==> (#[trigger] old(self).rows_spec()[k]).id
                            != id
                    &&& final(self).rows_spec() == old(self).rows_spec().push(stored.row_spec())
                    &&& final(self).users_spec() == old(self).users_spec()
                    &&& final(self).next_credentials_id_spec() == id + 1
                    &&& final(self).next_user_id_spec() == old(self).next_user_id_spec()
                }
            },
            credentials.user_id != 0 && old(self).has_user(credentials.user_id) && credentials.id
                != 0 ==> if old(self).has_row(credentials.id) {
                &&& r == Ok::<Credentials, UserUpdateError>(credentials)
                &&& final(self).rows_spec() == Seq::new(
                    old(self).rows_spec().len(),
                    |i: int|
                        if old(self).rows_spec()[i].id == credentials.id {
                            credentials.row_spec()
                        } else {
                            old(self).rows_spec()[i]
                        },
                )
                &&& final(self).users_spec() == old(self).users_spec()
                &&& final(self).next_credentials_id_spec() == old(self).next_credentials_id_spec()
                &&& final(self).next_user_id_spec() == old(self).next_user_id_spec()
            } else {
                r == Err::<Credentials, UserUpdateError>(UserUpdateError::NotFound)
            },
    {
        if credentials.user_id == 0 {
            return Err(UserUpdateError::MissingUserId);
        }
        let owner = match self.user_index(credentials.user_id) {
            Some(u) => u,
            None => {
                return Err(UserUpdateError::UnknownUser);
            },
        };
        proof {
            assert(self.users_spec()[owner as int].id == credentials.user_id);
        }
        if credentials.id == 0 {
            if self.next_credentials_id == i32::MAX {
                return Err(UserUpdateError::IdsExhausted);
            }
            let id = self.next_credentials_id;
            let stored = Credentials {
                id,
                password: credentials.password,
                user_id: credentials.user_id,
                mfa_config: credentials.mfa_config,
            };
            proof {
                lemma_row_round_trip(stored);
            }
            let row = stored.to_row();
            self.credentials.push(row);
            self.next_credentials_id = id + 1;
            proof {
                assert(self.users_spec() == old(self).users_spec());
                assert forall|k: int| 0 <= k < self.credentials@.len() implies self.has_user(
                    #[trigger] self.credentials@[k].user_id,
                ) by {
                    if k < self.credentials@.len() - 1 {
                        assert(self.credentials@[k] == old(self).credentials@[k]);
                        assert(old(self).has_user(old(self).credentials@[k].user_id));
                    } else {
                        assert(self.users_spec()[owner as int].id == credentials.user_id);
                    }
                }
            }
            let k = self.credentials.len() - 1;
            Ok(self.credentials[k].to_credentials())
        } else {
            match self.row_index(credentials.id) {
                Some(k) => {
                    proof {
                        lemma_row_round_trip(credentials);
                    }
                    let ghost old_rows = self.credentials@;
                    self.credentials[k] = credentials.to_row();
                    proof {
                        assert forall|j: int| 0 <= j < old_rows.len() && j != k implies old_rows[j].id
                            != credentials.id by {
                            if j < k {
                                assert(old_rows[j].id < old_rows[k as int].id);
                            } else {
                                assert(old_rows[k as int].id < old_rows[j].id);
                            }
                        }
                        assert(self.credentials@ =~= Seq::new(
                            old_rows.len(),
                            |i: int|
                                if old_rows[i].id == credentials.id {
                                    credentials.row_spec()
                                } else {
                                    old_rows[i]
                                },
                        ));
                        assert(self.users_spec() == old(self).users_spec());
                        assert forall|j: int| 0 <= j < self.credentials@.len() implies self.has_user(
                            #[trigger] self.credentials@[j].user_id,
                        ) by {
                            if j == k {
                                assert(self.users_spec()[owner as int].id == credentials.user_id);
                            } else {
                                assert(old(self).has_user(old_rows[j].user_id));
                            }
                        }
                    }
                    Ok(self.credentials[k].to_credentials())
                },
                None => Err(UserUpdateError::NotFound),
            }
        }
    }

    /// Creates a user together with its credentials, or updates both, as one
    /// transaction: `id == 0` inserts the user under a fresh id and a
    /// credentials row for it; any other id updates the user's name and email
    /// and the password of each of its credentials rows. On failure neither
    /// the user nor the credentials are written.
    pub fn save_user_with_credentials(&mut self, user: User, password: String) -> (r: Result<User, UserUpdateError>)
        requires
            old(self).wf(),
        ensures
            final(self).wf(),
            r is Err ==> *final(self) == *old(self),
            user.id == 0 ==> {
                let uid = old(self).next_user_id_spec();
                let cid = old(self).next_credentials_id_spec();
                let created = (User { id: uid, ..user });
                if uid == i32::MAX || cid == i32::MAX {
                    r == Err::<User, UserUpdateError>(UserUpdateError::IdsExhausted)
                } else {
                    &&& r == Ok::<User, UserUpdateError>(created)
                    &&& !old(self).has_user(uid)
                    &&& final(self).has_user(uid)
                    &&& final(self).users_spec() == old(self).users_spec().push(created)
                    &&& final(self).rows_spec() == old(self).rows_spec().push(
                        (CredentialsRow {
                            id: cid,
                            password: password,
                            mfa_id: None,
                            mfa_secret: None,
                            user_id: uid,
                        }),
                    )
                    &&& final(self).next_user_id_spec() == uid + 1
                    &&& final(self).next_credentials_id_spec() == cid + 1
                }
            },
            user.id != 0 ==> if old(self).has_user(user.id) {
                &&& r == Ok::<User, UserUpdateError>(user)
                &&& final(self).users_spec() == Seq::new(
                    old(self).users_spec().len(),
                    |i: int|
                        if old(self).users_spec()[i].id == user.id {
                            user
                        } else {
                            old(self).users_spec()[i]
                        },
                )
                &&& final(self).rows_spec() == rows_with_password(old(self).rows_spec(), user.id, password)
                &&& final(self).next_user_id_spec() == old(self).next_user_id_spec()
                &&& final(self).next_credentials_id_spec() == old(self).next_credentials_id_spec()
            } else {
                r == Err::<User, UserUpdateError>(UserUpdateError::NotFound)
            },
    {
        if user.id == 0 {
            if self.next_user_id == i32::MAX || self.next_credentials_id == i32::MAX {
                return Err(UserUpdateError::IdsExhausted);
            }
            let uid = self.next_user_id;
            let cid = self.next_credentials_id;
            let created = User { id: uid, name: user.name, email: user.email };
            let row = CredentialsRow { id: cid, password, mfa_id: None, mfa_secret: None, user_id: uid };
            let ghost old_users = self.users@;
            let ghost old_rows = self.credentials@;
            let result = created.duplicate();
            self.users.push(created);
            self.credentials.push(row);
            self.next_user_id = uid + 1;
            self.next_credentials_id = cid + 1;
            proof {
                assert(self.users@[old_users.len() as int].id == uid);
                assert forall|k: int| 0 <= k < self.credentials@.len() implies self.has_user(
                    #[trigger] self.credentials@[k].user_id,
                ) by {
                    if k < old_rows.len() {
                        assert(old(self).has_user(old_rows[k].user_id));
                        let w = choose|w: int|
                            0 <= w < old_users.len() && (#[trigger] old_users[w]).id == old_rows[k].user_id;
                        assert(self.users_spec()[w] == old_users[w]);
                    } else {
                        assert(self.users_spec()[old_users.len() as int].id == uid);
                    }
                }
            }
            Ok(result)
        } else {
            let k = match self.user_index(user.id) {
                Some(k) => k,
                None => {
                    return Err(UserUpdateError::NotFound);
                },
            };
            let ghost old_users = self.users@;
            let ghost old_rows = self.credentials@;
            proof {
                assert(old_users == old(self).users_spec());
                assert forall|j: int| 0 <= j < old_users.len() && j != k implies old_users[j].id
                    != user.id by {
                    if j < k {
                        assert(old_users[j].id < old_users[k as int].id);
                    } else {
                        assert(old_users[k as int].id < old_users[j].id);
                    }
                }
            }
            let result = user.duplicate();
            self.users[k] = user;
            proof {
                assert(self.users@ =~= Seq::new(
                    old_users.len(),
                    |i: int|
                        if old_users[i].id == result.id {
                            result
                        } else {
                            old_users[i]
                        },
                ));
            }
            let mut j: usize = 0;
            while j < self.credentials.len()
                invariant
                    k < old(self).users@.len(),
                    self.users@ == old(self).users@.update(k as int, result),
                    self.next_user_id == old(self).next_user_id,
                    self.next_credentials_id == old(self).next_credentials_id,
                    self.credentials@.len() == old_rows.len(),
                    j <= old_rows.len(),
                    forall|i: int|
                        0 <= i < j ==> self.credentials@[i] == rows_with_password(old_rows, result.id, password)[i],
                    forall|i: int| j <= i < old_rows.len() ==> self.credentials@[i] == old_rows[i],
                decreases old_rows.len() - j,
            {
                if self.credentials[j].user_id == result.id {
                    let mut row = self.credentials[j].duplicate();
                    row.password = password.clone();
                    self.credentials[j] = row;
                }
                j = j + 1;
            }
            proof {
                assert(self.credentials@ =~= rows_with_password(old_rows, result.id, password));
                assert forall|i: int| 0 <= i < self.credentials@.len() implies self.has_user(
                    #[trigger] self.credentials@[i].user_id,
                ) by {
                    assert(old(self).has_user(old_rows[i].user_id));
                    let w = choose|w: int|
                        0 <= w < old_users.len() && (#[trigger] old_users[w]).id == old_rows[i].user_id;
                    assert(self.users_spec()[w].id == old_users[w].id);
                }
            }
            Ok(result)
        }
    }
}

} // verus!
