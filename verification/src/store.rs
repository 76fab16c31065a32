//! The user store: the collaborator holding user records, modeled as an
//! in-memory table with verified operations.
//!
//! The reset-token fields are the only shared mutable state in the core,
//! and two requests could race to consume the same token; `confirm_reset`
//! is therefore a single conditional update — it re-checks that a live
//! matching token still exists and clears it atomically with the
//! password write, instead of trusting an earlier read.

use vstd::prelude::*;

use crate::models::User;

verus! {

/// Whether `u` holds a live reset token equal to `token` at time `now`:
/// the stored token matches and its expiry is strictly in the future.
pub open spec fn user_reset_matches(u: User, token: Seq<char>, now: int) -> bool {
    &&& u.reset_token matches Some(t) && t@ == token
    &&& u.reset_token_expires matches Some(e) && e > now
}

/// Index of the first user whose email is `email`.
pub open spec fn spec_find_by_email(users: Seq<User>, email: Seq<char>) -> Option<int>
    decreases users.len(),
{
    if users.len() == 0 {
        None
    } else if users[0].email@ == email {
        Some(0)
    } else {
        match spec_find_by_email(users.drop_first(), email) {
            Some(i) => Some(i + 1),
            None => None,
        }
    }
}

/// Index of the first user whose id is `id`.
pub open spec fn spec_find_by_id(users: Seq<User>, id: int) -> Option<int>
    decreases users.len(),
{
    if users.len() == 0 {
        None
    } else if users[0].id matches Some(x) && x == id {
        Some(0)
    } else {
        match spec_find_by_id(users.drop_first(), id) {
            Some(i) => Some(i + 1),
            None => None,
        }
    }
}

/// Index of the first user holding a live reset token equal to `token`
/// at time `now`.
pub open spec fn spec_find_reset(users: Seq<User>, token: Seq<char>, now: int) -> Option<int>
    decreases users.len(),
{
    if users.len() == 0 {
        None
    } else if user_reset_matches(users[0], token, now) {
        Some(0)
    } else {
        match spec_find_reset(users.drop_first(), token, now) {
            Some(i) => Some(i + 1),
            None => None,
        }
    }
}

/// `u` with a fresh reset token and expiry written over the old ones.
pub open spec fn with_reset_token(u: User, token: String, expires: i64) -> User {
    User { reset_token: Some(token), reset_token_expires: Some(expires), ..u }
}

/// `u` with its password hash replaced and both reset-token fields
/// cleared; the shape of a consumed reset.
pub open spec fn with_new_password(u: User, hash: String) -> User {
    User { password_hash: hash, reset_token: None, reset_token_expires: None, ..u }
}

proof fn lemma_find_by_email_first(users: Seq<User>, email: Seq<char>, i: int)
    requires
        0 <= i < users.len(),
        users[i].email@ == email,
        forall|j: int| 0 <= j < i ==> (#[trigger] users[j]).email@ != email,
    ensures
        spec_find_by_email(users, email) == Some(i),
    decreases i,
{
    if i > 0 {
        lemma_find_by_email_first(users.drop_first(), email, i - 1);
    }
}

proof fn lemma_find_by_email_none(users: Seq<User>, email: Seq<char>)
    requires
        forall|j: int| 0 <= j < users.len() ==> (#[trigger] users[j]).email@ != email,
    ensures
        spec_find_by_email(users, email) is None,
    decreases users.len(),
{
    if users.len() > 0 {
        lemma_find_by_email_none(users.drop_first(), email);
    }
}

/// Where `spec_find_by_email` answers, the answer is the first match.
pub proof fn lemma_find_by_email_some(users: Seq<User>, email: Seq<char>)
    requires
        spec_find_by_email(users, email) is Some,
    ensures
        0 <= spec_find_by_email(users, email)->0 < users.len(),
        users[spec_find_by_email(users, email)->0].email@ == email,
    decreases users.len(),
{
    if users.len() > 0 && users[0].email@ != email {
        lemma_find_by_email_some(users.drop_first(), email);
    }
}

proof fn lemma_find_by_id_first(users: Seq<User>, id: int, i: int)
    requires
        0 <= i < users.len(),
        users[i].id matches Some(x) && x == id,
        forall|j: int| 0 <= j < i ==> !((#[trigger] users[j]).id matches Some(x) && x == id),
    ensures
        spec_find_by_id(users, id) == Some(i),
    decreases i,
{
    if i > 0 {
        lemma_find_by_id_first(users.drop_first(), id, i - 1);
    }
}

proof fn lemma_find_by_id_none(users: Seq<User>, id: int)
    requires
        forall|j: int| 0 <= j < users.len() ==> !((#[trigger] users[j]).id matches Some(x) && x
            == id),
    ensures
        spec_find_by_id(users, id) is None,
    decreases users.len(),
{
    if users.len() > 0 {
        lemma_find_by_id_none(users.drop_first(), id);
    }
}

/// Where `spec_find_by_id` answers, the answer is the first match.
pub proof fn lemma_find_by_id_some(users: Seq<User>, id: int)
    requires
        spec_find_by_id(users, id) is Some,
    ensures
        0 <= spec_find_by_id(users, id)->0 < users.len(),
        users[spec_find_by_id(users, id)->0].id matches Some(x) && x == id,
    decreases users.len(),
{
    if users.len() > 0 && !(users[0].id matches Some(x) && x == id) {
        lemma_find_by_id_some(users.drop_first(), id);
    }
}

proof fn lemma_find_reset_first(users: Seq<User>, token: Seq<char>, now: int, i: int)
    requires
        0 <= i < users.len(),
        user_reset_matches(users[i], token, now),
        forall|j: int| 0 <= j < i ==> !user_reset_matches(#[trigger] users[j], token, now),
    ensures
        spec_find_reset(users, token, now) == Some(i),
    decreases i,
{
    if i > 0 {
        lemma_find_reset_first(users.drop_first(), token, now, i - 1);
    }
}

proof fn lemma_find_reset_none(users: Seq<User>, token: Seq<char>, now: int)
    requires
        forall|j: int| 0 <= j < users.len() ==> !user_reset_matches(#[trigger] users[j], token, now),
    ensures
        spec_find_reset(users, token, now) is None,
    decreases users.len(),
{
    if users.len() > 0 {
        lemma_find_reset_none(users.drop_first(), token, now);
    }
}

/// Where `spec_find_reset` answers, the answer is the first live match.
pub proof fn lemma_find_reset_some(users: Seq<User>, token: Seq<char>, now: int)
    requires
        spec_find_reset(users, token, now) is Some,
    ensures
        0 <= spec_find_reset(users, token, now)->0 < users.len(),
        user_reset_matches(users[spec_find_reset(users, token, now)->0], token, now),
    decreases users.len(),
{
    if users.len() > 0 && !user_reset_matches(users[0], token, now) {
        lemma_find_reset_some(users.drop_first(), token, now);
    }
}

/// The user table. `next_id` is the id the next inserted record gets.
pub struct UserStore {
    pub users: Vec<User>,
    pub next_id: i64,
}

impl UserStore {
    /// Well-formedness: every record has an id, ids are unique, and all
    /// sit below `next_id`.
    pub open spec fn wf(&self) -> bool {
        &&& forall|i: int|
            0 <= i < self.users@.len() ==> ((#[trigger] self.users@[i]).id matches Some(x) && x
                < self.next_id)
        &&& forall|i: int, j: int|
            0 <= i < j < self.users@.len() ==> (#[trigger] self.users@[i]).id != (
            #[trigger] self.users@[j]).id
    }

    /// An empty store.
    pub fn new() -> (r: UserStore)
        ensures
            r.users@.len() == 0,
            r.next_id == 1,
            r.wf(),
    {
        UserStore { users: Vec::new(), next_id: 1 }
    }

    /// Index of the first record with this email, if any.
    pub fn find_by_email(&self, email: &String) -> (r: Option<usize>)
        ensures
            (r matches Some(i) ==> spec_find_by_email(self.users@, email@) == Some(i as int)),
            (r is None ==> spec_find_by_email(self.users@, email@) is None),
    {
        let n = self.users.len();
        for i in 0..n
            invariant
                n == self.users@.len(),
                forall|j: int| 0 <= j < i ==> (#[trigger] self.users@[j]).email@ != email@,
        {
            if self.users[i].email == *email {
                proof {
                    lemma_find_by_email_first(self.users@, email@, i as int);
                }
                return Some(i);
            }
        }
        proof {
            lemma_find_by_email_none(self.users@, email@);
        }
        None
    }

    /// Index of the first record with this id, if any.
    pub fn find_by_id(&self, id: i64) -> (r: Option<usize>)
        ensures
            (r matches Some(i) ==> spec_find_by_id(self.users@, id as int) == Some(i as int)),
            (r is None ==> spec_find_by_id(self.users@, id as int) is None),
    {
        let n = self.users.len();
        for i in 0..n
            invariant
                n == self.users@.len(),
                forall|j: int|
                    0 <= j < i ==> !((#[trigger] self.users@[j]).id matches Some(x) && x
                        == id as int),
        {
            let hit = match self.users[i].id {
                Some(x) => x == id,
                None => false,
            };
            if hit {
                proof {
                    lemma_find_by_id_first(self.users@, id as int, i as int);
                }
                return Some(i);
            }
        }
        proof {
            lemma_find_by_id_none(self.users@, id as int);
        }
        None
    }

    /// Index of the first record holding a live reset token equal to
    /// `token` at time `now`, if any.
    pub fn find_live_reset(&self, token: &String, now: i64) -> (r: Option<usize>)
        ensures
            (r matches Some(i) ==> spec_find_reset(self.users@, token@, now as int) == Some(
                i as int,
            )),
            (r is None ==> spec_find_reset(self.users@, token@, now as int) is None),
    {
        let n = self.users.len();
        for i in 0..n
            invariant
                n == self.users@.len(),
                forall|j: int|
                    0 <= j < i ==> !user_reset_matches(
                        #[trigger] self.users@[j],
                        token@,
                        now as int,
                    ),
        {
            let live = match (&self.users[i].reset_token, self.users[i].reset_token_expires) {
                (Some(t), Some(e)) => *t == *token && e > now,
                _ => false,
            };
            if live {
                proof {
                    lemma_find_reset_first(self.users@, token@, now as int, i as int);
                }
                return Some(i);
            }
        }
        proof {
            lemma_find_reset_none(self.users@, token@, now as int);
        }
        None
    }

    /// Write a fresh reset token and expiry onto the first record with
    /// this email; a later request overwrites an earlier token. Returns
    /// whether a record was found; the response to the caller is
    /// uniform either way, to avoid leaking account existence.
    pub fn set_reset_token(&mut self, email: &String, token: String, expires_at: i64) -> (r: bool)
        ensures
            (spec_find_by_email(old(self).users@, email@) matches Some(i) ==> r && final(self).users@ == old(self).users@.update(
                i,
                with_reset_token(old(self).users@[i], token, expires_at),
            ) && final(self).next_id == old(self).next_id),
            (spec_find_by_email(old(self).users@, email@) is None ==> !r && *final(self) == *old(self)),
            (old(self).wf() ==> final(self).wf()),
    {
        match self.find_by_email(email) {
            Some(i) => {
                proof {
                    lemma_find_by_email_some(self.users@, email@);
                }
                let mut nu = self.users[i].duplicate();
                nu.reset_token = Some(token);
                nu.reset_token_expires = Some(expires_at);
                self.users[i] = nu;
                proof {
                    assert(final(self).users@ =~= old(self).users@.update(
                        spec_find_by_email(old(self).users@, email@)->0,
                        with_reset_token(
                            old(self).users@[spec_find_by_email(old(self).users@, email@)->0],
                            token,
                            expires_at,
                        ),
                    ));
                }
                true
            },
            None => false,
        }
    }

    /// Consume a live reset token: in one conditional update, find the
    /// first record whose stored token equals `token` and is unexpired
    /// at `now`, replace its password hash and clear both reset-token
    /// fields. Returns whether such a record existed; `false` changes
    /// nothing — in particular, a token consumed once is gone, and a
    /// second confirmation with it fails rather than succeeding twice.
    pub fn confirm_reset(&mut self, token: &String, now: i64, new_hash: String) -> (r: bool)
        ensures
            (spec_find_reset(old(self).users@, token@, now as int) matches Some(i) ==> r && final(self).users@ == old(self).users@.update(
                i,
                with_new_password(old(self).users@[i], new_hash),
            ) && final(self).next_id == old(self).next_id),
            (spec_find_reset(old(self).users@, token@, now as int) is None ==> !r && *final(self)
                == *old(self)),
            (old(self).wf() ==> final(self).wf()),
    {
        match self.find_live_reset(token, now) {
            Some(i) => {
                proof {
                    lemma_find_reset_some(self.users@, token@, now as int);
                }
                let mut nu = self.users[i].duplicate();
                nu.password_hash = new_hash;
                nu.reset_token = None;
                nu.reset_token_expires = None;
                self.users[i] = nu;
                proof {
                    let gi = spec_find_reset(old(self).users@, token@, now as int)->0;
                    assert(final(self).users@ =~= old(self).users@.update(
                        gi,
                        with_new_password(old(self).users@[gi], new_hash),
                    ));
                }
                true
            },
            None => false,
        }
    }
}

/// Reset single-use law: if the first live holder of `token` at `now`
/// is `pre[i]`, no other record holds a live match of `token`, and the
/// store then records the consumption (password written, token fields
/// cleared), then at any time from `now` on no live holder of `token`
/// is left — a second confirmation with the same token fails.
///
/// The assumption that no second record holds an equal token reflects
/// how tokens come to be: freshly generated at random, one live token
/// per user.
pub proof fn lemma_reset_token_single_use(
    pre: Seq<User>,
    post: Seq<User>,
    token: Seq<char>,
    now: int,
    later: int,
    i: int,
    hash: String,
)
    requires
        spec_find_reset(pre, token, now) == Some(i),
        forall|j: int|
            0 <= j < pre.len() && j != i ==> !user_reset_matches(#[trigger] pre[j], token, now),
        post == pre.update(i, with_new_password(pre[i], hash)),
        now <= later,
    ensures
        spec_find_reset(post, token, later) is None,
{
    lemma_find_reset_some(pre, token, now);
    assert forall|j: int| 0 <= j < post.len() implies !user_reset_matches(
        #[trigger] post[j],
        token,
        later,
    ) by {
        if j != i {
            assert(post[j] == pre[j]);
        }
    }
    lemma_find_reset_none(post, token, later);
}

/// Reset expiry law: where every record whose stored token equals
/// `token` has an expiry at or before `now` (or none), the token finds
/// no live holder — a reset confirmed after its expiry fails even
/// though the token string still matches.
pub proof fn lemma_reset_token_expired(users: Seq<User>, token: Seq<char>, now: int)
    requires
        forall|j: int|
            (0 <= j < users.len() && ((#[trigger] users[j]).reset_token matches Some(t) && t@
                == token)) ==> !(users[j].reset_token_expires matches Some(e) && e > now),
    ensures
        spec_find_reset(users, token, now) is None,
{
    lemma_find_reset_none(users, token, now);
}

} // verus!
