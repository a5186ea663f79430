//! The user store: account records keyed by a unique e-mail address, with
//! the capability surface the services rely on (`exists_by_email`,
//! `get_by_name`, `put`) provided by an in-memory implementation.

use vstd::prelude::*;
use crate::validate::valid_email;

verus! {

/// A registered account. The password is held only as an opaque credential;
/// no service ever returns it to a caller.
#[derive(Debug)]
pub struct User {
    pub email: String,
    pub name: Option<String>,
    pub password: String,
}

/// Mathematical image of an account record.
pub struct UserView {
    pub email: Seq<char>,
    pub name: Option<Seq<char>>,
    pub password: Seq<char>,
}

impl View for User {
    type V = UserView;

    open spec fn view(&self) -> UserView {
        UserView {
            email: self.email@,
            name: crate::validate::opt_view(self.name),
            password: self.password@,
        }
    }
}

impl User {
    /// An identical copy of the record.
    pub fn duplicate(&self) -> (u: User)
        ensures
            u@ == self@,
    {
        User {
            email: self.email.clone(),
            name: match &self.name {
                Some(n) => Some(n.clone()),
                None => None,
            },
            password: self.password.clone(),
        }
    }
}

/// A well-formed account record: a well-shaped e-mail address (hence
/// non-empty) and a non-empty password.
pub open spec fn user_wf(u: UserView) -> bool {
    valid_email(u.email) && u.password.len() > 0
}

/// Failure of a store write.
#[derive(Clone, Copy, Debug, PartialEq, Eq, Structural)]
pub enum StoreError {
    /// A record with the same e-mail address is already persisted.
    Conflict,
    /// The backing store cannot be reached.
    Unavailable,
}

/// Some record in `s` carries the e-mail address `e`.
pub open spec fn has_email(s: Seq<UserView>, e: Seq<char>) -> bool {
    exists|i: int| 0 <= i < s.len() && (#[trigger] s[i]).email == e
}

/// The first record in `s` whose display name is `n`, if any.
pub open spec fn first_with_name(s: Seq<UserView>, n: Seq<char>) -> Option<UserView>
    decreases s.len(),
{
    if s.len() == 0 {
        None
    } else if s[0].name == Some(n) {
        Some(s[0])
    } else {
        first_with_name(s.skip(1), n)
    }
}

/// Scanning past a prefix without a match does not change the first match.
proof fn lemma_first_with_name_skip(s: Seq<UserView>, n: Seq<char>, i: int)
    requires
        0 <= i <= s.len(),
        forall|m: int| 0 <= m < i ==> (#[trigger] s[m]).name != Some(n),
    ensures
        first_with_name(s, n) == first_with_name(s.skip(i), n),
    decreases i,
{
    if i > 0 {
        assert(s[0].name != Some(n));
        assert(forall|m: int| 0 <= m < i - 1 ==> (#[trigger] s.skip(1)[m]).name != Some(n));
        lemma_first_with_name_skip(s.skip(1), n, i - 1);
        assert(s.skip(1).skip(i - 1) =~= s.skip(i));
    } else {
        assert(s.skip(0) =~= s);
    }
}

/// A record appended to a store holding no match for its display name
/// becomes the first match for it.
pub proof fn lemma_first_with_name_push(s: Seq<UserView>, n: Seq<char>, u: UserView)
    requires
        first_with_name(s, n) is None,
    ensures
        first_with_name(s.push(u), n) == (if u.name == Some(n) {
            Some(u)
        } else {
            None::<UserView>
        }),
    decreases s.len(),
{
    if s.len() == 0 {
        assert(s.push(u)[0] == u);
        if u.name != Some(n) {
            assert(s.push(u).skip(1) =~= Seq::<UserView>::empty());
            assert(first_with_name(Seq::<UserView>::empty(), n) is None);
        }
    } else {
        assert(s[0].name != Some(n));
        assert(first_with_name(s.skip(1), n) is None);
        assert(s.push(u)[0] == s[0]);
        assert(s.push(u).skip(1) =~= s.skip(1).push(u));
        lemma_first_with_name_push(s.skip(1), n, u);
        assert(first_with_name(s.push(u), n) == first_with_name(s.skip(1).push(u), n));
    }
}

/// Store invariant: e-mail addresses are unique across records, and every
/// record is well formed.
pub open spec fn store_wf(s: Seq<UserView>) -> bool {
    &&& forall|i: int, j: int|
        0 <= i < j < s.len() ==> (#[trigger] s[i]).email != (#[trigger] s[j]).email
    &&& forall|i: int| 0 <= i < s.len() ==> user_wf(#[trigger] s[i])
}

/// Whether two string slices hold the same characters.
pub fn str_eq(a: &str, b: &str) -> (r: bool)
    ensures
        r == (a@ == b@),
{
    let n = a.unicode_len();
    if n != b.unicode_len() {
        assert(a@ != b@) by {
            assert(a@.len() != b@.len());
        }
        return false;
    }
    let mut k: usize = 0;
    while k < n
        invariant
            n == a@.len(),
            n == b@.len(),
            k <= n,
            forall|m: int| 0 <= m < k ==> a@[m] == b@[m],
        decreases n - k,
    {
        if a.get_char(k) != b.get_char(k) {
            assert(a@ != b@) by {
                assert(a@[k as int] != b@[k as int]);
            }
            return false;
        }
        k += 1;
    }
    proof {
        assert(a@ =~= b@);
    }
    true
}

/// An in-memory store of account records, one concrete provider of the
/// store capability the services require.
pub struct InMemoryStore {
    pub users: Vec<User>,
}

impl View for InMemoryStore {
    type V = Seq<UserView>;

    open spec fn view(&self) -> Seq<UserView> {
        self.users@.map_values(|u: User| u@)
    }
}

impl InMemoryStore {
    /// A store holding no records.
    pub fn new() -> (s: InMemoryStore)
        ensures
            s@ =~= Seq::<UserView>::empty(),
            store_wf(s@),
    {
        InMemoryStore { users: Vec::new() }
    }

    /// Whether some persisted record carries the e-mail address `email`.
    pub fn exists_by_email(&self, email: &str) -> (r: bool)
        ensures
            r == has_email(self@, email@),
    {
        let n = self.users.len();
        let mut i: usize = 0;
        while i < n
            invariant
                n == self.users.len(),
                i <= n,
                forall|m: int| 0 <= m < i ==> (#[trigger] self@[m]).email != email@,
            decreases n - i,
        {
            if str_eq(self.users[i].email.as_str(), email) {
                assert(self@[i as int].email == email@);
                return true;
            }
            i += 1;
        }
        false
    }

    /// The first persisted record whose display name is `name`, if any.
    pub fn get_by_name(&self, name: &str) -> (r: Option<User>)
        ensures
            match r {
                Some(u) => first_with_name(self@, name@) == Some(u@),
                None => first_with_name(self@, name@) is None,
            },
    {
        let n = self.users.len();
        let mut i: usize = 0;
        while i < n
            invariant
                n == self.users.len(),
                i <= n,
                forall|m: int| 0 <= m < i ==> (#[trigger] self@[m]).name != Some(name@),
            decreases n - i,
        {
            let matches_name = match &self.users[i].name {
                Some(candidate) => str_eq(candidate.as_str(), name),
                None => false,
            };
            if matches_name {
                proof {
                    lemma_first_with_name_skip(self@, name@, i as int);
                    assert(self@.skip(i as int)[0] == self@[i as int]);
                }
                return Some(self.users[i].duplicate());
            }
            i += 1;
        }
        proof {
            lemma_first_with_name_skip(self@, name@, n as int);
        }
        None
    }

    /// Persists `user`. Fails with `Conflict`, leaving the store unchanged,
    /// when a record with the same e-mail address is already present; this
    /// holds even if the caller checked first, so a write that raced another
    /// one can never produce two records with one address.
    pub fn put(&mut self, user: User) -> (r: Result<(), StoreError>)
        requires
            store_wf(old(self)@),
            user_wf(user@),
        ensures
            store_wf(final(self)@),
            match r {
                Ok(_) => !has_email(old(self)@, user@.email) && final(self)@ == old(self)@.push(user@),
                Err(e) => e == StoreError::Conflict && has_email(old(self)@, user@.email) && final(self)@ == old(self)@,
            },
    {
        if self.exists_by_email(user.email.as_str()) {
            return Err(StoreError::Conflict);
        }
        let ghost pre = self@;
        let ghost uv = user@;
        self.users.push(user);
        proof {
            assert(self@ =~= pre.push(uv));
            assert forall|i: int, j: int| 0 <= i < j < self@.len() implies (#[trigger] self@[i]).email
                != (#[trigger] self@[j]).email by {
                if j == pre.len() {
                    assert(self@[i] == pre[i]);
                    assert(!has_email(pre, uv.email));
                }
            }
        }
        Ok(())
    }
}

} // verus!
