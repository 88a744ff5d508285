//! The earlier, simpler users store: a record is a bare id plus a name,
//! and the only validation is that a name must not be blank. The richer
//! store in `services` supersedes it, but this one keeps the same
//! contracts in miniature and is proved the same way.

use vstd::prelude::*;
use crate::configs::InMemory;
use crate::decimal::{decimal_chars, u64_to_string};
use crate::validation::{check_blank, is_blank};

verus! {

/// A record of the basic store.
#[derive(Debug, PartialEq)]
pub struct User {
    pub id: u64,
    pub name: String,
}

impl Clone for User {
    fn clone(&self) -> (r: Self)
        ensures
            r == *self,
    {
        User { id: self.id, name: self.name.clone() }
    }
}

/// The error a basic store operation returns.
#[derive(Debug, PartialEq)]
pub struct UserDAOError {
    pub message: String,
}

impl Clone for UserDAOError {
    fn clone(&self) -> (r: Self)
        ensures
            r == *self,
    {
        UserDAOError { message: self.message.clone() }
    }
}

/// No two records share an id.
pub open spec fn ids_distinct(users: Seq<User>) -> bool {
    forall|i: int, j: int|
        0 <= i < j < users.len() ==> #[trigger] users[i].id != #[trigger] users[j].id
}

/// Every stored name is non-blank.
pub open spec fn all_names_ok(users: Seq<User>) -> bool {
    forall|i: int| 0 <= i < users.len() ==> !is_blank((#[trigger] users[i]).name@)
}

/// The store's invariant: distinct ids, and no blank names.
pub open spec fn store_inv(users: Seq<User>) -> bool {
    ids_distinct(users) && all_names_ok(users)
}

/// The largest id in the store, or 0 when the store is empty.
pub open spec fn max_id(users: Seq<User>) -> int
    decreases users.len(),
{
    if users.len() == 0 {
        0
    } else {
        let rest = max_id(users.drop_last());
        if users.last().id > rest {
            users.last().id as int
        } else {
            rest
        }
    }
}

/// Whether some record carries the id.
pub open spec fn has_id(users: Seq<User>, id: u64) -> bool {
    exists|i: int| 0 <= i < users.len() && #[trigger] users[i].id == id
}

/// The index of the record carrying the id (unique when ids are distinct).
pub open spec fn index_of_id(users: Seq<User>, id: u64) -> int {
    choose|i: int| 0 <= i < users.len() && #[trigger] users[i].id == id
}

/// Whether some record carries exactly this name.
pub open spec fn has_name(users: Seq<User>, name: Seq<char>) -> bool {
    exists|i: int| 0 <= i < users.len() && (#[trigger] users[i]).name@ == name
}

/// Every id in the store is bounded by `max_id`, which is never negative.
pub proof fn lemma_max_id_bound(users: Seq<User>)
    ensures
        0 <= max_id(users),
        forall|i: int| 0 <= i < users.len() ==> #[trigger] users[i].id <= max_id(users),
    decreases users.len(),
{
    if users.len() > 0 {
        lemma_max_id_bound(users.drop_last());
        assert forall|i: int| 0 <= i < users.len() implies #[trigger] users[i].id <= max_id(
            users,
        ) by {
            if i < users.len() - 1 {
                assert(users.drop_last()[i] == users[i]);
            }
        }
    }
}

/// Appending a record moves `max_id` to the larger of the old maximum and
/// the new id.
pub proof fn lemma_max_id_push(users: Seq<User>, u: User)
    ensures
        max_id(users.push(u)) == if u.id > max_id(users) {
            u.id as int
        } else {
            max_id(users)
        },
{
    assert(users.push(u).drop_last() =~= users);
    assert(users.push(u).last() == u);
}

/// Removing a record keeps the invariant.
proof fn lemma_remove_keeps_inv(users: Seq<User>, i: int)
    requires
        store_inv(users),
        0 <= i < users.len(),
    ensures
        store_inv(users.remove(i)),
{
    let after = users.remove(i);
    assert forall|p: int, q: int| 0 <= p < q < after.len() implies #[trigger] after[p].id
        != #[trigger] after[q].id by {
        let p0 = if p < i {
            p
        } else {
            p + 1
        };
        let q0 = if q < i {
            q
        } else {
            q + 1
        };
        assert(after[p] == users[p0] && after[q] == users[q0]);
    }
    assert forall|p: int| 0 <= p < after.len() implies !is_blank((#[trigger] after[p]).name@) by {
        let p0 = if p < i {
            p
        } else {
            p + 1
        };
        assert(after[p] == users[p0]);
        assert(!is_blank(users[p0].name@));
    }
}

/// Replacing the record at `i` with one that carries the same id (and a
/// non-blank name) keeps the invariant.
proof fn lemma_update_keeps_inv(users: Seq<User>, i: int, u: User)
    requires
        store_inv(users),
        0 <= i < users.len(),
        users[i].id == u.id,
        !is_blank(u.name@),
    ensures
        store_inv(users.remove(i).push(u)),
{
    lemma_remove_keeps_inv(users, i);
    let mid = users.remove(i);
    let after = mid.push(u);
    assert forall|p: int| 0 <= p < mid.len() implies #[trigger] mid[p].id != u.id by {
        let p0 = if p < i {
            p
        } else {
            p + 1
        };
        assert(mid[p] == users[p0]);
    }
    assert forall|p: int, q: int| 0 <= p < q < after.len() implies #[trigger] after[p].id
        != #[trigger] after[q].id by {
        if q < after.len() - 1 {
            assert(after[p] == mid[p] && after[q] == mid[q]);
        } else {
            assert(after[p] == mid[p] && after[q] == u);
        }
    }
    assert forall|p: int| 0 <= p < after.len() implies !is_blank((#[trigger] after[p]).name@) by {
        if p < after.len() - 1 {
            assert(after[p] == mid[p]);
            assert(!is_blank(mid[p].name@));
        } else {
            assert(after[p] == u);
        }
    }
}

/// The capability interface of the basic store, with the same shape of
/// contracts as the richer store.
pub trait UserDAO {
    /// The stored records, in storage order.
    spec fn users(&self) -> Seq<User>;

    /// The store's invariant; every operation preserves it.
    open spec fn inv(&self) -> bool {
        store_inv(self.users())
    }

    fn list(&self) -> (r: Vec<User>)
        ensures
            r@ == self.users(),
    ;

    fn find_by_id(&self, id: u64) -> (r: Option<User>)
        requires
            self.inv(),
        ensures
            r is Some <==> has_id(self.users(), id),
            r matches Some(u) ==> u.id == id && u == self.users()[index_of_id(self.users(), id)],
    ;

    fn create(&mut self, name: &str) -> (r: Result<User, UserDAOError>)
        requires
            old(self).inv(),
            max_id(old(self).users()) < u64::MAX,
        ensures
            final(self).inv(),
            is_blank(name@) ==> (r matches Err(e) && e.message@ == "Empty name"@ && final(self).users() == old(self).users()),
            !is_blank(name@) && has_name(old(self).users(), name@) ==> (r matches Err(e)
                && e.message@ == "User exists"@ && final(self).users() == old(self).users()),
            !is_blank(name@) && !has_name(old(self).users(), name@) ==> (r matches Ok(u) && u.id
                == max_id(old(self).users()) + 1 && u.name@ == name@ && final(self).users() == old(self).users().push(u) && max_id(final(self).users()) == max_id(old(self).users()) + 1),
    ;

    fn update(&mut self, user: &User) -> (r: Result<User, UserDAOError>)
        requires
            old(self).inv(),
        ensures
            final(self).inv(),
            is_blank(user.name@) ==> (r matches Err(e) && e.message@ == "Empty name"@ && final(self).users() == old(self).users()),
            !is_blank(user.name@) && !has_id(old(self).users(), user.id) ==> (r matches Err(e)
                && e.message@ == "User not found"@ && final(self).users() == old(self).users()),
            !is_blank(user.name@) && has_id(old(self).users(), user.id) ==> (r matches Ok(u) && u
                == *user && final(self).users() == old(self).users().remove(
                index_of_id(old(self).users(), user.id),
            ).push(*user)),
    ;

    fn delete_by_id(&mut self, id: u64) -> (r: Result<User, UserDAOError>)
        requires
            old(self).inv(),
        ensures
            final(self).inv(),
            !has_id(old(self).users(), id) ==> (r matches Err(e) && e.message@
                == "User not found"@ && final(self).users() == old(self).users()),
            has_id(old(self).users(), id) ==> (r matches Ok(u) && u == old(self).users()[
                index_of_id(old(self).users(), id)
            ] && final(self).users() == old(self).users().remove(index_of_id(old(self).users(), id))),
    ;
}

/// The in-memory backend of the basic store.
pub struct UserInMemoryDAO {
    users: Vec<User>,
}

/// The name a pre-seeded record gets: `"user "` followed by its number.
pub open spec fn seed_name(k: nat) -> Seq<char> {
    "user "@ + decimal_chars(k)
}

/// Seed names are not blank.
proof fn lemma_seed_name_ok(k: nat)
    ensures
        !is_blank(seed_name(k)),
{
    reveal_strlit("user ");
    assert(seed_name(k)[0] == 'u');
    assert(!crate::validation::is_space('u'));
}

impl UserInMemoryDAO {
    /// A fresh store, optionally pre-seeded with `cfg.users` records named
    /// `user 1`, `user 2`, ... with ids 1, 2, ...
    #[verifier::loop_isolation(false)]
    pub fn new(cfg: Option<&InMemory>) -> (dao: UserInMemoryDAO)
        ensures
            dao.inv(),
            dao.users().len() == (match cfg {
                Some(c) => c.users as int,
                None => 0,
            }),
            forall|k: int|
                0 <= k < dao.users().len() ==> (#[trigger] dao.users()[k]).id == k + 1
                    && dao.users()[k].name@ == seed_name((k + 1) as nat),
            max_id(dao.users()) == dao.users().len(),
    {
        let mut list: Vec<User> = Vec::new();
        if let Some(inmemory) = cfg {
            let count = inmemory.users;
            let mut i: u16 = 0;
            while i < count
                invariant
                    i <= count,
                    list@.len() == i,
                    forall|k: int|
                        0 <= k < i ==> (#[trigger] list@[k]).id == k + 1 && list@[k].name@
                            == seed_name((k + 1) as nat),
                    max_id(list@) == i,
                    store_inv(list@),
                decreases count - i,
            {
                let number = i as u64 + 1;
                let mut name = "user ".to_owned();
                let digits = u64_to_string(number);
                name.append(digits.as_str());
                let user = User { id: number, name };
                proof {
                    lemma_seed_name_ok(number as nat);
                    lemma_max_id_push(list@, user);
                }
                list.push(user);
                i += 1;
            }
            UserInMemoryDAO { users: list }
        } else {
            UserInMemoryDAO { users: list }
        }
    }

    /// Accepts a non-blank name and hands it back; a blank name is
    /// rejected with the `Empty name` error.
    pub fn validate_name<'a>(name: &'a str) -> (r: Result<&'a str, UserDAOError>)
        ensures
            is_blank(name@) ==> (r matches Err(e) && e.message@ == "Empty name"@),
            !is_blank(name@) ==> (r matches Ok(ok) && ok@ == name@),
    {
        if check_blank(name) {
            Err(UserDAOError { message: "Empty name".to_owned() })
        } else {
            Ok(name)
        }
    }
}

impl UserDAO for UserInMemoryDAO {
    closed spec fn users(&self) -> Seq<User> {
        self.users@
    }

    #[verifier::loop_isolation(false)]
    fn list(&self) -> (r: Vec<User>) {
        let mut out: Vec<User> = Vec::new();
        let n = self.users.len();
        let mut i: usize = 0;
        while i < n
            invariant
                n == self.users@.len(),
                i <= n,
                out@ == self.users@.subrange(0, i as int),
            decreases n - i,
        {
            out.push(self.users[i].clone());
            proof {
                assert(out@ =~= self.users@.subrange(0, i + 1 as int));
            }
            i += 1;
        }
        proof {
            assert(out@ =~= self.users@);
        }
        out
    }

    #[verifier::loop_isolation(false)]
    fn find_by_id(&self, id: u64) -> (r: Option<User>) {
        let n = self.users.len();
        let mut i: usize = 0;
        while i < n
            invariant
                n == self.users@.len(),
                i <= n,
                forall|k: int| 0 <= k < i ==> (#[trigger] self.users@[k]).id != id,
            decreases n - i,
        {
            if self.users[i].id == id {
                return Some(self.users[i].clone());
            }
            i += 1;
        }
        None
    }

    #[verifier::loop_isolation(false)]
    fn create(&mut self, name: &str) -> (r: Result<User, UserDAOError>) {
        if let Err(e) = UserInMemoryDAO::validate_name(name) {
            return Err(e);
        }
        let name_owned = name.to_owned();
        let n = self.users.len();
        let mut i: usize = 0;
        while i < n
            invariant
                n == self.users@.len(),
                i <= n,
                forall|k: int| 0 <= k < i ==> (#[trigger] self.users@[k]).name@ != name@,
            decreases n - i,
        {
            if self.users[i].name == name_owned {
                return Err(UserDAOError { message: "User exists".to_owned() });
            }
            i += 1;
        }
        let mut m: u64 = 0;
        let mut j: usize = 0;
        while j < n
            invariant
                n == self.users@.len(),
                j <= n,
                m == max_id(self.users@.subrange(0, j as int)),
            decreases n - j,
        {
            proof {
                assert(self.users@.subrange(0, j + 1 as int).drop_last() =~= self.users@.subrange(
                    0,
                    j as int,
                ));
                assert(self.users@.subrange(0, j + 1 as int).last() == self.users@[j as int]);
            }
            let uid = self.users[j].id;
            if uid > m {
                m = uid;
            }
            j += 1;
        }
        proof {
            assert(self.users@.subrange(0, n as int) =~= self.users@);
        }
        let uid = m + 1;
        let user = User { id: uid, name: name.to_owned() };
        let ghost before = self.users@;
        self.users.push(user.clone());
        proof {
            lemma_max_id_bound(before);
            lemma_max_id_push(before, user);
            assert(self.users@ =~= before.push(user));
            let after = self.users@;
            assert forall|p: int, q: int| 0 <= p < q < after.len() implies #[trigger] after[p].id
                != #[trigger] after[q].id by {
                if q < after.len() - 1 {
                    assert(after[p] == before[p] && after[q] == before[q]);
                } else {
                    assert(after[p] == before[p] && after[q] == user);
                    assert(before[p].id <= m);
                }
            }
            assert forall|p: int| 0 <= p < after.len() implies !is_blank(
                (#[trigger] after[p]).name@,
            ) by {
                if p < after.len() - 1 {
                    assert(after[p] == before[p]);
                    assert(!is_blank(before[p].name@));
                } else {
                    assert(after[p] == user);
                }
            }
        }
        Ok(user)
    }

    #[verifier::loop_isolation(false)]
    fn update(&mut self, user: &User) -> (r: Result<User, UserDAOError>) {
        if let Err(e) = UserInMemoryDAO::validate_name(user.name.as_str()) {
            return Err(e);
        }
        let ghost init = self.users@;
        let n = self.users.len();
        let mut i: usize = 0;
        while i < n
            invariant
                self.users@ == init,
                n == self.users@.len(),
                i <= n,
                forall|k: int| 0 <= k < i ==> (#[trigger] self.users@[k]).id != user.id,
            decreases n - i,
        {
            if self.users[i].id == user.id {
                let ghost before = self.users@;
                proof {
                    assert(index_of_id(before, user.id) == i) by {
                        assert(before[i as int].id == user.id);
                        let w = index_of_id(before, user.id);
                        assert(0 <= w < before.len() && before[w].id == user.id);
                        if w < i {
                            assert(before[w].id != before[i as int].id);
                        } else if w > i {
                            assert(before[i as int].id != before[w].id);
                        }
                    }
                }
                self.users.remove(i);
                self.users.push(user.clone());
                proof {
                    lemma_update_keeps_inv(before, i as int, *user);
                }
                return Ok(user.clone());
            }
            i += 1;
        }
        Err(UserDAOError { message: "User not found".to_owned() })
    }

    #[verifier::loop_isolation(false)]
    fn delete_by_id(&mut self, id: u64) -> (r: Result<User, UserDAOError>) {
        let ghost init = self.users@;
        let n = self.users.len();
        let mut i: usize = 0;
        while i < n
            invariant
                self.users@ == init,
                n == self.users@.len(),
                i <= n,
                forall|k: int| 0 <= k < i ==> (#[trigger] self.users@[k]).id != id,
            decreases n - i,
        {
            if self.users[i].id == id {
                let ghost before = self.users@;
                proof {
                    assert(index_of_id(before, id) == i) by {
                        assert(before[i as int].id == id);
                        let w = index_of_id(before, id);
                        assert(0 <= w < before.len() && before[w].id == id);
                        if w < i {
                            assert(before[w].id != before[i as int].id);
                        } else if w > i {
                            assert(before[i as int].id != before[w].id);
                        }
                    }
                }
                let user = self.users.remove(i);
                proof {
                    lemma_remove_keeps_inv(before, i as int);
                }
                return Ok(user);
            }
            i += 1;
        }
        Err(UserDAOError { message: "User not found".to_owned() })
    }
}

} // verus!
