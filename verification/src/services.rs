//! The users store: a capability trait whose contracts fix the result of
//! every operation, and an in-memory implementation proved against them.
//!
//! The store assigns ids (one above the current maximum, starting at 1),
//! rejects invalid payloads before any mutation, and rejects a created
//! payload equal to an existing record's payload.

use vstd::prelude::*;
use crate::configs::InMemory;
use crate::decimal::{
    decimal_chars,
    is_digit,
    lemma_decimal_chars_are_digits,
    lemma_decimal_chars_len,
    pow10,
    u64_to_string,
};
use crate::model::{User, UserDAOError, UserFields};
use crate::validation::{
    check_length,
    check_no_control,
    check_pattern,
    fields_ok,
    is_lowercase_letter,
    is_uppercase_letter,
    is_word_char,
    validation_error_message,
    validation_message,
};

verus! {

/// No two records share an id.
pub open spec fn ids_distinct(users: Seq<User>) -> bool {
    forall|i: int, j: int|
        0 <= i < j < users.len() ==> #[trigger] users[i].id != #[trigger] users[j].id
}

/// Every stored payload satisfies the validation rules.
pub open spec fn all_fields_ok(users: Seq<User>) -> bool {
    forall|i: int| 0 <= i < users.len() ==> fields_ok(#[trigger] users[i].fields.name@)
}

/// The store's invariant: distinct ids, and only valid payloads.
pub open spec fn store_inv(users: Seq<User>) -> bool {
    ids_distinct(users) && all_fields_ok(users)
}

/// The largest id in the store, or 0 when the store is empty.
pub open spec fn max_id(users: Seq<User>) -> int
    decreases users.len(),
{
    if users.len() == 0 {
        0
    } else {
        let rest = max_id(users.drop_last());
        if users.last().id > rest {
            users.last().id as int
        } else {
            rest
        }
    }
}

/// Whether some record carries the id.
pub open spec fn has_id(users: Seq<User>, id: u64) -> bool {
    exists|i: int| 0 <= i < users.len() && #[trigger] users[i].id == id
}

/// The index of the record carrying the id (unique when ids are distinct).
pub open spec fn index_of_id(users: Seq<User>, id: u64) -> int {
    choose|i: int| 0 <= i < users.len() && #[trigger] users[i].id == id
}

/// Whether some record carries exactly this payload.
pub open spec fn has_name(users: Seq<User>, name: Seq<char>) -> bool {
    exists|i: int| 0 <= i < users.len() && #[trigger] users[i].fields.name@ == name
}

/// Every id in the store is bounded by `max_id`, which is never negative.
pub proof fn lemma_max_id_bound(users: Seq<User>)
    ensures
        0 <= max_id(users),
        forall|i: int| 0 <= i < users.len() ==> #[trigger] users[i].id <= max_id(users),
    decreases users.len(),
{
    if users.len() > 0 {
        lemma_max_id_bound(users.drop_last());
        assert forall|i: int| 0 <= i < users.len() implies #[trigger] users[i].id <= max_id(
            users,
        ) by {
            if i < users.len() - 1 {
                assert(users.drop_last()[i] == users[i]);
            }
        }
    }
}

/// Appending a record moves `max_id` to the larger of the old maximum and
/// the new id.
pub proof fn lemma_max_id_push(users: Seq<User>, u: User)
    ensures
        max_id(users.push(u)) == if u.id > max_id(users) {
            u.id as int
        } else {
            max_id(users)
        },
{
    assert(users.push(u).drop_last() =~= users);
    assert(users.push(u).last() == u);
}

/// The capability interface of a users store. Both backends promise the
/// same observable behaviour, stated here once:
/// - `list` returns exactly the stored records;
/// - `find_by_id` returns the record with the id, or nothing;
/// - `create` validates, rejects an existing payload, and otherwise
///   appends a record with id one above the current maximum;
/// - `update` validates, then replaces the payload of the record with the
///   given id, failing without side effects when the id is absent;
/// - `delete_by_id` removes exactly the record with the id and returns it.
pub trait UserDAO {
    /// The stored records, in storage order.
    spec fn users(&self) -> Seq<User>;

    /// The store's invariant; every operation preserves it.
    open spec fn inv(&self) -> bool {
        store_inv(self.users())
    }

    fn list(&self) -> (r: Vec<User>)
        ensures
            r@ == self.users(),
    ;

    fn find_by_id(&self, id: u64) -> (r: Option<User>)
        requires
            self.inv(),
        ensures
            r is Some <==> has_id(self.users(), id),
            r matches Some(u) ==> u.id == id && u == self.users()[index_of_id(self.users(), id)],
    ;

    fn create(&mut self, fields: &UserFields) -> (r: Result<User, UserDAOError>)
        requires
            old(self).inv(),
            max_id(old(self).users()) < u64::MAX,
        ensures
            final(self).inv(),
            !fields_ok(fields.name@) ==> (r matches Err(e) && e.message@ == validation_message(
                fields.name@,
            ) && final(self).users() == old(self).users()),
            fields_ok(fields.name@) && has_name(old(self).users(), fields.name@) ==> (r matches Err(
                e,
            ) && e.message@ == "User exists"@ && final(self).users() == old(self).users()),
            fields_ok(fields.name@) && !has_name(old(self).users(), fields.name@) ==> (r matches Ok(
                u,
            ) && u.id == max_id(old(self).users()) + 1 && u.fields.name@ == fields.name@
                && final(self).users() == old(self).users().push(u) && max_id(final(self).users())
                == max_id(old(self).users()) + 1),
    ;

    fn update(&mut self, user: &User) -> (r: Result<User, UserDAOError>)
        requires
            old(self).inv(),
        ensures
            final(self).inv(),
            !fields_ok(user.fields.name@) ==> (r matches Err(e) && e.message@
                == validation_message(user.fields.name@) && final(self).users() == old(self).users()),
            fields_ok(user.fields.name@) && !has_id(old(self).users(), user.id) ==> (r matches Err(
                e,
            ) && e.message@ == "User not found"@ && final(self).users() == old(self).users()),
            fields_ok(user.fields.name@) && has_id(old(self).users(), user.id) ==> (r matches Ok(
                u,
            ) && u == *user && final(self).users() == old(self).users().remove(
                index_of_id(old(self).users(), user.id),
            ).push(*user)),
    ;

    fn delete_by_id(&mut self, id: u64) -> (r: Result<User, UserDAOError>)
        requires
            old(self).inv(),
        ensures
            final(self).inv(),
            !has_id(old(self).users(), id) ==> (r matches Err(e) && e.message@
                == "User not found"@ && final(self).users() == old(self).users()),
            has_id(old(self).users(), id) ==> (r matches Ok(u) && u == old(self).users()[
                index_of_id(old(self).users(), id)
            ] && final(self).users() == old(self).users().remove(index_of_id(old(self).users(), id))),
    ;
}

/// The in-memory backend: all records in one vector, scanned linearly.
pub struct UserInMemoryDAO {
    users: Vec<User>,
}

/// The name a pre-seeded record gets: `"User"` followed by its number.
pub open spec fn seed_name(k: nat) -> Seq<char> {
    "User"@ + decimal_chars(k)
}

/// Seed names satisfy the validation rules (for the seed numbers an
/// `InMemory` setting can ask for).
proof fn lemma_seed_name_ok(k: nat)
    requires
        1 <= k <= u16::MAX,
    ensures
        fields_ok(seed_name(k)),
{
    reveal_strlit("User");
    lemma_decimal_chars_are_digits(k);
    assert(pow10(5) == 100000) by {
        reveal_with_fuel(pow10, 6);
    }
    lemma_decimal_chars_len(k, 5);
    let name = seed_name(k);
    assert(name[0] == 'U');
    assert(is_uppercase_letter('U'));
    assert(is_lowercase_letter('s') && is_lowercase_letter('e') && is_lowercase_letter('r'));
    assert forall|i: int| 1 <= i < name.len() implies is_word_char(#[trigger] name[i]) by {
        if i >= 4 {
            assert(name[i] == decimal_chars(k)[i - 4]);
            assert(is_digit(name[i]));
        }
    }
    assert forall|i: int|
        0 <= i < name.len() implies !crate::validation::is_control(#[trigger] name[i]) by {
        if i >= 4 {
            assert(name[i] == decimal_chars(k)[i - 4]);
            assert(is_digit(name[i]));
        }
    }
}

impl UserInMemoryDAO {
    /// A fresh store, optionally pre-seeded with `cfg.users` records named
    /// `User1`, `User2`, ... with ids 1, 2, ...
    #[verifier::loop_isolation(false)]
    pub fn new(cfg: Option<&InMemory>) -> (dao: UserInMemoryDAO)
        ensures
            dao.inv(),
            dao.users().len() == (match cfg {
                Some(c) => c.users as int,
                None => 0,
            }),
            forall|k: int|
                0 <= k < dao.users().len() ==> (#[trigger] dao.users()[k]).id == k + 1 && dao.users()[k].fields.name@
                    == seed_name((k + 1) as nat),
            max_id(dao.users()) == dao.users().len(),
    {
        let mut list: Vec<User> = Vec::new();
        if let Some(inmemory) = cfg {
            let count = inmemory.users;
            let mut i: u16 = 0;
            while i < count
                invariant
                    i <= count,
                    list@.len() == i,
                    forall|k: int|
                        0 <= k < i ==> (#[trigger] list@[k]).id == k + 1 && list@[k].fields.name@
                            == seed_name((k + 1) as nat),
                    max_id(list@) == i,
                    store_inv(list@),
                decreases count - i,
            {
                let number = i as u64 + 1;
                let mut name = "User".to_owned();
                let digits = u64_to_string(number);
                name.append(digits.as_str());
                let user = User { id: number, fields: UserFields { name } };
                proof {
                    lemma_seed_name_ok(number as nat);
                    lemma_max_id_push(list@, user);
                }
                list.push(user);
                i += 1;
            }
            UserInMemoryDAO { users: list }
        } else {
            UserInMemoryDAO { users: list }
        }
    }

    /// Accepts a valid payload; an invalid one is rejected with a message
    /// naming every check that failed.
    pub fn validate_fields(fields: &UserFields) -> (r: Result<(), UserDAOError>)
        ensures
            fields_ok(fields.name@) ==> r is Ok,
            !fields_ok(fields.name@) ==> (r matches Err(e) && e.message@ == validation_message(
                fields.name@,
            )),
    {
        let len_ok = check_length(fields.name.as_str());
        let ctrl_ok = check_no_control(fields.name.as_str());
        let pat_ok = check_pattern(fields.name.as_str());
        if len_ok && ctrl_ok && pat_ok {
            Ok(())
        } else {
            Err(UserDAOError { message: validation_error_message(!len_ok, !ctrl_ok, !pat_ok) })
        }
    }
}

impl UserDAO for UserInMemoryDAO {
    closed spec fn users(&self) -> Seq<User> {
        self.users@
    }

    #[verifier::loop_isolation(false)]
    fn list(&self) -> (r: Vec<User>) {
        let mut out: Vec<User> = Vec::new();
        let n = self.users.len();
        let mut i: usize = 0;
        while i < n
            invariant
                n == self.users@.len(),
                i <= n,
                out@ == self.users@.subrange(0, i as int),
            decreases n - i,
        {
            out.push(self.users[i].clone());
            proof {
                assert(out@ =~= self.users@.subrange(0, i + 1 as int));
            }
            i += 1;
        }
        proof {
            assert(out@ =~= self.users@);
        }
        out
    }

    #[verifier::loop_isolation(false)]
    fn find_by_id(&self, id: u64) -> (r: Option<User>) {
        let n = self.users.len();
        let mut i: usize = 0;
        while i < n
            invariant
                n == self.users@.len(),
                i <= n,
                forall|k: int| 0 <= k < i ==> (#[trigger] self.users@[k]).id != id,
            decreases n - i,
        {
            if self.users[i].id == id {
                return Some(self.users[i].clone());
            }
            i += 1;
        }
        None
    }

    #[verifier::loop_isolation(false)]
    fn create(&mut self, fields: &UserFields) -> (r: Result<User, UserDAOError>) {
        if let Err(e) = UserInMemoryDAO::validate_fields(fields) {
            return Err(e);
        }
        let n = self.users.len();
        let mut i: usize = 0;
        while i < n
            invariant
                n == self.users@.len(),
                i <= n,
                forall|k: int| 0 <= k < i ==> (#[trigger] self.users@[k]).fields.name@ != fields.name@,
            decreases n - i,
        {
            if self.users[i].fields.name == fields.name {
                return Err(UserDAOError { message: "User exists".to_owned() });
            }
            i += 1;
        }
        let mut m: u64 = 0;
        let mut j: usize = 0;
        while j < n
            invariant
                n == self.users@.len(),
                j <= n,
                m == max_id(self.users@.subrange(0, j as int)),
            decreases n - j,
        {
            proof {
                assert(self.users@.subrange(0, j + 1 as int).drop_last() =~= self.users@.subrange(
                    0,
                    j as int,
                ));
                assert(self.users@.subrange(0, j + 1 as int).last() == self.users@[j as int]);
            }
            let uid = self.users[j].id;
            if uid > m {
                m = uid;
            }
            j += 1;
        }
        proof {
            assert(self.users@.subrange(0, n as int) =~= self.users@);
        }
        let uid = m + 1;
        let user = User { id: uid, fields: UserFields { name: fields.name.clone() } };
        let ghost before = self.users@;
        self.users.push(user.clone());
        proof {
            lemma_max_id_bound(before);
            lemma_max_id_push(before, user);
            assert(self.users@ =~= before.push(user));
            let after = self.users@;
            assert forall|p: int, q: int| 0 <= p < q < after.len() implies #[trigger] after[p].id
                != #[trigger] after[q].id by {
                if q < after.len() - 1 {
                    assert(after[p] == before[p] && after[q] == before[q]);
                } else {
                    assert(after[p] == before[p] && after[q] == user);
                    assert(before[p].id <= m);
                }
            }
            assert forall|p: int| 0 <= p < after.len() implies fields_ok(
                (#[trigger] after[p]).fields.name@,
            ) by {
                if p < after.len() - 1 {
                    assert(after[p] == before[p]);
                    assert(fields_ok(before[p].fields.name@));
                } else {
                    assert(after[p] == user);
                }
            }
        }
        Ok(user)
    }

    #[verifier::loop_isolation(false)]
    fn update(&mut self, user: &User) -> (r: Result<User, UserDAOError>) {
        if let Err(e) = UserInMemoryDAO::validate_fields(&user.fields) {
            return Err(e);
        }
        let ghost init = self.users@;
        let n = self.users.len();
        let mut i: usize = 0;
        while i < n
            invariant
                self.users@ == init,
                n == self.users@.len(),
                i <= n,
                forall|k: int| 0 <= k < i ==> (#[trigger] self.users@[k]).id != user.id,
            decreases n - i,
        {
            if self.users[i].id == user.id {
                let ghost before = self.users@;
                proof {
                    assert(index_of_id(before, user.id) == i) by {
                        assert(before[i as int].id == user.id);
                        let w = index_of_id(before, user.id);
                        assert(0 <= w < before.len() && before[w].id == user.id);
                        if w < i {
                            assert(before[w].id != before[i as int].id);
                        } else if w > i {
                            assert(before[i as int].id != before[w].id);
                        }
                    }
                }
                self.users.remove(i);
                self.users.push(user.clone());
                proof {
                    lemma_update_keeps_inv(before, i as int, *user);
                }
                return Ok(user.clone());
            }
            i += 1;
        }
        Err(UserDAOError { message: "User not found".to_owned() })
    }

    #[verifier::loop_isolation(false)]
    fn delete_by_id(&mut self, id: u64) -> (r: Result<User, UserDAOError>) {
        let ghost init = self.users@;
        let n = self.users.len();
        let mut i: usize = 0;
        while i < n
            invariant
                self.users@ == init,
                n == self.users@.len(),
                i <= n,
                forall|k: int| 0 <= k < i ==> (#[trigger] self.users@[k]).id != id,
            decreases n - i,
        {
            if self.users[i].id == id {
                let ghost before = self.users@;
                proof {
                    assert(index_of_id(before, id) == i) by {
                        assert(before[i as int].id == id);
                        let w = index_of_id(before, id);
                        assert(0 <= w < before.len() && before[w].id == id);
                        if w < i {
                            assert(before[w].id != before[i as int].id);
                        } else if w > i {
                            assert(before[i as int].id != before[w].id);
                        }
                    }
                }
                let user = self.users.remove(i);
                proof {
                    lemma_remove_keeps_inv(before, i as int);
                }
                return Ok(user);
            }
            i += 1;
        }
        Err(UserDAOError { message: "User not found".to_owned() })
    }
}

/// Removing a record keeps the invariant.
proof fn lemma_remove_keeps_inv(users: Seq<User>, i: int)
    requires
        store_inv(users),
        0 <= i < users.len(),
    ensures
        store_inv(users.remove(i)),
{
    let after = users.remove(i);
    assert forall|p: int, q: int| 0 <= p < q < after.len() implies #[trigger] after[p].id
        != #[trigger] after[q].id by {
        let p0 = if p < i {
            p
        } else {
            p + 1
        };
        let q0 = if q < i {
            q
        } else {
            q + 1
        };
        assert(after[p] == users[p0] && after[q] == users[q0]);
    }
    assert forall|p: int| 0 <= p < after.len() implies fields_ok(
        (#[trigger] after[p]).fields.name@,
    ) by {
        let p0 = if p < i {
            p
        } else {
            p + 1
        };
        assert(after[p] == users[p0]);
        assert(fields_ok(users[p0].fields.name@));
    }
}

/// Replacing the record at `i` with one that carries the same id (and a
/// valid payload) keeps the invariant.
proof fn lemma_update_keeps_inv(users: Seq<User>, i: int, u: User)
    requires
        store_inv(users),
        0 <= i < users.len(),
        users[i].id == u.id,
        fields_ok(u.fields.name@),
    ensures
        store_inv(users.remove(i).push(u)),
{
    lemma_remove_keeps_inv(users, i);
    let mid = users.remove(i);
    let after = mid.push(u);
    assert forall|p: int| 0 <= p < mid.len() implies #[trigger] mid[p].id != u.id by {
        let p0 = if p < i {
            p
        } else {
            p + 1
        };
        assert(mid[p] == users[p0]);
    }
    assert forall|p: int, q: int| 0 <= p < q < after.len() implies #[trigger] after[p].id
        != #[trigger] after[q].id by {
        if q < after.len() - 1 {
            assert(after[p] == mid[p] && after[q] == mid[q]);
        } else {
            assert(after[p] == mid[p] && after[q] == u);
        }
    }
    assert forall|p: int| 0 <= p < after.len() implies fields_ok(
        (#[trigger] after[p]).fields.name@,
    ) by {
        if p < after.len() - 1 {
            assert(after[p] == mid[p]);
            assert(fields_ok(mid[p].fields.name@));
        } else {
            assert(after[p] == u);
        }
    }
}

/// Whether `create` accepts these fields on this store: the payload is
/// valid and no record already carries it.
pub open spec fn create_accepts(users: Seq<User>, name: Seq<char>) -> bool {
    fields_ok(name) && !has_name(users, name)
}

/// A store that a run of `create` calls produced from the empty store,
/// one call per name, every call succeeding. Each step appends a record
/// whose id is one above the maximum, exactly as `create` promises.
pub open spec fn created_from(names: Seq<Seq<char>>, users: Seq<User>) -> bool
    decreases names.len(),
{
    if names.len() == 0 {
        users.len() == 0
    } else {
        &&& users.len() > 0
        &&& created_from(names.drop_last(), users.drop_last())
        &&& create_accepts(users.drop_last(), names.last())
        &&& users.last().id == max_id(users.drop_last()) + 1
        &&& users.last().fields.name@ == names.last()
    }
}

/// Law: a run of successful `create` calls on an empty store hands out
/// the ids 1, 2, ... in order — in particular strictly increasing — and
/// the store afterwards holds exactly the created records, in creation
/// order.
pub proof fn lemma_create_run(names: Seq<Seq<char>>, users: Seq<User>)
    requires
        created_from(names, users),
    ensures
        users.len() == names.len(),
        forall|i: int|
            0 <= i < users.len() ==> (#[trigger] users[i]).id == i + 1 && users[i].fields.name@
                == names[i],
        max_id(users) == users.len(),
    decreases names.len(),
{
    if names.len() > 0 {
        let prev = users.drop_last();
        let u = users.last();
        lemma_create_run(names.drop_last(), prev);
        lemma_max_id_push(prev, u);
        assert(users =~= prev.push(u));
        assert forall|i: int|
            0 <= i < users.len() implies (#[trigger] users[i]).id == i + 1
                && users[i].fields.name@ == names[i] by {
            if i < users.len() - 1 {
                assert(users[i] == prev[i]);
                assert(names.drop_last()[i] == names[i]);
            } else {
                assert(users[i] == u);
            }
        }
    }
}

/// Law: in a run of `create` calls on an empty store with valid,
/// pairwise-distinct payloads, every call is accepted — none is turned
/// away as a duplicate.
pub proof fn lemma_distinct_names_accepted(names: Seq<Seq<char>>, users: Seq<User>, k: int)
    requires
        0 <= k < names.len(),
        created_from(names.subrange(0, k), users),
        forall|i: int| 0 <= i < names.len() ==> fields_ok(#[trigger] names[i]),
        forall|i: int, j: int| 0 <= i < j < names.len() ==> names[i] != names[j],
    ensures
        create_accepts(users, names[k]),
{
    lemma_create_run(names.subrange(0, k), users);
    if has_name(users, names[k]) {
        let w = choose|i: int|
            0 <= i < users.len() && (#[trigger] users[i]).fields.name@ == names[k];
        assert(users[w].fields.name@ == names.subrange(0, k)[w]);
        assert(names.subrange(0, k)[w] == names[w]);
        assert(names[w] != names[k]);
        assert(false);
    }
}

} // verus!
