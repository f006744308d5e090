use vstd::prelude::*;

use crate::error::RepoError;

verus! {

/// A stored identity record: an opaque, system-generated identifier and the
/// unique username it belongs to.
#[derive(Debug, Clone)]
pub struct UserEntity {
    pub id: String,
    pub username: String,
}

/// The persistence abstraction between the business rules and storage. The
/// service depends only on this trait, so a concrete backend and an in-memory
/// double are interchangeable.
///
/// Its model is `users()`, the stored records as a map from username to
/// identifier, together with `healthy()`: an operation on a healthy
/// repository does not report a storage failure.
pub trait UserRepository {
    /// The stored records, each unique username mapped to its identifier.
    /// The default model is the empty store; a verified implementation
    /// overrides it with its real contents.
    open spec fn users(&self) -> Map<Seq<char>, Seq<char>> {
        Map::empty()
    }

    /// Whether the backing store answers at all. The default model promises
    /// nothing; a verified implementation overrides it.
    open spec fn healthy(&self) -> bool {
        false
    }

    /// True iff a user with exactly this username exists; fails only on
    /// storage failure.
    fn exist_by_username(&self, username: &str) -> (r: Result<bool, RepoError>)
        ensures
            r matches Ok(b) ==> b == self.users().contains_key(username@),
            self.healthy() ==> r is Ok,
    ;

    /// The matching user, or an empty result if none exists; absence is not a
    /// failure.
    fn find_by_username(&self, username: &str) -> (r: Result<Option<UserEntity>, RepoError>)
        ensures
            (r matches Ok(found) ==> match found {
                Some(u) => self.users().contains_key(username@) && u.username@ == username@
                    && u.id@ == self.users()[username@],
                None => !self.users().contains_key(username@),
            }),
            self.healthy() ==> r is Ok,
    ;

    /// Creates a new user under a freshly generated identifier and returns
    /// the identifier; fails on storage failure or on a uniqueness violation.
    fn save(&mut self, username: &str) -> (r: Result<String, RepoError>)
        ensures
            r matches Ok(id) ==> (id@.len() > 0 && !old(self).users().contains_key(username@)
                && final(self).users() == old(self).users().insert(username@, id@)),
            r matches Err(_) ==> final(self).users() == old(self).users(),
            final(self).healthy() == old(self).healthy(),
            (old(self).healthy() && !old(self).users().contains_key(username@)) ==> r is Ok,
    ;
}

/// The map a sequence of records describes: each username to its identifier,
/// later records taking precedence.
pub open spec fn map_of(s: Seq<UserEntity>) -> Map<Seq<char>, Seq<char>>
    decreases s.len(),
{
    if s.len() == 0 {
        Map::empty()
    } else {
        map_of(s.drop_last()).insert(s.last().username@, s.last().id@)
    }
}

/// Pairwise distinct usernames: the record-level form of the uniqueness
/// invariant.
pub open spec fn unique_usernames(s: Seq<UserEntity>) -> bool {
    forall|i: int, j: int| 0 <= i < j < s.len() ==> s[i].username@ != s[j].username@
}

/// A username is in the described map exactly when some record carries it.
proof fn lemma_map_of_domain(s: Seq<UserEntity>, name: Seq<char>)
    ensures
        map_of(s).contains_key(name) <==> (exists|i: int|
            0 <= i < s.len() && s[i].username@ == name),
    decreases s.len(),
{
    if s.len() > 0 {
        let s0 = s.drop_last();
        lemma_map_of_domain(s0, name);
        if s.last().username@ == name {
            assert(s[s.len() - 1].username@ == name);
        } else if map_of(s0).contains_key(name) {
            let i = choose|i: int| 0 <= i < s0.len() && s0[i].username@ == name;
            assert(s[i].username@ == name);
        } else {
            assert forall|i: int| 0 <= i < s.len() implies s[i].username@ != name by {
                if i < s.len() - 1 {
                    assert(s0[i] == s[i]);
                }
            }
        }
    }
}

/// Under the uniqueness invariant, the map value of a record's username is
/// exactly that record's identifier.
proof fn lemma_map_of_value(s: Seq<UserEntity>, i: int)
    requires
        unique_usernames(s),
        0 <= i < s.len(),
    ensures
        map_of(s).contains_key(s[i].username@),
        map_of(s)[s[i].username@] == s[i].id@,
    decreases s.len(),
{
    if i == s.len() - 1 {
    } else {
        let s0 = s.drop_last();
        assert(s0[i] == s[i]);
        lemma_map_of_value(s0, i);
        assert(s.last().username@ != s[i].username@);
    }
}

/// Relies on uuid::Uuid::new_v4, rendered in its hyphenated text form: a
/// freshly drawn random identifier. Nothing is assumed beyond its fixed
/// 36-character shape; like an allocation, the draw aborts the process only
/// if the operating system's random source fails.
#[verifier::external_body]
fn fresh_user_id() -> (r: String)
    ensures
        r@.len() == 36,
{
    uuid::Uuid::new_v4().to_string()
}

/// In-memory implementation of the repository: the service's test double.
/// A storage failure can be injected per operation, to simulate a failing
/// backing store.
#[derive(Debug)]
pub struct MockUserRepository {
    records: Vec<UserEntity>,
    exists_should_fail: bool,
    find_should_fail: bool,
    save_should_fail: bool,
}

impl MockUserRepository {
    #[verifier::type_invariant]
    spec fn wf(&self) -> bool {
        unique_usernames(self.records@)
    }

    /// Whether a failure is injected into the existence check.
    pub closed spec fn exists_fails(&self) -> bool {
        self.exists_should_fail
    }

    /// Whether a failure is injected into the lookup.
    pub closed spec fn find_fails(&self) -> bool {
        self.find_should_fail
    }

    /// Whether a failure is injected into record creation.
    pub closed spec fn save_fails(&self) -> bool {
        self.save_should_fail
    }

    /// An empty repository with no failure injected.
    pub fn new() -> (r: Self)
        ensures
            r.users() == Map::<Seq<char>, Seq<char>>::empty(),
            r.healthy(),
    {
        MockUserRepository {
            records: Vec::new(),
            exists_should_fail: false,
            find_should_fail: false,
            save_should_fail: false,
        }
    }

    /// Linear scan for a username among the stored records.
    fn contains_username(&self, username: &str) -> (r: bool)
        ensures
            r == self.users().contains_key(username@),
    {
        let target = username.to_owned();
        let n = self.records.len();
        let mut i: usize = 0;
        while i < n
            invariant
                n == self.records@.len(),
                0 <= i <= n,
                target@ == username@,
                forall|k: int| 0 <= k < i ==> self.records@[k].username@ != username@,
            decreases n - i,
        {
            if self.records[i].username == target {
                proof {
                    lemma_map_of_domain(self.records@, username@);
                }
                return true;
            }
            i += 1;
        }
        proof {
            lemma_map_of_domain(self.records@, username@);
        }
        false
    }

    /// Injects (or clears) a storage failure of the existence check; nothing
    /// else changes.
    pub fn set_exists_failure(&mut self, fail: bool)
        ensures
            final(self).users() == old(self).users(),
            final(self).exists_fails() == fail,
            final(self).find_fails() == old(self).find_fails(),
            final(self).save_fails() == old(self).save_fails(),
    {
        proof {
            use_type_invariant(&*self);
        }
        self.exists_should_fail = fail;
    }

    /// Injects (or clears) a storage failure of the lookup; nothing else
    /// changes.
    pub fn set_find_failure(&mut self, fail: bool)
        ensures
            final(self).users() == old(self).users(),
            final(self).find_fails() == fail,
            final(self).exists_fails() == old(self).exists_fails(),
            final(self).save_fails() == old(self).save_fails(),
    {
        proof {
            use_type_invariant(&*self);
        }
        self.find_should_fail = fail;
    }

    /// Injects (or clears) a storage failure of record creation; nothing else
    /// changes.
    pub fn set_save_failure(&mut self, fail: bool)
        ensures
            final(self).users() == old(self).users(),
            final(self).save_fails() == fail,
            final(self).exists_fails() == old(self).exists_fails(),
            final(self).find_fails() == old(self).find_fails(),
    {
        proof {
            use_type_invariant(&*self);
        }
        self.save_should_fail = fail;
    }
}

impl Default for MockUserRepository {
    /// Same as `new`: empty, with no failure injected.
    fn default() -> (r: Self)
        ensures
            r.users() == Map::<Seq<char>, Seq<char>>::empty(),
            r.healthy(),
    {
        MockUserRepository::new()
    }
}

impl UserRepository for MockUserRepository {
    closed spec fn users(&self) -> Map<Seq<char>, Seq<char>> {
        map_of(self.records@)
    }

    open spec fn healthy(&self) -> bool {
        !self.exists_fails() && !self.find_fails() && !self.save_fails()
    }

    fn exist_by_username(&self, username: &str) -> (r: Result<bool, RepoError>)
        ensures
            r is Err <==> self.exists_fails(),
    {
        if self.exists_should_fail {
            return Err(RepoError);
        }
        Ok(self.contains_username(username))
    }

    fn find_by_username(&self, username: &str) -> (r: Result<Option<UserEntity>, RepoError>)
        ensures
            r is Err <==> self.find_fails(),
    {
        if self.find_should_fail {
            return Err(RepoError);
        }
        proof {
            use_type_invariant(self);
        }
        let target = username.to_owned();
        let n = self.records.len();
        let mut i: usize = 0;
        while i < n
            invariant
                n == self.records@.len(),
                0 <= i <= n,
                target@ == username@,
                !self.find_fails(),
                unique_usernames(self.records@),
                forall|k: int| 0 <= k < i ==> self.records@[k].username@ != username@,
            decreases n - i,
        {
            if self.records[i].username == target {
                let found = UserEntity {
                    id: self.records[i].id.clone(),
                    username: self.records[i].username.clone(),
                };
                proof {
                    lemma_map_of_value(self.records@, i as int);
                }
                return Ok(Some(found));
            }
            i += 1;
        }
        proof {
            lemma_map_of_domain(self.records@, username@);
        }
        Ok(None)
    }

    fn save(&mut self, username: &str) -> (r: Result<String, RepoError>)
        ensures
            r is Err <==> (old(self).save_fails() || old(self).users().contains_key(username@)),
            final(self).exists_fails() == old(self).exists_fails(),
            final(self).find_fails() == old(self).find_fails(),
            final(self).save_fails() == old(self).save_fails(),
    {
        proof {
            use_type_invariant(&*self);
        }
        if self.save_should_fail {
            return Err(RepoError);
        }
        if self.contains_username(username) {
            return Err(RepoError);
        }
        proof {
            lemma_map_of_domain(self.records@, username@);
        }
        let id = fresh_user_id();
        let entity = UserEntity { id: id.clone(), username: username.to_owned() };
        let ghost before = self.records@;
        let mut records = Vec::new();
        std::mem::swap(&mut records, &mut self.records);
        records.push(entity);
        proof {
            assert(records@.drop_last() =~= before);
        }
        self.records = records;
        Ok(id)
    }
}

} // verus!
