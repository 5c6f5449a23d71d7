//! The health record store: typed CRUD and paginated range queries over six
//! record kinds, behind the uniform response envelope.
//!
//! The store is the in-memory source of truth. An embedding resolves a data
//! directory (host-provided directory first, then the platform's local-data
//! directory under an application folder, then a relative fallback), hands it
//! to `new`, and mirrors every mutation to its own durable backing file under
//! `database_path`. Operations called before `initialize` fail with
//! `StorageUnavailable`, as they would against a backing file whose schema
//! does not exist yet.

use vstd::prelude::*;

use crate::envelope::ApiPagedResult;
use crate::envelope::ApiResponse;
use crate::envelope::StoreError;
use crate::order::str_eq;
use crate::query::contains_key;
use crate::query::filter_owner;
use crate::query::filter_range;
use crate::query::find_by_key;
use crate::query::page_of;
use crate::query::paged_query;
use crate::query::prefix_of;
use crate::query::recent_by_owner;
use crate::query::remove_key;
use crate::query::sort_desc;
use crate::query::unique_keys;
use crate::query::vec_contains_key;
use crate::query::vec_find_by_key;
use crate::query::vec_remove_key;
use crate::records::BloodGlucose;
use crate::records::ChatMessage;
use crate::records::FoodEntry;
use crate::records::Medication;
use crate::records::StoreRecord;
use crate::records::User;
use crate::records::clone_opt_string;
use vstd::string::StringExecFns;

verus! {

/// Some user in `s` carries the email.
pub open spec fn contains_email(s: Seq<User>, email: Seq<char>) -> bool {
    exists|i: int| 0 <= i < s.len() && s[i].email@ == email
}

/// No two users in `s` share an email.
pub open spec fn unique_emails(s: Seq<User>) -> bool {
    forall|i: int, j: int| 0 <= i < j < s.len() ==> s[i].email@ != s[j].email@
}

/// The first user in `s` carrying the email, if any.
pub open spec fn find_by_email(s: Seq<User>, email: Seq<char>) -> Option<User>
    decreases s.len(),
{
    if s.len() == 0 {
        None
    } else if s[0].email@ == email {
        Some(s[0])
    } else {
        find_by_email(s.skip(1), email)
    }
}

/// Every record of `child` is owned by some user of `users`.
pub open spec fn owners_exist<R: StoreRecord>(child: Seq<R>, users: Seq<User>) -> bool {
    forall|i: int| 0 <= i < child.len() ==> contains_key(users, #[trigger] child[i].owner())
}

/// Some user other than `u` itself already carries `u`'s email, which is what
/// makes a full-record update a uniqueness violation.
pub open spec fn email_conflict(s: Seq<User>, u: User) -> bool {
    exists|i: int| 0 <= i < s.len() && s[i].id@ != u.id@ && s[i].email@ == u.email@
}

/// The stored row after a full-record update: every mutable field from the
/// update, while id, password hash and creation timestamp stay as stored.
pub open spec fn merged_user(stored: User, update: User) -> User {
    User {
        id: stored.id,
        password_hash: stored.password_hash,
        created_at: stored.created_at,
        ..update
    }
}

/// The user table after a full-record update keyed by `u.id`: the matching
/// row (at most one under unique ids) is merged, every other row is kept.
pub open spec fn apply_user_update(s: Seq<User>, u: User) -> Seq<User> {
    Seq::new(
        s.len(),
        |i: int|
            if s[i].id@ == u.id@ {
                merged_user(s[i], u)
            } else {
                s[i]
            },
    )
}

/// The mark-taken transition on one medication row: the taken flag is set,
/// the administration time is recorded, and every other field — the
/// scheduled time in particular — is unchanged.
pub open spec fn marked_taken(pre: Medication, post: Medication, t: Seq<char>) -> bool {
    &&& post.id == pre.id
    &&& post.user_id == pre.user_id
    &&& post.created_at == pre.created_at
    &&& post.drug_name == pre.drug_name
    &&& post.medication_type == pre.medication_type
    &&& post.dose == pre.dose
    &&& post.unit == pre.unit
    &&& post.timing == pre.timing
    &&& post.insulin_type == pre.insulin_type
    &&& post.insulin_duration == pre.insulin_duration
    &&& post.scheduled_time == pre.scheduled_time
    &&& (post.actual_time matches Some(a) && a@ == t)
    &&& post.is_taken == true
    &&& post.notes == pre.notes
}

proof fn lemma_unique_keys_push<R: StoreRecord>(s: Seq<R>, x: R)
    requires
        unique_keys(s),
        !contains_key(s, x.key()),
    ensures
        unique_keys(s.push(x)),
{
    assert forall|i: int, j: int| 0 <= i < j < s.push(x).len() implies s.push(x)[i].key() != s.push(
        x,
    )[j].key() by {
        if j < s.len() {
            assert(s.push(x)[i] == s[i]);
            assert(s.push(x)[j] == s[j]);
        } else {
            assert(s.push(x)[i] == s[i]);
            assert(s.push(x)[j] == x);
        }
    }
}

proof fn lemma_unique_emails_push(s: Seq<User>, x: User)
    requires
        unique_emails(s),
        !contains_email(s, x.email@),
    ensures
        unique_emails(s.push(x)),
{
    assert forall|i: int, j: int| 0 <= i < j < s.push(x).len() implies s.push(x)[i].email@ != s.push(
        x,
    )[j].email@ by {
        if j < s.len() {
            assert(s.push(x)[i] == s[i]);
            assert(s.push(x)[j] == s[j]);
        } else {
            assert(s.push(x)[i] == s[i]);
            assert(s.push(x)[j] == x);
        }
    }
}

/// Growing the user table cannot break a child table's ownership.
proof fn lemma_owners_push_user<R: StoreRecord>(child: Seq<R>, users: Seq<User>, u: User)
    requires
        owners_exist(child, users),
    ensures
        owners_exist(child, users.push(u)),
{
    assert forall|i: int| 0 <= i < child.len() implies contains_key(
        users.push(u),
        #[trigger] child[i].owner(),
    ) by {
        let k = choose|k: int| 0 <= k < users.len() && users[k].key() == child[i].owner();
        assert(users.push(u)[k] == users[k]);
    }
}

/// Appending a record whose owner exists keeps a child table's ownership.
proof fn lemma_owners_push_child<R: StoreRecord>(child: Seq<R>, users: Seq<User>, x: R)
    requires
        owners_exist(child, users),
        contains_key(users, x.owner()),
    ensures
        owners_exist(child.push(x), users),
{
    assert forall|i: int| 0 <= i < child.push(x).len() implies contains_key(
        users,
        #[trigger] child.push(x)[i].owner(),
    ) by {
        if i < child.len() {
            assert(child.push(x)[i] == child[i]);
        } else {
            assert(child.push(x)[i] == x);
        }
    }
}

/// Deletion keeps ids unique and never invents a record: every row of the
/// result already stood in `s`.
proof fn lemma_remove_key_props<R: StoreRecord>(s: Seq<R>, id: Seq<char>)
    requires
        unique_keys(s),
    ensures
        unique_keys(remove_key(s, id)),
        forall|i: int| 0 <= i < remove_key(s, id).len() ==> s.contains(#[trigger] remove_key(s, id)[i]),
    decreases s.len(),
{
    if s.len() > 0 {
        let front = s.drop_last();
        assert(unique_keys(front)) by {
            assert(forall|i: int| 0 <= i < front.len() ==> front[i] == s[i]);
        }
        lemma_remove_key_props(front, id);
        let rest = remove_key(front, id);
        assert forall|i: int| 0 <= i < rest.len() implies s.contains(#[trigger] rest[i]) by {
            let j = choose|j: int| 0 <= j < front.len() && front[j] == rest[i];
            assert(s[j] == rest[i]);
        }
        if s.last().key() != id {
            let out = rest.push(s.last());
            assert(s.contains(s.last())) by {
                assert(s[s.len() - 1] == s.last());
            }
            assert forall|i: int| 0 <= i < out.len() implies s.contains(#[trigger] out[i]) by {
                if i < rest.len() {
                    assert(out[i] == rest[i]);
                } else {
                    assert(out[i] == s.last());
                }
            }
            assert forall|i: int, j: int| 0 <= i < j < out.len() implies out[i].key()
                != out[j].key() by {
                if j < rest.len() {
                    assert(out[i] == rest[i]);
                    assert(out[j] == rest[j]);
                } else {
                    assert(out[j] == s.last());
                    assert(out[i] == rest[i]);
                    let k = choose|k: int| 0 <= k < front.len() && front[k] == rest[i];
                    assert(s[k] == rest[i]);
                    assert(s[k].key() != s[s.len() - 1].key());
                }
            }
        }
    }
}

/// Ownership only looks at user ids: a user table with the same ids row by
/// row supports the same child tables.
proof fn lemma_owners_same_keys<R: StoreRecord>(child: Seq<R>, users1: Seq<User>, users2: Seq<User>)
    requires
        owners_exist(child, users1),
        users2.len() == users1.len(),
        forall|k: int| 0 <= k < users1.len() ==> (#[trigger] users2[k]).key() == users1[k].key(),
    ensures
        owners_exist(child, users2),
{
    assert forall|i: int| 0 <= i < child.len() implies contains_key(
        users2,
        #[trigger] child[i].owner(),
    ) by {
        let k = choose|k: int| 0 <= k < users1.len() && users1[k].key() == child[i].owner();
        assert(users2[k].key() == child[i].owner());
    }
}

/// Rows kept by a deletion keep their owners.
proof fn lemma_owners_remove_key<R: StoreRecord>(child: Seq<R>, users: Seq<User>, id: Seq<char>)
    requires
        unique_keys(child),
        owners_exist(child, users),
    ensures
        owners_exist(remove_key(child, id), users),
{
    lemma_remove_key_props(child, id);
    let out = remove_key(child, id);
    assert forall|i: int| 0 <= i < out.len() implies contains_key(
        users,
        #[trigger] out[i].owner(),
    ) by {
        let j = choose|j: int| 0 <= j < child.len() && child[j] == out[i];
        assert(contains_key(users, child[j].owner()));
    }
}

/// The embedded store. Five tables held in insertion order, the resolved
/// data directory, and whether initialization has run.
pub struct HealthRecordStore {
    pub data_dir: String,
    pub ready: bool,
    pub users: Vec<User>,
    pub food_entries: Vec<FoodEntry>,
    pub glucose_readings: Vec<BloodGlucose>,
    pub medications: Vec<Medication>,
    pub chat_messages: Vec<ChatMessage>,
}

impl HealthRecordStore {
    /// The store's invariant: ids are unique within every table, user emails
    /// are unique, and every non-user record is owned by an existing user.
    /// Users are never deleted, so ownership, once established, persists.
    pub open spec fn wf(self) -> bool {
        &&& unique_keys(self.users@)
        &&& unique_emails(self.users@)
        &&& unique_keys(self.food_entries@)
        &&& owners_exist(self.food_entries@, self.users@)
        &&& unique_keys(self.glucose_readings@)
        &&& owners_exist(self.glucose_readings@, self.users@)
        &&& unique_keys(self.medications@)
        &&& owners_exist(self.medications@, self.users@)
        &&& unique_keys(self.chat_messages@)
        &&& owners_exist(self.chat_messages@, self.users@)
    }

    /// The store after initialization: the same state, marked ready.
    pub open spec fn initialized(self) -> Self {
        HealthRecordStore { ready: true, ..self }
    }

    /// A fresh, empty store. The data directory follows the resolution
    /// order: the host-provided directory wins, else the platform local-data
    /// directory under an application folder, else a relative fallback.
    pub fn new(app_data_dir: Option<String>, platform_data_dir: Option<String>) -> (r: Self)
        ensures
            r.ready == false,
            r.users@ == Seq::<User>::empty(),
            r.food_entries@ == Seq::<FoodEntry>::empty(),
            r.glucose_readings@ == Seq::<BloodGlucose>::empty(),
            r.medications@ == Seq::<Medication>::empty(),
            r.chat_messages@ == Seq::<ChatMessage>::empty(),
            r.wf(),
            app_data_dir matches Some(d) ==> r.data_dir@ == d@,
            app_data_dir is None && platform_data_dir is Some ==> r.data_dir@
                == platform_data_dir->Some_0@ + "/VitaNote"@,
            app_data_dir is None && platform_data_dir is None ==> r.data_dir@ == "./data"@,
    {
        let data_dir = match app_data_dir {
            Some(d) => d,
            None => match platform_data_dir {
                Some(p) => p.concat("/VitaNote"),
                None => "./data".to_owned(),
            },
        };
        HealthRecordStore {
            data_dir,
            ready: false,
            users: Vec::new(),
            food_entries: Vec::new(),
            glucose_readings: Vec::new(),
            medications: Vec::new(),
            chat_messages: Vec::new(),
        }
    }

    /// Where the embedding's backing file lives inside the data directory.
    pub fn database_path(&self) -> (r: String)
        ensures
            r@ == self.data_dir@ + "/vitanote.db"@,
    {
        self.data_dir.clone().concat("/vitanote.db")
    }

    /// Idempotent initialization: brings the schema up, never an error, and
    /// never touches existing rows. Calling it again changes nothing.
    pub fn initialize(&mut self) -> (r: Result<ApiResponse<String>, StoreError>)
        ensures
            *final(self) == old(self).initialized(),
            r matches Ok(resp) && resp.success == true && resp.message is None
                && (resp.data matches Some(m) && m@ == "Database initialized successfully"@),
    {
        self.ready = true;
        Ok(ApiResponse::ok("Database initialized successfully".to_owned()))
    }

    /// Inserts one user. Fails with `ConstraintViolation` exactly when the id
    /// or the email is already taken; echoes the record on success.
    pub fn create_user(&mut self, user: User) -> (r: Result<ApiResponse<User>, StoreError>)
        requires
            old(self).wf(),
        ensures
            final(self).wf(),
            final(self).data_dir == old(self).data_dir,
            final(self).ready == old(self).ready,
            final(self).food_entries == old(self).food_entries,
            final(self).glucose_readings == old(self).glucose_readings,
            final(self).medications == old(self).medications,
            final(self).chat_messages == old(self).chat_messages,
            !old(self).ready ==> final(self).users == old(self).users && (r is Err && r->Err_0 == StoreError::StorageUnavailable),
            old(self).ready && (contains_key(old(self).users@, user.id@) || contains_email(
                old(self).users@,
                user.email@,
            )) ==> final(self).users == old(self).users && (r is Err && r->Err_0 == StoreError::ConstraintViolation),
            old(self).ready && !contains_key(old(self).users@, user.id@) && !contains_email(
                old(self).users@,
                user.email@,
            ) ==> final(self).users@ == old(self).users@.push(user) && (r matches Ok(resp)
                && resp.success == true && resp.data == Some(user) && resp.message is None),
    {
        if !self.ready {
            return Err(StoreError::StorageUnavailable);
        }
        if vec_contains_key(&self.users, user.id.as_str()) {
            return Err(StoreError::ConstraintViolation);
        }
        if contains_user_email(&self.users, user.email.as_str()) {
            return Err(StoreError::ConstraintViolation);
        }
        proof {
            lemma_unique_keys_push(self.users@, user);
            lemma_unique_emails_push(self.users@, user);
            lemma_owners_push_user(self.food_entries@, self.users@, user);
            lemma_owners_push_user(self.glucose_readings@, self.users@, user);
            lemma_owners_push_user(self.medications@, self.users@, user);
            lemma_owners_push_user(self.chat_messages@, self.users@, user);
        }
        let echo = user.clone();
        self.users.push(user);
        Ok(ApiResponse::ok(echo))
    }

    /// Point lookup by email. A missing row is not an error: the envelope
    /// succeeds with an empty payload.
    pub fn get_user_by_email(&self, email: &str) -> (r: Result<
        ApiResponse<Option<User>>,
        StoreError,
    >)
        ensures
            !self.ready ==> (r is Err && r->Err_0 == StoreError::StorageUnavailable),
            self.ready ==> (r matches Ok(resp) && resp.success == true && resp.message is None
                && resp.data == Some(find_by_email(self.users@, email@))),
    {
        if !self.ready {
            return Err(StoreError::StorageUnavailable);
        }
        Ok(ApiResponse::ok(find_user_by_email(&self.users, email)))
    }

    /// Point lookup by id. A missing row is not an error: the envelope
    /// succeeds with an empty payload.
    pub fn get_user_by_id(&self, id: &str) -> (r: Result<ApiResponse<Option<User>>, StoreError>)
        ensures
            !self.ready ==> (r is Err && r->Err_0 == StoreError::StorageUnavailable),
            self.ready ==> (r matches Ok(resp) && resp.success == true && resp.message is None
                && resp.data == Some(find_by_key(self.users@, id@))),
    {
        if !self.ready {
            return Err(StoreError::StorageUnavailable);
        }
        Ok(ApiResponse::ok(vec_find_by_key(&self.users, id)))
    }

    /// Full-record replace of the mutable user fields, keyed by id. Fails
    /// with `ConstraintViolation` exactly when the id exists and another
    /// user already carries the new email; a missing id is a no-op that
    /// still succeeds, whatever email the record carries, since no row is
    /// written.
    pub fn update_user(&mut self, user: User) -> (r: Result<ApiResponse<User>, StoreError>)
        requires
            old(self).wf(),
        ensures
            final(self).wf(),
            final(self).data_dir == old(self).data_dir,
            final(self).ready == old(self).ready,
            final(self).food_entries == old(self).food_entries,
            final(self).glucose_readings == old(self).glucose_readings,
            final(self).medications == old(self).medications,
            final(self).chat_messages == old(self).chat_messages,
            !old(self).ready ==> final(self).users == old(self).users && (r is Err && r->Err_0 == StoreError::StorageUnavailable),
            old(self).ready && contains_key(old(self).users@, user.id@) && email_conflict(
                old(self).users@,
                user,
            ) ==> final(self).users == old(self).users && (r is Err && r->Err_0 == StoreError::ConstraintViolation),
            old(self).ready && !(contains_key(old(self).users@, user.id@) && email_conflict(
                old(self).users@,
                user,
            )) ==> final(self).users@ == apply_user_update(old(self).users@, user) && (r matches Ok(
                resp,
            ) && resp.success == true && resp.data == Some(user) && resp.message is None),
    {
        if !self.ready {
            return Err(StoreError::StorageUnavailable);
        }
        if vec_contains_key(&self.users, user.id.as_str()) && user_email_conflict(
            &self.users,
            &user,
        ) {
            return Err(StoreError::ConstraintViolation);
        }
        let ghost pre = self.users@;
        let mut out: Vec<User> = Vec::new();
        let mut i: usize = 0;
        while i < self.users.len()
            invariant
                i <= pre.len(),
                self.users@ == pre,
                out@.len() == i,
                forall|k: int| 0 <= k < i ==> out@[k] == apply_user_update(pre, user)[k],
            decreases pre.len() - i,
        {
            if str_eq(self.users[i].id.as_str(), user.id.as_str()) {
                out.push(merge_user_update(&self.users[i], &user));
            } else {
                out.push(self.users[i].duplicate());
            }
            i = i + 1;
        }
        proof {
            assert(out@ =~= apply_user_update(pre, user));
        }
        self.users = out;
        proof {
            lemma_user_update_wf(pre, user);
            lemma_owners_same_keys(self.food_entries@, pre, apply_user_update(pre, user));
            lemma_owners_same_keys(self.glucose_readings@, pre, apply_user_update(pre, user));
            lemma_owners_same_keys(self.medications@, pre, apply_user_update(pre, user));
            lemma_owners_same_keys(self.chat_messages@, pre, apply_user_update(pre, user));
        }
        Ok(ApiResponse::ok(user))
    }

    /// Inserts one food entry. Fails with `ConstraintViolation` exactly when
    /// the id is taken or the owning user does not exist; echoes the record
    /// on success.
    pub fn create_food_entry(&mut self, entry: FoodEntry) -> (r: Result<
        ApiResponse<FoodEntry>,
        StoreError,
    >)
        requires
            old(self).wf(),
        ensures
            final(self).wf(),
            final(self).data_dir == old(self).data_dir,
            final(self).ready == old(self).ready,
            final(self).users == old(self).users,
            final(self).glucose_readings == old(self).glucose_readings,
            final(self).medications == old(self).medications,
            final(self).chat_messages == old(self).chat_messages,
            !old(self).ready ==> final(self).food_entries == old(self).food_entries && (r is Err && r->Err_0 == StoreError::StorageUnavailable),
            old(self).ready && (contains_key(old(self).food_entries@, entry.id@) || !contains_key(
                old(self).users@,
                entry.user_id@,
            )) ==> final(self).food_entries == old(self).food_entries && (r is Err && r->Err_0 == StoreError::ConstraintViolation),
            old(self).ready && !contains_key(old(self).food_entries@, entry.id@) && contains_key(
                old(self).users@,
                entry.user_id@,
            ) ==> final(self).food_entries@ == old(self).food_entries@.push(entry) && (r matches Ok(
                resp,
            ) && resp.success == true && resp.data == Some(entry) && resp.message is None),
    {
        if !self.ready {
            return Err(StoreError::StorageUnavailable);
        }
        if vec_contains_key(&self.food_entries, entry.id.as_str()) {
            return Err(StoreError::ConstraintViolation);
        }
        if !vec_contains_key(&self.users, entry.user_id.as_str()) {
            return Err(StoreError::ConstraintViolation);
        }
        proof {
            lemma_unique_keys_push(self.food_entries@, entry);
            lemma_owners_push_child(self.food_entries@, self.users@, entry);
        }
        let echo = entry.clone();
        self.food_entries.push(entry);
        Ok(ApiResponse::ok(echo))
    }

    /// The paginated range query over food entries: rows owned by the user
    /// with `created_at` in `[start_date, end_date)`, newest first, sliced to
    /// the requested page; `total` counts every matching row over the same
    /// filter.
    pub fn list_food_entries(
        &self,
        user_id: &str,
        start_date: &str,
        end_date: &str,
        page: usize,
        page_size: usize,
    ) -> (r: Result<ApiResponse<ApiPagedResult<FoodEntry>>, StoreError>)
        requires
            page >= 1,
            page_size >= 1,
        ensures
            !self.ready ==> (r is Err && r->Err_0 == StoreError::StorageUnavailable),
            self.ready ==> (r matches Ok(resp) && resp.success == true && resp.message is None
                && (resp.data matches Some(pr) && pr.items@ == page_of(
                sort_desc(filter_range(self.food_entries@, user_id@, start_date@, end_date@)),
                page as int,
                page_size as int,
            ) && pr.total == filter_range(
                self.food_entries@,
                user_id@,
                start_date@,
                end_date@,
            ).len() && pr.page == page && pr.page_size == page_size)),
    {
        if !self.ready {
            return Err(StoreError::StorageUnavailable);
        }
        Ok(ApiResponse::ok(paged_query(&self.food_entries, user_id, start_date, end_date, page, page_size)))
    }

    /// Deletes at most one food entry by id; succeeds whether or not a row
    /// matched.
    pub fn delete_food_entry(&mut self, id: &str) -> (r: Result<ApiResponse<String>, StoreError>)
        requires
            old(self).wf(),
        ensures
            final(self).wf(),
            final(self).data_dir == old(self).data_dir,
            final(self).ready == old(self).ready,
            final(self).users == old(self).users,
            final(self).glucose_readings == old(self).glucose_readings,
            final(self).medications == old(self).medications,
            final(self).chat_messages == old(self).chat_messages,
            !old(self).ready ==> final(self).food_entries == old(self).food_entries && (r is Err && r->Err_0 == StoreError::StorageUnavailable),
            old(self).ready ==> final(self).food_entries@ == remove_key(
                old(self).food_entries@,
                id@,
            ) && (r matches Ok(resp) && resp.success == true && resp.message is None && (resp.data
                matches Some(m) && m@ == "Deleted"@)),
    {
        if !self.ready {
            return Err(StoreError::StorageUnavailable);
        }
        proof {
            lemma_remove_key_props(self.food_entries@, id@);
            lemma_owners_remove_key(self.food_entries@, self.users@, id@);
        }
        self.food_entries = vec_remove_key(&self.food_entries, id);
        Ok(ApiResponse::ok("Deleted".to_owned()))
    }

    /// Inserts one blood-glucose reading. Fails with `ConstraintViolation`
    /// exactly when the id is taken or the owning user does not exist;
    /// echoes the record on success.
    pub fn create_blood_glucose(&mut self, entry: BloodGlucose) -> (r: Result<
        ApiResponse<BloodGlucose>,
        StoreError,
    >)
        requires
            old(self).wf(),
        ensures
            final(self).wf(),
            final(self).data_dir == old(self).data_dir,
            final(self).ready == old(self).ready,
            final(self).users == old(self).users,
            final(self).food_entries == old(self).food_entries,
            final(self).medications == old(self).medications,
            final(self).chat_messages == old(self).chat_messages,
            !old(self).ready ==> final(self).glucose_readings == old(self).glucose_readings && (r is Err && r->Err_0 == StoreError::StorageUnavailable),
            old(self).ready && (contains_key(old(self).glucose_readings@, entry.id@)
                || !contains_key(old(self).users@, entry.user_id@)) ==> final(self).glucose_readings
                == old(self).glucose_readings && (r is Err && r->Err_0 == StoreError::ConstraintViolation),
            old(self).ready && !contains_key(old(self).glucose_readings@, entry.id@)
                && contains_key(old(self).users@, entry.user_id@) ==> final(self).glucose_readings@
                == old(self).glucose_readings@.push(entry) && (r matches Ok(resp) && resp.success
                == true && resp.data == Some(entry) && resp.message is None),
    {
        if !self.ready {
            return Err(StoreError::StorageUnavailable);
        }
        if vec_contains_key(&self.glucose_readings, entry.id.as_str()) {
            return Err(StoreError::ConstraintViolation);
        }
        if !vec_contains_key(&self.users, entry.user_id.as_str()) {
            return Err(StoreError::ConstraintViolation);
        }
        proof {
            lemma_unique_keys_push(self.glucose_readings@, entry);
            lemma_owners_push_child(self.glucose_readings@, self.users@, entry);
        }
        let echo = entry.clone();
        self.glucose_readings.push(entry);
        Ok(ApiResponse::ok(echo))
    }

    /// The paginated range query over blood-glucose readings, as for food
    /// entries.
    pub fn list_blood_glucose(
        &self,
        user_id: &str,
        start_date: &str,
        end_date: &str,
        page: usize,
        page_size: usize,
    ) -> (r: Result<ApiResponse<ApiPagedResult<BloodGlucose>>, StoreError>)
        requires
            page >= 1,
            page_size >= 1,
        ensures
            !self.ready ==> (r is Err && r->Err_0 == StoreError::StorageUnavailable),
            self.ready ==> (r matches Ok(resp) && resp.success == true && resp.message is None
                && (resp.data matches Some(pr) && pr.items@ == page_of(
                sort_desc(filter_range(self.glucose_readings@, user_id@, start_date@, end_date@)),
                page as int,
                page_size as int,
            ) && pr.total == filter_range(
                self.glucose_readings@,
                user_id@,
                start_date@,
                end_date@,
            ).len() && pr.page == page && pr.page_size == page_size)),
    {
        if !self.ready {
            return Err(StoreError::StorageUnavailable);
        }
        Ok(ApiResponse::ok(paged_query(&self.glucose_readings, user_id, start_date, end_date, page, page_size)))
    }

    /// Deletes at most one blood-glucose reading by id; succeeds whether or
    /// not a row matched.
    pub fn delete_blood_glucose(&mut self, id: &str) -> (r: Result<ApiResponse<String>, StoreError>)
        requires
            old(self).wf(),
        ensures
            final(self).wf(),
            final(self).data_dir == old(self).data_dir,
            final(self).ready == old(self).ready,
            final(self).users == old(self).users,
            final(self).food_entries == old(self).food_entries,
            final(self).medications == old(self).medications,
            final(self).chat_messages == old(self).chat_messages,
            !old(self).ready ==> final(self).glucose_readings == old(self).glucose_readings && (r is Err && r->Err_0 == StoreError::StorageUnavailable),
            old(self).ready ==> final(self).glucose_readings@ == remove_key(
                old(self).glucose_readings@,
                id@,
            ) && (r matches Ok(resp) && resp.success == true && resp.message is None && (resp.data
                matches Some(m) && m@ == "Deleted"@)),
    {
        if !self.ready {
            return Err(StoreError::StorageUnavailable);
        }
        proof {
            lemma_remove_key_props(self.glucose_readings@, id@);
            lemma_owners_remove_key(self.glucose_readings@, self.users@, id@);
        }
        self.glucose_readings = vec_remove_key(&self.glucose_readings, id);
        Ok(ApiResponse::ok("Deleted".to_owned()))
    }

    /// Inserts one medication. Fails with `ConstraintViolation` exactly when
    /// the id is taken or the owning user does not exist; echoes the record
    /// on success.
    pub fn create_medication(&mut self, entry: Medication) -> (r: Result<
        ApiResponse<Medication>,
        StoreError,
    >)
        requires
            old(self).wf(),
        ensures
            final(self).wf(),
            final(self).data_dir == old(self).data_dir,
            final(self).ready == old(self).ready,
            final(self).users == old(self).users,
            final(self).food_entries == old(self).food_entries,
            final(self).glucose_readings == old(self).glucose_readings,
            final(self).chat_messages == old(self).chat_messages,
            !old(self).ready ==> final(self).medications == old(self).medications && (r is Err && r->Err_0 == StoreError::StorageUnavailable),
            old(self).ready && (contains_key(old(self).medications@, entry.id@) || !contains_key(
                old(self).users@,
                entry.user_id@,
            )) ==> final(self).medications == old(self).medications && (r is Err && r->Err_0 == StoreError::ConstraintViolation),
            old(self).ready && !contains_key(old(self).medications@, entry.id@) && contains_key(
                old(self).users@,
                entry.user_id@,
            ) ==> final(self).medications@ == old(self).medications@.push(entry) && (r matches Ok(
                resp,
            ) && resp.success == true && resp.data == Some(entry) && resp.message is None),
    {
        if !self.ready {
            return Err(StoreError::StorageUnavailable);
        }
        if vec_contains_key(&self.medications, entry.id.as_str()) {
            return Err(StoreError::ConstraintViolation);
        }
        if !vec_contains_key(&self.users, entry.user_id.as_str()) {
            return Err(StoreError::ConstraintViolation);
        }
        proof {
            lemma_unique_keys_push(self.medications@, entry);
            lemma_owners_push_child(self.medications@, self.users@, entry);
        }
        let echo = entry.clone();
        self.medications.push(entry);
        Ok(ApiResponse::ok(echo))
    }

    /// The paginated range query over medications, as for food entries.
    pub fn list_medications(
        &self,
        user_id: &str,
        start_date: &str,
        end_date: &str,
        page: usize,
        page_size: usize,
    ) -> (r: Result<ApiResponse<ApiPagedResult<Medication>>, StoreError>)
        requires
            page >= 1,
            page_size >= 1,
        ensures
            !self.ready ==> (r is Err && r->Err_0 == StoreError::StorageUnavailable),
            self.ready ==> (r matches Ok(resp) && resp.success == true && resp.message is None
                && (resp.data matches Some(pr) && pr.items@ == page_of(
                sort_desc(filter_range(self.medications@, user_id@, start_date@, end_date@)),
                page as int,
                page_size as int,
            ) && pr.total == filter_range(
                self.medications@,
                user_id@,
                start_date@,
                end_date@,
            ).len() && pr.page == page && pr.page_size == page_size)),
    {
        if !self.ready {
            return Err(StoreError::StorageUnavailable);
        }
        Ok(ApiResponse::ok(paged_query(&self.medications, user_id, start_date, end_date, page, page_size)))
    }

    /// The one partial update besides the full user replace: sets the taken
    /// flag and records the administration time on the matching medication.
    /// A missing id is a no-op that still succeeds.
    pub fn mark_medication_taken(&mut self, id: &str, actual_time: &str) -> (r: Result<
        ApiResponse<String>,
        StoreError,
    >)
        requires
            old(self).wf(),
        ensures
            final(self).wf(),
            final(self).data_dir == old(self).data_dir,
            final(self).ready == old(self).ready,
            final(self).users == old(self).users,
            final(self).food_entries == old(self).food_entries,
            final(self).glucose_readings == old(self).glucose_readings,
            final(self).chat_messages == old(self).chat_messages,
            !old(self).ready ==> final(self).medications == old(self).medications && (r is Err && r->Err_0 == StoreError::StorageUnavailable),
            old(self).ready ==> final(self).medications@.len() == old(self).medications@.len() && (
            forall|i: int|
                0 <= i < old(self).medications@.len() && old(self).medications@[i].id@ == id@
                    ==> marked_taken(
                    old(self).medications@[i],
                    #[trigger] final(self).medications@[i],
                    actual_time@,
                )) && (forall|i: int|
                0 <= i < old(self).medications@.len() && old(self).medications@[i].id@ != id@
                    ==> #[trigger] final(self).medications@[i] == old(self).medications@[i]) && (r
                matches Ok(resp) && resp.success == true && resp.message is None && (resp.data
                matches Some(m) && m@ == "Marked as taken"@)),
    {
        if !self.ready {
            return Err(StoreError::StorageUnavailable);
        }
        let ghost pre = self.medications@;
        let mut out: Vec<Medication> = Vec::new();
        let mut i: usize = 0;
        while i < self.medications.len()
            invariant
                i <= pre.len(),
                self.medications@ == pre,
                out@.len() == i,
                forall|k: int|
                    0 <= k < i && pre[k].id@ == id@ ==> marked_taken(
                        pre[k],
                        #[trigger] out@[k],
                        actual_time@,
                    ),
                forall|k: int| 0 <= k < i && pre[k].id@ != id@ ==> #[trigger] out@[k] == pre[k],
            decreases pre.len() - i,
        {
            if str_eq(self.medications[i].id.as_str(), id) {
                out.push(mark_taken_row(&self.medications[i], actual_time));
            } else {
                out.push(self.medications[i].duplicate());
            }
            i = i + 1;
        }
        proof {
            lemma_mark_taken_wf(pre, out@, self.users@, id@, actual_time@);
        }
        self.medications = out;
        Ok(ApiResponse::ok("Marked as taken".to_owned()))
    }

    /// Deletes at most one medication by id; succeeds whether or not a row
    /// matched.
    pub fn delete_medication(&mut self, id: &str) -> (r: Result<ApiResponse<String>, StoreError>)
        requires
            old(self).wf(),
        ensures
            final(self).wf(),
            final(self).data_dir == old(self).data_dir,
            final(self).ready == old(self).ready,
            final(self).users == old(self).users,
            final(self).food_entries == old(self).food_entries,
            final(self).glucose_readings == old(self).glucose_readings,
            final(self).chat_messages == old(self).chat_messages,
            !old(self).ready ==> final(self).medications == old(self).medications && (r is Err && r->Err_0 == StoreError::StorageUnavailable),
            old(self).ready ==> final(self).medications@ == remove_key(old(self).medications@, id@)
                && (r matches Ok(resp) && resp.success == true && resp.message is None && (resp.data
                matches Some(m) && m@ == "Deleted"@)),
    {
        if !self.ready {
            return Err(StoreError::StorageUnavailable);
        }
        proof {
            lemma_remove_key_props(self.medications@, id@);
            lemma_owners_remove_key(self.medications@, self.users@, id@);
        }
        self.medications = vec_remove_key(&self.medications, id);
        Ok(ApiResponse::ok("Deleted".to_owned()))
    }

    /// Appends one message to the chat log. Fails with `ConstraintViolation`
    /// exactly when the id is taken or the owning user does not exist;
    /// echoes the message on success.
    pub fn create_chat_message(&mut self, message: ChatMessage) -> (r: Result<
        ApiResponse<ChatMessage>,
        StoreError,
    >)
        requires
            old(self).wf(),
        ensures
            final(self).wf(),
            final(self).data_dir == old(self).data_dir,
            final(self).ready == old(self).ready,
            final(self).users == old(self).users,
            final(self).food_entries == old(self).food_entries,
            final(self).glucose_readings == old(self).glucose_readings,
            final(self).medications == old(self).medications,
            !old(self).ready ==> final(self).chat_messages == old(self).chat_messages && (r is Err && r->Err_0 == StoreError::StorageUnavailable),
            old(self).ready && (contains_key(old(self).chat_messages@, message.id@)
                || !contains_key(old(self).users@, message.user_id@)) ==> final(self).chat_messages
                == old(self).chat_messages && (r is Err && r->Err_0 == StoreError::ConstraintViolation),
            old(self).ready && !contains_key(old(self).chat_messages@, message.id@) && contains_key(
                old(self).users@,
                message.user_id@,
            ) ==> final(self).chat_messages@ == old(self).chat_messages@.push(message) && (r
                matches Ok(resp) && resp.success == true && resp.data == Some(message)
                && resp.message is None),
    {
        if !self.ready {
            return Err(StoreError::StorageUnavailable);
        }
        if vec_contains_key(&self.chat_messages, message.id.as_str()) {
            return Err(StoreError::ConstraintViolation);
        }
        if !vec_contains_key(&self.users, message.user_id.as_str()) {
            return Err(StoreError::ConstraintViolation);
        }
        proof {
            lemma_unique_keys_push(self.chat_messages@, message);
            lemma_owners_push_child(self.chat_messages@, self.users@, message);
        }
        let echo = message.clone();
        self.chat_messages.push(message);
        Ok(ApiResponse::ok(echo))
    }

    /// The most recent `limit` chat messages of the user, newest first;
    /// a caller wanting chronological order reverses client-side.
    pub fn get_chat_history(&self, user_id: &str, limit: usize) -> (r: Result<
        ApiResponse<Vec<ChatMessage>>,
        StoreError,
    >)
        ensures
            !self.ready ==> (r is Err && r->Err_0 == StoreError::StorageUnavailable),
            self.ready ==> (r matches Ok(resp) && resp.success == true && resp.message is None
                && (resp.data matches Some(v) && v@ == prefix_of(
                sort_desc(filter_owner(self.chat_messages@, user_id@)),
                limit as int,
            ))),
    {
        if !self.ready {
            return Err(StoreError::StorageUnavailable);
        }
        Ok(ApiResponse::ok(recent_by_owner(&self.chat_messages, user_id, limit)))
    }
}

/// Whether some user of `v` carries the email.
fn contains_user_email(v: &Vec<User>, email: &str) -> (r: bool)
    ensures
        r == contains_email(v@, email@),
{
    let mut i: usize = 0;
    while i < v.len()
        invariant
            i <= v@.len(),
            forall|j: int| 0 <= j < i ==> #[trigger] v@[j].email@ != email@,
        decreases v@.len() - i,
    {
        if str_eq(v[i].email.as_str(), email) {
            return true;
        }
        i = i + 1;
    }
    false
}

/// A copy of the first user of `v` carrying the email, if any.
fn find_user_by_email(v: &Vec<User>, email: &str) -> (r: Option<User>)
    ensures
        r == find_by_email(v@, email@),
{
    let mut i: usize = 0;
    proof {
        assert(v@.skip(0) =~= v@);
    }
    while i < v.len()
        invariant
            i <= v@.len(),
            find_by_email(v@, email@) == find_by_email(v@.skip(i as int), email@),
        decreases v@.len() - i,
    {
        proof {
            assert(v@.skip(i as int)[0] == v@[i as int]);
        }
        if str_eq(v[i].email.as_str(), email) {
            return Some(v[i].duplicate());
        }
        proof {
            assert(v@.skip(i as int).skip(1) =~= v@.skip(i + 1));
        }
        i = i + 1;
    }
    proof {
        assert(v@.skip(v@.len() as int).len() == 0);
    }
    None
}

/// Whether updating to `u` would collide with another user's email.
fn user_email_conflict(v: &Vec<User>, u: &User) -> (r: bool)
    ensures
        r == email_conflict(v@, *u),
{
    let mut i: usize = 0;
    while i < v.len()
        invariant
            i <= v@.len(),
            forall|j: int|
                0 <= j < i ==> !(#[trigger] v@[j].id@ != u.id@ && v@[j].email@ == u.email@),
        decreases v@.len() - i,
    {
        if !str_eq(v[i].id.as_str(), u.id.as_str()) && str_eq(v[i].email.as_str(), u.email.as_str()) {
            return true;
        }
        i = i + 1;
    }
    false
}

/// One merged row of a full-record user update.
fn merge_user_update(stored: &User, update: &User) -> (r: User)
    ensures
        r == merged_user(*stored, *update),
{
    User {
        id: stored.id.clone(),
        username: update.username.clone(),
        email: update.email.clone(),
        phone: clone_opt_string(&update.phone),
        password_hash: stored.password_hash.clone(),
        created_at: stored.created_at.clone(),
        birthday: clone_opt_string(&update.birthday),
        gender: update.gender,
        height: update.height,
        diabetes_type: update.diabetes_type,
        diagnosis_date: clone_opt_string(&update.diagnosis_date),
        treatment_plan: update.treatment_plan,
        target_weight: update.target_weight,
        target_hb_a1c: update.target_hb_a1c,
        target_calories: update.target_calories,
        target_carbohydrates: update.target_carbohydrates,
    }
}

/// One medication row after the mark-taken transition.
fn mark_taken_row(m: &Medication, actual_time: &str) -> (r: Medication)
    ensures
        marked_taken(*m, r, actual_time@),
{
    Medication {
        id: m.id.clone(),
        user_id: m.user_id.clone(),
        created_at: m.created_at.clone(),
        drug_name: m.drug_name.clone(),
        medication_type: m.medication_type,
        dose: m.dose,
        unit: m.unit.clone(),
        timing: m.timing,
        insulin_type: m.insulin_type,
        insulin_duration: m.insulin_duration,
        scheduled_time: m.scheduled_time.clone(),
        actual_time: Some(actual_time.to_owned()),
        is_taken: true,
        notes: clone_opt_string(&m.notes),
    }
}

/// A full-record update keeps the store invariant: ids are untouched, and
/// when the target id exists without an email conflict the merged email
/// stays unique (with no target row the table is unchanged).
proof fn lemma_user_update_wf(s: Seq<User>, u: User)
    requires
        unique_keys(s),
        unique_emails(s),
        contains_key(s, u.id@) ==> !email_conflict(s, u),
    ensures
        unique_keys(apply_user_update(s, u)),
        unique_emails(apply_user_update(s, u)),
        forall|k: int|
            0 <= k < s.len() ==> (#[trigger] apply_user_update(s, u)[k]).key() == s[k].key(),
{
    let t = apply_user_update(s, u);
    assert forall|k: int| 0 <= k < s.len() implies (#[trigger] t[k]).key() == s[k].key() by {}
    assert forall|i: int, j: int| 0 <= i < j < t.len() implies t[i].key() != t[j].key() by {
        assert(t[i].key() == s[i].key());
        assert(t[j].key() == s[j].key());
    }
    assert forall|i: int, j: int| 0 <= i < j < t.len() implies t[i].email@ != t[j].email@ by {
        if s[i].id@ == u.id@ {
            assert(contains_key(s, u.id@)) by {
                assert(s[i].key() == u.id@);
            }
            assert(t[i].email@ == u.email@);
            assert(s[j].id@ != u.id@);
            assert(t[j].email@ == s[j].email@);
            assert(!(s[j].id@ != u.id@ && s[j].email@ == u.email@));
        } else if s[j].id@ == u.id@ {
            assert(contains_key(s, u.id@)) by {
                assert(s[j].key() == u.id@);
            }
            assert(t[j].email@ == u.email@);
            assert(t[i].email@ == s[i].email@);
            assert(!(s[i].id@ != u.id@ && s[i].email@ == u.email@));
        } else {
            assert(t[i].email@ == s[i].email@);
            assert(t[j].email@ == s[j].email@);
        }
    }
}

/// The mark-taken rebuild keeps the store invariant: ids and owners are
/// untouched row by row.
proof fn lemma_mark_taken_wf(
    pre: Seq<Medication>,
    post: Seq<Medication>,
    users: Seq<User>,
    id: Seq<char>,
    t: Seq<char>,
)
    requires
        unique_keys(pre),
        owners_exist(pre, users),
        post.len() == pre.len(),
        forall|k: int|
            0 <= k < pre.len() && pre[k].id@ == id ==> marked_taken(pre[k], #[trigger] post[k], t),
        forall|k: int| 0 <= k < pre.len() && pre[k].id@ != id ==> #[trigger] post[k] == pre[k],
    ensures
        unique_keys(post),
        owners_exist(post, users),
{
    assert forall|k: int| 0 <= k < pre.len() implies (#[trigger] post[k]).id@ == pre[k].id@
        && post[k].user_id@ == pre[k].user_id@ by {
        if pre[k].id@ == id {
            assert(marked_taken(pre[k], post[k], t));
        }
    }
    assert forall|i: int, j: int| 0 <= i < j < post.len() implies post[i].key()
        != post[j].key() by {
        assert(post[i].id@ == pre[i].id@);
        assert(post[j].id@ == pre[j].id@);
    }
    assert forall|i: int| 0 <= i < post.len() implies contains_key(
        users,
        #[trigger] post[i].owner(),
    ) by {
        assert(post[i].user_id@ == pre[i].user_id@);
        assert(contains_key(users, pre[i].owner()));
    }
}

} // verus!
