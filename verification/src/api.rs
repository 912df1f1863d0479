use vstd::prelude::*;

use crate::auth::TokenAuthority;
use crate::store::TaskStore;
use crate::task::{record_ok, is_uuid_text, APITask, Task, TaskRecV};

verus! {

/// Every way a request can fail: a bad, malformed or expired token; an
/// internal failure with its message; an unknown task id; or a wrong answer,
/// carrying the true expected value.
#[derive(Debug)]
pub enum ApiError {
    AuthError,
    APIError(String),
    NoSuchTask,
    IncorrectResult(i8),
}

/// The end-to-end protocol authority: issues new challenge tasks and
/// validates submitted results. Owns the signing key (immutable) and the
/// record store (the only mutable state).
pub struct API {
    auth: TokenAuthority,
    tasks: TaskStore,
}

impl View for API {
    type V = Map<Seq<char>, TaskRecV>;

    closed spec fn view(&self) -> Map<Seq<char>, TaskRecV> {
        self.tasks@
    }
}

impl API {
    /// Every stored record keeps `record_ok`: operands non-empty, expected
    /// result equal to the operation applied to them.
    pub open spec fn inv(&self) -> bool {
        forall|k: Seq<char>| #[trigger] self@.contains_key(k) ==> record_ok(self@[k])
    }

    /// What validation answers once the token check's outcome is known:
    /// failed authentication is rejected first, then an unknown id, then a
    /// wrong result; only the right result for a known id passes.
    pub open spec fn decision(
        m: Map<Seq<char>, TaskRecV>,
        auth_ok: bool,
        id: Seq<char>,
        result: i8,
    ) -> Result<(), ApiError> {
        if !auth_ok {
            Err(ApiError::AuthError)
        } else if !m.contains_key(id) {
            Err(ApiError::NoSuchTask)
        } else if m[id].expected == result {
            Ok(())
        } else {
            Err(ApiError::IncorrectResult(m[id].expected))
        }
    }

    /// A fresh authority: a new signing key and an empty store.
    pub fn new() -> (a: API)
        ensures
            a@ == Map::<Seq<char>, TaskRecV>::empty(),
            a.inv(),
    {
        API { auth: TokenAuthority::new(), tasks: TaskStore::new() }
    }

    /// Issue a new challenge: mint a token, generate a task and its expected
    /// result, store the record under the task's id, and hand the client the
    /// task alone — never the expected result.
    pub fn new_task(&mut self) -> (r: Result<APITask, ApiError>)
        requires
            old(self).inv(),
        ensures
            final(self).inv(),
            (r matches Ok(t) ==> {
                &&& t.args@.len() > 0
                &&& is_uuid_text(t.task_id@)
                &&& final(self)@ == old(self)@.insert(
                    t.task_id@,
                    TaskRecV { task: t@, expected: t@.op.spec_apply(t@.args) },
                )
            }),
            (r matches Err(e) ==> e matches ApiError::APIError(_) && final(self)@ == old(self)@),
    {
        let rec = match Task::new(&self.auth) {
            Ok(rec) => rec,
            Err(e) => {
                return Err(e);
            },
        };
        let api_task = rec.task.clone();
        self.tasks.insert(rec);
        proof {
            assert forall|k: Seq<char>| #[trigger] self@.contains_key(k) implies record_ok(
                self@[k],
            ) by {
                if k != api_task.task_id@ {
                    assert(old(self)@.contains_key(k));
                }
            }
        }
        Ok(api_task)
    }

    /// The validation decision for a known token-check outcome; exact for
    /// every value of `auth_ok`, so each rule below is checked against it.
    pub fn check_submission(&self, auth_ok: bool, task_id: &str, result: i8) -> (r: Result<
        (),
        ApiError,
    >)
        ensures
            r == API::decision(self@, auth_ok, task_id@, result),
    {
        if !auth_ok {
            return Err(ApiError::AuthError);
        }
        let id = task_id.to_owned();
        match self.tasks.get(&id) {
            None => Err(ApiError::NoSuchTask),
            Some(rec) => {
                if rec.expected == result {
                    Ok(())
                } else {
                    Err(ApiError::IncorrectResult(rec.expected))
                }
            },
        }
    }

    /// Validate a submitted result: verify the token, look the task id up,
    /// compare the answer. The token is checked on its own — any currently
    /// valid token authorises validation of any known task id.
    pub fn validate_result(&self, task_id: &str, token: &str, result: i8) -> (r: Result<
        (),
        ApiError,
    >)
        ensures
            r == Err::<(), ApiError>(ApiError::AuthError) || r == API::decision(
                self@,
                true,
                task_id@,
                result,
            ),
    {
        let ok = self.auth.verify(token);
        self.check_submission(ok, task_id, result)
    }
}

/// Round trip: however the store looked before, once a record whose expected
/// value was computed from its own operation and operands is inserted, a
/// validation that passes the token check and submits that value succeeds —
/// and, the decision being a pure function of the store, succeeds again on
/// every repetition.
pub proof fn lemma_round_trip(m: Map<Seq<char>, TaskRecV>, rec: TaskRecV)
    requires
        record_ok(rec),
    ensures
        API::decision(
            m.insert(rec.task.task_id, rec),
            true,
            rec.task.task_id,
            rec.task.op.spec_apply(rec.task.args),
        ) == Ok::<(), ApiError>(()),
{
}

/// A failed token check is rejected as `AuthError`, whatever the task id and
/// submitted result — tampering, malformation and expiry all land here.
pub proof fn lemma_rejected_token(m: Map<Seq<char>, TaskRecV>, id: Seq<char>, result: i8)
    ensures
        API::decision(m, false, id, result) == Err::<(), ApiError>(ApiError::AuthError),
{
}

/// Once the token check has passed, an unknown task id yields `NoSuchTask`,
/// whatever the submitted result.
pub proof fn lemma_unknown_task(m: Map<Seq<char>, TaskRecV>, id: Seq<char>, result: i8)
    requires
        !m.contains_key(id),
    ensures
        API::decision(m, true, id, result) == Err::<(), ApiError>(ApiError::NoSuchTask),
{
}

/// A wrong result for a known task yields `IncorrectResult` carrying the
/// stored expected value; the record is untouched, so the same task still
/// validates with the right answer afterwards.
pub proof fn lemma_wrong_result(m: Map<Seq<char>, TaskRecV>, id: Seq<char>, result: i8)
    requires
        m.contains_key(id),
        m[id].expected != result,
    ensures
        API::decision(m, true, id, result) == Err::<(), ApiError>(
            ApiError::IncorrectResult(m[id].expected),
        ),
        API::decision(m, true, id, m[id].expected) == Ok::<(), ApiError>(()),
{
}

/// Issuances with distinct ids never lose one another's records: after both
/// inserts, each id still maps to its own record.
pub proof fn lemma_distinct_issuances(m: Map<Seq<char>, TaskRecV>, r1: TaskRecV, r2: TaskRecV)
    requires
        r1.task.task_id != r2.task.task_id,
    ensures
        ({
            let m2 = m.insert(r1.task.task_id, r1).insert(r2.task.task_id, r2);
            m2[r1.task.task_id] == r1 && m2[r2.task.task_id] == r2
        }),
{
}

} // verus!
