use vstd::prelude::*;

use crate::api::ApiError;
use crate::auth::TokenAuthority;
use crate::ops::TaskOp;

verus! {

pub assume_specification<T>[ rand::random::<T> ]() -> (r: T)
    where
        rand::distributions::Standard: rand::distributions::Distribution<T>,
;

/// A lowercase hexadecimal digit.
pub open spec fn is_hex_digit(c: char) -> bool {
    ('0' <= c && c <= '9') || ('a' <= c && c <= 'f')
}

/// Character `i` of a canonical textual unique id: hyphens at the four fixed
/// positions, lowercase hexadecimal digits everywhere else.
pub open spec fn uuid_char_ok(s: Seq<char>, i: int) -> bool {
    if i == 8 || i == 13 || i == 18 || i == 23 {
        s[i] == '-'
    } else {
        is_hex_digit(s[i])
    }
}

/// The canonical hyphenated textual form of a 128-bit unique id.
pub open spec fn is_uuid_text(s: Seq<char>) -> bool {
    s.len() == 36 && forall|i: int| 0 <= i < 36 ==> #[trigger] uuid_char_ok(s, i)
}

/// Relies on uuid's Builder::from_random_bytes, Builder::into_uuid and
/// Uuid's Display impl: the sixteen bytes, with the version and variant bits
/// forced, formatted as the hyphenated lowercase hexadecimal string of 36
/// characters.
#[verifier::external_body]
fn uuid_string(bytes: [u8; 16]) -> (s: String)
    ensures
        is_uuid_text(s@),
{
    uuid::Builder::from_random_bytes(bytes).into_uuid().to_string()
}

/// Choose an operation uniformly at random.
pub fn random_op() -> (op: TaskOp)
    ensures
        op == TaskOp::Max || op == TaskOp::Min,
{
    if rand::random::<bool>() {
        TaskOp::Max
    } else {
        TaskOp::Min
    }
}

/// The client-facing view of a challenge task: the id and token it must echo
/// back, and the operation and operands it must reduce. Never carries the
/// expected result.
pub struct APITask {
    pub task_id: String,
    pub token: String,
    pub op: TaskOp,
    pub args: Vec<i8>,
}

/// Mathematical value of an `APITask`.
pub struct APITaskV {
    pub task_id: Seq<char>,
    pub token: Seq<char>,
    pub op: TaskOp,
    pub args: Seq<i8>,
}

impl View for APITask {
    type V = APITaskV;

    open spec fn view(&self) -> APITaskV {
        APITaskV {
            task_id: self.task_id@,
            token: self.token@,
            op: self.op,
            args: self.args@,
        }
    }
}

fn clone_args(v: &Vec<i8>) -> (r: Vec<i8>)
    ensures
        r@ == v@,
{
    let mut r: Vec<i8> = Vec::new();
    let mut i: usize = 0;
    while i < v.len()
        invariant
            i <= v@.len(),
            r@ == v@.take(i as int),
        decreases v@.len() - i,
    {
        r.push(v[i]);
        proof {
            assert(v@.take(i + 1).drop_last() =~= v@.take(i as int));
        }
        i = i + 1;
    }
    proof {
        assert(v@.take(v@.len() as int) =~= v@);
    }
    r
}

impl Clone for APITask {
    fn clone(&self) -> (r: Self)
        ensures
            r@ == self@,
    {
        APITask {
            task_id: self.task_id.clone(),
            token: self.token.clone(),
            op: self.op,
            args: clone_args(&self.args),
        }
    }
}

impl APITask {
    /// Generate a fresh task: mint a token, draw a nonzero operand count,
    /// fill the operands with random values, and give the task a fresh
    /// random id.
    pub fn new(auth: &TokenAuthority) -> (r: Result<APITask, ApiError>)
        ensures
            (r matches Ok(t) ==> 0 < t.args@.len() <= 255 && is_uuid_text(t.task_id@)),
            (r matches Err(e) ==> e matches ApiError::APIError(_)),
    {
        let token = match auth.issue() {
            Ok(t) => t,
            Err(s) => {
                return Err(ApiError::APIError(s));
            },
        };

        // Retry until a nonzero count is drawn, so the operand list is never
        // empty. The prover insists on a termination bound, so the retries
        // are capped; reaching the cap means drawing zero 100 times in a row,
        // and the draw then falls back to the smallest valid count.
        let mut num_args: u8 = rand::random::<u8>();
        let mut fuel: u8 = 100;
        while num_args == 0 && fuel > 0
            decreases fuel,
        {
            num_args = rand::random::<u8>();
            fuel = fuel - 1;
        }
        if num_args == 0 {
            num_args = 1;
        }

        let mut args: Vec<i8> = Vec::new();
        let mut i: u8 = 0;
        while i < num_args
            invariant
                i <= num_args,
                args@.len() == i as int,
            decreases num_args - i,
        {
            args.push(rand::random::<i8>());
            i = i + 1;
        }

        Ok(APITask {
            task_id: uuid_string(rand::random::<[u8; 16]>()),
            token,
            op: random_op(),
            args,
        })
    }
}

/// The server-side challenge record: the issued task together with the
/// expected result, computed once at creation and never recomputed.
pub struct Task {
    pub task: APITask,
    pub expected: i8,
}

/// Mathematical value of a challenge record.
pub struct TaskRecV {
    pub task: APITaskV,
    pub expected: i8,
}

impl View for Task {
    type V = TaskRecV;

    open spec fn view(&self) -> TaskRecV {
        TaskRecV { task: self.task@, expected: self.expected }
    }
}

/// The one invariant every stored record keeps: a non-empty operand list,
/// and an expected result that is exactly the operation applied to it.
pub open spec fn record_ok(rec: TaskRecV) -> bool {
    rec.task.args.len() > 0 && rec.expected == rec.task.op.spec_apply(rec.task.args)
}

impl Task {
    /// Generate a fresh record: a new task plus its computed expected result.
    pub fn new(auth: &TokenAuthority) -> (r: Result<Task, ApiError>)
        ensures
            (r matches Ok(rec) ==> record_ok(rec@) && is_uuid_text(rec.task.task_id@)),
            (r matches Err(e) ==> e matches ApiError::APIError(_)),
    {
        let api_task = match APITask::new(auth) {
            Ok(t) => t,
            Err(e) => {
                return Err(e);
            },
        };
        let expected: i8 = api_task.op.apply(&api_task.args);
        Ok(Task { task: api_task, expected })
    }
}

} // verus!
