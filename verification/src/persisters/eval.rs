//! Recording an eval with its blob, exactly once, and reading evals back.
//!
//! An upload records two rows in one transaction: the blob, named by its
//! owner and content hash, and the eval, named by its owner and the three
//! hashes of the call. Each row is written by a statement that inserts it
//! unless a row of that name is there and gives the identifier of the row
//! that is there afterwards, so that the same upload, sent twice or by two
//! requests at once, resolves to the same rows.

use vstd::prelude::*;

use crate::handlers::eval::Params;
use crate::middlewares::auth::Auth;
use crate::models::eval::{Eval, EvalError, Timestamp};
use crate::persisters::blob::{api_key, api_key_of};
use crate::persisters::s3store::BlobMetadata;
use crate::text::same_text;

verus! {

/// The metadata of a transfer that stores an eval and the blob of its
/// result.
#[derive(Debug)]
pub struct EvalInsert {
    pub fn_key: String,
    pub fn_hash: String,
    pub args: Option<serde_json::Value>,
    pub args_hash: String,
    pub result_json: serde_json::Value,
    pub content_hash: String,
    pub content_length: i64,
    pub is_experiment: bool,
    pub start_time: Timestamp,
    pub elapsed_process_time: i64,
}

impl BlobMetadata for EvalInsert {
    open spec fn hash_text(&self) -> Seq<char> {
        self.content_hash@
    }

    open spec fn length(&self) -> i64 {
        self.content_length
    }

    fn content_length(&self) -> (n: i64) {
        self.content_length
    }

    fn content_hash(&self) -> (h: &str) {
        self.content_hash.as_str()
    }
}

/// The statement that records an eval for the owner of an API key unless an
/// eval of the same name is recorded already, and gives the identifier of the
/// row that is there afterwards.
pub const INSERT_EVAL: &'static str = "WITH s AS (
    SELECT id
    FROM evals
    WHERE user_id = user_from_key($10)
    AND fn_key = $1
    AND fn_hash = $2
    AND args_hash = $4
), i AS (
    INSERT INTO evals (fn_key, fn_hash, args, args_hash, result_json, is_experiment, start_time,
        elapsed_process_time, blob_id, user_id)
    VALUES ($1, $2, $3, $4, $5, $6, $7, $8, $9, user_from_key($10))
    ON CONFLICT DO NOTHING
    RETURNING id
)
SELECT id
FROM i UNION ALL
SELECT id
FROM s";

/// The statement that counts an access to the evals that a query finds.
pub const UPDATE_ACCESSES: &'static str = "UPDATE evals e
SET accesses = accesses + 1
WHERE (fn_key = $1 OR $1 IS NULL)
    AND (fn_hash = $2 OR $2 IS NULL)
    AND (args_hash = $3 OR $3 IS NULL)
    AND (is_experiment = $4 OR $4 IS NULL)
    AND e.user_id = get_user_id($5, $6)";

/// The statement that reads the evals that a query finds.
pub const SELECT_EVALS: &'static str = "SELECT fn_key, fn_hash, args, args_hash, result_json, content_hash, is_experiment, start_time,
    elapsed_process_time, accesses
FROM evals e
JOIN blobs b
    ON b.id = e.blob_id
WHERE   (fn_key = $1 OR $1 IS NULL)
    AND (fn_hash = $2 OR $2 IS NULL)
    AND (args_hash = $3 OR $3 IS NULL)
    AND (is_experiment = $4 OR $4 IS NULL)
    AND e.user_id = get_user_id($5, $6)";

/// An upload that is about to be recorded: the transaction has not begun.
#[derive(Debug)]
pub struct Transaction {
    pub api_key: String,
    pub insert: EvalInsert,
}

/// An upload whose transaction has begun: the blob is recorded next, with
/// the API key and the content hash.
#[derive(Debug)]
pub struct BlobStep {
    pub api_key: String,
    pub insert: EvalInsert,
}

/// An upload whose blob row is known: the eval is recorded next, with the
/// fields of the upload, the identifier of the blob row and the API key.
#[derive(Debug)]
pub struct EvalStep {
    pub api_key: String,
    pub insert: EvalInsert,
    pub blob_id: i64,
}

/// An upload whose rows are both known: the transaction is committed next.
#[derive(Debug)]
pub struct CommitStep {
    pub blob_id: i64,
    pub eval_id: uuid::Uuid,
}

impl EvalInsert {
    /// Whose eval is recorded: that of the owner of the API key. Without an
    /// API key the request is unauthorized and no transaction is begun.
    pub fn persist(self, auth: Option<&Auth>) -> (out: Result<Transaction, EvalError>)
        ensures
            out == match api_key_of(auth) {
                Some(key) => Ok::<Transaction, EvalError>(
                    (Transaction { api_key: key, insert: self }),
                ),
                None => Err(EvalError::Unauthorized),
            },
    {
        match api_key(auth) {
            Some(key) => Ok(Transaction { api_key: key, insert: self }),
            None => Err(EvalError::Unauthorized),
        }
    }
}

impl Transaction {
    /// The step after the transaction was begun, or the failure to begin it.
    pub fn begun(self, started: Result<(), sqlx::Error>) -> (out: Result<BlobStep, EvalError>)
        ensures
            out == match started {
                Ok(_) => Ok::<BlobStep, EvalError>(
                    (BlobStep { api_key: self.api_key, insert: self.insert }),
                ),
                Err(e) => Err(EvalError::Sqlx(e)),
            },
    {
        match started {
            Ok(_) => Ok(BlobStep { api_key: self.api_key, insert: self.insert }),
            Err(e) => Err(EvalError::Sqlx(e)),
        }
    }
}

impl BlobStep {
    /// The name of the blob row that this step records.
    pub open spec fn key(&self) -> BlobKey {
        BlobKey { owner: self.api_key@, content_hash: self.insert.content_hash@ }
    }

    /// The step after the blob was recorded, which carries the identifier of
    /// its row on to the eval; or the failure of the statement, on which the
    /// transaction is dropped and leaves no trace.
    pub fn resolved(self, row: Result<i64, sqlx::Error>) -> (out: Result<EvalStep, EvalError>)
        ensures
            out == match row {
                Ok(id) => Ok::<EvalStep, EvalError>(
                    (EvalStep { api_key: self.api_key, insert: self.insert, blob_id: id }),
                ),
                Err(e) => Err(EvalError::Sqlx(e)),
            },
    {
        match row {
            Ok(id) => Ok(EvalStep { api_key: self.api_key, insert: self.insert, blob_id: id }),
            Err(e) => Err(EvalError::Sqlx(e)),
        }
    }
}

impl EvalStep {
    /// The name of the eval row that this step records.
    pub open spec fn key(&self) -> EvalKey {
        EvalKey {
            owner: self.api_key@,
            fn_key: self.insert.fn_key@,
            fn_hash: self.insert.fn_hash@,
            args_hash: self.insert.args_hash@,
        }
    }

    /// The step after the eval was recorded; or the failure of the
    /// statement, on which the transaction is dropped and the blob row with
    /// it.
    pub fn resolved(self, row: Result<uuid::Uuid, sqlx::Error>) -> (out: Result<
        CommitStep,
        EvalError,
    >)
        ensures
            out == match row {
                Ok(id) => Ok::<CommitStep, EvalError>(
                    (CommitStep { blob_id: self.blob_id, eval_id: id }),
                ),
                Err(e) => Err(EvalError::Sqlx(e)),
            },
    {
        match row {
            Ok(id) => Ok(CommitStep { blob_id: self.blob_id, eval_id: id }),
            Err(e) => Err(EvalError::Sqlx(e)),
        }
    }
}

impl CommitStep {
    /// What the upload comes to once the transaction was committed: the
    /// identifier of the eval; or the failure to commit, which leaves
    /// neither row.
    pub fn committed(self, done: Result<(), sqlx::Error>) -> (out: Result<uuid::Uuid, EvalError>)
        ensures
            out == match done {
                Ok(_) => Ok::<uuid::Uuid, EvalError>(self.eval_id),
                Err(e) => Err(EvalError::Sqlx(e)),
            },
    {
        match done {
            Ok(_) => Ok(self.eval_id),
            Err(e) => Err(EvalError::Sqlx(e)),
        }
    }
}

/// The name of a blob row. The owner stands for the user that the API key
/// belongs to.
pub struct BlobKey {
    pub owner: Seq<char>,
    pub content_hash: Seq<char>,
}

/// The name of an eval row.
pub struct EvalKey {
    pub owner: Seq<char>,
    pub fn_key: Seq<char>,
    pub fn_hash: Seq<char>,
    pub args_hash: Seq<char>,
}

/// An eval row as far as the rules of recording go: its identifier and the
/// blob row it refers to.
pub struct EvalRow {
    pub id: uuid::Uuid,
    pub blob_id: i64,
}

/// The two tables, each as a map from the names of its rows.
pub struct Tables {
    pub blobs: Map<BlobKey, i64>,
    pub evals: Map<EvalKey, EvalRow>,
}

/// A statement that records a row unless a row of its name is there. `fresh`
/// is the identifier that the database gives the row if it inserts it.
#[allow(inconsistent_fields)]
pub enum Statement {
    Blob { key: BlobKey, fresh: i64 },
    Eval { key: EvalKey, blob: BlobKey, fresh: uuid::Uuid },
}

/// The identifier that a statement resolves to.
pub enum Resolved {
    Blob(i64),
    Eval(uuid::Uuid),
}

/// The tables after a statement. A row that is there is left as it is. An
/// eval is recorded with the identifier of the blob row that its upload
/// resolved before.
pub open spec fn tables_after(t: Tables, s: Statement) -> Tables {
    match s {
        Statement::Blob { key, fresh } => if t.blobs.contains_key(key) {
            t
        } else {
            Tables { blobs: t.blobs.insert(key, fresh), ..t }
        },
        Statement::Eval { key, blob, fresh } => if t.evals.contains_key(key) {
            t
        } else {
            Tables {
                evals: t.evals.insert(key, EvalRow { id: fresh, blob_id: t.blobs[blob] }),
                ..t
            }
        },
    }
}

/// The identifier that a statement resolves to: that of the row of its name
/// that is there after it.
pub open spec fn resolve(t: Tables, s: Statement) -> Resolved {
    match s {
        Statement::Blob { key, .. } => Resolved::Blob(tables_after(t, s).blobs[key]),
        Statement::Eval { key, .. } => Resolved::Eval(tables_after(t, s).evals[key].id),
    }
}

/// The tables after a schedule of statements, each of which takes effect at
/// once and as a whole.
pub open spec fn run(t: Tables, schedule: Seq<Statement>) -> Tables
    decreases schedule.len(),
{
    if schedule.len() == 0 {
        t
    } else {
        tables_after(run(t, schedule.drop_last()), schedule.last())
    }
}

/// The identifier that the statement at index `i` of a schedule resolves to.
pub open spec fn resolved_at(t: Tables, schedule: Seq<Statement>, i: int) -> Resolved
    recommends
        0 <= i < schedule.len(),
{
    resolve(run(t, schedule.take(i)), schedule[i])
}

/// Whether a statement belongs to an upload of the blob `blob` and the eval
/// `eval`.
pub open spec fn records(s: Statement, blob: BlobKey, eval: EvalKey) -> bool {
    match s {
        Statement::Blob { key, .. } => key == blob,
        Statement::Eval { key, blob: b, .. } => key == eval && b == blob,
    }
}

/// Whether a schedule consists of the statements of uploads of one blob and
/// one eval, interleaved in any way in which the first statement records the
/// blob, as the first statement of each of the uploads does.
pub open spec fn identical_uploads(schedule: Seq<Statement>, blob: BlobKey, eval: EvalKey) -> bool {
    &&& schedule.len() > 0
    &&& schedule[0] is Blob
    &&& forall|i: int| 0 <= i < schedule.len() ==> records(#[trigger] schedule[i], blob, eval)
}

/// What the statements of identical uploads have in common after the first
/// of them: the blob row is there, and every later statement leaves it and
/// the eval row, once there, as they are.
proof fn lemma_rows_settle(t: Tables, schedule: Seq<Statement>, blob: BlobKey, eval: EvalKey, n: int)
    requires
        identical_uploads(schedule, blob, eval),
        1 <= n <= schedule.len(),
    ensures
        ({
            let first = tables_after(t, schedule[0]);
            let now = run(t, schedule.take(n));
            &&& now.blobs == first.blobs
            &&& now.blobs.contains_key(blob)
            &&& forall|k: EvalKey| k != eval ==> (now.evals.contains_key(k) <==> t.evals.contains_key(k))
            &&& forall|k: EvalKey| k != eval && t.evals.contains_key(k) ==> now.evals[k] == t.evals[k]
            &&& now.evals.contains_key(eval) ==> now.evals[eval].blob_id == first.blobs[blob]
                || (t.evals.contains_key(eval) && now.evals[eval] == t.evals[eval])
            &&& t.evals.contains_key(eval) ==> now.evals == t.evals
        }),
    decreases n,
{
    let prefix = schedule.take(n);
    assert(prefix.last() == schedule[n - 1]);
    assert(prefix.drop_last() == schedule.take(n - 1));
    if n == 1 {
        assert(schedule.take(0).len() == 0);
        assert(run(t, schedule.take(0)) == t);
        assert(records(schedule[0], blob, eval));
    } else {
        lemma_rows_settle(t, schedule, blob, eval, n - 1);
        assert(records(schedule[n - 1], blob, eval));
        let before = run(t, schedule.take(n - 1));
        let now = tables_after(before, schedule[n - 1]);
        assert(now.blobs =~= before.blobs);
        if t.evals.contains_key(eval) {
            assert(now.evals =~= t.evals);
        }
    }
}

/// Uploads of the same blob and eval, however many and however their
/// statements are interleaved, resolve alike: every statement that records
/// the blob resolves to one identifier, and every statement that records the
/// eval resolves to one identifier.
pub proof fn lemma_identical_uploads_resolve_alike(
    t: Tables,
    schedule: Seq<Statement>,
    blob: BlobKey,
    eval: EvalKey,
    i: int,
    j: int,
)
    requires
        identical_uploads(schedule, blob, eval),
        0 <= i < schedule.len(),
        0 <= j < schedule.len(),
    ensures
        (schedule[i] is Blob) == (schedule[j] is Blob) ==> resolved_at(t, schedule, i)
            == resolved_at(t, schedule, j),
{
    if (schedule[i] is Blob) == (schedule[j] is Blob) {
        lemma_resolves_to_first(t, schedule, blob, eval, i);
        lemma_resolves_to_first(t, schedule, blob, eval, j);
    }
}

/// What a statement of identical uploads resolves to, in terms of the
/// tables at the time: a blob statement to the row that the first statement
/// left, an eval statement to the row that is there after it.
proof fn lemma_resolves_to_first(
    t: Tables,
    schedule: Seq<Statement>,
    blob: BlobKey,
    eval: EvalKey,
    i: int,
)
    requires
        identical_uploads(schedule, blob, eval),
        0 <= i < schedule.len(),
    ensures
        schedule[i] is Blob ==> resolved_at(t, schedule, i) == Resolved::Blob(
            tables_after(t, schedule[0]).blobs[blob],
        ),
        schedule[i] is Eval ==> resolved_at(t, schedule, i) == Resolved::Eval(
            run(t, schedule).evals[eval].id,
        ),
{
    assert(records(schedule[i], blob, eval));
    assert(records(schedule[0], blob, eval));
    if i == 0 {
        assert(schedule.take(0).len() == 0);
        assert(run(t, schedule.take(0)) == t);
    } else {
        lemma_rows_settle(t, schedule, blob, eval, i);
    }
    if schedule[i] is Eval {
        lemma_eval_row_stays(t, schedule, blob, eval, i + 1, schedule.len() as int);
        assert(schedule.take(schedule.len() as int) == schedule);
        assert(schedule.take(i + 1).last() == schedule[i]);
        assert(schedule.take(i + 1).drop_last() == schedule.take(i));
    }
}

/// Once the eval row is there, the statements of identical uploads leave it
/// as it is.
proof fn lemma_eval_row_stays(
    t: Tables,
    schedule: Seq<Statement>,
    blob: BlobKey,
    eval: EvalKey,
    m: int,
    n: int,
)
    requires
        identical_uploads(schedule, blob, eval),
        0 <= m <= n <= schedule.len(),
        run(t, schedule.take(m)).evals.contains_key(eval),
    ensures
        run(t, schedule.take(n)).evals.contains_key(eval),
        run(t, schedule.take(n)).evals[eval] == run(t, schedule.take(m)).evals[eval],
    decreases n - m,
{
    if m < n {
        lemma_eval_row_stays(t, schedule, blob, eval, m, n - 1);
        assert(schedule.take(n).last() == schedule[n - 1]);
        assert(schedule.take(n).drop_last() == schedule.take(n - 1));
        assert(records(schedule[n - 1], blob, eval));
    }
}

/// Identical uploads record one row in each table: after any number of
/// them, interleaved in any way, the tables hold what they held before and,
/// unless they were there already, the one blob row and the one eval row,
/// which refers to the blob row.
pub proof fn lemma_identical_uploads_record_once(
    t: Tables,
    schedule: Seq<Statement>,
    blob: BlobKey,
    eval: EvalKey,
)
    requires
        identical_uploads(schedule, blob, eval),
    ensures
        ({
            let after = run(t, schedule);
            &&& after.blobs.dom() == t.blobs.dom().insert(blob)
            &&& forall|k: BlobKey| t.blobs.contains_key(k) ==> after.blobs[k] == t.blobs[k]
            &&& forall|k: EvalKey| k != eval ==> (after.evals.contains_key(k) <==> t.evals.contains_key(k))
            &&& forall|k: EvalKey| t.evals.contains_key(k) ==> after.evals.contains_key(k)
                && after.evals[k] == t.evals[k]
            &&& !t.evals.contains_key(eval) && after.evals.contains_key(eval)
                ==> after.evals[eval].blob_id == after.blobs[blob]
        }),
{
    lemma_rows_settle(t, schedule, blob, eval, schedule.len() as int);
    assert(schedule.take(schedule.len() as int) == schedule);
    assert(records(schedule[0], blob, eval));
    let first = tables_after(t, schedule[0]);
    assert(first.blobs.dom() =~= t.blobs.dom().insert(blob));
}

/// An upload that differs from an earlier one in the hash of its arguments
/// alone records a new eval for the blob that is there: the eval gets the
/// fresh identifier, which no other eval has, and refers to the blob row of
/// the earlier upload.
pub proof fn lemma_other_arguments_share_the_blob(
    t: Tables,
    blob: BlobKey,
    eval: EvalKey,
    other: EvalKey,
    fresh_blob: i64,
    fresh_eval: uuid::Uuid,
)
    requires
        t.blobs.contains_key(blob),
        t.evals.contains_key(eval),
        other.args_hash != eval.args_hash,
        !t.evals.contains_key(other),
        forall|k: EvalKey| t.evals.contains_key(k) ==> (#[trigger] t.evals[k]).id != fresh_eval,
    ensures
        ({
            let s1 = Statement::Blob { key: blob, fresh: fresh_blob };
            let s2 = Statement::Eval { key: other, blob, fresh: fresh_eval };
            let t1 = tables_after(t, s1);
            let t2 = tables_after(t1, s2);
            &&& resolve(t, s1) == Resolved::Blob(t.blobs[blob])
            &&& resolve(t1, s2) == Resolved::Eval(fresh_eval)
            &&& fresh_eval != t.evals[eval].id
            &&& t2.evals[other].blob_id == t.blobs[blob]
            &&& t2.evals[eval] == t.evals[eval]
        }),
{
}

/// A query for evals that may be put to the database: the fields to match
/// and the user whose evals are read, named by the subject of the claims or
/// by the API key.
#[derive(Debug)]
pub struct EvalQuery {
    pub params: Params,
    pub user_id: Option<uuid::Uuid>,
    pub api_key: Option<String>,
}

/// Whether `wanted`, a field of a query, lets an eval with the text `found`
/// pass: an absent field lets every eval pass.
pub open spec fn field_selects(wanted: Option<String>, found: String) -> bool {
    match wanted {
        Some(w) => w@ == found@,
        None => true,
    }
}

impl Params {
    /// Whether the query finds `eval` among the evals of a user: every field
    /// that is present must be that of the eval.
    pub open spec fn selects(&self, eval: &Eval) -> bool {
        &&& field_selects(self.fn_key, eval.fn_key)
        &&& field_selects(self.fn_hash, eval.fn_hash)
        &&& field_selects(self.args_hash, eval.args_hash)
        &&& match self.is_experiment {
            Some(b) => b == eval.is_experiment,
            None => true,
        }
    }

    /// Whether the query finds `eval` among the evals of a user.
    pub fn finds(&self, eval: &Eval) -> (b: bool)
        ensures
            b == self.selects(eval),
    {
        let by_key = match &self.fn_key {
            Some(w) => same_text(w.as_str(), eval.fn_key.as_str()),
            None => true,
        };
        let by_hash = match &self.fn_hash {
            Some(w) => same_text(w.as_str(), eval.fn_hash.as_str()),
            None => true,
        };
        let by_args = match &self.args_hash {
            Some(w) => same_text(w.as_str(), eval.args_hash.as_str()),
            None => true,
        };
        let by_kind = match self.is_experiment {
            Some(b) => b == eval.is_experiment,
            None => true,
        };
        by_key && by_hash && by_args && by_kind
    }

    /// Whether the query counts as an access to the evals it finds.
    pub open spec fn polls(&self) -> bool {
        self.poll == Some(true)
    }

    /// Whose evals are read: those of the user that the credential names.
    /// Without a credential the request is unauthorized.
    pub fn fetch(self, auth: Option<&Auth>) -> (out: Result<EvalQuery, EvalError>)
        ensures
            match auth {
                None => out == Err::<EvalQuery, EvalError>(EvalError::Unauthorized),
                Some(Auth::Jwt(c)) => out == Ok::<EvalQuery, EvalError>(
                    (EvalQuery { params: self, user_id: Some(c.sub), api_key: None }),
                ),
                Some(Auth::ApiKey(k)) => out == Ok::<EvalQuery, EvalError>(
                    (EvalQuery { params: self, user_id: None, api_key: Some(*k) }),
                ),
            },
    {
        match auth {
            None => Err(EvalError::Unauthorized),
            Some(Auth::Jwt(c)) => Ok(EvalQuery { params: self, user_id: Some(c.sub), api_key: None }),
            Some(Auth::ApiKey(k)) => Ok(
                EvalQuery { params: self, user_id: None, api_key: Some(k.clone()) },
            ),
        }
    }
}

impl EvalQuery {
    /// Whether the accesses of the evals that the query finds are counted
    /// up before the evals are read.
    pub fn polls(&self) -> (b: bool)
        ensures
            b == self.params.polls(),
    {
        match self.params.poll {
            Some(b) => b,
            None => false,
        }
    }

    /// What the query comes to, from what counting the accesses, where it
    /// was asked for, and reading the evals gave. A failure to count comes
    /// before what was read.
    pub fn fetched(
        self,
        counted: Option<Result<(), sqlx::Error>>,
        rows: Result<Vec<Eval>, sqlx::Error>,
    ) -> (out: Result<Vec<Eval>, EvalError>)
        ensures
            out == match counted {
                Some(Err(e)) => Err::<Vec<Eval>, EvalError>(EvalError::Sqlx(e)),
                _ => match rows {
                    Ok(evals) => Ok(evals),
                    Err(e) => Err(EvalError::Sqlx(e)),
                },
            },
    {
        match counted {
            Some(Err(e)) => Err(EvalError::Sqlx(e)),
            _ => match rows {
                Ok(evals) => Ok(evals),
                Err(e) => Err(EvalError::Sqlx(e)),
            },
        }
    }
}

} // verus!
