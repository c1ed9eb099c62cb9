use hitsave_api::handlers::blob::{BlobParams, BlobParamsHead};
use hitsave_api::handlers::eval::Params;
use hitsave_api::handlers::login::Claims;
use hitsave_api::middlewares::auth::Auth;
use hitsave_api::models::eval::{Eval, EvalError, Timestamp};
use hitsave_api::persisters::blob::{BlobError, BlobInsert};
use hitsave_api::persisters::eval::{BlobStep, EvalInsert, EvalStep};
use uuid::Uuid;

const HASH: &str = "af1349b9f5f9a1a6a0404dea36dcc9499bcb25c9adc112b7cc9a93cae41f3262";

/// Stands for the two tables: each statement takes effect at once, inserts
/// its row unless a row of that name is there, and gives the row's
/// identifier.
struct Tables {
    blobs: Vec<((String, String), i64)>,
    evals: Vec<((String, String, String, String), Uuid, i64)>,
}

impl Tables {
    fn new() -> Self {
        Tables { blobs: Vec::new(), evals: Vec::new() }
    }

    fn insert_blob(&mut self, step: &BlobStep) -> i64 {
        let key = (step.api_key.clone(), step.insert.content_hash.clone());
        if let Some(row) = self.blobs.iter().find(|row| row.0 == key) {
            return row.1;
        }
        let id = self.blobs.len() as i64 + 1;
        self.blobs.push((key, id));
        id
    }

    fn insert_eval(&mut self, step: &EvalStep) -> Uuid {
        let key = (
            step.api_key.clone(),
            step.insert.fn_key.clone(),
            step.insert.fn_hash.clone(),
            step.insert.args_hash.clone(),
        );
        if let Some(row) = self.evals.iter().find(|row| row.0 == key) {
            return row.1;
        }
        let id = Uuid::from_u128(0x1000 + self.evals.len() as u128);
        self.evals.push((key, id, step.blob_id));
        id
    }
}

fn insert(args_hash: &str) -> EvalInsert {
    EvalInsert {
        fn_key: "f".to_string(),
        fn_hash: "h1".to_string(),
        args: None,
        args_hash: args_hash.to_string(),
        result_json: serde_json::Value::Null,
        content_hash: HASH.to_string(),
        content_length: 0,
        is_experiment: false,
        start_time: Timestamp { secs: 1_700_000_000, nanos: 0 },
        elapsed_process_time: 12,
    }
}

fn api_key(key: &str) -> Auth {
    Auth::ApiKey(key.to_string())
}

fn claims() -> Auth {
    Auth::Jwt(Claims { sub: Uuid::from_u128(7), exp: 1 })
}

fn begin(tables_key: &str, args_hash: &str) -> BlobStep {
    insert(args_hash).persist(Some(&api_key(tables_key))).unwrap().begun(Ok(())).unwrap()
}

#[test]
fn two_identical_uploads_at_once_resolve_to_the_same_rows() {
    let mut tables = Tables::new();
    let a = begin("u1", "a1");
    let b = begin("u1", "a1");
    let a_blob = tables.insert_blob(&a);
    let b_blob = tables.insert_blob(&b);
    let b = b.resolved(Ok(b_blob)).unwrap();
    let a = a.resolved(Ok(a_blob)).unwrap();
    assert_eq!(a.blob_id, b.blob_id);
    let b_eval = tables.insert_eval(&b);
    let a_eval = tables.insert_eval(&a);
    let a = a.resolved(Ok(a_eval)).unwrap();
    let b = b.resolved(Ok(b_eval)).unwrap();
    assert_eq!(a.blob_id, b.blob_id);
    let a_id = a.committed(Ok(())).unwrap();
    let b_id = b.committed(Ok(())).unwrap();
    assert_eq!(a_id, b_id);
    assert_eq!(a_id.to_string(), b_id.to_string());
    assert_eq!(tables.blobs.len(), 1);
    assert_eq!(tables.evals.len(), 1);
    assert_eq!(tables.evals[0].2, tables.blobs[0].1);
}

#[test]
fn other_arguments_make_another_eval_of_the_same_blob() {
    let mut tables = Tables::new();
    let mut ids = Vec::new();
    let mut blob_ids = Vec::new();
    for args_hash in ["a1", "a1", "a2"] {
        let step = begin("u1", args_hash);
        let blob_id = tables.insert_blob(&step);
        let step = step.resolved(Ok(blob_id)).unwrap();
        let eval_id = tables.insert_eval(&step);
        let step = step.resolved(Ok(eval_id)).unwrap();
        blob_ids.push(step.blob_id);
        ids.push(step.committed(Ok(())).unwrap());
    }
    assert_eq!(ids[0], ids[1]);
    assert_ne!(ids[0], ids[2]);
    assert_eq!(blob_ids, vec![1, 1, 1]);
    assert_eq!(tables.blobs.len(), 1);
    assert_eq!(tables.evals.len(), 2);
}

#[test]
fn another_owner_gets_rows_of_its_own() {
    let mut tables = Tables::new();
    let first = begin("u1", "a1");
    let second = begin("u2", "a1");
    assert_ne!(tables.insert_blob(&first), tables.insert_blob(&second));
    assert_eq!(tables.blobs.len(), 2);
}

#[test]
fn statements_are_given_what_the_upload_holds() {
    let step = begin("key-1", "a1");
    assert_eq!(step.api_key, "key-1");
    assert_eq!(step.insert.content_hash, HASH);
    let step = step.resolved(Ok(41)).unwrap();
    assert_eq!(step.blob_id, 41);
    assert_eq!(step.api_key, "key-1");
    assert_eq!(step.insert.fn_key, "f");
    assert_eq!(step.insert.args_hash, "a1");
    let step = step.resolved(Ok(Uuid::from_u128(9))).unwrap();
    assert_eq!(step.blob_id, 41);
    assert_eq!(step.eval_id, Uuid::from_u128(9));
    assert_eq!(step.committed(Ok(())).unwrap(), Uuid::from_u128(9));
}

#[test]
fn upload_without_an_api_key_is_unauthorized() {
    assert!(matches!(insert("a1").persist(None), Err(EvalError::Unauthorized)));
    assert!(matches!(insert("a1").persist(Some(&claims())), Err(EvalError::Unauthorized)));
    let blob = BlobInsert { content_length: 1, content_hash: HASH.to_string() };
    assert!(matches!(blob.persist(None), Err(BlobError::Unauthorized)));
    let blob = BlobInsert { content_length: 1, content_hash: HASH.to_string() };
    assert!(matches!(blob.persist(Some(&claims())), Err(BlobError::Unauthorized)));
}

#[test]
fn failure_at_any_step_ends_the_upload() {
    let tx = insert("a1").persist(Some(&api_key("u1"))).unwrap();
    assert!(matches!(tx.begun(Err(sqlx::Error::PoolTimedOut)), Err(EvalError::Sqlx(_))));
    assert!(matches!(
        begin("u1", "a1").resolved(Err(sqlx::Error::RowNotFound)),
        Err(EvalError::Sqlx(sqlx::Error::RowNotFound))
    ));
    let step = begin("u1", "a1").resolved(Ok(1)).unwrap();
    assert!(matches!(step.resolved(Err(sqlx::Error::PoolClosed)), Err(EvalError::Sqlx(_))));
    let step = begin("u1", "a1").resolved(Ok(1)).unwrap().resolved(Ok(Uuid::nil())).unwrap();
    assert!(matches!(step.committed(Err(sqlx::Error::WorkerCrashed)), Err(EvalError::Sqlx(_))));
    assert!(matches!(EvalError::from(sqlx::Error::RowNotFound), EvalError::Sqlx(_)));
}

#[test]
fn blob_alone_is_recorded_for_the_owner_of_the_key() {
    let blob = BlobInsert { content_length: 1, content_hash: HASH.to_string() };
    let statement = blob.persist(Some(&api_key("u1"))).unwrap();
    assert_eq!(statement.api_key, "u1");
    assert_eq!(statement.content_hash, HASH);
    let again = BlobInsert { content_length: 1, content_hash: HASH.to_string() }
        .persist(Some(&api_key("u1")))
        .unwrap();
    assert_eq!(statement.resolved(Ok(5)).unwrap(), 5);
    assert!(matches!(again.resolved(Err(sqlx::Error::RowNotFound)), Err(BlobError::Sqlx(_))));
}

#[test]
fn blob_is_fetched_only_for_its_owner() {
    let params = || BlobParams { content_hash: HASH.to_string() };
    assert!(matches!(params().fetch(None), Err(BlobError::Unauthorized)));
    assert!(matches!(params().fetch(Some(&claims())), Err(BlobError::Unauthorized)));
    let bad = BlobParams { content_hash: "not a hash".to_string() };
    assert!(matches!(bad.fetch(Some(&api_key("u1"))), Err(BlobError::InvalidHash)));
    let bad = BlobParams { content_hash: "not a hash".to_string() };
    assert!(matches!(bad.fetch(None), Err(BlobError::Unauthorized)));
    let lookup = params().fetch(Some(&api_key("u1"))).unwrap();
    assert_eq!(lookup.api_key, "u1");
    assert_eq!(lookup.content_hash, HASH);
    assert_eq!(lookup.hash.to_hex(), HASH);
    assert_eq!(lookup.counted(Ok(Some(1))).unwrap().to_hex(), HASH);
    let lookup = || params().fetch(Some(&api_key("u1"))).unwrap();
    assert!(matches!(lookup().counted(Ok(Some(0))), Err(BlobError::Unauthorized)));
    assert!(matches!(lookup().counted(Ok(Some(2))), Err(BlobError::Unauthorized)));
    assert!(matches!(lookup().counted(Ok(None)), Err(BlobError::Unauthorized)));
    assert!(matches!(lookup().counted(Err(sqlx::Error::PoolClosed)), Err(BlobError::Sqlx(_))));
}

#[test]
fn head_answers_whether_the_blob_is_there() {
    let params = || BlobParamsHead { content_hash: HASH.to_string() };
    assert!(matches!(params().fetch(None), Err(BlobError::Unauthorized)));
    let bad = BlobParamsHead { content_hash: HASH[..10].to_string() };
    assert!(matches!(bad.fetch(Some(&api_key("u1"))), Err(BlobError::InvalidHash)));
    let lookup = || params().fetch(Some(&api_key("u1"))).unwrap();
    assert!(lookup().counted_head(Ok(Some(1))).is_ok());
    assert!(matches!(lookup().counted_head(Ok(Some(0))), Err(BlobError::NotFound)));
    assert!(matches!(lookup().counted_head(Ok(None)), Err(BlobError::NotFound)));
    assert!(matches!(lookup().counted_head(Err(sqlx::Error::PoolClosed)), Err(BlobError::Sqlx(_))));
}

#[test]
fn blob_errors_are_shown_to_the_client() {
    let shown = |e: BlobError| {
        let h = e.http_error();
        (h.status, h.message)
    };
    assert_eq!(shown(BlobError::Unauthorized), (401, "unauthorized access".to_string()));
    assert_eq!(shown(BlobError::InvalidHash), (400, "invalid hash".to_string()));
    assert_eq!(shown(BlobError::NotFound), (404, "resource not found".to_string()));
    assert_eq!(shown(BlobError::StoreError), (500, "could not retrieve blob".to_string()));
    assert_eq!(
        shown(BlobError::Sqlx(sqlx::Error::RowNotFound)),
        (500, "could not retrieve blob".to_string())
    );
    let shown = |e: EvalError| {
        let h = e.http_error();
        (h.status, h.message)
    };
    assert_eq!(shown(EvalError::Unauthorized), (401, "unauthorized".to_string()));
    assert_eq!(
        shown(EvalError::NotFound(sqlx::Error::RowNotFound)),
        (404, "evals not found for params".to_string())
    );
    assert_eq!(shown(EvalError::Sqlx(sqlx::Error::RowNotFound)), (500, "unknown error".to_string()));
}

fn params(fn_key: Option<&str>, args_hash: Option<&str>, is_experiment: Option<bool>) -> Params {
    Params {
        fn_key: fn_key.map(str::to_string),
        fn_hash: None,
        args_hash: args_hash.map(str::to_string),
        is_experiment,
        poll: None,
    }
}

fn eval(fn_key: &str, args_hash: &str, is_experiment: bool) -> Eval {
    Eval {
        fn_key: fn_key.to_string(),
        fn_hash: "h1".to_string(),
        args: None,
        args_hash: args_hash.to_string(),
        result_json: serde_json::Value::Null,
        content_hash: HASH.to_string(),
        is_experiment,
        start_time: Timestamp { secs: 0, nanos: 0 },
        elapsed_process_time: 0,
        accesses: 0,
    }
}

#[test]
fn absent_fields_of_a_query_match_everything() {
    let e = eval("f", "a1", false);
    assert!(params(None, None, None).finds(&e));
    assert!(params(Some("f"), None, None).finds(&e));
    assert!(params(Some("f"), Some("a1"), Some(false)).finds(&e));
    assert!(!params(Some("g"), None, None).finds(&e));
    assert!(!params(Some("f"), Some("a2"), None).finds(&e));
    assert!(!params(None, None, Some(true)).finds(&e));
    let by_hash = Params {
        fn_key: None,
        fn_hash: Some("h2".to_string()),
        args_hash: None,
        is_experiment: None,
        poll: None,
    };
    assert!(!by_hash.finds(&e));
}

#[test]
fn query_is_put_for_the_user_of_the_credential() {
    assert!(matches!(params(None, None, None).fetch(None), Err(EvalError::Unauthorized)));
    let query = params(Some("f"), None, None).fetch(Some(&api_key("u1"))).unwrap();
    assert_eq!(query.api_key.as_deref(), Some("u1"));
    assert_eq!(query.user_id, None);
    assert_eq!(query.params.fn_key.as_deref(), Some("f"));
    assert!(!query.polls());
    let query = params(None, None, None).fetch(Some(&claims())).unwrap();
    assert_eq!(query.user_id, Some(Uuid::from_u128(7)));
    assert_eq!(query.api_key, None);
}

#[test]
fn poll_counts_accesses_before_reading() {
    let polling = |poll: Option<bool>| {
        let p = Params { fn_key: None, fn_hash: None, args_hash: None, is_experiment: None, poll };
        p.fetch(Some(&api_key("u1"))).unwrap()
    };
    assert!(polling(Some(true)).polls());
    assert!(!polling(Some(false)).polls());
    assert!(!polling(None).polls());
    let rows = polling(None).fetched(None, Ok(vec![eval("f", "a1", false)])).unwrap();
    assert_eq!(rows.len(), 1);
    assert_eq!(rows[0].fn_key, "f");
    assert!(polling(Some(true)).fetched(Some(Ok(())), Ok(vec![])).unwrap().is_empty());
    assert!(matches!(
        polling(Some(true)).fetched(Some(Err(sqlx::Error::PoolClosed)), Ok(vec![])),
        Err(EvalError::Sqlx(sqlx::Error::PoolClosed))
    ));
    assert!(matches!(
        polling(None).fetched(None, Err(sqlx::Error::RowNotFound)),
        Err(EvalError::Sqlx(sqlx::Error::RowNotFound))
    ));
}
