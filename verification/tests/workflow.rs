use std::collections::HashMap;

use task_api::auth::{create_jwt, generate_otp, six_digit_code, verify_jwt, Claims};
use task_api::cache::{lookup_outcome, task_cache_key, TASK_CACHE_TTL_SECS};
use task_api::error::AppError;
use task_api::handlers::auth::{
    check_challenge, check_challenge_digest, check_password, confirm_consumed, plan_challenge,
    require_password_match, require_user, start_challenge, token_response, ChallengeRecord,
    UserCredentials, CHALLENGE_LIFETIME_MICROS,
};
use task_api::handlers::dev::latest_email_outcome;
use task_api::handlers::seed::{
    admin_account, james_bond_account, upsert_step, SeedResponse, SeedUser, UpsertStep,
};
use task_api::handlers::tasks::{
    created_task_item, finish_assignment, plan_assign_tasks, plan_create_task, view_from_cache,
    view_from_rows, view_step, AssignTasksRequest, AssignedTaskRow, CacheEntry, CachedTasks,
    CreateTaskRequest, CreatedTaskRow, TaskItem, ViewMyTasksResponse, ViewStep,
};
use task_api::middleware::{authenticate, bearer_token};
use task_api::models::email_log::EmailLog;
use task_api::models::task::TaskPriority;
use task_api::models::user::{role_from_name, role_str, Role};

const ADMIN_ID: [u8; 16] = [1; 16];
const JAMES_ID: [u8; 16] = [2; 16];

fn admin_claims() -> Claims {
    Claims { sub: ADMIN_ID, email: "admin@example.com".to_string(), role: Role::Admin }
}

fn james_claims() -> Claims {
    Claims { sub: JAMES_ID, email: "jamesbond@example.com".to_string(), role: Role::Staff }
}

fn task_id(n: u8) -> [u8; 16] {
    let mut id = [0u8; 16];
    id[15] = n;
    id
}

/// Writes a cache entry decided by the library into an in-memory map, as the service does to Redis.
fn store_entry(store: &mut HashMap<String, Vec<TaskItem>>, entry: CacheEntry) {
    assert_eq!(entry.ttl_secs, TASK_CACHE_TTL_SECS);
    store.insert(entry.key, entry.value.tasks);
}

/// One request for the caller's tasks: from the cache when present, else from the rows.
fn view_my_tasks(
    store: &mut HashMap<String, Vec<TaskItem>>,
    claims: &Claims,
    rows: &Vec<AssignedTaskRow>,
) -> ViewMyTasksResponse {
    let key = task_cache_key(claims.sub);
    let decoded = store
        .get(&key)
        .map(|tasks| Ok(CachedTasks { tasks: tasks.iter().map(|t| t.duplicate()).collect() }));
    match view_step(claims, lookup_outcome(decoded).unwrap()) {
        ViewStep::Answer(resp) => resp,
        ViewStep::ReadDatabase => {
            let (resp, entry) = view_from_rows(claims, rows);
            store_entry(store, entry);
            resp
        }
    }
}

/// Assigns tasks as admin, given who held each task before, and removes the stale cache entries.
fn assign(
    store: &mut HashMap<String, Vec<TaskItem>>,
    task_ids: Vec<[u8; 16]>,
    user_id: [u8; 16],
    previous: Vec<Option<[u8; 16]>>,
) -> u64 {
    let plan = plan_assign_tasks(&admin_claims(), AssignTasksRequest { task_ids, user_id }).unwrap();
    let outcome = finish_assignment(&plan, &previous);
    for key in &outcome.stale_keys {
        store.remove(key);
    }
    outcome.response.assigned
}

fn assigned_row(id: [u8; 16], title: &str, priority: &str) -> AssignedTaskRow {
    AssignedTaskRow {
        id,
        title: title.to_string(),
        status: Some("todo".to_string()),
        priority: Some(priority.to_string()),
        assigned_to: "jamesbond@example.com".to_string(),
    }
}

/// Seeds one account into an empty store, as the service does on an empty database.
fn seed_into_empty(account: &task_api::handlers::seed::SeedAccount, id: [u8; 16]) -> SeedUser {
    match upsert_step(account, None).unwrap() {
        UpsertStep::Insert(n) => {
            assert!(n.hashed_password.starts_with("$argon2id$v=19$"));
            assert_ne!(n.hashed_password, account.password);
            assert_eq!(check_password(&account.password, &n.hashed_password), Ok(()));
            SeedUser { id, email: n.email, role: n.role }
        }
        UpsertStep::Existing(_) => panic!("a missing user must be inserted"),
    }
}

#[test]
fn test_seed_creates_users() {
    let admin = admin_account();
    let james = james_bond_account();
    assert_eq!(admin.full_name, "Admin");
    assert_eq!(james.full_name, "James Bond");
    let resp = SeedResponse {
        admin: seed_into_empty(&admin, ADMIN_ID),
        james_bond: seed_into_empty(&james, JAMES_ID),
    };
    assert_eq!(resp.admin.email, "admin@example.com");
    assert_eq!(role_str(&resp.admin.role), "admin");
    assert_eq!(resp.james_bond.email, "jamesbond@example.com");
    assert_eq!(role_str(&resp.james_bond.role), "staff");
}

#[test]
fn test_seed_is_idempotent() {
    let account = admin_account();
    let first = seed_into_empty(&account, ADMIN_ID);
    // The second seeding finds the stored user and answers it unchanged.
    let stored = SeedUser { id: first.id, email: first.email.clone(), role: first.role };
    match upsert_step(&account, Some(stored)).unwrap() {
        UpsertStep::Existing(u) => {
            assert_eq!(u.id, first.id, "seed must be idempotent");
            assert_eq!(u.email, first.email);
            assert_eq!(u.role, first.role);
        }
        UpsertStep::Insert(_) => panic!("an existing user must not be inserted again"),
    }
}

#[test]
fn test_login_returns_challenge_not_token() {
    let user = require_user(Some(UserCredentials { id: ADMIN_ID, hashed_password: "h".to_string() })).unwrap();
    require_password_match(true).unwrap();
    let plan = plan_challenge(user.id, "admin@example.com", "123456", 1_000);
    assert_eq!(plan.challenge.user_id, ADMIN_ID);
    assert_ne!(plan.challenge.code_hash, "123456", "the code must not be stored in plain text");
    assert_eq!(
        plan.challenge.code_hash,
        "8d969eef6ecad3c29a3a629280e686cf0c3f5d5a86aff3ca12020c923adc6c92"
    );
    assert_eq!(plan.challenge.expires_at, 1_000 + 300_000_000);
    assert_eq!(plan.email.recipient, "admin@example.com");
    assert_eq!(plan.email.subject, "Your verification code");
    assert_eq!(plan.email.body, "Your 2FA code is: 123456");
}

#[test]
fn test_wrong_password_rejected() {
    let err = require_password_match(false).unwrap_err();
    assert_eq!(err, AppError::Unauthorized("invalid credentials".to_string()));
    assert_eq!(err.status_code(), 401);
}

#[test]
fn test_unknown_email_rejected_like_wrong_password() {
    let err = require_user(None).unwrap_err();
    assert_eq!(err, require_password_match(false).unwrap_err());
    assert_eq!(err.status_code(), 401);
}

fn fresh_challenge(code: &str, issued_at: i64) -> ChallengeRecord {
    let plan = plan_challenge(ADMIN_ID, "admin@example.com", code, issued_at);
    ChallengeRecord {
        id: [7; 16],
        user_id: plan.challenge.user_id,
        code_hash: plan.challenge.code_hash,
        expires_at: plan.challenge.expires_at,
        used: false,
    }
}

#[test]
fn test_wrong_2fa_code_rejected() {
    let c = fresh_challenge("123456", 0);
    let err = check_challenge(Some(c), 10, "000000").unwrap_err();
    assert_eq!(err, AppError::Unauthorized("invalid code".to_string()));
    assert_eq!(err.status_code(), 401);
}

#[test]
fn test_reused_2fa_code_rejected() {
    let c = fresh_challenge("123456", 0);
    let login = check_challenge(Some(c), 10, "123456").unwrap();
    assert!(login.record().used);
    assert_eq!(login.user_id(), ADMIN_ID);
    let consumed = ChallengeRecord {
        id: login.record().id,
        user_id: login.record().user_id,
        code_hash: login.record().code_hash.clone(),
        expires_at: login.record().expires_at,
        used: login.record().used,
    };
    let err = check_challenge(Some(consumed), 20, "123456").unwrap_err();
    assert_eq!(err, AppError::BadRequest("code already used".to_string()));
    assert_eq!(err.status_code(), 400);
}

#[test]
fn code_valid_until_five_minutes_then_expired() {
    let issued = 1_700_000_000_000_000i64;
    let at_limit = check_challenge(Some(fresh_challenge("42", issued)), issued + CHALLENGE_LIFETIME_MICROS, "42");
    assert!(at_limit.is_ok());
    let late = check_challenge(Some(fresh_challenge("42", issued)), issued + CHALLENGE_LIFETIME_MICROS + 1, "42");
    let err = late.unwrap_err();
    assert_eq!(err, AppError::BadRequest("code expired".to_string()));
    assert_eq!(err.status_code(), 400);
}

#[test]
fn missing_challenge_is_bad_request() {
    let err = check_challenge(None, 0, "x").unwrap_err();
    assert_eq!(err, AppError::BadRequest("challenge not found".to_string()));
}

#[test]
fn token_is_bearer() {
    let login = check_challenge(Some(fresh_challenge("777777", 0)), 0, "777777").unwrap();
    let t = token_response(&login, "abc.def.ghi".to_string());
    assert_eq!(t.access_token, "abc.def.ghi");
    assert_eq!(t.token_type, "Bearer");
}

#[test]
fn test_unauthenticated_request_rejected() {
    let err = bearer_token(None).unwrap_err();
    assert_eq!(err, AppError::Unauthorized("missing Authorization header".to_string()));
    assert_eq!(err.status_code(), 401);
}

#[test]
fn bearer_header_parsing() {
    assert_eq!(bearer_token(Some("Bearer abc.def")), Ok("abc.def"));
    assert_eq!(bearer_token(Some("Bearer ")), Ok(""));
    assert_eq!(
        bearer_token(Some("Basic abc")),
        Err(AppError::Unauthorized("expected Bearer token".to_string()))
    );
    assert_eq!(
        bearer_token(Some("bearer abc")),
        Err(AppError::Unauthorized("expected Bearer token".to_string()))
    );
    assert_eq!(
        bearer_token(Some("Bearer")),
        Err(AppError::Unauthorized("expected Bearer token".to_string()))
    );
}

#[test]
fn test_staff_cannot_create_task() {
    let req = CreateTaskRequest { title: "Sneaky task".to_string(), description: None, priority: TaskPriority::Low };
    let err = plan_create_task(&james_claims(), req).unwrap_err();
    assert_eq!(err, AppError::Forbidden("only admins can create tasks".to_string()));
    assert_eq!(err.status_code(), 403);
}

#[test]
fn test_admin_can_create_task() {
    let req = CreateTaskRequest { title: "Admin task".to_string(), description: None, priority: TaskPriority::High };
    let new_task = plan_create_task(&admin_claims(), req).unwrap();
    assert_eq!(new_task.title, "Admin task");
    assert_eq!(new_task.priority.as_str(), "high");
    assert_eq!(new_task.created_by_id, ADMIN_ID);
    let row = CreatedTaskRow {
        id: task_id(1),
        title: new_task.title.clone(),
        status: Some("todo".to_string()),
        priority: Some(new_task.priority.as_str()),
    };
    let item = created_task_item(&row);
    assert_eq!(item.title, "Admin task");
    assert_eq!(item.status, "todo");
    assert_eq!(item.priority, "high");
    assert_eq!(item.assigned_to, None);
}

#[test]
fn null_status_and_priority_read_as_empty() {
    let row = CreatedTaskRow { id: task_id(1), title: "t".to_string(), status: None, priority: None };
    let item = created_task_item(&row);
    assert_eq!(item.status, "");
    assert_eq!(item.priority, "");
}

#[test]
fn staff_cannot_assign_tasks() {
    let req = AssignTasksRequest { task_ids: vec![task_id(1)], user_id: JAMES_ID };
    let err = plan_assign_tasks(&james_claims(), req).unwrap_err();
    assert_eq!(err, AppError::Forbidden("only admins can assign tasks".to_string()));
    assert_eq!(err.status_code(), 403);
}

#[test]
fn test_full_workflow() {
    let mut store: HashMap<String, Vec<TaskItem>> = HashMap::new();
    let configs = [
        ("Mission Briefing", "high"),
        ("Gadget Procurement", "medium"),
        ("Field Report", "low"),
        ("Background Check", "medium"),
        ("Debrief Session", "high"),
    ];
    let mut ids = Vec::new();
    for (i, (title, priority)) in configs.iter().enumerate() {
        let p = match *priority {
            "high" => TaskPriority::High,
            "medium" => TaskPriority::Medium,
            _ => TaskPriority::Low,
        };
        let t = plan_create_task(&admin_claims(), CreateTaskRequest { title: title.to_string(), description: None, priority: p }).unwrap();
        assert_eq!(t.title, *title);
        ids.push(task_id(i as u8 + 1));
    }
    assert_eq!(ids.len(), 5, "exactly 5 tasks must be created");

    let assigned = assign(&mut store, ids[..3].to_vec(), JAMES_ID, vec![None, None, None]);
    assert_eq!(assigned, 3);

    let forbidden = plan_create_task(&james_claims(), CreateTaskRequest { title: "Not allowed".to_string(), description: None, priority: TaskPriority::Low });
    assert_eq!(forbidden.unwrap_err().status_code(), 403);

    let rows: Vec<AssignedTaskRow> = configs[..3]
        .iter()
        .zip(ids.iter())
        .map(|((title, priority), id)| assigned_row(*id, title, priority))
        .collect();

    let resp1 = view_my_tasks(&mut store, &james_claims(), &rows);
    assert_eq!(resp1.user.email, "jamesbond@example.com");
    assert_eq!(resp1.user.role, "staff");
    assert_eq!(resp1.tasks.len(), 3, "James Bond must see exactly 3 tasks");
    assert_eq!(resp1.summary.total_assigned_tasks, 3);
    assert!(!resp1.cache.hit, "first call must not be from cache");
    for task in &resp1.tasks {
        assert_eq!(task.assigned_to.as_deref(), Some("jamesbond@example.com"));
        assert_eq!(task.status, "todo");
        assert!(["high", "medium", "low"].contains(&task.priority.as_str()), "priority must be high, medium, or low");
    }

    let resp2 = view_my_tasks(&mut store, &james_claims(), &rows);
    assert!(resp2.cache.hit, "second call must come from cache");
    assert_eq!(resp2.tasks.len(), 3);
    assert_eq!(resp2.tasks, resp1.tasks);
}

#[test]
fn test_cache_invalidates_on_reassignment() {
    let mut store: HashMap<String, Vec<TaskItem>> = HashMap::new();
    let rows = vec![assigned_row(task_id(1), "Cache Test Task", "medium")];

    assign(&mut store, vec![task_id(1)], JAMES_ID, vec![None]);
    let r1 = view_my_tasks(&mut store, &james_claims(), &rows);
    assert!(!r1.cache.hit);
    let r2 = view_my_tasks(&mut store, &james_claims(), &rows);
    assert!(r2.cache.hit);

    // Re-assign the same task (triggers cache invalidation)
    assign(&mut store, vec![task_id(1)], JAMES_ID, vec![Some(JAMES_ID)]);
    let r3 = view_my_tasks(&mut store, &james_claims(), &rows);
    assert!(!r3.cache.hit, "cache must be invalidated after assignment");
}

#[test]
fn moving_a_task_invalidates_the_previous_assignee() {
    let mut store: HashMap<String, Vec<TaskItem>> = HashMap::new();
    let james_rows = vec![assigned_row(task_id(1), "Cache Test Task", "medium")];
    let no_rows: Vec<AssignedTaskRow> = Vec::new();
    let other_claims = Claims { sub: [5; 16], email: "other@example.com".to_string(), role: Role::Staff };

    assign(&mut store, vec![task_id(1)], JAMES_ID, vec![None]);
    assert!(!view_my_tasks(&mut store, &james_claims(), &james_rows).cache.hit);
    assert!(view_my_tasks(&mut store, &james_claims(), &james_rows).cache.hit);
    assert!(!view_my_tasks(&mut store, &other_claims, &no_rows).cache.hit);

    // The task moves from James Bond to the admin: both lists are stale.
    let moved = assign(&mut store, vec![task_id(1)], ADMIN_ID, vec![Some(JAMES_ID)]);
    assert_eq!(moved, 1);
    let after = view_my_tasks(&mut store, &james_claims(), &no_rows);
    assert!(!after.cache.hit, "the previous assignee's cache must be invalidated");
    assert_eq!(after.tasks.len(), 0);
    // A user the move does not touch keeps their cached list.
    assert!(view_my_tasks(&mut store, &other_claims, &no_rows).cache.hit);
}

#[test]
fn assignment_counts_updated_tasks_and_lists_stale_keys() {
    let plan = plan_assign_tasks(&admin_claims(), AssignTasksRequest { task_ids: vec![task_id(1), task_id(2)], user_id: JAMES_ID }).unwrap();
    let outcome = finish_assignment(&plan, &vec![Some(ADMIN_ID), None]);
    assert_eq!(outcome.response.assigned, 2);
    assert_eq!(outcome.stale_keys, vec![task_cache_key(JAMES_ID), task_cache_key(ADMIN_ID)]);
}

#[test]
fn started_challenge_sends_a_six_digit_code_that_verifies() {
    let (code, plan) = start_challenge(JAMES_ID, "jamesbond@example.com", 50);
    assert_eq!(code.len(), 6);
    assert!(code.chars().all(|c| c.is_ascii_digit()));
    assert_eq!(plan.email.body, format!("Your 2FA code is: {}", code));
    let emailed = plan.email.body.split(": ").last().unwrap().trim().to_string();
    let record = ChallengeRecord {
        id: [8; 16],
        user_id: plan.challenge.user_id,
        code_hash: plan.challenge.code_hash,
        expires_at: plan.challenge.expires_at,
        used: false,
    };
    let login = check_challenge(Some(record), 60, &emailed).unwrap();
    assert_eq!(login.user_id(), JAMES_ID);
}

#[test]
fn digest_check_and_consumption() {
    let c = fresh_challenge("123456", 0);
    let digest = c.code_hash.clone();
    assert!(check_challenge_digest(Some(c), 0, &digest).is_ok());
    assert_eq!(confirm_consumed(1), Ok(()));
    let err = confirm_consumed(0).unwrap_err();
    assert_eq!(err, AppError::BadRequest("code already used".to_string()));
}

#[test]
fn password_check_against_seeded_hash() {
    let account = james_bond_account();
    let hashed = match upsert_step(&account, None).unwrap() {
        UpsertStep::Insert(u) => u.hashed_password,
        UpsertStep::Existing(_) => panic!("expected an insert"),
    };
    assert_eq!(check_password("Bond007!", &hashed), Ok(()));
    let wrong = check_password("wrongpassword", &hashed).unwrap_err();
    assert_eq!(wrong, AppError::Unauthorized("invalid credentials".to_string()));
    assert_eq!(wrong.status_code(), 401);
    let broken = check_password("Bond007!", "not a phc string").unwrap_err();
    assert_eq!(broken.status_code(), 500);
}

#[test]
fn cache_key_uses_hyphenated_uuid() {
    let id: [u8; 16] = [
        0x67, 0xe5, 0x50, 0x44, 0x10, 0xb1, 0x42, 0x6f, 0x92, 0x47, 0xbb, 0x68, 0x0e, 0x5f, 0xe0, 0xc8,
    ];
    assert_eq!(task_cache_key(id), "tasks:user:67e55044-10b1-426f-9247-bb680e5fe0c8");
    assert_eq!(task_cache_key([0; 16]), "tasks:user:00000000-0000-0000-0000-000000000000");
    assert_ne!(task_cache_key(ADMIN_ID), task_cache_key(JAMES_ID));
    assert_eq!(TASK_CACHE_TTL_SECS, 300);
}

#[test]
fn cache_lookup_outcomes() {
    assert_eq!(lookup_outcome::<u32>(None), Ok(None));
    assert_eq!(lookup_outcome::<u32>(Some(Ok(5))), Ok(Some(5)));
    let err = lookup_outcome::<u32>(Some(Err("expected value".to_string()))).unwrap_err();
    assert_eq!(err, AppError::Internal("expected value".to_string()));
    assert_eq!(err.status_code(), 500);
}

#[test]
fn latest_email_log_outcomes() {
    let err = latest_email_outcome(None).unwrap_err();
    assert_eq!(err, AppError::NotFound("no email logs found".to_string()));
    assert_eq!(err.status_code(), 404);
    let log = EmailLog {
        id: [3; 16],
        recipient: "admin@example.com".to_string(),
        subject: "Your verification code".to_string(),
        body: "Your 2FA code is: 123456".to_string(),
        sent_at: 5,
    };
    let got = latest_email_outcome(Some(log)).unwrap();
    assert_eq!(got.body.split(": ").last().unwrap(), "123456");
}

#[test]
fn roles_and_priorities_by_name() {
    assert_eq!(role_str(&Role::Admin), "admin");
    assert_eq!(role_str(&Role::Staff), "staff");
    assert_eq!(role_from_name("admin"), Some(Role::Admin));
    assert_eq!(role_from_name("staff"), Some(Role::Staff));
    assert_eq!(role_from_name("Admin"), None);
    assert_eq!(TaskPriority::Low.as_str(), "low");
    assert_eq!(TaskPriority::Medium.as_str(), "medium");
    assert_eq!(TaskPriority::High.as_str(), "high");
}

#[test]
fn error_messages() {
    assert_eq!(AppError::Forbidden("x".to_string()).message(), "x");
}

#[test]
fn six_digit_codes_are_zero_padded() {
    assert_eq!(six_digit_code(0), "000000");
    assert_eq!(six_digit_code(42), "000042");
    assert_eq!(six_digit_code(123456), "123456");
    assert_eq!(six_digit_code(999999), "999999");
    for _ in 0..20 {
        let code = generate_otp();
        assert_eq!(code.len(), 6);
        assert!(code.chars().all(|c| c.is_ascii_digit()));
    }
}

fn verified_login_for(user_id: [u8; 16]) -> task_api::handlers::auth::VerifiedLogin {
    let plan = plan_challenge(user_id, "jamesbond@example.com", "424242", 0);
    let record = ChallengeRecord {
        id: [4; 16],
        user_id: plan.challenge.user_id,
        code_hash: plan.challenge.code_hash,
        expires_at: plan.challenge.expires_at,
        used: false,
    };
    check_challenge(Some(record), 1, "424242").unwrap()
}

#[test]
fn issued_token_reads_back_until_it_expires() {
    let login = verified_login_for(JAMES_ID);
    let token = create_jwt(&login, "jamesbond@example.com", Role::Staff, 1_000, 3_600, "secret");
    assert_eq!(token.split('.').count(), 3);
    let claims = verify_jwt(&token, "secret", 4_599).unwrap();
    assert_eq!(claims, james_claims());
    let invalid = AppError::Unauthorized("invalid token".to_string());
    assert_eq!(verify_jwt(&token, "secret", 4_600).unwrap_err(), invalid);
    assert_eq!(verify_jwt(&token, "other secret", 2_000).unwrap_err(), invalid);
    let mut tampered = token.clone();
    tampered.push('x');
    assert_eq!(verify_jwt(&tampered, "secret", 2_000).unwrap_err(), invalid);
    assert_eq!(verify_jwt("not a token", "secret", 2_000).unwrap_err(), invalid);
}

#[test]
fn requests_authenticate_by_bearer_token() {
    let login = verified_login_for(ADMIN_ID);
    let token = create_jwt(&login, "admin@example.com", Role::Admin, 0, 60, "k");
    let header = format!("Bearer {}", token);
    let user = authenticate(Some(&header), "k", 59).unwrap();
    assert_eq!(user.0, admin_claims());
    let err = authenticate(None, "k", 0).unwrap_err();
    assert_eq!(err, AppError::Unauthorized("missing Authorization header".to_string()));
    let err = authenticate(Some(&token), "k", 0).unwrap_err();
    assert_eq!(err, AppError::Unauthorized("expected Bearer token".to_string()));
    let err = authenticate(Some(&header), "k", 60).unwrap_err();
    assert_eq!(err, AppError::Unauthorized("invalid token".to_string()));
    assert_eq!(err.status_code(), 401);
}
