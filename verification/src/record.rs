//! What is written down of each chat, and when it is cleared away.
use crate::catalog::Provider;
use crate::number::{
    decimal, decimal_text, law_decimal_reads_back, law_signed_reads_back, parse_signed, read_signed,
    read_unsigned, signed_decimal, signed_text,
};
use crate::outcome::{ErrType, chat_outcome, classify_chat, recorded_code};
use crate::text::{opt_text, texts};
use crate::timestamp::has_millis;
use vstd::prelude::*;

verus! {

pub const LOG_SQL: &'static str =
    "INSERT INTO request_logs (timestamp, method, path, model, upstream, status_code, duration_ms) VALUES (?1, ?2, ?3, ?4, ?5, ?6, ?7)";

pub const HEALTH_SQL: &'static str =
    "INSERT INTO model_health (model, ts, ok, err_type, status_code, latency_ms) VALUES (?1, ?2, ?3, ?4, ?5, ?6)";

pub const CLEAR_HEALTH_SQL: &'static str = "DELETE FROM model_health WHERE ts < ?1";

pub const CLEAR_LOG_SQL: &'static str = "DELETE FROM request_logs WHERE timestamp < ?1";

pub const STATS_SQL: &'static str =
    "SELECT model, COUNT(*) AS total, SUM(ok) AS ok_cnt, AVG(latency_ms) AS avg_lat, SUM(CASE WHEN err_type='rate_limited' THEN 1 ELSE 0 END) AS rate_cnt, SUM(CASE WHEN err_type='upstream_error' THEN 1 ELSE 0 END) AS up_cnt, SUM(CASE WHEN err_type='network_error' THEN 1 ELSE 0 END) AS net_cnt, SUM(CASE WHEN err_type='timeout' THEN 1 ELSE 0 END) AS to_cnt FROM (SELECT model, ok, latency_ms, err_type, ROW_NUMBER() OVER (PARTITION BY model ORDER BY ts DESC) AS rn FROM model_health WHERE ts >= ?1) WHERE rn <= 100 GROUP BY model";

/// The path under which chats are logged.
pub const CHAT_PATH: &'static str = "/v1/chat/completions";

/// Where the time of the last cleaning is kept.
pub const CLEANUP_KEY: &'static str = "health_cleanup_ts";

/// How long, in seconds, the time of the last cleaning is kept.
pub const CLEANUP_TTL: u64 = 28800;

/// How many seconds at least lie between two cleanings.
pub const CLEANUP_PERIOD: i64 = 21600;

/// How many seconds records are kept.
pub const KEPT: i64 = 604800;

/// How many seconds back records count for the health of a model.
pub const COUNTED: i64 = 1209600;

/// A statement of the database, with the values of its parameters.
pub struct Statement {
    pub sql: &'static str,
    pub args: Vec<String>,
}

/// What a statement says.
pub struct StatementView {
    pub sql: Seq<char>,
    pub args: Seq<Seq<char>>,
}

impl View for Statement {
    type V = StatementView;

    open spec fn view(&self) -> StatementView {
        StatementView { sql: self.sql@, args: texts(self.args@) }
    }
}

// ---------------------------------------------------------------------------
// Records
// ---------------------------------------------------------------------------
/// The statement that logs a request.
pub open spec fn log_statement(
    now: i64,
    method: Seq<char>,
    path: Seq<char>,
    model: Seq<char>,
    upstream: Seq<char>,
    code: u16,
    duration: i64,
) -> StatementView {
    StatementView {
        sql: LOG_SQL@,
        args: seq![
            signed_decimal(now as int),
            method,
            path,
            model,
            upstream,
            decimal(code as nat),
            signed_decimal(duration as int),
        ],
    }
}

/// Writes the statement that logs a request.
pub fn log_request(
    now: i64,
    method: &str,
    path: &str,
    model: &str,
    upstream: &str,
    code: u16,
    duration: i64,
) -> (r: Statement)
    ensures
        r@ == log_statement(now, method@, path@, model@, upstream@, code, duration),
{
    let mut args: Vec<String> = Vec::new();
    args.push(signed_text(now as i128));
    args.push(method.to_string());
    args.push(path.to_string());
    args.push(model.to_string());
    args.push(upstream.to_string());
    args.push(decimal_text(code as u128));
    args.push(signed_text(duration as i128));
    assert(texts(args@) =~= log_statement(
        now,
        method@,
        path@,
        model@,
        upstream@,
        code,
        duration,
    ).args);
    Statement { sql: LOG_SQL, args }
}

/// The statement that records how a call of a model went.
pub open spec fn health_statement(
    now: i64,
    model: Seq<char>,
    ok: bool,
    outcome: ErrType,
    code: u16,
    latency: i64,
) -> StatementView {
    StatementView {
        sql: HEALTH_SQL@,
        args: seq![
            model,
            signed_decimal(now as int),
            if ok {
                "1"@
            } else {
                "0"@
            },
            outcome.name(),
            decimal(code as nat),
            signed_decimal(latency as int),
        ],
    }
}

/// Writes the statement that records how a call of a model went.
pub fn record_health(
    now: i64,
    model: &str,
    ok: bool,
    outcome: ErrType,
    code: u16,
    latency: i64,
) -> (r: Statement)
    ensures
        r@ == health_statement(now, model@, ok, outcome, code, latency),
{
    let mut args: Vec<String> = Vec::new();
    args.push(model.to_string());
    args.push(signed_text(now as i128));
    if ok {
        args.push("1".to_string());
    } else {
        args.push("0".to_string());
    }
    args.push(outcome.label().to_string());
    args.push(decimal_text(code as u128));
    args.push(signed_text(latency as i128));
    assert(texts(args@) =~= health_statement(now, model@, ok, outcome, code, latency).args);
    Statement { sql: HEALTH_SQL, args }
}

/// The statement that logs a chat, by the status of the reply to it, where there was
/// one, and by how many seconds it took.
pub open spec fn chat_log(
    now: i64,
    model: Seq<char>,
    upstream: Provider,
    status: Option<u16>,
    seconds: i64,
) -> StatementView {
    log_statement(
        now,
        "POST"@,
        CHAT_PATH@,
        model,
        upstream.name(),
        recorded_code(status),
        seconds,
    )
}

/// Writes the statement that logs a chat.
pub fn log_chat(now: i64, model: &str, upstream: Provider, status: Option<u16>, seconds: i64) -> (r:
    Statement)
    ensures
        r@ == chat_log(now, model@, upstream, status, seconds),
{
    let code: u16 = match status {
        Some(c) => c,
        None => 502,
    };
    log_request(now, "POST", CHAT_PATH, model, upstream.label(), code, seconds)
}

/// The statement that records how a chat went, by the status of the reply to it, where
/// there was one, and by how many seconds it took.
pub open spec fn chat_health(now: i64, model: Seq<char>, status: Option<u16>, seconds: i64) -> StatementView {
    let code = recorded_code(status);
    health_statement(now, model, code < 400, chat_outcome(code), code, (seconds * 1000) as i64)
}

/// Writes the statement that records how a chat went.
pub fn record_chat(now: i64, model: &str, status: Option<u16>, seconds: i64) -> (r: Statement)
    requires
        has_millis(seconds),
    ensures
        r@ == chat_health(now, model@, status, seconds),
{
    let code: u16 = match status {
        Some(c) => c,
        None => 502,
    };
    record_health(now, model, code < 400, classify_chat(code), code, seconds * 1000)
}

/// A statement has a value for each of its parameters, and a chat is recorded as a
/// success exactly where its record says that it went well.
pub proof fn law_records_agree(
    now: i64,
    model: Seq<char>,
    upstream: Provider,
    status: Option<u16>,
    seconds: i64,
)
    ensures
        chat_log(now, model, upstream, status, seconds).args.len() == 7,
        chat_health(now, model, status, seconds).args.len() == 6,
        chat_health(now, model, status, seconds).args[2] == "1"@ <==> chat_health(
            now,
            model,
            status,
            seconds,
        ).args[3] == "success"@,
        chat_log(now, model, upstream, status, seconds).args[5] == chat_health(
            now,
            model,
            status,
            seconds,
        ).args[4],
{
    reveal_strlit("1");
    reveal_strlit("0");
    reveal_strlit("success");
    reveal_strlit("rate_limited");
    reveal_strlit("client_error");
    reveal_strlit("upstream_error");
    assert("1"@[0] != "0"@[0]);
    assert("success"@.len() == 7 && "rate_limited"@.len() == 12 && "client_error"@.len() == 12
        && "upstream_error"@.len() == 14);
}

// ---------------------------------------------------------------------------
// Cleaning
// ---------------------------------------------------------------------------
/// Old records are cleared away where that was not done within the period, as far as is
/// known.
pub open spec fn cleanup_due(last: Option<Seq<char>>, now: i64) -> bool {
    match last {
        Some(text) => match read_signed(text) {
            Some(t) => now - t > CLEANUP_PERIOD,
            None => true,
        },
        None => true,
    }
}

/// What is done to clear old records away.
pub struct Cleanup {
    pub health: Statement,
    pub log: Statement,
    /// The time that is kept as that of the last cleaning.
    pub mark: String,
}

/// What is done to clear old records away.
pub struct CleanupView {
    pub health: StatementView,
    pub log: StatementView,
    pub mark: Seq<char>,
}

impl View for Cleanup {
    type V = CleanupView;

    open spec fn view(&self) -> CleanupView {
        CleanupView { health: self.health@, log: self.log@, mark: self.mark@ }
    }
}

/// What is done at a time to clear old records away.
pub open spec fn cleanup_at(now: i64) -> CleanupView {
    CleanupView {
        health: since(CLEAR_HEALTH_SQL@, now - KEPT),
        log: since(CLEAR_LOG_SQL@, now - KEPT),
        mark: signed_decimal(now as int),
    }
}

/// The statement that asks, at a time, for the counts of all models.
pub open spec fn stats_at(now: i64) -> StatementView {
    since(STATS_SQL@, now - COUNTED)
}

/// A statement about records from before, or from after, a time.
pub open spec fn since(sql: Seq<char>, time: int) -> StatementView {
    StatementView { sql, args: seq![signed_decimal(time)] }
}

/// Writes a statement about records from before, or from after, a time.
fn statement_since(sql: &'static str, now: i64, back: i64) -> (r: Statement)
    ensures
        r@ == since(sql@, now - back),
{
    let mut args: Vec<String> = Vec::new();
    args.push(signed_text(now as i128 - back as i128));
    assert(texts(args@) =~= seq![signed_decimal(now - back)]);
    Statement { sql, args }
}

/// Decides whether old records are cleared away, and how.
pub fn maybe_cleanup_health(last: Option<&str>, now: i64) -> (r: Option<Cleanup>)
    ensures
        match r {
            Some(c) => cleanup_due(opt_text(last), now) && c@ == cleanup_at(now),
            None => !cleanup_due(opt_text(last), now),
        },
{
    let due = match last {
        Some(text) => match parse_signed(text) {
            Some(t) => now as i128 - t as i128 > CLEANUP_PERIOD as i128,
            None => true,
        },
        None => true,
    };
    if !due {
        return None;
    }
    Some(
        Cleanup {
            health: statement_since(CLEAR_HEALTH_SQL, now, KEPT),
            log: statement_since(CLEAR_LOG_SQL, now, KEPT),
            mark: signed_text(now as i128),
        },
    )
}

/// After a cleaning, with its time kept, the next one is due when more than six hours
/// have passed, and not before.
pub proof fn law_cleaned_once_in_a_period(cleaned: i64, now: i64)
    ensures
        cleanup_due(Some(signed_decimal(cleaned as int)), now) <==> now - cleaned > 6 * 3600,
{
    law_signed_reads_back(cleaned);
}

/// Writes the statement that asks for the counts of all models.
pub fn stats_statement(now: i64) -> (r: Statement)
    ensures
        r@ == stats_at(now),
{
    statement_since(STATS_SQL, now, COUNTED)
}

// ---------------------------------------------------------------------------
// What is written
// ---------------------------------------------------------------------------
/// A logged request gives its time, its method, its path, its model, its upstream, its status
/// and its duration, in the order of the columns.
pub proof fn law_log_rows(
    now: i64,
    method: Seq<char>,
    path: Seq<char>,
    model: Seq<char>,
    upstream: Seq<char>,
    code: u16,
    duration: i64,
)
    ensures
        ({
            let row = log_statement(now, method, path, model, upstream, code, duration);
            &&& row.sql
                == "INSERT INTO request_logs (timestamp, method, path, model, upstream, status_code, duration_ms) VALUES (?1, ?2, ?3, ?4, ?5, ?6, ?7)"@
            &&& row.args.len() == 7
            &&& read_signed(row.args[0]) == Some(now as int)
            &&& row.args[1] == method
            &&& row.args[2] == path
            &&& row.args[3] == model
            &&& row.args[4] == upstream
            &&& read_unsigned(row.args[5], 65535) == Some(code as nat)
            &&& read_signed(row.args[6]) == Some(duration as int)
        }),
{
    law_signed_reads_back(now);
    law_signed_reads_back(duration);
    law_decimal_reads_back(code as nat);
}

/// A recorded call gives its model, its time, whether it went well, its outcome, its status
/// and its latency, in the order of the columns.
pub proof fn law_health_rows(
    now: i64,
    model: Seq<char>,
    ok: bool,
    outcome: ErrType,
    code: u16,
    latency: i64,
)
    ensures
        ({
            let row = health_statement(now, model, ok, outcome, code, latency);
            &&& row.sql
                == "INSERT INTO model_health (model, ts, ok, err_type, status_code, latency_ms) VALUES (?1, ?2, ?3, ?4, ?5, ?6)"@
            &&& row.args.len() == 6
            &&& row.args[0] == model
            &&& read_signed(row.args[1]) == Some(now as int)
            &&& row.args[2] == (if ok {
                "1"@
            } else {
                "0"@
            })
            &&& row.args[3] == outcome.name()
            &&& read_unsigned(row.args[4], 65535) == Some(code as nat)
            &&& read_signed(row.args[5]) == Some(latency as int)
        }),
{
    law_signed_reads_back(now);
    law_signed_reads_back(latency);
    law_decimal_reads_back(code as nat);
}

/// A chat is logged under its path, its model and its upstream, with the status of its reply,
/// and recorded as having gone well exactly where that is below 400, with its latency in
/// milliseconds. Without a reply its status is 502.
pub proof fn law_chats_are_written_down(
    now: i64,
    model: Seq<char>,
    upstream: Provider,
    status: Option<u16>,
    seconds: i64,
)
    requires
        has_millis(seconds),
    ensures
        ({
            let code = match status {
                Some(c) => c,
                None => 502u16,
            };
            let log = chat_log(now, model, upstream, status, seconds);
            let health = chat_health(now, model, status, seconds);
            &&& log.args[1] == "POST"@
            &&& log.args[2] == "/v1/chat/completions"@
            &&& log.args[3] == model
            &&& log.args[4] == upstream.name()
            &&& read_unsigned(log.args[5], 65535) == Some(code as nat)
            &&& read_signed(log.args[6]) == Some(seconds as int)
            &&& health.args[0] == model
            &&& health.args[2] == (if code <= 399 {
                "1"@
            } else {
                "0"@
            })
            &&& health.args[3] == (if code <= 399 {
                "success"@
            } else if code == 429 {
                "rate_limited"@
            } else if code <= 499 {
                "client_error"@
            } else {
                "upstream_error"@
            })
            &&& read_unsigned(health.args[4], 65535) == Some(code as nat)
            &&& read_signed(health.args[5]) == Some(1000 * seconds)
        }),
{
    law_signed_reads_back(now);
    law_signed_reads_back(seconds);
    law_signed_reads_back((seconds * 1000) as i64);
    law_decimal_reads_back(recorded_code(status) as nat);
}

/// Records are cleared away after seven days, and count for fourteen; when that was last done
/// is kept for eight hours. It is due where nothing is kept, or nothing that is a time.
pub proof fn law_records_are_kept(now: i64, text: Seq<char>, sql: Seq<char>, time: i64)
    ensures
        KEPT == 604800,
        COUNTED == 1209600,
        CLEANUP_TTL == 28800,
        CLEANUP_KEY@ == "health_cleanup_ts"@,
        CLEAR_HEALTH_SQL@ == "DELETE FROM model_health WHERE ts < ?1"@,
        CLEAR_LOG_SQL@ == "DELETE FROM request_logs WHERE timestamp < ?1"@,
        STATS_SQL@
            == "SELECT model, COUNT(*) AS total, SUM(ok) AS ok_cnt, AVG(latency_ms) AS avg_lat, SUM(CASE WHEN err_type='rate_limited' THEN 1 ELSE 0 END) AS rate_cnt, SUM(CASE WHEN err_type='upstream_error' THEN 1 ELSE 0 END) AS up_cnt, SUM(CASE WHEN err_type='network_error' THEN 1 ELSE 0 END) AS net_cnt, SUM(CASE WHEN err_type='timeout' THEN 1 ELSE 0 END) AS to_cnt FROM (SELECT model, ok, latency_ms, err_type, ROW_NUMBER() OVER (PARTITION BY model ORDER BY ts DESC) AS rn FROM model_health WHERE ts >= ?1) WHERE rn <= 100 GROUP BY model"@,
        cleanup_due(None, now),
        read_signed(text) is None ==> cleanup_due(Some(text), now),
        since(sql, time as int).sql == sql,
        since(sql, time as int).args.len() == 1,
        read_signed(since(sql, time as int).args[0]) == Some(time as int),
{
    law_signed_reads_back(time);
}

/// Both kinds of records go when they are older than seven days, the time of the cleaning is
/// kept as it is, and counts are asked for from fourteen days back.
pub proof fn law_old_records_go(now: i64)
    requires
        i64::MIN <= now - 14 * 86400,
    ensures
        cleanup_at(now).health.sql == "DELETE FROM model_health WHERE ts < ?1"@,
        read_signed(cleanup_at(now).health.args[0]) == Some(now - 7 * 86400),
        cleanup_at(now).log.sql == "DELETE FROM request_logs WHERE timestamp < ?1"@,
        read_signed(cleanup_at(now).log.args[0]) == Some(now - 7 * 86400),
        read_signed(cleanup_at(now).mark) == Some(now as int),
        read_signed(stats_at(now).args[0]) == Some(now - 14 * 86400),
        stats_at(now).sql == STATS_SQL@,
{
    law_signed_reads_back((now - 604800) as i64);
    law_signed_reads_back((now - 1209600) as i64);
    law_signed_reads_back(now);
}

} // verus!
