//! Per-session credentials, and the persisted snapshot that lets a relaunched process
//! report the credentials of a daemon that kept running.

use vstd::prelude::*;
use crate::text::{eq_ignore_ascii_case, ascii_lower_seq, is_blank, is_blank_seq, str_eq};

verus! {

/// A lower-case hexadecimal digit or a hyphen, what a hyphenated UUID is made of.
pub open spec fn uuid_char(c: char) -> bool {
    ('0' <= c && c <= '9') || ('a' <= c && c <= 'f') || c == '-'
}

/// Relies on `uuid::Uuid::new_v4` and its `Display`: a random UUID in hyphenated form,
/// 36 lower-case hexadecimal digits and hyphens.
#[verifier::external_body]
fn random_uuid() -> (r: String)
    ensures
        r@.len() == 36,
        forall|i: int| 0 <= i < r@.len() ==> uuid_char(#[trigger] r@[i]),
{
    uuid::Uuid::new_v4().to_string()
}

proof fn lemma_uuid_not_blank(s: Seq<char>)
    requires
        s.len() == 36,
        forall|i: int| 0 <= i < s.len() ==> uuid_char(#[trigger] s[i]),
    ensures
        !is_blank_seq(s),
{
    assert(!crate::text::is_ws(s[0]));
    assert(crate::text::trim_start_seq(s) == s);
    assert(!crate::text::is_ws(s[35]));
    assert(crate::text::trim_end_seq(s) == s);
}

/// A fresh random token: 36 characters, never blank.
pub fn new_token() -> (r: String)
    ensures
        r@.len() == 36,
        !is_blank_seq(r@),
{
    let t = random_uuid();
    proof {
        lemma_uuid_not_blank(t@);
    }
    t
}

/// Whether a configured authentication switch turns authentication on: on when unset or
/// blank, otherwise only for `1` or `true` in any case.
pub open spec fn auth_enabled_spec(raw: Option<Seq<char>>) -> bool {
    match raw {
        Some(v) => is_blank_seq(v) || v == "1"@ || ascii_lower_seq(v) == ascii_lower_seq(
            "true"@,
        ),
        None => true,
    }
}

/// Reads the authentication switch (`None` when unset).
pub fn auth_enabled(raw: Option<&str>) -> (r: bool)
    ensures
        r == auth_enabled_spec(
            match raw {
                Some(v) => Some(v@),
                None => None,
            },
        ),
{
    match raw {
        Some(v) => is_blank(v) || str_eq(v, "1") || eq_ignore_ascii_case(v, "true"),
        None => true,
    }
}

/// The engine's user name when authentication is on.
pub const ENGINE_USERNAME: &'static str = "opencode";

/// Basic-auth credentials for one session.
pub struct SessionCredentials {
    pub username: Option<String>,
    pub password: Option<String>,
}

/// Credentials for a new session: the fixed user name and a fresh random password when
/// authentication is on, none otherwise.
pub fn session_credentials(enable_auth: bool) -> (r: SessionCredentials)
    ensures
        enable_auth ==> r.username.is_some() && r.username.unwrap()@ == ENGINE_USERNAME@
            && r.password.is_some() && r.password.unwrap()@.len() == 36 && !is_blank_seq(
            r.password.unwrap()@,
        ),
        !enable_auth ==> r.username.is_none() && r.password.is_none(),
{
    if enable_auth {
        SessionCredentials {
            username: Some(String::from_str(ENGINE_USERNAME)),
            password: Some(new_token()),
        }
    } else {
        SessionCredentials { username: None, password: None }
    }
}

/// The persisted credentials of an orchestrated run.
pub struct OrchestratorAuthFile {
    pub opencode_username: Option<String>,
    pub opencode_password: Option<String>,
    pub project_dir: Option<String>,
    pub updated_at: Option<u64>,
}

/// The snapshot written when an orchestrated run starts.
pub fn auth_snapshot(
    username: Option<String>,
    password: Option<String>,
    project_dir: Option<String>,
    now_ms: u64,
) -> (r: OrchestratorAuthFile)
    ensures
        r.opencode_username == username,
        r.opencode_password == password,
        r.project_dir == project_dir,
        r.updated_at == Some(now_ms),
{
    OrchestratorAuthFile {
        opencode_username: username,
        opencode_password: password,
        project_dir,
        updated_at: Some(now_ms),
    }
}

/// The in-memory value when there is one, otherwise the snapshot's.
pub open spec fn or_snapshot(memory: Option<String>, snapshot: Option<String>) -> Option<String> {
    match memory {
        Some(v) => Some(v),
        None => snapshot,
    }
}

/// Takes the in-memory value when present, else falls back on the snapshot's.
pub fn reattach(memory: Option<String>, snapshot: Option<String>) -> (r: Option<String>)
    ensures
        r == or_snapshot(memory, snapshot),
{
    match memory {
        Some(v) => Some(v),
        None => snapshot,
    }
}

} // verus!
