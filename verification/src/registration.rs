//! The agent service's registration with launchd: when to (re-)register,
//! the version marker that drives re-registration after an update, the
//! per-user LaunchAgent plist used where `SMAppService` does not exist, and
//! which framework errors mean the service already is where it should be.
use crate::keys::same_text;
use crate::paths::{
    app_dir_spec, data_dir_for, data_home, join, launch_agents_path, path_join, user_launch_agents_dir, Profile,
};
use crate::text::{trim, trimmed};
use vstd::prelude::*;
use vstd::string::StrSliceExecFns;

verus! {

/// Where an app bundle keeps its embedded LaunchAgent plists.
pub const LAUNCH_AGENTS_DIR: &'static str = "Contents/Library/LaunchAgents";
/// The marker file, under the data directory, naming the app version that
/// last registered the service.
pub const REGISTRATION_MARKER: &'static str = "registration-version";
/// The domain `SMAppService` reports its errors in.
pub const SM_ERROR_DOMAIN: &'static str = "SMAppServiceErrorDomain";
/// `kSMErrorAlreadyRegistered`.
pub const SM_ERROR_ALREADY_REGISTERED: u32 = 12;
/// `kSMErrorJobNotFound`.
pub const SM_ERROR_JOB_NOT_FOUND: u32 = 6;

/// The registration state of the agent service.
#[derive(Debug, Clone, Copy, PartialEq, Eq, Structural)]
pub enum ServiceStatus {
    NotRegistered,
    Enabled,
    RequiresApproval,
    NotFound,
}

/// What ensuring the registration should do.
#[derive(Debug, Clone, Copy, PartialEq, Eq, Structural)]
pub enum EnsureAction {
    /// The service is absent: register it.
    Register,
    /// The service was registered by another executable: unregister, then
    /// register.
    Reregister,
}

/// Whether the settings page shows the notice that the service was switched
/// off under the system's login items: exactly when it awaits approval.
pub fn shows_approval_notice(status: ServiceStatus) -> (r: bool)
    ensures
        r == (status == ServiceStatus::RequiresApproval),
{
    match status {
        ServiceStatus::RequiresApproval => true,
        _ => false,
    }
}

/// The convergence rule: absent (or not found) registers, an enabled service
/// with a stale version marker re-registers, and a service the user switched
/// off in System Settings is never touched.
pub open spec fn ensure_action_spec(status: ServiceStatus, stale: bool) -> Option<EnsureAction> {
    match status {
        ServiceStatus::NotRegistered | ServiceStatus::NotFound => Some(EnsureAction::Register),
        ServiceStatus::Enabled => if stale { Some(EnsureAction::Reregister) } else { None },
        ServiceStatus::RequiresApproval => None,
    }
}

/// What ensuring the registration should do, given the service's `status`
/// and whether the version marker is `stale`.
pub fn ensure_action(status: ServiceStatus, stale: bool) -> (r: Option<EnsureAction>)
    ensures
        r == ensure_action_spec(status, stale),
{
    match status {
        ServiceStatus::NotRegistered | ServiceStatus::NotFound => Some(EnsureAction::Register),
        ServiceStatus::Enabled => if stale {
            Some(EnsureAction::Reregister)
        } else {
            None
        },
        ServiceStatus::RequiresApproval => None,
    }
}

/// Whether the recorded registering version differs from `version`. A
/// missing marker reads as stale.
pub fn registration_is_stale(recorded: Option<&str>, version: &str) -> (r: bool)
    ensures
        r == match recorded {
            Some(text) => trimmed(text@) != version@,
            None => true,
        },
{
    match recorded {
        Some(text) => !same_text(trim(text), version),
        None => true,
    }
}

/// The version marker's path under `data_dir`.
pub fn registered_version_path_in(data_dir: &str) -> (r: String)
    ensures
        r@ == path_join(data_dir@, REGISTRATION_MARKER@),
{
    join(data_dir, REGISTRATION_MARKER)
}

/// The version marker's path for `profile`, when its data directory
/// resolves.
pub fn registered_version_path(profile: Profile) -> (r: Option<String>)
    ensures
        r matches Some(p) ==> exists|b: Seq<char>|
            data_home(b) && p@ == path_join(#[trigger] path_join(b, app_dir_spec(profile)), REGISTRATION_MARKER@),
{
    match data_dir_for(profile) {
        Ok(dir) => Some(registered_version_path_in(dir.as_str())),
        Err(_) => None,
    }
}

/// The plist file name for `label`.
pub open spec fn plist_name(label: Seq<char>) -> Seq<char> {
    label + ".plist"@
}

fn plist_file_name(label: &str) -> (r: String)
    ensures
        r@ == plist_name(label@),
{
    let mut name = label.to_owned();
    name.append(".plist");
    name
}

/// The LaunchAgent plist embedded in `bundle` for the service `label`.
pub fn embedded_plist(bundle: &str, label: &str) -> (r: String)
    ensures
        r@ == path_join(path_join(bundle@, LAUNCH_AGENTS_DIR@), plist_name(label@)),
{
    let dir = join(bundle, LAUNCH_AGENTS_DIR);
    let name = plist_file_name(label);
    join(dir.as_str(), name.as_str())
}

/// The per-user LaunchAgent plist for the service `label`.
pub fn user_plist(label: &str) -> (r: Result<String, String>)
    ensures
        r matches Ok(p) ==> exists|home: Seq<char>| p@ == path_join(#[trigger] launch_agents_path(home), plist_name(label@)),
        r matches Err(e) ==> e@ == "could not resolve a home directory for the current user"@,
{
    match user_launch_agents_dir() {
        Ok(dir) => {
            let name = plist_file_name(label);
            Ok(join(dir.as_str(), name.as_str()))
        },
        Err(e) => Err(e.message()),
    }
}

/// The decimal digit `d`.
pub open spec fn digit_char(d: nat) -> char {
    if d == 0 { '0' } else if d == 1 { '1' } else if d == 2 { '2' } else if d == 3 { '3' } else if d
        == 4 { '4' } else if d == 5 { '5' } else if d == 6 { '6' } else if d == 7 { '7' } else if d
        == 8 { '8' } else { '9' }
}

/// `n` written in decimal.
pub open spec fn decimal(n: nat) -> Seq<char>
    decreases n,
{
    if n < 10 {
        seq![digit_char(n)]
    } else {
        decimal(n / 10).push(digit_char(n % 10))
    }
}

fn digit_text(d: u32) -> (r: &'static str)
    requires
        d < 10,
    ensures
        r@ == seq![digit_char(d as nat)],
{
    proof {
        reveal_strlit("0");
        reveal_strlit("1");
        reveal_strlit("2");
        reveal_strlit("3");
        reveal_strlit("4");
        reveal_strlit("5");
        reveal_strlit("6");
        reveal_strlit("7");
        reveal_strlit("8");
        reveal_strlit("9");
    }
    if d == 0 { "0" } else if d == 1 { "1" } else if d == 2 { "2" } else if d == 3 { "3" } else if d
        == 4 { "4" } else if d == 5 { "5" } else if d == 6 { "6" } else if d == 7 { "7" } else if d
        == 8 { "8" } else { "9" }
}

/// `n` in decimal, appended to `out`.
fn push_decimal(out: &mut String, n: u32)
    ensures
        final(out)@ == old(out)@ + decimal(n as nat),
    decreases n,
{
    if n >= 10 {
        push_decimal(out, n / 10);
    }
    out.append(digit_text(n % 10));
    assert(old(out)@ + decimal(n as nat) =~= if n >= 10 {
        old(out)@ + decimal((n / 10) as nat) + seq![digit_char((n % 10) as nat)]
    } else {
        old(out)@ + seq![digit_char((n % 10) as nat)]
    });
}

/// The launchd domain of the user `uid`: `gui/<uid>`.
pub fn domain(uid: Option<u32>) -> (r: Result<String, String>)
    ensures
        match uid {
            Some(u) => r matches Ok(d) && d@ == "gui/"@ + decimal(u as nat),
            None => r matches Err(e) && e@ == "could not determine the current user id"@,
        },
{
    match uid {
        Some(u) => {
            let mut out = "gui/".to_owned();
            push_decimal(&mut out, u);
            Ok(out)
        },
        None => Err("could not determine the current user id".to_owned()),
    }
}

/// `c` escaped for XML character data.
pub open spec fn escape_char(c: char) -> Seq<char> {
    if c == '&' {
        "&amp;"@
    } else if c == '<' {
        "&lt;"@
    } else if c == '>' {
        "&gt;"@
    } else {
        seq![c]
    }
}

/// `t` with `&`, `<` and `>` escaped for XML character data.
pub open spec fn escape_xml_spec(t: Seq<char>) -> Seq<char>
    decreases t.len(),
{
    if t.len() == 0 {
        Seq::empty()
    } else {
        escape_xml_spec(t.drop_last()) + escape_char(t.last())
    }
}

/// Escape `text` for XML character data.
pub fn escape_xml(text: &str) -> (r: String)
    ensures
        r@ == escape_xml_spec(text@),
{
    let n = text.unicode_len();
    let mut out = String::new();
    let mut i: usize = 0;
    while i < n
        invariant
            n == text@.len(),
            i <= n,
            out@ == escape_xml_spec(text@.take(i as int)),
        decreases n - i,
    {
        let c = text.get_char(i);
        if c == '&' {
            out.append("&amp;");
        } else if c == '<' {
            out.append("&lt;");
        } else if c == '>' {
            out.append("&gt;");
        } else {
            out.append(text.substring_char(i, i + 1));
        }
        proof {
            assert(text@.take(i + 1).drop_last() =~= text@.take(i as int));
            assert(text@.subrange(i as int, i + 1) =~= seq![c]);
        }
        i += 1;
    }
    proof {
        assert(text@.take(n as int) =~= text@);
    }
    out
}

/// Whether `pat` occurs in `s` at `i`.
pub open spec fn occurs_at(s: Seq<char>, pat: Seq<char>, i: int) -> bool {
    0 <= i && i + pat.len() <= s.len() && s.subrange(i, i + pat.len()) == pat
}

/// The first position at or after `from` where `pat` occurs in `s`.
pub open spec fn find_from(s: Seq<char>, pat: Seq<char>, from: int) -> Option<int>
    decreases s.len() + 1 - from,
{
    if from < 0 || from + pat.len() > s.len() {
        None
    } else if occurs_at(s, pat, from) {
        Some(from)
    } else {
        find_from(s, pat, from + 1)
    }
}

/// The characters of `s`.
fn chars_of(s: &str) -> (r: Vec<char>)
    ensures
        r@ == s@,
{
    let n = s.unicode_len();
    let mut out: Vec<char> = Vec::new();
    let mut i: usize = 0;
    while i < n
        invariant
            n == s@.len(),
            i <= n,
            out@ == s@.take(i as int),
        decreases n - i,
    {
        out.push(s.get_char(i));
        assert(out@ =~= s@.take(i + 1));
        i += 1;
    }
    assert(out@ =~= s@);
    out
}

/// Whether `pat` occurs in `s` at `i`.
fn occurs_at_exec(s: &Vec<char>, pat: &Vec<char>, i: usize) -> (r: bool)
    requires
        i + pat@.len() <= s@.len(),
    ensures
        r == occurs_at(s@, pat@, i as int),
{
    let n = s.len();
    let mut j: usize = 0;
    while j < pat.len()
        invariant
            n == s@.len(),
            i + pat@.len() <= s@.len(),
            j <= pat@.len(),
            forall|k: int| 0 <= k < j ==> s@[i + k] == pat@[k],
        decreases pat.len() - j,
    {
        if s[i + j] != pat[j] {
            assert(s@.subrange(i as int, i + pat@.len())[j as int] != pat@[j as int]);
            return false;
        }
        j += 1;
    }
    assert(s@.subrange(i as int, i + pat@.len()) =~= pat@);
    true
}

/// The first position at or after `from` where `pat` occurs in `s`.
fn find_exec(s: &Vec<char>, pat: &Vec<char>, from: usize) -> (r: Option<usize>)
    requires
        from <= s@.len(),
    ensures
        r is None <==> find_from(s@, pat@, from as int) is None,
        r matches Some(i) ==> find_from(s@, pat@, from as int) == Some(i as int) && from <= i && i + pat@.len() <= s@.len(),
{
    let n = s.len();
    let m = pat.len();
    if m > n || from > n - m {
        return None;
    }
    let mut i: usize = from;
    while i < n - m
        invariant
            n == s@.len(),
            m == pat@.len(),
            m <= n,
            from <= i <= n - m,
            find_from(s@, pat@, from as int) == find_from(s@, pat@, i as int),
        decreases n - m - i,
    {
        if occurs_at_exec(s, pat, i) {
            return Some(i);
        }
        i += 1;
    }
    if occurs_at_exec(s, pat, i) {
        Some(i)
    } else {
        assert(find_from(s@, pat@, i + 1) is None);
        None
    }
}

/// Why a bundle plist could not be rewritten, or its rewritten text: the
/// bundle-relative `BundleProgram` becomes an absolute `Program` under
/// `bundle`, XML-escaped, and the rest of the text is kept.
pub open spec fn rewrite_program_spec(e: Seq<char>, bundle: Seq<char>) -> Result<Seq<char>, Seq<char>> {
    let key = "<key>BundleProgram</key>"@;
    let open_tag = "<string>"@;
    let close_tag = "</string>"@;
    match find_from(e, key, 0) {
        None => Err("the embedded agent plist has no BundleProgram"@),
        Some(key_at) => {
            let n = e.len();
    let after_key = key_at + key.len();
            match find_from(e, open_tag, after_key) {
                None => Err("malformed BundleProgram in the embedded agent plist"@),
                Some(o) => {
                    let open = o + open_tag.len();
                    match find_from(e, close_tag, open) {
                        None => Err("malformed BundleProgram in the embedded agent plist"@),
                        Some(close) => Ok(
                            e.subrange(0, key_at) + "<key>Program</key>"@ + e.subrange(after_key, open)
                                + escape_xml_spec(path_join(bundle, e.subrange(open, close)))
                                + e.subrange(close, e.len() as int),
                        ),
                    }
                },
            }
        },
    }
}

/// Rewrite the embedded plist's `BundleProgram` into an absolute `Program`
/// under `bundle`.
pub fn rewrite_program(embedded: &str, bundle: &str) -> (r: Result<String, String>)
    ensures
        match rewrite_program_spec(embedded@, bundle@) {
            Ok(t) => r matches Ok(s) && s@ == t,
            Err(m) => r matches Err(s) && s@ == m,
        },
{
    let e = chars_of(embedded);
    let key = chars_of("<key>BundleProgram</key>");
    let open_tag = chars_of("<string>");
    let close_tag = chars_of("</string>");
    let key_at = match find_exec(&e, &key, 0) {
        Some(i) => i,
        None => {
            return Err("the embedded agent plist has no BundleProgram".to_owned());
        },
    };
    let n = e.len();
    let after_key = key_at + key.len();
    let open = match find_exec(&e, &open_tag, after_key) {
        Some(i) => i + open_tag.len(),
        None => {
            return Err("malformed BundleProgram in the embedded agent plist".to_owned());
        },
    };
    let close = match find_exec(&e, &close_tag, open) {
        Some(i) => i,
        None => {
            return Err("malformed BundleProgram in the embedded agent plist".to_owned());
        },
    };
    let program = join(bundle, embedded.substring_char(open, close));
    let mut out = embedded.substring_char(0, key_at).to_owned();
    out.append("<key>Program</key>");
    out.append(embedded.substring_char(after_key, open));
    let escaped = escape_xml(program.as_str());
    out.append(escaped.as_str());
    out.append(embedded.substring_char(close, n));
    Ok(out)
}

/// The status the per-user LaunchAgent fallback reports: not found without
/// the bundle's embedded plist, enabled once the user plist exists.
pub fn legacy_status(embedded_present: bool, user_present: bool) -> (r: ServiceStatus)
    ensures
        r == if !embedded_present {
            ServiceStatus::NotFound
        } else if user_present {
            ServiceStatus::Enabled
        } else {
            ServiceStatus::NotRegistered
        },
{
    if !embedded_present {
        ServiceStatus::NotFound
    } else if user_present {
        ServiceStatus::Enabled
    } else {
        ServiceStatus::NotRegistered
    }
}

/// The status an `SMAppServiceStatus` value stands for: `1` enabled, `2`
/// requires approval, `3` not found, and anything else (`0`, or a future
/// value) not registered.
pub fn sm_status(raw: isize) -> (r: ServiceStatus)
    ensures
        r == if raw == 1 {
            ServiceStatus::Enabled
        } else if raw == 2 {
            ServiceStatus::RequiresApproval
        } else if raw == 3 {
            ServiceStatus::NotFound
        } else {
            ServiceStatus::NotRegistered
        },
{
    if raw == 1 {
        ServiceStatus::Enabled
    } else if raw == 2 {
        ServiceStatus::RequiresApproval
    } else if raw == 3 {
        ServiceStatus::NotFound
    } else {
        ServiceStatus::NotRegistered
    }
}

/// An error a framework call reported.
#[derive(Debug, PartialEq, Eq)]
pub struct ServiceError {
    /// The error domain.
    pub domain: String,
    /// The error code within that domain.
    pub code: isize,
    /// The localized description.
    pub description: String,
}

/// Whether an error is `SMAppService`'s own `expected` code: both the
/// domain and the code must match, since the same small integers mean
/// something else as POSIX or OSStatus codes.
pub open spec fn is_sm_error_spec(domain: Seq<char>, code: isize, expected: u32) -> bool {
    domain == SM_ERROR_DOMAIN@ && expected <= isize::MAX && code == expected
}

/// Whether `error` is `SMAppService`'s `expected` code.
pub fn is_sm_app_service_error(error: &ServiceError, expected: u32) -> (r: bool)
    ensures
        r == is_sm_error_spec(error.domain@, error.code, expected),
{
    if !same_text(error.domain.as_str(), SM_ERROR_DOMAIN) {
        return false;
    }
    if (expected as u64) > (isize::MAX as u64) {
        return false;
    }
    error.code == expected as isize
}

/// Treat exactly one framework error code, the "already in the desired
/// state" one for the operation, as success; any other error is reported
/// by its description.
pub fn forgive(result: Result<(), ServiceError>, benign: u32) -> (r: Result<(), String>)
    ensures
        result is Ok ==> r is Ok,
        result matches Err(e) ==> (is_sm_error_spec(e.domain@, e.code, benign) ==> r is Ok),
        result matches Err(e) ==> (!is_sm_error_spec(e.domain@, e.code, benign) ==> r == Err::<(), String>(e.description)),
{
    match result {
        Ok(()) => Ok(()),
        Err(error) => if is_sm_app_service_error(&error, benign) {
            Ok(())
        } else {
            Err(error.description)
        },
    }
}

} // verus!
