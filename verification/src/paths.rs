//! Per-user application directories, following the XDG Base Directory
//! layout on every platform: configuration under `~/.config/openlogi`, data
//! under `~/.local/share/openlogi`, state under `~/.local/state/openlogi`.
//!
//! Paths are handled as text. Joining follows the platform's rule for a
//! relative segment: one separator between the parts, none added after a
//! trailing one, and an absolute segment replaces the base.
//!
//! Local packaged dev builds use the same layout under an `openlogi-dev`
//! directory, so a dev agent never touches the shipped app's files.
use etcetera::base_strategy::Xdg;
use etcetera::BaseStrategy;
use crate::keys::same_text;
use vstd::prelude::*;
use vstd::string::StrSliceExecFns;

verus! {

/// Production subdirectory created under each XDG base directory.
pub const APP_DIR: &'static str = "openlogi";
/// The dev profile's subdirectory.
pub const DEV_APP_DIR: &'static str = "openlogi-dev";
/// The user's configuration file, under the config directory.
pub const CONFIG_FILE: &'static str = "config.toml";
/// The agent's IPC socket, under the runtime directory.
pub const AGENT_SOCKET: &'static str = "agent.sock";
/// The launchd label the shipped agent service is registered under.
pub const AGENT_SERVICE_LABEL: &'static str = "app.openlogi.agent";
/// The suffix dev-channel identifiers carry.
pub const DEV_ID_SUFFIX: &'static str = ".dev";

/// `seg` joined onto `base`.
pub open spec fn path_join(base: Seq<char>, seg: Seq<char>) -> Seq<char> {
    if seg.len() > 0 && seg[0] == '/' {
        seg
    } else if base.len() == 0 || base.last() == '/' {
        base + seg
    } else {
        base + seq!['/'] + seg
    }
}

/// Join `seg` onto `base`.
pub fn join(base: &str, seg: &str) -> (r: String)
    ensures
        r@ == path_join(base@, seg@),
{
    proof {
        reveal_strlit("/");
    }
    let sl = seg.unicode_len();
    if sl > 0 && seg.get_char(0) == '/' {
        return seg.to_owned();
    }
    let bl = base.unicode_len();
    let mut out = base.to_owned();
    if bl > 0 && base.get_char(bl - 1) != '/' {
        out.append("/");
    }
    out.append(seg);
    out
}

/// `s` ends with `suffix`.
pub open spec fn ends_with(s: Seq<char>, suffix: Seq<char>) -> bool {
    suffix.len() <= s.len() && s.subrange(s.len() - suffix.len(), s.len() as int) == suffix
}

/// Whether `s` ends with `suffix`.
pub fn text_ends_with(s: &str, suffix: &str) -> (r: bool)
    ensures
        r == ends_with(s@, suffix@),
{
    let n = s.unicode_len();
    let m = suffix.unicode_len();
    if m > n {
        return false;
    }
    let tail = s.substring_char(n - m, n);
    same_text(tail, suffix)
}

/// A dev-channel variant of the identifier `id`.
pub open spec fn dev_id_spec(id: Seq<char>) -> Seq<char> {
    id + DEV_ID_SUFFIX@
}

/// The dev-channel variant of `id`.
pub fn dev_id(id: &str) -> (r: String)
    ensures
        r@ == dev_id_spec(id@),
{
    let mut out = id.to_owned();
    out.append(DEV_ID_SUFFIX);
    out
}

/// Whether `id` is a dev-channel identifier.
pub fn is_dev_id(id: &str) -> (r: bool)
    ensures
        r == ends_with(id@, DEV_ID_SUFFIX@),
{
    text_ends_with(id, DEV_ID_SUFFIX)
}

/// Which of the two side-by-side installs a process belongs to.
#[derive(Debug, Clone, Copy, PartialEq, Eq, Structural)]
pub enum Profile {
    /// The shipped app.
    Production,
    /// A local packaged build stamped with dev-channel identifiers.
    Dev,
}

/// The profile directory name under each XDG base.
pub open spec fn app_dir_spec(p: Profile) -> Seq<char> {
    match p {
        Profile::Production => APP_DIR@,
        Profile::Dev => DEV_APP_DIR@,
    }
}

/// The profile-forcing environment value of each profile.
pub open spec fn env_value_spec(p: Profile) -> Seq<char> {
    match p {
        Profile::Production => "prod"@,
        Profile::Dev => "dev"@,
    }
}

/// The profile an environment value and the executable's bundle
/// identifier select: the value first (`dev`; `prod`, or the older
/// `production`), then a dev-channel bundle identifier, else production.
pub open spec fn detected_profile(env: Option<Seq<char>>, bundle_identifier: Option<Seq<char>>) -> Profile {
    if env == Some("dev"@) {
        Profile::Dev
    } else if env == Some("prod"@) || env == Some("production"@) {
        Profile::Production
    } else if bundle_identifier matches Some(id) && ends_with(id, DEV_ID_SUFFIX@) {
        Profile::Dev
    } else {
        Profile::Production
    }
}

impl Profile {
    /// The value of the profile-forcing environment variable that selects
    /// this profile.
    pub fn env_value(self) -> (r: &'static str)
        ensures
            r@ == env_value_spec(self),
    {
        match self {
            Profile::Production => "prod",
            Profile::Dev => "dev",
        }
    }

    /// The per-profile directory name under each XDG base.
    pub fn app_dir(self) -> (r: &'static str)
        ensures
            r@ == app_dir_spec(self),
    {
        match self {
            Profile::Production => APP_DIR,
            Profile::Dev => DEV_APP_DIR,
        }
    }

    /// The launchd service label this profile's bundle declares. The dev
    /// variant is suffixed, so a dev registration never collides with the
    /// shipped one.
    pub fn agent_service_label(self) -> (r: String)
        ensures
            r@ == match self {
                Profile::Production => AGENT_SERVICE_LABEL@,
                Profile::Dev => dev_id_spec(AGENT_SERVICE_LABEL@),
            },
    {
        match self {
            Profile::Production => AGENT_SERVICE_LABEL.to_owned(),
            Profile::Dev => dev_id(AGENT_SERVICE_LABEL),
        }
    }

    /// The profile selected by the profile-forcing environment value, if
    /// set, and the identifier of the bundle the executable lives in, if
    /// any.
    pub fn detect_from(env: Option<&str>, bundle_identifier: Option<&str>) -> (r: Self)
        ensures
            r == detected_profile(
                match env {
                    Some(v) => Some(v@),
                    None => None,
                },
                match bundle_identifier {
                    Some(v) => Some(v@),
                    None => None,
                },
            ),
    {
        match env {
            Some(value) => {
                if same_text(value, "dev") {
                    return Profile::Dev;
                }
                if same_text(value, "prod") || same_text(value, "production") {
                    return Profile::Production;
                }
            },
            None => {},
        }
        match bundle_identifier {
            Some(id) => if is_dev_id(id) {
                Profile::Dev
            } else {
                Profile::Production
            },
            None => Profile::Production,
        }
    }
}

/// Failure resolving the per-user base directories.
#[derive(Debug, Clone, Copy, PartialEq, Eq, Structural)]
pub enum PathsError {
    /// No home directory could be determined for the current user.
    HomeNotFound,
}

impl PathsError {
    /// The error's message.
    pub fn message(&self) -> (r: String)
        ensures
            r@ == "could not resolve a home directory for the current user"@,
    {
        "could not resolve a home directory for the current user".to_owned()
    }
}

#[verifier::external_type_specification]
#[verifier::external_body]
pub struct ExXdg(Xdg);

/// `etcetera::base_strategy::Xdg::new`: the XDG strategy rooted at the
/// current user's home directory, or `None` when none can be determined.
/// The answer depends on the environment; nothing is stated about it.
#[verifier::external_body]
fn xdg_new() -> Option<Xdg> {
    Xdg::new().ok()
}

/// `Xdg::home_dir`, as text (a name that is not valid UTF-8 is converted
/// lossily). The answer depends on the environment.
#[verifier::external_body]
fn xdg_home_dir(xdg: &Xdg) -> String {
    xdg.home_dir().to_string_lossy().into_owned()
}

/// `Xdg::config_dir`, as text (a name that is not valid UTF-8 is converted
/// lossily): `$XDG_CONFIG_HOME` when that is an absolute path, else the home
/// directory joined with `.config/`. It reads the environment at each call,
/// so which of the two comes back is not stated; that it is one of them is.
#[verifier::external_body]
fn xdg_config_dir(xdg: &Xdg) -> (r: String)
    ensures
        config_home(r@),
{
    xdg.config_dir().to_string_lossy().into_owned()
}

/// `Xdg::data_dir`, as text (a name that is not valid UTF-8 is converted
/// lossily): `$XDG_DATA_HOME` when that is an absolute path, else the home
/// directory joined with `.local/share/`. It reads the environment at each
/// call, so which of the two comes back is not stated; that it is one of
/// them is.
#[verifier::external_body]
fn xdg_data_dir(xdg: &Xdg) -> (r: String)
    ensures
        data_home(r@),
{
    xdg.data_dir().to_string_lossy().into_owned()
}

/// `Xdg::state_dir`, as text (a name that is not valid UTF-8 is converted
/// lossily). The source always answers `Some`: `$XDG_STATE_HOME` when that
/// is an absolute path, else the home directory joined with
/// `.local/state/`. Which of the two comes back depends on the environment
/// and is not stated; that it is one of them is.
#[verifier::external_body]
fn xdg_state_dir(xdg: &Xdg) -> (r: Option<String>)
    ensures
        r is Some,
        r matches Some(d) ==> state_home(d@),
{
    match xdg.state_dir() {
        Some(dir) => Some(dir.to_string_lossy().into_owned()),
        None => None,
    }
}

/// `Xdg::runtime_dir`, as text (a name that is not valid UTF-8 is
/// converted lossily): `$XDG_RUNTIME_DIR` when set and an absolute path,
/// else nothing. Whether it is set depends on the environment; that a
/// directory it gives is absolute is stated.
#[verifier::external_body]
fn xdg_runtime_dir(xdg: &Xdg) -> (r: Option<String>)
    ensures
        r matches Some(d) ==> rooted(d@),
{
    match xdg.runtime_dir() {
        Some(dir) => Some(dir.to_string_lossy().into_owned()),
        None => None,
    }
}

fn xdg() -> (r: Result<Xdg, PathsError>) {
    match xdg_new() {
        Some(x) => Ok(x),
        None => Err(PathsError::HomeNotFound),
    }
}

/// Whether `p` has the form of an absolute path: it starts at a root (a
/// slash or a backslash) or with a drive prefix such as `C:`.
pub open spec fn rooted(p: Seq<char>) -> bool {
    p.len() > 0 && (p[0] == '/' || p[0] == '\\' || (p.len() >= 2 && p[1] == ':'))
}

/// A config home as the XDG strategy gives it: an absolute
/// `$XDG_CONFIG_HOME`, or a home directory joined with `.config/`.
pub open spec fn config_home(b: Seq<char>) -> bool {
    rooted(b) || ends_with(b, ".config/"@)
}

/// A data home as the XDG strategy gives it: an absolute `$XDG_DATA_HOME`,
/// or a home directory joined with `.local/share/`.
pub open spec fn data_home(b: Seq<char>) -> bool {
    rooted(b) || ends_with(b, ".local/share/"@)
}

/// A state home as the XDG strategy gives it: an absolute
/// `$XDG_STATE_HOME`, or a home directory joined with `.local/state/`.
pub open spec fn state_home(b: Seq<char>) -> bool {
    rooted(b) || ends_with(b, ".local/state/"@)
}

/// A runtime base: an absolute `$XDG_RUNTIME_DIR`, else the config home.
pub open spec fn runtime_base(b: Seq<char>) -> bool {
    rooted(b) || config_home(b)
}

/// The current user's home directory.
pub fn home_dir() -> (r: Result<String, PathsError>) {
    let xdg = xdg()?;
    Ok(xdg_home_dir(&xdg))
}

/// The launchd agent directory under `home`: `Library/LaunchAgents`.
pub open spec fn launch_agents_path(home: Seq<char>) -> Seq<char> {
    path_join(path_join(home, "Library"@), "LaunchAgents"@)
}

/// The launchd agent directory under `home`: `Library/LaunchAgents`.
pub fn launch_agents_dir_in(home: &str) -> (r: String)
    ensures
        r@ == launch_agents_path(home@),
{
    let library = join(home, "Library");
    join(library.as_str(), "LaunchAgents")
}

/// The current user's launchd agent directory, `~/Library/LaunchAgents`.
pub fn user_launch_agents_dir() -> (r: Result<String, PathsError>)
    ensures
        r matches Ok(p) ==> exists|home: Seq<char>| p@ == #[trigger] launch_agents_path(home),
{
    let home = home_dir()?;
    Ok(launch_agents_dir_in(home.as_str()))
}

/// The raw XDG config home directory (without the app subdirectory): an
/// absolute `$XDG_CONFIG_HOME`, else `~/.config/`.
pub fn xdg_config_home() -> (r: Result<String, PathsError>)
    ensures
        r matches Ok(p) ==> config_home(p@),
{
    let xdg = xdg()?;
    Ok(xdg_config_dir(&xdg))
}

/// The raw XDG data home directory (without the app subdirectory): an
/// absolute `$XDG_DATA_HOME`, else `~/.local/share/`.
pub fn xdg_data_home() -> (r: Result<String, PathsError>)
    ensures
        r matches Ok(p) ==> data_home(p@),
{
    let xdg = xdg()?;
    Ok(xdg_data_dir(&xdg))
}

/// `profile`'s directory under the base `base`.
pub fn profile_dir_in(base: &str, profile: Profile) -> (r: String)
    ensures
        r@ == path_join(base@, app_dir_spec(profile)),
{
    join(base, profile.app_dir())
}

/// The directory holding the config file for `profile`:
/// `$XDG_CONFIG_HOME/openlogi` (or `openlogi-dev`), `$XDG_CONFIG_HOME`
/// falling back to `~/.config`.
pub fn config_dir_for(profile: Profile) -> (r: Result<String, PathsError>)
    ensures
        r matches Ok(p) ==> exists|b: Seq<char>| config_home(b) && p@ == #[trigger] path_join(b, app_dir_spec(profile)),
{
    let base = xdg_config_home()?;
    Ok(profile_dir_in(base.as_str(), profile))
}

/// Full path to `profile`'s config file.
pub fn config_path_for(profile: Profile) -> (r: Result<String, PathsError>)
    ensures
        r matches Ok(p) ==> exists|b: Seq<char>|
            config_home(b) && p@ == path_join(#[trigger] path_join(b, app_dir_spec(profile)), CONFIG_FILE@),
{
    let dir = config_dir_for(profile)?;
    Ok(join(dir.as_str(), CONFIG_FILE))
}

/// `profile`'s directory for downloaded data: `$XDG_DATA_HOME/openlogi`,
/// `$XDG_DATA_HOME` falling back to `~/.local/share`.
pub fn data_dir_for(profile: Profile) -> (r: Result<String, PathsError>)
    ensures
        r matches Ok(p) ==> exists|b: Seq<char>| data_home(b) && p@ == #[trigger] path_join(b, app_dir_spec(profile)),
{
    let base = xdg_data_home()?;
    Ok(profile_dir_in(base.as_str(), profile))
}

/// The state directory under the given bases: the state base when there is
/// one, else the data base.
pub fn state_dir_in(state: Option<&str>, data: &str, profile: Profile) -> (r: String)
    ensures
        r@ == path_join(
            match state {
                Some(s) => s@,
                None => data@,
            },
            app_dir_spec(profile),
        ),
{
    match state {
        Some(s) => profile_dir_in(s, profile),
        None => profile_dir_in(data, profile),
    }
}

/// `profile`'s directory for logs and other rebuildable state:
/// `$XDG_STATE_HOME/openlogi`, `$XDG_STATE_HOME` falling back to
/// `~/.local/state`. (The data home would stand in for a missing state
/// home, but the XDG strategy always gives one.)
pub fn state_dir_for(profile: Profile) -> (r: Result<String, PathsError>)
    ensures
        r matches Ok(p) ==> exists|b: Seq<char>| state_home(b) && p@ == #[trigger] path_join(b, app_dir_spec(profile)),
{
    let xdg = xdg()?;
    let state = xdg_state_dir(&xdg);
    let data = xdg_data_dir(&xdg);
    let s = match &state {
        Some(s) => Some(s.as_str()),
        None => None,
    };
    Ok(state_dir_in(s, data.as_str(), profile))
}

/// The runtime directory under the given bases: the runtime base when
/// there is one, else the config base.
pub fn runtime_dir_in(runtime: Option<&str>, config: &str, profile: Profile) -> (r: String)
    ensures
        r@ == path_join(
            match runtime {
                Some(s) => s@,
                None => config@,
            },
            app_dir_spec(profile),
        ),
{
    match runtime {
        Some(s) => profile_dir_in(s, profile),
        None => profile_dir_in(config, profile),
    }
}

/// `profile`'s directory for runtime sockets: under an absolute
/// `$XDG_RUNTIME_DIR`, else under the config home.
pub fn runtime_dir_for(profile: Profile) -> (r: Result<String, PathsError>)
    ensures
        r matches Ok(p) ==> exists|b: Seq<char>| runtime_base(b) && p@ == #[trigger] path_join(b, app_dir_spec(profile)),
{
    let xdg = xdg()?;
    let runtime = xdg_runtime_dir(&xdg);
    let config = xdg_config_dir(&xdg);
    let s = match &runtime {
        Some(s) => Some(s.as_str()),
        None => None,
    };
    Ok(runtime_dir_in(s, config.as_str(), profile))
}

/// Path to `profile`'s agent IPC socket.
pub fn agent_socket_path_for(profile: Profile) -> (r: Result<String, PathsError>)
    ensures
        r matches Ok(p) ==> exists|b: Seq<char>|
            runtime_base(b) && p@ == path_join(#[trigger] path_join(b, app_dir_spec(profile)), AGENT_SOCKET@),
{
    let dir = runtime_dir_for(profile)?;
    Ok(join(dir.as_str(), AGENT_SOCKET))
}

/// Under the same base directory the two profiles never share a directory,
/// so a dev build never touches the shipped app's socket, config or cache.
pub proof fn profiles_never_share_a_directory(base: Seq<char>)
    ensures
        path_join(base, app_dir_spec(Profile::Dev)) != path_join(base, app_dir_spec(Profile::Production)),
{
    reveal_strlit("openlogi");
    reveal_strlit("openlogi-dev");
    let dev = path_join(base, app_dir_spec(Profile::Dev));
    let prod = path_join(base, app_dir_spec(Profile::Production));
    assert(dev.len() == prod.len() + 4);
}

/// A profile's own environment value forces that profile, whatever bundle
/// the executable lives in.
pub proof fn env_value_forces_its_profile(p: Profile, bundle_identifier: Option<Seq<char>>)
    ensures
        detected_profile(Some(env_value_spec(p)), bundle_identifier) == p,
{
    reveal_strlit("dev");
    reveal_strlit("prod");
    reveal_strlit("production");
    assert("dev"@.len() != "prod"@.len());
    assert("dev"@.len() != "production"@.len());
}

/// The dev registration's label never collides with the shipped one.
pub proof fn dev_label_differs(label: Seq<char>)
    ensures
        dev_id_spec(label) != label,
{
    reveal_strlit(".dev");
    assert(dev_id_spec(label).len() == label.len() + 4);
}

/// Without an environment override the bundle decides: an identifier that
/// ends in `.dev` selects the dev profile, any other identifier, or no
/// bundle at all, the production one.
pub proof fn bundle_decides_without_override(id: Seq<char>)
    ensures
        detected_profile(None, Some(id)) == Profile::Dev
            <==> (id.len() >= 4 && id.subrange(id.len() - 4, id.len() as int) == ".dev"@),
        detected_profile(None, None) == Profile::Production,
{
    reveal_strlit(".dev");
}

} // verus!
