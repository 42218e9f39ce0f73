//! The persistence service: where the configuration file lives, what a
//! read yields when the file is absent, how an incoming document is
//! merged into the stored one, and where a backup is placed.
//!
//! The service computes paths and documents; reading and writing the
//! files themselves is the caller's side of the boundary.

use vstd::prelude::*;

use crate::error::AppError;
use crate::models::OpenClawConfig;
use crate::paths::backup_file_name;
use crate::paths::backup_name_chars;
use crate::paths::config_path_for_home;
use crate::paths::has_slash;
use crate::paths::join_path;
use crate::paths::parent_dir;

verus! {

/// Relies on dirs::home_dir: the platform's home-directory lookup,
/// rendered as text. The result depends on the environment, so nothing
/// is stated of the text that comes back.
#[verifier::external_body]
fn home_dir_string() -> (r: Option<String>) {
    dirs::home_dir().map(|p| p.to_string_lossy().to_string())
}

/// Relies on chrono::Utc::now and chrono's Datelike/Timelike accessors:
/// the current UTC time as (year, month, day, hour, minute, second),
/// within the ranges those traits document (month 1 to 12, day 1 to 31,
/// hour to 23, minute and second to 59).
#[verifier::external_body]
fn utc_now_parts() -> (r: (i32, u32, u32, u32, u32, u32))
    ensures
        1 <= r.1 <= 12,
        1 <= r.2 <= 31,
        r.3 <= 23,
        r.4 <= 59,
        r.5 <= 59,
{
    let now = chrono::Utc::now();
    (
        chrono::Datelike::year(&now),
        chrono::Datelike::month(&now),
        chrono::Datelike::day(&now),
        chrono::Timelike::hour(&now),
        chrono::Timelike::minute(&now),
        chrono::Timelike::second(&now),
    )
}

/// A configuration document section is kept when the incoming document
/// leaves it out: the incoming value wins only where it is present.
fn keep_or_replace<T>(existing: Option<T>, incoming: Option<T>) -> (r: Option<T>)
    ensures
        incoming is Some ==> r == incoming,
        incoming is None ==> r == existing,
{
    match incoming {
        Some(v) => Some(v),
        None => existing,
    }
}

/// The document a read yields: the parsed document where the file held
/// one, the empty document where the file was absent.
pub fn config_or_default(loaded: Option<OpenClawConfig>) -> (r: OpenClawConfig)
    ensures
        loaded matches Some(c) ==> r == c,
        loaded is None ==> r.is_empty_doc() && r.wf(),
{
    match loaded {
        Some(c) => c,
        None => Default::default(),
    }
}

/// Knows the configuration file's path and merges documents for writing.
#[derive(Debug)]
pub struct ConfigService {
    config_path: String,
}

impl View for ConfigService {
    type V = Seq<char>;

    /// The characters of the configuration file's path.
    closed spec fn view(&self) -> Seq<char> {
        self.config_path@
    }
}

impl ConfigService {
    /// The path has a directory part, so backups have somewhere to go.
    pub open spec fn wf(&self) -> bool {
        has_slash(self@)
    }

    /// A service for the fixed per-user location
    /// `<home>/.openclaw/openclaw.json`; fails only when no home
    /// directory can be determined.
    pub fn new() -> (r: Result<ConfigService, AppError>)
        ensures
            match r {
                Ok(s) => s.wf() && exists|h: Seq<char>|
                    s@ == h + "/.openclaw/openclaw.json"@,
                Err(e) => e is ConfigPathNotFound,
            },
    {
        match home_dir_string() {
            Some(home) => {
                let path = config_path_for_home(home.as_str());
                let s = ConfigService { config_path: path };
                proof {
                    reveal_strlit("/.openclaw/openclaw.json");
                    assert(s@ == home@ + "/.openclaw/openclaw.json"@);
                    assert(s@[home@.len() as int] == '/');
                    assert(has_slash(s@));
                }
                Ok(s)
            },
            None => Err(AppError::ConfigPathNotFound),
        }
    }

    /// A service persisting to the given file path.
    pub fn with_config_path(config_path: String) -> (r: ConfigService)
        ensures
            r@ == config_path@,
    {
        ConfigService { config_path }
    }

    /// The configuration file's path.
    pub fn get_config_path(&self) -> (r: String)
        ensures
            r@ == self@,
    {
        self.config_path.clone()
    }

    /// Merges an incoming document into the stored one, top-level
    /// section by section: a section present in the incoming document
    /// replaces the stored one; a section it leaves out is kept.
    pub fn merge_configs(&self, existing: OpenClawConfig, incoming: OpenClawConfig) -> (r:
        OpenClawConfig)
        ensures
            r.meta == (if incoming.meta is Some { incoming.meta } else { existing.meta }),
            r.wizard == (if incoming.wizard is Some { incoming.wizard } else { existing.wizard }),
            r.models == (if incoming.models is Some { incoming.models } else { existing.models }),
            r.agents == (if incoming.agents is Some { incoming.agents } else { existing.agents }),
            r.auth == (if incoming.auth is Some { incoming.auth } else { existing.auth }),
            r.messages == (if incoming.messages is Some {
                incoming.messages
            } else {
                existing.messages
            }),
            r.commands == (if incoming.commands is Some {
                incoming.commands
            } else {
                existing.commands
            }),
            r.gateway == (if incoming.gateway is Some {
                incoming.gateway
            } else {
                existing.gateway
            }),
            r.skills == (if incoming.skills is Some { incoming.skills } else { existing.skills }),
            existing.wf() && incoming.wf() ==> r.wf(),
    {
        OpenClawConfig {
            meta: keep_or_replace(existing.meta, incoming.meta),
            wizard: keep_or_replace(existing.wizard, incoming.wizard),
            models: keep_or_replace(existing.models, incoming.models),
            agents: keep_or_replace(existing.agents, incoming.agents),
            auth: keep_or_replace(existing.auth, incoming.auth),
            messages: keep_or_replace(existing.messages, incoming.messages),
            commands: keep_or_replace(existing.commands, incoming.commands),
            gateway: keep_or_replace(existing.gateway, incoming.gateway),
            skills: keep_or_replace(existing.skills, incoming.skills),
        }
    }

    /// The backup directory and backup file path for a backup taken at
    /// the given UTC timestamp: the `backups` directory beside the
    /// configuration file, and `openclaw_backup_<YYYYMMDD_HHMMSS>.json`
    /// within it.
    pub fn backup_paths_at(&self, y: i32, mo: u32, d: u32, h: u32, mi: u32, s: u32) -> (r: (
        String,
        String,
    ))
        requires
            self.wf(),
        ensures
            exists|i: int|
                0 <= i < self@.len() && self@[i] == '/' && (forall|j: int|
                    i < j < self@.len() ==> self@[j] != '/') && r.0@ == self@.subrange(0, i)
                    + "/backups"@,
            r.1@ == r.0@ + "/"@ + backup_name_chars(
                y as int,
                mo as nat,
                d as nat,
                h as nat,
                mi as nat,
                s as nat,
            ),
    {
        match parent_dir(self.config_path.as_str()) {
            Some(parent) => {
                let dir = join_path(parent.as_str(), "backups");
                proof {
                    reveal_strlit("/backups");
                    reveal_strlit("/");
                    reveal_strlit("backups");
                    assert("/"@ + "backups"@ =~= "/backups"@);
                    let i = choose|i: int|
                        0 <= i < self@.len() && self@[i] == '/' && parent@ == self@.subrange(0, i)
                            && (forall|j: int| i < j < self@.len() ==> self@[j] != '/');
                    assert(dir@ =~= self@.subrange(0, i) + "/backups"@);
                }
                let name = backup_file_name(y, mo, d, h, mi, s);
                let path = join_path(dir.as_str(), name.as_str());
                (dir, path)
            },
            None => {
                proof {
                    assert(false);  // the path has a separator, so a parent exists
                }
                (String::new(), String::new())
            },
        }
    }

    /// The backup directory and backup file path for a backup taken
    /// now, in UTC.
    pub fn backup_paths(&self) -> (r: (String, String))
        requires
            self.wf(),
        ensures
            exists|i: int|
                0 <= i < self@.len() && self@[i] == '/' && (forall|j: int|
                    i < j < self@.len() ==> self@[j] != '/') && r.0@ == self@.subrange(0, i)
                    + "/backups"@,
            exists|y: int, mo: nat, d: nat, h: nat, mi: nat, s: nat|
                1 <= mo <= 12 && 1 <= d <= 31 && h <= 23 && mi <= 59 && s <= 59 && r.1@ == r.0@
                    + "/"@ + backup_name_chars(y, mo, d, h, mi, s),
    {
        let (y, mo, d, h, mi, s) = utc_now_parts();
        self.backup_paths_at(y, mo, d, h, mi, s)
    }
}

} // verus!
