//! Finding, and where needed creating, the configuration file: the
//! decisions, one answer from the file system at a time.

use vstd::prelude::*;
use vstd::string::*;

verus! {

/// Where resolving the configuration file stands. Each state but the last
/// two names what the caller has to find out or do next; the directory is
/// the one named by `config_dir_name` inside `base`, the file the one named
/// by `config_file_name` inside that directory.
#[derive(Debug, PartialEq, Eq)]
pub enum LocateState {
    /// Ask for the per-user configuration directory and the home directory.
    FindBase,
    /// Ask whether the directory exists.
    ProbeDir { base: String },
    /// Create the directory, a single level.
    CreateDir { base: String },
    /// Ask whether the file exists.
    ProbeFile { base: String },
    /// Write the text of an empty document to the file.
    CreateFile { base: String },
    /// The file exists at its place under `base`.
    Located { base: String },
    /// No location can be had: the store works in memory only.
    Unavailable { reason: String },
}

/// An answer from the file system.
#[derive(Debug, PartialEq, Eq)]
pub enum LocateEvent {
    /// The two candidate base directories, each as far as it is known.
    Bases { config_dir: Option<String>, home_dir: Option<String> },
    /// Whether what was probed exists.
    Exists(bool),
    /// How creating the directory or the file went, with the error's text.
    Done(Result<(), String>),
}

/// The name of the configuration directory inside the base directory.
pub fn config_dir_name() -> (r: &'static str)
    ensures
        r@ == ".acrn-configurator"@,
{
    ".acrn-configurator"
}

/// The name of the configuration file inside the configuration directory.
pub fn config_file_name() -> (r: &'static str)
    ensures
        r@ == "config.json"@,
{
    "config.json"
}

/// The state that follows `state` on `event`. The base is the per-user
/// configuration directory, or else the home directory; a directory or a
/// file that is missing is created; a failure to create either ends in
/// `Unavailable` with the error's text. An event that does not answer the
/// state leaves it as it is.
pub fn ensure_config_file(state: LocateState, event: LocateEvent) -> (r: LocateState)
    ensures
        match (state, event) {
            (LocateState::FindBase, LocateEvent::Bases { config_dir: Some(dir), home_dir: _ }) => r
                == (LocateState::ProbeDir { base: dir }),
            (LocateState::FindBase, LocateEvent::Bases { config_dir: None, home_dir: Some(dir) }) => r
                == (LocateState::ProbeDir { base: dir }),
            (LocateState::FindBase, LocateEvent::Bases { config_dir: None, home_dir: None }) => (r
                matches LocateState::Unavailable { reason } && reason@
                == "get config_dir and home_dir error!"@),
            (LocateState::ProbeDir { base }, LocateEvent::Exists(found)) => r == (if found {
                LocateState::ProbeFile { base }
            } else {
                LocateState::CreateDir { base }
            }),
            (LocateState::CreateDir { base }, LocateEvent::Done(Ok(_))) => r
                == (LocateState::ProbeFile { base }),
            (LocateState::CreateDir { base }, LocateEvent::Done(Err(reason))) => r
                == (LocateState::Unavailable { reason }),
            (LocateState::ProbeFile { base }, LocateEvent::Exists(found)) => r == (if found {
                LocateState::Located { base }
            } else {
                LocateState::CreateFile { base }
            }),
            (LocateState::CreateFile { base }, LocateEvent::Done(Ok(_))) => r
                == (LocateState::Located { base }),
            (LocateState::CreateFile { base }, LocateEvent::Done(Err(reason))) => r
                == (LocateState::Unavailable { reason }),
            _ => r == state,
        },
{
    match (state, event) {
        (LocateState::FindBase, LocateEvent::Bases { config_dir: Some(dir), home_dir: _ }) => {
            LocateState::ProbeDir { base: dir }
        },
        (LocateState::FindBase, LocateEvent::Bases { config_dir: None, home_dir: Some(dir) }) => {
            LocateState::ProbeDir { base: dir }
        },
        (LocateState::FindBase, LocateEvent::Bases { config_dir: None, home_dir: None }) => {
            LocateState::Unavailable { reason: String::from_str("get config_dir and home_dir error!") }
        },
        (LocateState::ProbeDir { base }, LocateEvent::Exists(found)) => {
            if found {
                LocateState::ProbeFile { base }
            } else {
                LocateState::CreateDir { base }
            }
        },
        (LocateState::CreateDir { base }, LocateEvent::Done(Ok(_))) => LocateState::ProbeFile { base },
        (LocateState::CreateDir { base: _ }, LocateEvent::Done(Err(reason))) => {
            LocateState::Unavailable { reason }
        },
        (LocateState::ProbeFile { base }, LocateEvent::Exists(found)) => {
            if found {
                LocateState::Located { base }
            } else {
                LocateState::CreateFile { base }
            }
        },
        (LocateState::CreateFile { base }, LocateEvent::Done(Ok(_))) => LocateState::Located { base },
        (LocateState::CreateFile { base: _ }, LocateEvent::Done(Err(reason))) => {
            LocateState::Unavailable { reason }
        },
        (state, _) => state,
    }
}

} // verus!
