//! The operations offered to the user interface, as far as they decide
//! anything: which history entries are still valid, and which path may be
//! added.

use crate::codec::{encode_list, json_list_text, text_or_empty_list};
use crate::history::{path_list, HistoryType};
use crate::store::{Configurator, PendingWrite};
use vstd::prelude::*;

verus! {

/// What stands at a path on disk.
#[derive(Clone, Copy, Debug, PartialEq, Eq, Structural)]
pub enum PathKind {
    Missing,
    File,
    Directory,
}

/// Whether a history entry is shown: it is not empty, and it is a directory
/// for a working folder, a file for a board or a scenario.
pub open spec fn shown(kind: HistoryType, path: Seq<char>, found: PathKind) -> bool {
    &&& path.len() > 0
    &&& match kind {
        HistoryType::WorkingFolder => found == PathKind::Directory,
        _ => found == PathKind::File,
    }
}

/// What was found for the entry at `i`; an entry without an answer counts as
/// missing.
pub open spec fn found_at(kinds: Seq<PathKind>, i: int) -> PathKind {
    if 0 <= i < kinds.len() {
        kinds[i]
    } else {
        PathKind::Missing
    }
}

/// The entries among the first `n` of `paths` that are shown, in order.
pub open spec fn clean(
    kind: HistoryType,
    paths: Seq<Seq<char>>,
    kinds: Seq<PathKind>,
    n: nat,
) -> Seq<Seq<char>>
    decreases n,
{
    if n == 0 {
        Seq::empty()
    } else {
        let rest = clean(kind, paths, kinds, (n - 1) as nat);
        if shown(kind, paths[n - 1], found_at(kinds, n - 1)) {
            rest.push(paths[n - 1])
        } else {
            rest
        }
    }
}

/// The text handed to the user interface for a list: its JSON text, or that
/// of an empty list where it has none.
pub open spec fn history_text(list: Seq<Seq<char>>) -> Seq<char> {
    match json_list_text(list) {
        Some(text) => text,
        None => "[]"@,
    }
}

/// A path is among the clean entries exactly if it stands at a place of the
/// list where it is shown: an entry that is empty, or that is not now a
/// directory (working folders) or a file (boards, scenarios), is left out,
/// though the stored list still holds it.
pub proof fn lemma_clean_exact(
    kind: HistoryType,
    paths: Seq<Seq<char>>,
    kinds: Seq<PathKind>,
    n: nat,
    x: Seq<char>,
)
    requires
        n <= paths.len(),
    ensures
        clean(kind, paths, kinds, n).contains(x) <==> exists|i: int|
            0 <= i < n && paths[i] == x && #[trigger] shown(kind, paths[i], found_at(kinds, i)),
    decreases n,
{
    if n > 0 {
        let m = (n - 1) as nat;
        let rest = clean(kind, paths, kinds, m);
        let all = clean(kind, paths, kinds, n);
        lemma_clean_exact(kind, paths, kinds, m, x);
        if all.contains(x) {
            let j = choose|j: int| 0 <= j < all.len() && all[j] == x;
            if j < rest.len() {
                assert(rest[j] == x);
                assert(rest.contains(x));
                let i = choose|i: int|
                    0 <= i < m && paths[i] == x && #[trigger] shown(
                        kind,
                        paths[i],
                        found_at(kinds, i),
                    );
                assert(0 <= i < n && paths[i] == x && shown(kind, paths[i], found_at(kinds, i)));
            } else {
                assert(paths[n - 1] == x && shown(kind, paths[n - 1], found_at(kinds, n - 1)));
            }
        }
        if exists|i: int|
            0 <= i < n && paths[i] == x && #[trigger] shown(kind, paths[i], found_at(kinds, i)) {
            let i = choose|i: int|
                0 <= i < n && paths[i] == x && #[trigger] shown(kind, paths[i], found_at(kinds, i));
            if i < m {
                assert(rest.contains(x));
                let j = choose|j: int| 0 <= j < rest.len() && rest[j] == x;
                assert(all[j] == x);
            } else {
                assert(all[rest.len() as int] == x);
            }
        }
    }
}

/// Whether what was found at a path suits the kind of history.
fn suits(history_type: HistoryType, found: PathKind) -> (r: bool)
    ensures
        r == match history_type {
            HistoryType::WorkingFolder => found == PathKind::Directory,
            _ => found == PathKind::File,
        },
{
    match history_type {
        HistoryType::WorkingFolder => found == PathKind::Directory,
        _ => found == PathKind::File,
    }
}

/// The entries of `history` that are shown, in order, when `kinds[i]` is
/// what stands on disk at `history[i]`.
pub fn clean_history(history_type: HistoryType, history: &Vec<String>, kinds: &Vec<PathKind>) -> (r:
    Vec<String>)
    ensures
        path_list(&r) == clean(history_type, path_list(history), kinds@, history.len() as nat),
{
    let mut kept: Vec<String> = Vec::new();
    let mut i: usize = 0;
    assert(path_list(&kept) =~= Seq::empty());
    while i < history.len()
        invariant
            i <= history.len(),
            path_list(&kept) == clean(history_type, path_list(history), kinds@, i as nat),
        decreases history.len() - i,
    {
        let found = if i < kinds.len() {
            kinds[i]
        } else {
            PathKind::Missing
        };
        let entry = &history[i];
        let ghost before = path_list(&kept);
        if !entry.as_str().is_empty() && suits(history_type, found) {
            kept.push(entry.clone());
            assert(path_list(&kept) =~= before.push(entry@));
        }
        i += 1;
    }
    kept
}

/// The history that `history_type` selects, without the entries that are
/// not shown, as the JSON text of a list. The stored list stays as it is.
pub fn get_history(configurator: &Configurator, history_type: HistoryType, kinds: &Vec<PathKind>) -> (r:
    String)
    ensures
        r@ == history_text(
            clean(
                history_type,
                configurator.config_data.history.entries(history_type),
                kinds@,
                configurator.config_data.history.entries(history_type).len(),
            ),
        ),
{
    let history = configurator.get_history(history_type);
    let shown_entries = clean_history(history_type, history, kinds);
    text_or_empty_list(encode_list(&shown_entries))
}

/// Whether a path may be added to a history: it must be a file or a
/// directory that exists.
pub fn validate_history_path(found: PathKind) -> (r: Result<(), &'static str>)
    ensures
        found == PathKind::Missing ==> (r matches Err(message) && message@
            == "Not a validate dir or file path."@),
        found != PathKind::Missing ==> r is Ok,
{
    if found == PathKind::Missing {
        return Err("Not a validate dir or file path.");
    }
    Ok(())
}

/// Adds `history_path` to a history unless nothing stands at that path, and
/// gives the write that saves the store. A refused path leaves the store as
/// it was.
pub fn add_history(
    configurator: &mut Configurator,
    history_type: HistoryType,
    history_path: String,
    found: PathKind,
) -> (r: Result<Option<PendingWrite>, &'static str>)
    ensures
        found == PathKind::Missing ==> (r matches Err(message) && message@
            == "Not a validate dir or file path."@ && *final(configurator) == *old(configurator)),
        found != PathKind::Missing ==> (r matches Ok(write) && Configurator::added(
            *old(configurator),
            *final(configurator),
            history_type,
            history_path@,
        ) && Configurator::saves(*final(configurator), write)),
{
    match validate_history_path(found) {
        Err(message) => Err(message),
        Ok(_) => {
            configurator.add_history(history_type, history_path);
            Ok(configurator.save_config())
        },
    }
}

/// The home directory as text, empty where there is none.
pub fn get_home(home_dir: Option<String>) -> (r: String)
    ensures
        match home_dir {
            Some(path) => r == path,
            None => r@.len() == 0,
        },
{
    match home_dir {
        None => String::new(),
        Some(path) => path,
    }
}

} // verus!
