//! The store: a document, where it is kept, and whether it may be written.

use crate::codec::{lemma_empty_document_text, serialized, serialized_lists};
use crate::history::{
    keep_first, lemma_add_order, lemma_add_twice, path_list, promote, promote_path, ConfigData,
    HistoryType,
};
use vstd::prelude::*;
use vstd::string::*;

verus! {

/// What reading the configuration file and parsing its text gave.
#[derive(Debug, PartialEq, Eq)]
pub enum FileContent {
    /// The file could not be read.
    Unreadable,
    /// The file was read, but its text is no document.
    Malformed,
    /// The document that the file holds.
    Document(ConfigData),
}

/// A file to be written: the caller writes it and ignores a failure.
#[derive(Debug, PartialEq, Eq)]
pub struct PendingWrite {
    pub path: String,
    pub contents: String,
}

/// The next thing to do to replace the board file of a working folder.
#[derive(Debug, PartialEq, Eq)]
pub enum BoardAction {
    /// Delete this file, an old board file; stop if that fails.
    Remove(String),
    /// Write `contents` to the file `file_name` in `folder`.
    Write { folder: String, file_name: String, contents: String },
}

/// The store's runtime handle.
#[derive(Debug, PartialEq, Eq)]
pub struct Configurator {
    pub config_write_enable: bool,
    pub config_path: String,
    pub config_data: ConfigData,
    pub working_folder: String,
}

impl Configurator {
    /// `store` is what loading `content` from `path` gives: an unreadable
    /// file gives an empty document that is never written, a malformed one an
    /// empty document that replaces it at the next save.
    pub open spec fn loaded_from(store: Configurator, path: String, content: FileContent) -> bool {
        &&& store.config_path == path
        &&& store.working_folder@.len() == 0
        &&& match content {
            FileContent::Unreadable => !store.config_write_enable && store.config_data.is_empty(),
            FileContent::Malformed => store.config_write_enable && store.config_data.is_empty(),
            FileContent::Document(data) => store.config_write_enable && store.config_data == data,
        }
    }

    /// `r` is the write that saves `store`: none while writing is disabled,
    /// else the document's text for the configuration file.
    pub open spec fn saves(store: Configurator, r: Option<PendingWrite>) -> bool {
        if store.config_write_enable {
            r matches Some(w) && w.path == store.config_path && w.contents@ == serialized(
                &store.config_data,
            )
        } else {
            r is None
        }
    }

    /// `post` is `pre` after `path` was added to the list that `kind`
    /// selects: that list holds `path` in front and the first occurrence of
    /// each path only, and nothing else has changed.
    pub open spec fn added(
        pre: Configurator,
        post: Configurator,
        kind: HistoryType,
        path: Seq<char>,
    ) -> bool {
        &&& post.config_data.history.entries(kind) == keep_first(
            seq![path] + pre.config_data.history.entries(kind),
        )
        &&& kind != HistoryType::WorkingFolder ==> post.config_data.history.working_folder
            == pre.config_data.history.working_folder
        &&& kind != HistoryType::Board ==> post.config_data.history.board_file
            == pre.config_data.history.board_file
        &&& kind != HistoryType::Scenario ==> post.config_data.history.scenario_file
            == pre.config_data.history.scenario_file
        &&& post.config_write_enable == pre.config_write_enable
        &&& post.config_path == pre.config_path
        &&& post.working_folder == pre.working_folder
    }

    /// The store for a resolved location and what was loaded from it, or,
    /// where no location could be resolved, an empty store kept in memory only.
    pub fn new(location: Option<(String, FileContent)>) -> (r: Configurator)
        ensures
            match location {
                Some((path, content)) => Configurator::loaded_from(r, path, content),
                None => {
                    &&& !r.config_write_enable
                    &&& r.config_path@ == "."@
                    &&& r.config_data.is_empty()
                    &&& r.working_folder@.len() == 0
                },
            },
    {
        match location {
            Some((path, content)) => Configurator::init(path, content),
            None => Configurator {
                config_write_enable: false,
                config_path: String::from_str("."),
                config_data: ConfigData::new(),
                working_folder: String::new(),
            },
        }
    }

    /// The store for the file at `config_file_path`, given what reading and
    /// parsing it gave. Loading never fails: it degrades to an empty document.
    pub fn init(config_file_path: String, content: FileContent) -> (r: Configurator)
        ensures
            Configurator::loaded_from(r, config_file_path, content),
    {
        match content {
            FileContent::Unreadable => Configurator {
                config_write_enable: false,
                config_path: config_file_path,
                config_data: ConfigData::new(),
                working_folder: String::new(),
            },
            FileContent::Malformed => Configurator {
                config_write_enable: true,
                config_path: config_file_path,
                config_data: ConfigData::new(),
                working_folder: String::new(),
            },
            FileContent::Document(config_data) => Configurator {
                config_write_enable: true,
                config_path: config_file_path,
                config_data,
                working_folder: String::new(),
            },
        }
    }

    /// The write that saves the document: none while writing is disabled,
    /// else the document's text for the configuration file.
    pub fn save_config(&self) -> (r: Option<PendingWrite>)
        ensures
            Configurator::saves(*self, r),
    {
        if !self.config_write_enable {
            return None;
        }
        Some(PendingWrite { path: self.config_path.clone(), contents: self.config_data.serialize() })
    }

    /// Puts `history_path` in front of the list that `history_type` selects
    /// and keeps the first occurrence of each path only.
    pub fn add_history(&mut self, history_type: HistoryType, history_path: String)
        ensures
            Configurator::added(*old(self), *final(self), history_type, history_path@),
            final(self).config_data.history.entries(history_type).no_duplicates(),
            final(self).config_data.history.entries(history_type)[0] == history_path@,
            old(self).config_data.history.entries(history_type).no_duplicates() ==> final(self).config_data.history.entries(history_type) == promote(
                old(self).config_data.history.entries(history_type),
                history_path@,
            ),
            old(self).config_data.history.wf() ==> final(self).config_data.history.wf(),
    {
        match history_type {
            HistoryType::WorkingFolder => {
                promote_path(&mut self.config_data.history.working_folder, history_path);
            },
            HistoryType::Board => {
                promote_path(&mut self.config_data.history.board_file, history_path);
            },
            HistoryType::Scenario => {
                promote_path(&mut self.config_data.history.scenario_file, history_path);
            },
        }
    }

    /// The list that `history_type` selects, as stored.
    pub fn get_history(&self, history_type: HistoryType) -> (r: &Vec<String>)
        ensures
            path_list(r) == self.config_data.history.entries(history_type),
            *r == match history_type {
                HistoryType::WorkingFolder => self.config_data.history.working_folder,
                HistoryType::Board => self.config_data.history.board_file,
                HistoryType::Scenario => self.config_data.history.scenario_file,
            },
    {
        match history_type {
            HistoryType::WorkingFolder => &self.config_data.history.working_folder,
            HistoryType::Board => &self.config_data.history.board_file,
            HistoryType::Scenario => &self.config_data.history.scenario_file,
        }
    }

    /// Empties the document and gives the write that saves it. Every list
    /// read afterwards is empty, and what is written is the text of an empty
    /// document.
    pub fn force_reset(&mut self) -> (r: Option<PendingWrite>)
        ensures
            final(self).config_data.is_empty(),
            final(self).config_data.history.wf(),
            forall|kind: HistoryType| #[trigger]
                final(self).config_data.history.entries(kind).len() == 0,
            final(self).config_write_enable == old(self).config_write_enable,
            final(self).config_path == old(self).config_path,
            final(self).working_folder == old(self).working_folder,
            !old(self).config_write_enable ==> r is None,
            old(self).config_write_enable ==> (r matches Some(w) && w.path == old(self).config_path
                && w.contents@ == serialized_lists(Seq::empty(), Seq::empty(), Seq::empty())),
    {
        self.config_data = ConfigData::new();
        proof {
            lemma_empty_document_text(&self.config_data);
            assert forall|kind: HistoryType| #[trigger]
                self.config_data.history.entries(kind).len() == 0 by {
                assert(path_list(&self.config_data.history.working_folder).len() == 0);
                assert(path_list(&self.config_data.history.board_file).len() == 0);
                assert(path_list(&self.config_data.history.scenario_file).len() == 0);
            }
        }
        self.save_config()
    }

    /// Sets the folder that the board file is written to.
    pub fn set_working_folder(&mut self, working_folder: String)
        ensures
            final(self).working_folder == working_folder,
            final(self).config_write_enable == old(self).config_write_enable,
            final(self).config_path == old(self).config_path,
            final(self).config_data == old(self).config_data,
    {
        self.working_folder = working_folder
    }

    /// The pattern, to be matched without regard to case, of the board files
    /// that stand directly in the working folder.
    pub fn board_pattern(&self) -> (r: String)
        ensures
            r@ == self.working_folder@ + "/*.board.xml"@,
    {
        self.working_folder.clone().concat("/*.board.xml")
    }

    /// The next step of writing the board `board_name`, when `matched` are
    /// the old board files of the working folder and the first `removed` of
    /// them are deleted: delete the next one, or, once none is left, write
    /// the new file `<board_name>.board.xml`.
    pub fn write_board(
        &self,
        board_name: String,
        board_xml_string: String,
        matched: &Vec<String>,
        removed: usize,
    ) -> (r: BoardAction)
        ensures
            removed < matched.len() ==> r == BoardAction::Remove(matched[removed as int]),
            removed >= matched.len() ==> (r matches BoardAction::Write { folder, file_name, contents }
                && folder == self.working_folder && file_name@ == board_name@ + ".board.xml"@
                && contents == board_xml_string),
    {
        if removed < matched.len() {
            BoardAction::Remove(matched[removed].clone())
        } else {
            BoardAction::Write {
                folder: self.working_folder.clone(),
                file_name: board_name.concat(".board.xml"),
                contents: board_xml_string,
            }
        }
    }

    /// The message that reports that deleting `path` failed with `os_error`.
    pub fn removal_failure(path: &str, os_error: &str) -> (r: String)
        ensures
            r@ == "Can not delete file:"@ + path@ + " error: "@ + os_error@,
    {
        let mut message = String::from_str("Can not delete file:");
        message.append(path);
        message.append(" error: ");
        message.append(os_error);
        message
    }
}

/// Adding the same path twice in a row: the second addition leaves every
/// list as the first left it, and the path stands in front.
pub proof fn lemma_add_history_twice(
    before: Configurator,
    once: Configurator,
    twice: Configurator,
    kind: HistoryType,
    path: Seq<char>,
)
    requires
        Configurator::added(before, once, kind, path),
        Configurator::added(once, twice, kind, path),
    ensures
        forall|k: HistoryType| #[trigger]
            twice.config_data.history.entries(k) == once.config_data.history.entries(k),
        twice.config_data.history.entries(kind).to_set() == once.config_data.history.entries(
            kind,
        ).to_set(),
        twice.config_data.history.entries(kind).len() > 0,
        twice.config_data.history.entries(kind)[0] == path,
{
    lemma_add_twice(before.config_data.history.entries(kind), path);
}

/// Adding `b` and then `a`, both new to a list without duplicates and
/// different, gives `a`, `b` and then the list; adding `b` again gives `b`,
/// `a` and then the list.
pub proof fn lemma_add_history_order(
    start: Configurator,
    first: Configurator,
    second: Configurator,
    third: Configurator,
    kind: HistoryType,
    a: Seq<char>,
    b: Seq<char>,
)
    requires
        start.config_data.history.entries(kind).no_duplicates(),
        !start.config_data.history.entries(kind).contains(a),
        !start.config_data.history.entries(kind).contains(b),
        a != b,
        Configurator::added(start, first, kind, b),
        Configurator::added(first, second, kind, a),
        Configurator::added(second, third, kind, b),
    ensures
        second.config_data.history.entries(kind) == seq![a, b] + start.config_data.history.entries(
            kind,
        ),
        third.config_data.history.entries(kind) == seq![b, a] + start.config_data.history.entries(
            kind,
        ),
{
    lemma_add_order(start.config_data.history.entries(kind), a, b);
}

} // verus!
