//! The persisted text of a document: a fixed frame around three JSON lists.

use crate::history::{path_list, ConfigData};
use vstd::prelude::*;
use vstd::string::*;

verus! {

/// serde_json's error. Nothing is read from it: a failed encoding counts as
/// failed, whatever the reason.
#[verifier::external_type_specification]
#[verifier::external_body]
pub struct ExJsonError(serde_json::Error);

/// The JSON text that serde_json writes for a list of strings, or `None`
/// where it reports an error.
pub uninterp spec fn json_list_text(items: Seq<Seq<char>>) -> Option<Seq<char>>;

/// Calls `serde_json::to_string` on the list. The contract only gives the
/// outcome its name, `json_list_text` of the list's texts: the text on
/// success, no text on an error. It claims nothing about what the text holds.
#[verifier::external_body]
pub(crate) fn encode_list(items: &Vec<String>) -> (r: Result<String, serde_json::Error>)
    ensures
        match r {
            Ok(text) => json_list_text(path_list(items)) == Some(text@),
            Err(_) => json_list_text(path_list(items)) is None,
        },
{
    serde_json::to_string(items)
}

/// The frame of a document around the texts of its three lists.
pub open spec fn framed(
    working_folder: Seq<char>,
    board_file: Seq<char>,
    scenario_file: Seq<char>,
) -> Seq<char> {
    "{\"history\":{\"working_folder\":"@ + working_folder + ",\"board_file\":"@ + board_file
        + ",\"scenario_file\":"@ + scenario_file + "}}"@
}

/// The text of the document whose three lists are empty.
pub open spec fn empty_document_text() -> Seq<char> {
    framed("[]"@, "[]"@, "[]"@)
}

/// The text of a document with the given lists: the frame around the JSON
/// text of each, and the text of the empty document where one has none.
pub open spec fn serialized_lists(
    working_folder: Seq<Seq<char>>,
    board_file: Seq<Seq<char>>,
    scenario_file: Seq<Seq<char>>,
) -> Seq<char> {
    let w = json_list_text(working_folder);
    let b = json_list_text(board_file);
    let s = json_list_text(scenario_file);
    if w is Some && b is Some && s is Some {
        framed(w->0, b->0, s->0)
    } else {
        empty_document_text()
    }
}

/// The text of a document.
pub open spec fn serialized(data: &ConfigData) -> Seq<char> {
    serialized_lists(
        path_list(&data.history.working_folder),
        path_list(&data.history.board_file),
        path_list(&data.history.scenario_file),
    )
}

/// Puts the texts of the three lists into the document's frame.
pub fn document_text(working_folder: &str, board_file: &str, scenario_file: &str) -> (r: String)
    ensures
        r@ == framed(working_folder@, board_file@, scenario_file@),
{
    let mut text = String::from_str("{\"history\":{\"working_folder\":");
    text.append(working_folder);
    text.append(",\"board_file\":");
    text.append(board_file);
    text.append(",\"scenario_file\":");
    text.append(scenario_file);
    text.append("}}");
    text
}

/// The encoded list, or the text of an empty list where encoding failed.
pub fn text_or_empty_list(encoded: Result<String, serde_json::Error>) -> (r: String)
    ensures
        match encoded {
            Ok(text) => r == text,
            Err(_) => r@ == "[]"@,
        },
{
    match encoded {
        Ok(text) => text,
        Err(_) => String::from_str("[]"),
    }
}

impl ConfigData {
    /// The text under which the document is stored: one object `history`
    /// with the three lists under their names, without white space; the text
    /// of the empty document where a list cannot be encoded.
    pub fn serialize(&self) -> (r: String)
        ensures
            r@ == serialized(self),
    {
        let working_folder = encode_list(&self.history.working_folder);
        let board_file = encode_list(&self.history.board_file);
        let scenario_file = encode_list(&self.history.scenario_file);
        match (working_folder, board_file, scenario_file) {
            (Ok(w), Ok(b), Ok(s)) => document_text(w.as_str(), b.as_str(), s.as_str()),
            _ => document_text("[]", "[]", "[]"),
        }
    }
}

/// Every empty document has the text of the document with three empty
/// lists.
pub proof fn lemma_empty_document_text(data: &ConfigData)
    requires
        data.is_empty(),
    ensures
        serialized(data) == serialized_lists(Seq::empty(), Seq::empty(), Seq::empty()),
{
    assert(path_list(&data.history.working_folder) =~= Seq::empty());
    assert(path_list(&data.history.board_file) =~= Seq::empty());
    assert(path_list(&data.history.scenario_file) =~= Seq::empty());
}

} // verus!
