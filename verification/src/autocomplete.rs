//! Suggestions while the user types: whether the input is a code or a search
//! query, and the labelled choices made of what the lookup returned.

use vstd::prelude::*;
use vstd::string::*;
use crate::code::{extracted, find_bsr};
use crate::error::MapError;
use crate::map::BSMap;
use crate::truncate::{truncate_string, truncated};

verus! {

/// The most characters that the label of a suggestion may have.
pub const LABEL_WIDTH: usize = 100;

/// What marks a name that was cut.
pub open spec fn ellipsis() -> Seq<char> {
    "..."@
}

/// One suggestion: what the user reads, and the map code that it stands for.
#[derive(Clone, Debug, PartialEq, Eq)]
pub struct MapAutocomplete {
    pub name: String,
    pub id: String,
}

/// What contracts say of a [`MapAutocomplete`].
pub struct MapAutocompleteView {
    pub name: Seq<char>,
    pub id: Seq<char>,
}

impl View for MapAutocomplete {
    type V = MapAutocompleteView;

    open spec fn view(&self) -> MapAutocompleteView {
        MapAutocompleteView { name: self.name@, id: self.id@ }
    }
}

/// How an input is looked up.
#[derive(Clone, Debug, PartialEq, Eq)]
pub enum Lookup {
    /// Fetch the map with this code.
    Code(String),
    /// Search for maps with this text.
    Search(String),
}

/// The uploader's name as it ends a label.
pub open spec fn uploader_suffix(uploader: Seq<char>) -> Seq<char> {
    " ["@ + uploader + "]"@
}

/// The label of a suggestion: the map's name, cut so that the label has at
/// most a hundred characters, and the uploader in brackets. Where the
/// uploader alone leaves no room for a cut name, name and uploader are cut
/// together.
pub open spec fn suggestion_label(name: Seq<char>, uploader: Seq<char>) -> Seq<char> {
    let suffix = uploader_suffix(uploader);
    if suffix.len() + ellipsis().len() <= LABEL_WIDTH {
        truncated(name, LABEL_WIDTH - suffix.len(), ellipsis()) + suffix
    } else {
        truncated(name + suffix, LABEL_WIDTH as int, ellipsis())
    }
}

/// The suggestion for one map under the code `id`.
pub open spec fn suggestion(id: Seq<char>, map: &BSMap) -> MapAutocompleteView {
    MapAutocompleteView { name: suggestion_label(map.name@, map.uploader.name@), id: id }
}

/// No label is wider than the limit.
pub proof fn lemma_label_fits(name: Seq<char>, uploader: Seq<char>)
    ensures
        suggestion_label(name, uploader).len() <= LABEL_WIDTH,
{
    reveal_strlit("...");
}

/// Decides how `input` is looked up: by its code where it carries one, else
/// as a search for the input as it stands.
pub fn plan_lookup(input: &str) -> (plan: Lookup)
    ensures
        match plan {
            Lookup::Code(code) => extracted(input@) == Some(code@),
            Lookup::Search(query) => extracted(input@) is None && query@ == input@,
        },
{
    match find_bsr(input) {
        Some(code) => Lookup::Code(code),
        None => Lookup::Search(String::from_str(input)),
    }
}

/// The label of the suggestion for a map called `name`, uploaded by
/// `uploader`. Lengths are counted in characters.
pub fn label(name: &str, uploader: &str) -> (text: String)
    ensures
        text@ == suggestion_label(name@, uploader@),
        text@.len() <= LABEL_WIDTH,
{
    proof {
        reveal_strlit("...");
        lemma_label_fits(name@, uploader@);
    }
    let mut suffix: String = String::from_str(" [");
    suffix.append(uploader);
    suffix.append("]");
    let suffix_len: usize = suffix.as_str().unicode_len();
    if suffix_len <= LABEL_WIDTH - 3 {
        let mut text: String = truncate_string(
            String::from_str(name),
            LABEL_WIDTH - suffix_len,
            String::from_str("..."),
        );
        text.append(suffix.as_str());
        text
    } else {
        let mut whole: String = String::from_str(name);
        whole.append(suffix.as_str());
        truncate_string(whole, LABEL_WIDTH, String::from_str("..."))
    }
}

/// The suggestions for an input that carries the code `bsr`, given what
/// fetching that code returned: the one map under its code, or nothing where
/// the fetch failed.
pub fn handle_code(bsr: String, fetched: &Result<BSMap, MapError>) -> (choices: Vec<
    MapAutocomplete,
>)
    ensures
        match fetched {
            Ok(map) => choices@.len() == 1 && choices@[0]@ == suggestion(bsr@, map),
            Err(_) => choices@.len() == 0,
        },
{
    let mut choices: Vec<MapAutocomplete> = Vec::new();
    match fetched {
        Ok(res) => {
            let name: String = label(res.name.as_str(), res.uploader.name.as_str());
            choices.push(MapAutocomplete { name, id: bsr });
        },
        Err(_) => {},
    }
    choices
}

/// The suggestions for a search, given what the search returned: one for
/// each map, in the order of the results, or nothing where the search failed.
pub fn handle_search(fetched: &Result<Vec<BSMap>, MapError>) -> (choices: Vec<MapAutocomplete>)
    ensures
        match fetched {
            Ok(results) => {
                &&& choices@.len() == results@.len()
                &&& forall|i: int|
                    0 <= i < results@.len() ==> (#[trigger] choices@[i])@ == suggestion(
                        results@[i].id@,
                        &results@[i],
                    )
            },
            Err(_) => choices@.len() == 0,
        },
{
    let mut choices: Vec<MapAutocomplete> = Vec::new();
    match fetched {
        Ok(search_results) => {
            let mut i: usize = 0;
            while i < search_results.len()
                invariant
                    i <= search_results.len(),
                    choices@.len() == i,
                    forall|j: int|
                        0 <= j < i ==> (#[trigger] choices@[j])@ == suggestion(
                            search_results@[j].id@,
                            &search_results@[j],
                        ),
                decreases search_results.len() - i,
            {
                let res: &BSMap = &search_results[i];
                let name: String = label(res.name.as_str(), res.uploader.name.as_str());
                choices.push(MapAutocomplete { name, id: res.id.clone() });
                i += 1;
            }
        },
        Err(_) => {},
    }
    choices
}

} // verus!
