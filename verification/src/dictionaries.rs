//! The spellcheck dictionaries found on disk, by name.
use vstd::prelude::*;

use std::path::PathBuf;

use crate::text::str_eq;

verus! {

#[verifier::external_type_specification]
#[verifier::external_body]
pub struct ExPathBuf(PathBuf);

/// The name shown for "no dictionary".
pub const SELECTED_NONE: &'static str = "<None>";

/// A dictionary that can be loaded: its two files and its name.
#[derive(Debug)]
pub struct AvailableDictionary {
    dic_path: PathBuf,
    aff_path: PathBuf,
    pub name: String,
}

impl AvailableDictionary {
    pub closed spec fn dic(self) -> PathBuf {
        self.dic_path
    }

    pub closed spec fn aff(self) -> PathBuf {
        self.aff_path
    }

    pub closed spec fn name_view(self) -> Seq<char> {
        self.name@
    }

    /// A dictionary made of the given files.
    pub fn new(dic_path: PathBuf, aff_path: PathBuf, name: String) -> (d: Self)
        ensures
            d.dic() == dic_path,
            d.aff() == aff_path,
            d.name_view() == name@,
    {
        AvailableDictionary { dic_path, aff_path, name }
    }

    /// The `.dic` file.
    pub fn dic_path(&self) -> (p: &PathBuf)
        ensures
            *p == self.dic(),
    {
        &self.dic_path
    }

    /// The `.aff` file.
    pub fn aff_path(&self) -> (p: &PathBuf)
        ensures
            *p == self.aff(),
    {
        &self.aff_path
    }

    /// The name of the dictionary.
    pub fn name(&self) -> (name: &String)
        ensures
            name@ == self.name_view(),
    {
        &self.name
    }
}

/// The names of a list of dictionaries.
pub open spec fn names_of(list: Seq<AvailableDictionary>) -> Seq<Seq<char>> {
    list.map_values(|d: AvailableDictionary| d.name_view())
}

/// No name occurs twice.
pub open spec fn unique_names(list: Seq<AvailableDictionary>) -> bool {
    forall|i: int, j: int|
        0 <= i < list.len() && 0 <= j < list.len() && i != j ==> #[trigger] list[i].name_view()
            != #[trigger] list[j].name_view()
}

/// The first position from `i` on of a dictionary named `name`.
pub open spec fn position_from(list: Seq<AvailableDictionary>, name: Seq<char>, i: int) -> Option<int>
    decreases list.len() - i,
{
    if i < 0 || i >= list.len() {
        None
    } else if list[i].name_view() == name {
        Some(i)
    } else {
        position_from(list, name, i + 1)
    }
}

/// Finds the first dictionary named `name`.
pub fn find_by_name(list: &Vec<AvailableDictionary>, name: &str) -> (found: Option<usize>)
    ensures
        match found {
            Some(i) => position_from(list@, name@, 0) == Some(i as int),
            None => position_from(list@, name@, 0) is None,
        },
{
    let mut i: usize = 0;
    while i < list.len()
        invariant
            i <= list@.len(),
            position_from(list@, name@, 0) == position_from(list@, name@, i as int),
        decreases list@.len() - i,
    {
        if str_eq(list[i].name.as_str(), name) {
            return Some(i);
        }
        i = i + 1;
    }
    None
}

/// Adds a dictionary found on disk, unless one of the same name is already
/// listed: for each name the first dictionary found is kept. Answers
/// whether it was added.
pub fn register(list: &mut Vec<AvailableDictionary>, dict: AvailableDictionary) -> (added: bool)
    ensures
        added == (position_from(old(list)@, dict.name_view(), 0) is None),
        added ==> final(list)@ == old(list)@.push(dict),
        !added ==> final(list)@ == old(list)@,
{
    match find_by_name(list, dict.name.as_str()) {
        Some(_) => false,
        None => {
            list.push(dict);
            true
        },
    }
}

/// A name that the search does not find occurs nowhere in the list.
pub proof fn lemma_position_none(list: Seq<AvailableDictionary>, name: Seq<char>, i: int)
    requires
        0 <= i,
        position_from(list, name, i) is None,
    ensures
        forall|j: int| i <= j < list.len() ==> #[trigger] list[j].name_view() != name,
    decreases list.len() - i,
{
    if i < list.len() {
        lemma_position_none(list, name, i + 1);
    }
}

/// Registering keeps the names of the list unique: starting from an empty
/// list, no name is ever listed twice, and the dictionary listed under a
/// name is the first one registered with it.
pub proof fn lemma_register_keeps_names_unique(
    before: Seq<AvailableDictionary>,
    dict: AvailableDictionary,
    after: Seq<AvailableDictionary>,
    added: bool,
)
    requires
        unique_names(before),
        added == (position_from(before, dict.name_view(), 0) is None),
        added ==> after == before.push(dict),
        !added ==> after == before,
    ensures
        unique_names(after),
        forall|i: int| 0 <= i < before.len() ==> after[i] == before[i],
{
    if added {
        lemma_position_none(before, dict.name_view(), 0);
        assert forall|i: int, j: int|
            0 <= i < after.len() && 0 <= j < after.len() && i != j implies #[trigger] after[i].name_view()
            != #[trigger] after[j].name_view() by {
            if i < before.len() && j < before.len() {
                assert(after[i] == before[i]);
                assert(after[j] == before[j]);
            } else if i == before.len() {
                assert(after[j] == before[j]);
            } else {
                assert(after[i] == before[i]);
            }
        }
    }
}

} // verus!
