//! How save files are named: one file per pet, keyed by the pet's name in
//! lower case.

use vstd::prelude::*;
use vstd::string::*;

verus! {

/// The directory of the save files, below the data directory of the user.
pub const SAVE_DIRECTORY: &'static str = "nybbler";

/// What every save file's name ends in.
pub const SAVE_SUFFIX: &'static str = ".json";

/// The lower-case form of a text, as `str::to_lowercase` defines it.
pub uninterp spec fn lowercase_of(text: Seq<char>) -> Seq<char>;

/// `str::to_lowercase`: the text in lower case, by the rules of Unicode. The
/// result depends on the text alone.
#[verifier::external_body]
fn to_lowercase(text: &str) -> (lower: String)
    ensures
        lower@ == lowercase_of(text@),
{
    text.to_lowercase()
}

/// The name of the save file that is stored under `key`.
pub open spec fn file_name_of_key(key: Seq<char>) -> Seq<char> {
    key + SAVE_SUFFIX@
}

/// Whether a file of this name is a save file: whether the name ends in the
/// suffix of save files and has something before it.
pub open spec fn is_save_file_name(file_name: Seq<char>) -> bool {
    &&& file_name.len() > SAVE_SUFFIX@.len()
    &&& file_name.subrange(file_name.len() - SAVE_SUFFIX@.len(), file_name.len() as int)
        == SAVE_SUFFIX@
}

/// The name of the file in which the pet with the given key is saved.
pub fn file_name_for_key(key: String) -> (file_name: String)
    ensures
        file_name@ == file_name_of_key(key@),
{
    key.concat(SAVE_SUFFIX)
}

/// The name of the file in which the pet called `name` is saved. Names that
/// differ only in case share a file.
pub fn save_file_name(name: &str) -> (file_name: String)
    ensures
        file_name@ == file_name_of_key(lowercase_of(name@)),
{
    file_name_for_key(to_lowercase(name))
}

/// Whether the file called `file_name` holds a saved pet.
pub fn is_save_file(file_name: &str) -> (found: bool)
    ensures
        found == is_save_file_name(file_name@),
{
    let length = file_name.unicode_len();
    let suffix_length = SAVE_SUFFIX.unicode_len();
    if length <= suffix_length {
        return false;
    }
    let start: usize = length - suffix_length;
    let mut matched: usize = 0;
    while matched < suffix_length
        invariant
            length == file_name@.len(),
            suffix_length == SAVE_SUFFIX@.len(),
            start == length - suffix_length,
            matched <= suffix_length,
            forall|i: int| 0 <= i < matched ==> file_name@[start + i] == SAVE_SUFFIX@[i],
        decreases suffix_length - matched,
    {
        if file_name.get_char(start + matched) != SAVE_SUFFIX.get_char(matched) {
            return false;
        }
        matched = matched + 1;
    }
    assert(file_name@.subrange(start as int, length as int) =~= SAVE_SUFFIX@);
    true
}

/// The texts of the given strings, in their order.
pub open spec fn names_of(files: Seq<String>) -> Seq<Seq<char>> {
    files.map_values(|file: String| file@)
}

/// Whether `position` is the place of a save file in a listing of names.
pub open spec fn is_save_file_at(names: Seq<Seq<char>>, position: int) -> bool {
    0 <= position < names.len() && is_save_file_name(names[position])
}

/// The places of the save files in the first `count` names of a listing, in
/// rising order.
pub open spec fn save_file_positions_before(names: Seq<Seq<char>>, count: int) -> Seq<int> {
    Seq::new(count as nat, |position: int| position).filter(
        |position: int| is_save_file_at(names, position),
    )
}

/// The places of the save files in a listing of names, in rising order.
pub open spec fn save_file_positions(names: Seq<Seq<char>>) -> Seq<int> {
    save_file_positions_before(names, names.len() as int)
}

/// The save files among the files of a directory: the place in
/// `file_names` of every name that is the name of a save file, in rising
/// order.
pub fn save_files_among(file_names: &Vec<String>) -> (positions: Vec<usize>)
    ensures
        positions@.map_values(|position: usize| position as int) == save_file_positions(
            names_of(file_names@),
        ),
{
    let ghost names = names_of(file_names@);
    let mut positions: Vec<usize> = Vec::new();
    let mut next: usize = 0;
    proof {
        reveal_with_fuel(Seq::filter, 1);
    }
    while next < file_names.len()
        invariant
            next <= file_names.len(),
            names == names_of(file_names@),
            positions@.map_values(|position: usize| position as int) == save_file_positions_before(
                names,
                next as int,
            ),
        decreases file_names.len() - next,
    {
        proof {
            let seen = Seq::new(next as nat, |position: int| position);
            assert(Seq::new((next + 1) as nat, |position: int| position) =~= seen.push(next as int));
            seen.lemma_filter_push(next as int, |position: int| is_save_file_at(names, position));
        }
        if is_save_file(file_names[next].as_str()) {
            positions.push(next);
        }
        next = next + 1;
    }
    positions
}

/// A place is among the save files of a listing exactly when a save file
/// stands there: none is added and none is passed over. So an empty listing
/// has no save files.
pub proof fn lemma_save_file_positions_are_exact(names: Seq<Seq<char>>, position: int)
    ensures
        save_file_positions(names).contains(position) <==> is_save_file_at(names, position),
        save_file_positions(names).len() <= names.len(),
        names.len() == 0 ==> save_file_positions(names).len() == 0,
{
    let all = Seq::new(names.len(), |position: int| position);
    let at_save_file = |position: int| is_save_file_at(names, position);
    all.lemma_filter_len(at_save_file);
    if is_save_file_at(names, position) {
        all.lemma_filter_contains(at_save_file, position);
    }
    if save_file_positions(names).contains(position) {
        let place = choose|place: int|
            0 <= place < save_file_positions(names).len() && save_file_positions(names)[place]
                == position;
        all.lemma_filter_pred(at_save_file, place);
    }
}

/// The save files of a listing come in rising order, each once.
pub proof fn lemma_save_file_positions_rise(names: Seq<Seq<char>>, first: int, second: int)
    requires
        0 <= first < second < save_file_positions(names).len(),
    ensures
        save_file_positions(names)[first] < save_file_positions(names)[second],
{
    lemma_positions_before_rise(names, names.len() as int, first, second);
}

/// Every place among the first `count` is less than `count`.
proof fn lemma_positions_before_bounded(names: Seq<Seq<char>>, count: int, place: int)
    requires
        0 <= count,
        0 <= place < save_file_positions_before(names, count).len(),
    ensures
        0 <= save_file_positions_before(names, count)[place] < count,
{
    let all = Seq::new(count as nat, |position: int| position);
    let found = save_file_positions_before(names, count);
    all.lemma_filter_contains_rev(|position: int| is_save_file_at(names, position), found[place]);
}

proof fn lemma_positions_before_rise(names: Seq<Seq<char>>, count: int, first: int, second: int)
    requires
        0 <= count,
        0 <= first < second < save_file_positions_before(names, count).len(),
    ensures
        save_file_positions_before(names, count)[first] < save_file_positions_before(names, count)[second],
    decreases count,
{
    let at_save_file = |position: int| is_save_file_at(names, position);
    if count == 0 {
        reveal_with_fuel(Seq::filter, 1);
    } else {
        let seen = Seq::new((count - 1) as nat, |position: int| position);
        assert(Seq::new(count as nat, |position: int| position) =~= seen.push(count - 1));
        seen.lemma_filter_push(count - 1, at_save_file);
        let before = save_file_positions_before(names, count - 1);
        if second < before.len() {
            lemma_positions_before_rise(names, count - 1, first, second);
        } else {
            lemma_positions_before_bounded(names, count - 1, first);
        }
    }
}

/// Every name that `file_name_of_key` gives to a key that is not empty is
/// the name of a save file.
pub proof fn lemma_saved_files_are_save_files(key: Seq<char>)
    requires
        key.len() > 0,
    ensures
        is_save_file_name(file_name_of_key(key)),
{
    let file_name = file_name_of_key(key);
    assert(file_name.subrange(file_name.len() - SAVE_SUFFIX@.len(), file_name.len() as int)
        =~= SAVE_SUFFIX@);
}

} // verus!
