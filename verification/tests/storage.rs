use nybbler::storage::{
    file_name_for_key, is_save_file, save_file_name, save_files_among, SAVE_DIRECTORY, SAVE_SUFFIX,
};
use std::path::Path;

fn by_extension(file_name: &str) -> bool {
    Path::new(file_name).extension().map_or(false, |extension| extension == "json")
}

#[test]
fn the_file_name_is_the_lower_case_name_and_the_suffix() {
    assert_eq!(save_file_name("Rex"), "rex.json");
    assert_eq!(save_file_name("rex"), "rex.json");
    assert_eq!(save_file_name("REX THE 2nd"), "rex the 2nd.json");
    assert_eq!(save_file_name("Émile"), "émile.json");
    assert_eq!(save_file_name("Ünal"), "ünal.json");
}

#[test]
fn names_that_differ_in_case_share_a_file() {
    assert_eq!(save_file_name("Rex"), save_file_name("rEX"));
    assert_ne!(save_file_name("Rex"), save_file_name("Max"));
}

#[test]
fn the_key_is_used_as_it_is() {
    assert_eq!(file_name_for_key(String::from("rex")), "rex.json");
    assert_eq!(file_name_for_key(String::from("Rex")), "Rex.json");
    assert_eq!(file_name_for_key(String::new()), ".json");
    assert_eq!(SAVE_SUFFIX, ".json");
    assert_eq!(SAVE_DIRECTORY, "nybbler");
}

#[test]
fn save_files_are_told_by_their_suffix() {
    assert!(is_save_file("rex.json"));
    assert!(is_save_file("a.json"));
    assert!(is_save_file("rex.backup.json"));
    assert!(is_save_file("émile.json"));
    assert!(is_save_file("..json"));
    assert!(!is_save_file(".json"));
    assert!(!is_save_file("json"));
    assert!(!is_save_file(""));
    assert!(!is_save_file("rex.JSON"));
    assert!(!is_save_file("rex.txt"));
    assert!(!is_save_file("rex.json.bak"));
    assert!(!is_save_file("rexjson"));
    assert!(!is_save_file("rex.jso"));
    assert!(!is_save_file("rex.xjson"));
}

#[test]
fn save_files_are_the_files_with_the_extension() {
    let names = [
        "rex.json", "a.json", ".json", "json", "", "rex.JSON", "rex.txt", "rex.json.bak", "..json",
        "rex.", "rex", ".hidden", ".hidden.json", "émile.json", "ñ.json", "x.yjson", "rex json",
        "a.b.c.json", "json.json", ".j.json",
    ];
    for name in names {
        assert_eq!(is_save_file(name), by_extension(name), "{}", name);
    }
}

#[test]
fn every_saved_pet_is_found_again() {
    for name in ["Rex", "a", "Émile", "REX.JSON", "x.y"] {
        assert!(is_save_file(&save_file_name(name)));
    }
}

fn listing(names: &[&str]) -> Vec<String> {
    names.iter().map(|name| name.to_string()).collect()
}

#[test]
fn an_empty_directory_has_no_save_files() {
    assert_eq!(save_files_among(&Vec::new()), Vec::<usize>::new());
    assert_eq!(save_files_among(&Vec::new()).len(), 0);
}

#[test]
fn a_directory_without_save_files_has_none() {
    assert_eq!(save_files_among(&listing(&["notes.txt", ".json", "rex.JSON", "json"])).len(), 0);
}

#[test]
fn the_save_files_of_a_directory_are_found_in_order() {
    let names = listing(&["rex.json", "notes.txt", "max.json", ".json", "rex.json", "émile.json"]);
    assert_eq!(save_files_among(&names), vec![0, 2, 4, 5]);
    assert_eq!(save_files_among(&listing(&["a.json"])), vec![0]);
    assert_eq!(save_files_among(&listing(&["a", "b.json"])), vec![1]);
}
