use rindexer_core::helpers::{
    camel_to_snake, classify_entry, generate_random_id, letter_of, mod_file_contents,
    snake_case_of, CreateModFileError, DirEntryInfo, Letter, ModEntry, WriteFileError,
};

fn ascii_letter(value: char) -> Letter {
    Letter {
        value,
        alphanumeric: value.is_ascii_alphanumeric(),
        uppercase: value.is_ascii_uppercase(),
        lowercase: value.is_ascii_lowercase(),
    }
}

fn entry(is_dir: bool, name: Option<&str>, stem: Option<&str>, ext: Option<&str>) -> DirEntryInfo {
    DirEntryInfo {
        is_dir,
        file_name: name.map(String::from),
        file_stem: stem.map(String::from),
        extension: ext.map(String::from),
    }
}

#[test]
fn test_camel_to_snake() {
    assert_eq!(camel_to_snake("CamelCase"), "camel_case");
    assert_eq!(camel_to_snake("Camel-Case"), "camel_case");
    assert_eq!(camel_to_snake("camelCase"), "camel_case");
    assert_eq!(camel_to_snake("camel_case"), "camel_case");
    assert_eq!(camel_to_snake("Camel"), "camel");
    assert_eq!(camel_to_snake("camel"), "camel");
    assert_eq!(camel_to_snake("collectNFTId"), "collect_nft_id");
    assert_eq!(camel_to_snake("ERC20"), "erc20");
}

#[test]
fn camel_to_snake_of_nothing_is_nothing() {
    assert_eq!(camel_to_snake(""), "");
    assert_eq!(camel_to_snake("-- !"), "");
}

#[test]
fn camel_to_snake_counts_dropped_characters_as_positions() {
    // The capital is not the first character of the text, so it opens a word.
    assert_eq!(camel_to_snake("-Camel"), "_camel");
    // A dropped character does not end a run of capitals.
    assert_eq!(camel_to_snake("A-B"), "ab");
    assert_eq!(camel_to_snake("AB-c"), "abc");
}

#[test]
fn camel_to_snake_ends_an_acronym_before_a_lower_case_letter() {
    assert_eq!(camel_to_snake("HTTPServer"), "http_server");
    assert_eq!(camel_to_snake("getHTTP"), "get_http");
    assert_eq!(camel_to_snake("ABc"), "a_bc");
}

#[test]
fn camel_to_snake_lowers_ascii_capitals_only() {
    // 'É' is an upper-case letter that is not ASCII: it opens a word and stays as it is.
    assert_eq!(camel_to_snake("caféÉcole"), "café_École");
    // Letters beyond ASCII are kept, and a capital at the very end has no successor to look at.
    assert_eq!(camel_to_snake("éAB"), "é_ab");
}

#[test]
fn letter_of_classifies_as_the_standard_library_does() {
    assert_eq!(letter_of('a'), ascii_letter('a'));
    assert_eq!(letter_of('Z'), ascii_letter('Z'));
    assert_eq!(letter_of('7'), ascii_letter('7'));
    assert_eq!(letter_of('-'), ascii_letter('-'));
    assert_eq!(
        letter_of('É'),
        Letter { value: 'É', alphanumeric: true, uppercase: true, lowercase: false }
    );
    assert_eq!(
        letter_of('_'),
        Letter { value: '_', alphanumeric: false, uppercase: false, lowercase: false }
    );
}

#[test]
fn snake_case_of_follows_the_classification_it_is_given() {
    let word: Vec<Letter> = "myNFTId".chars().map(ascii_letter).collect();
    assert_eq!(snake_case_of(&word), "my_nft_id");
    // The same characters, none of them held to be upper case, pass unchanged.
    let flat: Vec<Letter> = "myNFTId"
        .chars()
        .map(|value| Letter { value, alphanumeric: true, uppercase: false, lowercase: false })
        .collect();
    assert_eq!(snake_case_of(&flat), "myNFTId");
    // Characters that are not to be kept are dropped, the underscore stays.
    let mixed = vec![
        Letter { value: 'a', alphanumeric: true, uppercase: false, lowercase: true },
        Letter { value: '$', alphanumeric: false, uppercase: false, lowercase: false },
        Letter { value: '_', alphanumeric: false, uppercase: false, lowercase: false },
        Letter { value: 'B', alphanumeric: true, uppercase: true, lowercase: false },
    ];
    assert_eq!(snake_case_of(&mixed), "a__b");
    assert_eq!(snake_case_of(&Vec::new()), "");
}

#[test]
fn random_id_has_the_length_asked_for() {
    let id = generate_random_id(24);
    assert_eq!(id.chars().count(), 24);
    assert!(id.chars().all(|c| c.is_ascii_alphanumeric()));
    assert_eq!(generate_random_id(0), "");
    assert_eq!(generate_random_id(1).len(), 1);
}

#[test]
fn random_ids_differ() {
    // 62^32 identifiers: two equal draws mean the generator is not consulted.
    assert_ne!(generate_random_id(32), generate_random_id(32));
}

#[test]
fn mod_file_lists_files_before_directories() {
    let mods = vec![String::from("transfer"), String::from("approval")];
    let dirs = vec![String::from("events")];
    assert_eq!(
        mod_file_contents(&mods, &dirs, false),
        Some(String::from(
            "#![allow(dead_code, unused)]\npub mod transfer;\npub mod approval;\npub mod events;\n"
        ))
    );
}

#[test]
fn mod_file_keeps_binding_modules_private() {
    let mods = vec![String::from("erc20_abi_gen"), String::from("erc20")];
    assert_eq!(
        mod_file_contents(&mods, &Vec::new(), false),
        Some(String::from("#![allow(dead_code, unused)]\nmod erc20_abi_gen;\npub mod erc20;\n"))
    );
    let dirs = vec![String::from("_abi_gen"), String::from("abi_gen")];
    assert_eq!(
        mod_file_contents(&Vec::new(), &dirs, false),
        Some(String::from("#![allow(dead_code, unused)]\nmod _abi_gen;\npub mod abi_gen;\n"))
    );
}

#[test]
fn mod_file_carries_the_notice_on_request() {
    let mods = vec![String::from("a")];
    let text = mod_file_contents(&mods, &Vec::new(), true).unwrap();
    let expected = [
        "#![allow(dead_code, unused)]\n",
        "\n            /// THIS IS A GENERATED FILE. DO NOT MODIFY MANUALLY.\n",
        "            ///\n",
        "            /// This file was auto generated by rindexer - https://github.com/joshstevens19/rindexer\n",
        "            /// Any manual changes to this file will be overwritten.\n",
        "            pub mod a;\n",
    ]
    .concat();
    assert_eq!(text, expected);
}

#[test]
fn mod_file_of_an_empty_directory_is_not_written() {
    assert_eq!(mod_file_contents(&Vec::new(), &Vec::new(), false), None);
    assert_eq!(mod_file_contents(&Vec::new(), &Vec::new(), true), None);
}

#[test]
fn classify_entry_tells_modules_from_directories() {
    assert_eq!(
        classify_entry(entry(true, Some("events"), Some("events"), None)),
        ModEntry::Directory(String::from("events"))
    );
    assert_eq!(
        classify_entry(entry(false, Some("transfer.rs"), Some("transfer"), Some("rs"))),
        ModEntry::Module(String::from("transfer"))
    );
    // A directory is taken by its full name, whatever it looks like.
    assert_eq!(
        classify_entry(entry(true, Some("mod.rs"), Some("mod"), Some("rs"))),
        ModEntry::Directory(String::from("mod.rs"))
    );
}

#[test]
fn classify_entry_skips_what_is_no_module() {
    assert_eq!(
        classify_entry(entry(false, Some("mod.rs"), Some("mod"), Some("rs"))),
        ModEntry::Skipped
    );
    assert_eq!(
        classify_entry(entry(false, Some("abi.json"), Some("abi"), Some("json"))),
        ModEntry::Skipped
    );
    assert_eq!(
        classify_entry(entry(false, Some("Makefile"), Some("Makefile"), None)),
        ModEntry::Skipped
    );
    assert_eq!(classify_entry(entry(false, None, None, Some("rs"))), ModEntry::Skipped);
    assert_eq!(classify_entry(entry(true, None, None, None)), ModEntry::Skipped);
    assert_eq!(
        classify_entry(entry(false, Some("a.RS"), Some("a"), Some("RS"))),
        ModEntry::Skipped
    );
}

#[test]
fn write_file_errors_say_what_failed_and_why() {
    let cause = || std::io::Error::new(std::io::ErrorKind::Other, "disk on fire");
    assert_eq!(
        WriteFileError::CouldNotCreateDir(cause()).message(),
        "Could not create dir: disk on fire"
    );
    assert_eq!(
        WriteFileError::CouldNotConvertToBytes(cause()).message(),
        "Could not convert string to bytes: disk on fire"
    );
    assert_eq!(
        WriteFileError::CouldNotCreateFile(cause()).message(),
        "Could not create the file: disk on fire"
    );
}

#[test]
fn create_mod_file_errors_say_what_failed_and_why() {
    let cause = || std::io::Error::new(std::io::ErrorKind::Other, "no such place");
    assert_eq!(
        CreateModFileError::ReadPath(cause()).message(),
        "Could not read path: no such place"
    );
    assert_eq!(
        CreateModFileError::ReadDirEntries(cause()).message(),
        "Could not read dir entries: no such place"
    );
    assert_eq!(
        CreateModFileError::CreateFile(cause()).message(),
        "Could not create file: no such place"
    );
    assert_eq!(
        CreateModFileError::WriteExtraLines(cause()).message(),
        "Could not write extra lines to file: no such place"
    );
}

#[test]
fn an_error_message_is_its_prefix_and_the_detail() {
    let cause = || std::io::Error::new(std::io::ErrorKind::NotFound, "gone");
    let error = WriteFileError::CouldNotCreateFile(cause());
    assert_eq!(error.message_with("the detail"), "Could not create the file: the detail");
    assert_eq!(error.message_with(""), "Could not create the file: ");
    assert_eq!(error.cause().kind(), std::io::ErrorKind::NotFound);
    let error = CreateModFileError::ReadDirEntries(cause());
    assert_eq!(error.message_with("x"), "Could not read dir entries: x");
    assert_eq!(error.cause().to_string(), "gone");
}
