//! Helpers for the code of a project: names in snake case, random
//! identifiers, and the module files of its directories.

use rand::Rng;
use vstd::prelude::*;
use crate::text::{
    ascii_lowercase, contains, has_infix, is_alphanumeric, is_lowercase, is_uppercase, push_char,
    to_ascii_lowercase, unicode_alphanumeric, unicode_lowercase, unicode_uppercase,
};

verus! {

/// A character together with its Unicode classification.
#[derive(Clone, Copy, Debug, PartialEq, Eq, Structural)]
pub struct Letter {
    pub value: char,
    pub alphanumeric: bool,
    pub uppercase: bool,
    pub lowercase: bool,
}

impl Letter {
    /// Whether the character survives in a snake-case name: letters, digits
    /// and the underscore do, everything else is dropped.
    pub open spec fn kept(self) -> bool {
        self.alphanumeric || self.value == '_'
    }
}

/// The letter that stands for `c`, classified as the standard library does.
pub open spec fn classify(c: char) -> Letter {
    Letter {
        value: c,
        alphanumeric: unicode_alphanumeric(c),
        uppercase: unicode_uppercase(c),
        lowercase: unicode_lowercase(c),
    }
}

/// A string, letter by letter.
pub open spec fn letters_of(s: Seq<char>) -> Seq<Letter> {
    Seq::new(s.len(), |i: int| classify(s[i]))
}

/// Whether the nearest kept letter before position `i` is upper case.
/// Dropped characters are looked through; at the start there is none.
pub open spec fn follows_uppercase(word: Seq<Letter>, i: int) -> bool
    decreases i,
{
    if i <= 0 {
        false
    } else if word[i - 1].kept() {
        word[i - 1].uppercase
    } else {
        follows_uppercase(word, i - 1)
    }
}

/// Whether the upper-case letter at `i` opens a new word, so that an
/// underscore goes before it: it is not the first character, and it either
/// follows something that is not upper case or is directly followed by a
/// lower-case character (the end of an acronym).
pub open spec fn opens_word(word: Seq<Letter>, i: int) -> bool {
    &&& i > 0
    &&& (!follows_uppercase(word, i) || (i + 1 < word.len() && word[i + 1].lowercase))
}

/// What the letter at `i` contributes to the snake-case name.
pub open spec fn snake_letter(word: Seq<Letter>, i: int) -> Seq<char> {
    if !word[i].kept() {
        Seq::empty()
    } else if word[i].uppercase {
        if opens_word(word, i) {
            seq!['_', ascii_lowercase(word[i].value)]
        } else {
            seq![ascii_lowercase(word[i].value)]
        }
    } else {
        seq![word[i].value]
    }
}

/// The snake-case rendering of the first `n` letters of `word`.
pub open spec fn snake_prefix(word: Seq<Letter>, n: int) -> Seq<char>
    decreases n,
{
    if n <= 0 {
        Seq::empty()
    } else {
        snake_prefix(word, n - 1) + snake_letter(word, n - 1)
    }
}

/// The snake-case rendering of `word`.
pub open spec fn snake_case(word: Seq<Letter>) -> Seq<char> {
    snake_prefix(word, word.len() as int)
}

/// Classifies one character.
pub fn letter_of(c: char) -> (l: Letter)
    ensures
        l == classify(c),
{
    Letter {
        value: c,
        alphanumeric: is_alphanumeric(c),
        uppercase: is_uppercase(c),
        lowercase: is_lowercase(c),
    }
}

/// Renders classified letters in snake case.
pub fn snake_case_of(word: &Vec<Letter>) -> (out: String)
    ensures
        out@ == snake_case(word@),
{
    let mut out = String::new();
    let mut previous_was_uppercase = false;
    let mut i: usize = 0;
    while i < word.len()
        invariant
            i <= word.len(),
            out@ == snake_prefix(word@, i as int),
            previous_was_uppercase == follows_uppercase(word@, i as int),
        decreases word.len() - i,
    {
        let l = word[i];
        if l.alphanumeric || l.value == '_' {
            if l.uppercase {
                if i > 0 && (!previous_was_uppercase || (i + 1 < word.len()
                    && word[i + 1].lowercase)) {
                    push_char(&mut out, '_');
                }
                push_char(&mut out, to_ascii_lowercase(l.value));
                previous_was_uppercase = true;
            } else {
                push_char(&mut out, l.value);
                previous_was_uppercase = false;
            }
        }
        i += 1;
    }
    out
}

/// Converts a CamelCase string to snake_case.
///
/// Characters other than letters, digits and `_` are dropped. Every
/// upper-case letter is lowered (ASCII only), and gets an underscore in front
/// where it opens a new word.
pub fn camel_to_snake(s: &str) -> (out: String)
    ensures
        out@ == snake_case(letters_of(s@)),
{
    let mut word: Vec<Letter> = Vec::new();
    let ghost mut seen: Seq<char> = Seq::empty();
    for c in it: s.chars()
        invariant
            seen == it.history(),
            word@ =~= letters_of(seen),
    {
        word.push(letter_of(c));
        proof {
            seen = seen.push(c);
        }
    }
    assert(seen =~= s@);
    snake_case_of(&word)
}

/// Whether `c` is an ASCII letter or digit.
pub open spec fn ascii_alphanumeric(c: char) -> bool {
    ('a' <= c && c <= 'z') || ('A' <= c && c <= 'Z') || ('0' <= c && c <= '9')
}

/// Draws one character from `rand::distributions::Alphanumeric` with the
/// thread-local generator of `rand`. Trusted: whatever is drawn is an ASCII
/// letter or digit. Nothing is said of which one, and two calls may differ.
#[verifier::external_body]
fn random_alphanumeric() -> (c: char)
    ensures
        ascii_alphanumeric(c),
{
    char::from(rand::thread_rng().sample(rand::distributions::Alphanumeric))
}

/// A random identifier of `len` ASCII letters and digits.
pub fn generate_random_id(len: usize) -> (id: String)
    ensures
        id@.len() == len,
        forall|i: int| 0 <= i < id@.len() ==> ascii_alphanumeric(#[trigger] id@[i]),
{
    let mut id = String::new();
    let mut n: usize = 0;
    while n < len
        invariant
            n <= len,
            id@.len() == n,
            forall|i: int| 0 <= i < id@.len() ==> ascii_alphanumeric(#[trigger] id@[i]),
        decreases len - n,
    {
        push_char(&mut id, random_alphanumeric());
        n += 1;
    }
    id
}

/// Calls `ToString::to_string` on an I/O error, which renders it as its
/// `Display` impl does. Nothing is claimed of the text.
#[verifier::external_body]
fn io_error_text(error: &std::io::Error) -> (text: String) {
    error.to_string()
}

/// The error type of the standard library's I/O, carried through unopened.
#[verifier::external_type_specification]
#[verifier::external_body]
pub struct ExIoError(std::io::Error);

/// Why a file could not be written.
#[derive(Debug)]
pub enum WriteFileError {
    CouldNotCreateDir(std::io::Error),
    CouldNotConvertToBytes(std::io::Error),
    CouldNotCreateFile(std::io::Error),
}

impl WriteFileError {
    /// What the message of this error begins with; the text of the I/O error
    /// follows.
    pub open spec fn prefix(self) -> Seq<char> {
        match self {
            WriteFileError::CouldNotCreateDir(_) => "Could not create dir: "@,
            WriteFileError::CouldNotConvertToBytes(_) => "Could not convert string to bytes: "@,
            WriteFileError::CouldNotCreateFile(_) => "Could not create the file: "@,
        }
    }

    /// The I/O error behind this error.
    pub fn cause(&self) -> (error: &std::io::Error)
        ensures
            *error == match *self {
                WriteFileError::CouldNotCreateDir(e) => e,
                WriteFileError::CouldNotConvertToBytes(e) => e,
                WriteFileError::CouldNotCreateFile(e) => e,
            },
    {
        match self {
            WriteFileError::CouldNotCreateDir(e) => e,
            WriteFileError::CouldNotConvertToBytes(e) => e,
            WriteFileError::CouldNotCreateFile(e) => e,
        }
    }

    /// The message of this error, given the text of the I/O error behind it:
    /// what went wrong, then that text.
    pub fn message_with(&self, detail: &str) -> (text: String)
        ensures
            text@ == self.prefix() + detail@,
    {
        let mut text = match self {
            WriteFileError::CouldNotCreateDir(_) => String::from_str("Could not create dir: "),
            WriteFileError::CouldNotConvertToBytes(_) => String::from_str(
                "Could not convert string to bytes: ",
            ),
            WriteFileError::CouldNotCreateFile(_) => String::from_str(
                "Could not create the file: ",
            ),
        };
        text.append(detail);
        text
    }

    /// The message of this error: what went wrong, then the text of the I/O
    /// error behind it, as that error renders itself.
    pub fn message(&self) -> (text: String)
        ensures
            self.prefix().is_prefix_of(text@),
    {
        let detail = io_error_text(self.cause());
        self.message_with(detail.as_str())
    }
}

/// Why the module file of a directory could not be made.
#[derive(Debug)]
pub enum CreateModFileError {
    ReadPath(std::io::Error),
    ReadDirEntries(std::io::Error),
    CreateFile(std::io::Error),
    WriteExtraLines(std::io::Error),
}

impl CreateModFileError {
    /// What the message of this error begins with; the text of the I/O error
    /// follows.
    pub open spec fn prefix(self) -> Seq<char> {
        match self {
            CreateModFileError::ReadPath(_) => "Could not read path: "@,
            CreateModFileError::ReadDirEntries(_) => "Could not read dir entries: "@,
            CreateModFileError::CreateFile(_) => "Could not create file: "@,
            CreateModFileError::WriteExtraLines(_) => "Could not write extra lines to file: "@,
        }
    }

    /// The I/O error behind this error.
    pub fn cause(&self) -> (error: &std::io::Error)
        ensures
            *error == match *self {
                CreateModFileError::ReadPath(e) => e,
                CreateModFileError::ReadDirEntries(e) => e,
                CreateModFileError::CreateFile(e) => e,
                CreateModFileError::WriteExtraLines(e) => e,
            },
    {
        match self {
            CreateModFileError::ReadPath(e) => e,
            CreateModFileError::ReadDirEntries(e) => e,
            CreateModFileError::CreateFile(e) => e,
            CreateModFileError::WriteExtraLines(e) => e,
        }
    }

    /// The message of this error, given the text of the I/O error behind it:
    /// what went wrong, then that text.
    pub fn message_with(&self, detail: &str) -> (text: String)
        ensures
            text@ == self.prefix() + detail@,
    {
        let mut text = match self {
            CreateModFileError::ReadPath(_) => String::from_str("Could not read path: "),
            CreateModFileError::ReadDirEntries(_) => String::from_str(
                "Could not read dir entries: ",
            ),
            CreateModFileError::CreateFile(_) => String::from_str("Could not create file: "),
            CreateModFileError::WriteExtraLines(_) => String::from_str(
                "Could not write extra lines to file: ",
            ),
        };
        text.append(detail);
        text
    }

    /// The message of this error: what went wrong, then the text of the I/O
    /// error behind it, as that error renders itself.
    pub fn message(&self) -> (text: String)
        ensures
            self.prefix().is_prefix_of(text@),
    {
        let detail = io_error_text(self.cause());
        self.message_with(detail.as_str())
    }
}

/// What an entry of a directory is to the module file of that directory.
#[derive(Clone, Debug, PartialEq, Eq)]
pub enum ModEntry {
    /// A source file, by its name without the extension: a module.
    Module(String),
    /// A directory, by its name: a module with a module file of its own.
    Directory(String),
    /// Anything else, which the module file passes over.
    Skipped,
}

/// An entry of a directory, in plain values. A name that is absent, or that
/// is no text, is `None`.
#[derive(Clone, Debug, PartialEq, Eq)]
pub struct DirEntryInfo {
    pub is_dir: bool,
    pub file_name: Option<String>,
    pub file_stem: Option<String>,
    pub extension: Option<String>,
}

/// What `entry` is to a module file. A directory with a name is a
/// directory. A file is a module if its extension is `rs` and it has a stem
/// other than `mod`.
pub open spec fn entry_kind(entry: DirEntryInfo) -> ModEntry {
    if entry.is_dir {
        match entry.file_name {
            Some(name) => ModEntry::Directory(name),
            None => ModEntry::Skipped,
        }
    } else {
        match (entry.extension, entry.file_stem) {
            (Some(ext), Some(stem)) => if ext@ == "rs"@ && stem@ != "mod"@ {
                ModEntry::Module(stem)
            } else {
                ModEntry::Skipped
            },
            _ => ModEntry::Skipped,
        }
    }
}

/// Says what an entry of a directory is to the module file.
pub fn classify_entry(entry: DirEntryInfo) -> (kind: ModEntry)
    ensures
        kind == entry_kind(entry),
{
    if entry.is_dir {
        match entry.file_name {
            Some(name) => ModEntry::Directory(name),
            None => ModEntry::Skipped,
        }
    } else {
        match (entry.extension, entry.file_stem) {
            (Some(ext), Some(stem)) => {
                let rs = String::from_str("rs");
                let module_file = String::from_str("mod");
                if ext == rs && stem != module_file {
                    ModEntry::Module(stem)
                } else {
                    ModEntry::Skipped
                }
            },
            _ => ModEntry::Skipped,
        }
    }
}

/// The line that declares the module `item`. Modules of generated contract
/// bindings, which have `_abi_gen` in their name, stay private.
pub open spec fn mod_line(item: Seq<char>) -> Seq<char> {
    if has_infix(item, "_abi_gen"@) {
        "mod "@ + item + ";\n"@
    } else {
        "pub mod "@ + item + ";\n"@
    }
}

/// The lines that declare `items`, in their order.
pub open spec fn mod_lines(items: Seq<Seq<char>>) -> Seq<char>
    decreases items.len(),
{
    if items.len() == 0 {
        Seq::empty()
    } else {
        mod_lines(items.drop_last()) + mod_line(items.last())
    }
}

/// The names that a list of strings holds.
pub open spec fn names_of(items: Seq<String>) -> Seq<Seq<char>> {
    Seq::new(items.len(), |i: int| items[i]@)
}

/// The notice that is put into a module file on request. It is indented as
/// the lines of a nested module would be.
pub open spec fn mod_file_notice() -> Seq<char> {
    "\n            /// THIS IS A GENERATED FILE. DO NOT MODIFY MANUALLY.\n            ///\n            /// This file was auto generated by rindexer - https://github.com/joshstevens19/rindexer\n            /// Any manual changes to this file will be overwritten.\n            "@
}

/// The first line of every module file.
pub open spec fn mod_file_head() -> Seq<char> {
    "#![allow(dead_code, unused)]\n"@
}

/// The text of the module file of a directory with the source files `mods`
/// and the directories `dirs`: the first line, the notice if it is asked
/// for, then one line for each file and after them one for each directory.
pub open spec fn mod_file_text(mods: Seq<Seq<char>>, dirs: Seq<Seq<char>>, notice: bool) -> Seq<
    char,
> {
    mod_file_head() + (if notice {
        mod_file_notice()
    } else {
        Seq::empty()
    }) + mod_lines(mods + dirs)
}

/// Appends the lines that declare `items` to `text`.
fn append_mod_lines(text: &mut String, items: &Vec<String>)
    ensures
        final(text)@ == old(text)@ + mod_lines(names_of(items@)),
{
    let ghost names = names_of(items@);
    let mut i: usize = 0;
    while i < items.len()
        invariant
            i <= items.len(),
            names == names_of(items@),
            text@ == old(text)@ + mod_lines(names.take(i as int)),
        decreases items.len() - i,
    {
        let item = &items[i];
        proof {
            assert(names.take(i + 1).drop_last() =~= names.take(i as int));
            assert(names.take(i + 1).last() == item@);
        }
        let ghost before = text@;
        if contains(item.as_str(), "_abi_gen") {
            text.append("mod ");
        } else {
            text.append("pub mod ");
        }
        text.append(item.as_str());
        text.append(";\n");
        assert(text@ =~= before + mod_line(item@));
        i += 1;
    }
    assert(names.take(items.len() as int) =~= names);
}

/// The lines of `a + b` are those of `a`, then those of `b`.
proof fn lemma_mod_lines_concat(a: Seq<Seq<char>>, b: Seq<Seq<char>>)
    ensures
        mod_lines(a + b) == mod_lines(a) + mod_lines(b),
    decreases b.len(),
{
    if b.len() == 0 {
        assert(a + b =~= a);
    } else {
        lemma_mod_lines_concat(a, b.drop_last());
        assert((a + b).drop_last() =~= a + b.drop_last());
        assert((a + b).last() == b.last());
    }
}

/// The text of the module file for a directory that holds the source files
/// `mods` and the directories `dirs`, with the notice after the first line
/// if `code_generated_comment` is set. A directory that holds neither gets
/// no module file.
pub fn mod_file_contents(
    mods: &Vec<String>,
    dirs: &Vec<String>,
    code_generated_comment: bool,
) -> (text: Option<String>)
    ensures
        mods@.len() == 0 && dirs@.len() == 0 ==> text is None,
        mods@.len() > 0 || dirs@.len() > 0 ==> (text matches Some(t) && t@ == mod_file_text(
            names_of(mods@),
            names_of(dirs@),
            code_generated_comment,
        )),
{
    if mods.len() == 0 && dirs.len() == 0 {
        None
    } else {
        let mut text = String::from_str("#![allow(dead_code, unused)]\n");
        if code_generated_comment {
            text.append(
                "\n            /// THIS IS A GENERATED FILE. DO NOT MODIFY MANUALLY.\n            ///\n            /// This file was auto generated by rindexer - https://github.com/joshstevens19/rindexer\n            /// Any manual changes to this file will be overwritten.\n            ",
            );
        }
        append_mod_lines(&mut text, mods);
        append_mod_lines(&mut text, dirs);
        proof {
            lemma_mod_lines_concat(names_of(mods@), names_of(dirs@));
            assert(names_of(mods@) + names_of(dirs@) =~= names_of(mods@ + dirs@));
        }
        Some(text)
    }
}

} // verus!
