//! Where the code of a project goes: the files that are written for the
//! networks, the contexts and the events of its indexers.

use vstd::prelude::*;
use crate::helpers::{camel_to_snake, letters_of, snake_case};

verus! {

/// The file for `location` below `output`.
pub open spec fn file_location(output: Seq<char>, location: Seq<char>) -> Seq<char> {
    output + "/"@ + location + ".rs"@
}

/// The file that holds the networks.
pub open spec fn networks_file(output: Seq<char>) -> Seq<char> {
    file_location(output, "networks"@)
}

/// The file that holds the contexts of the indexer `indexer`.
pub open spec fn contexts_file(output: Seq<char>, indexer: Seq<char>) -> Seq<char> {
    file_location(output, snake_case(letters_of(indexer)) + "/contexts"@)
}

/// The file that holds the events of the source `source` of the indexer
/// `indexer`.
pub open spec fn events_file(output: Seq<char>, indexer: Seq<char>, source: Seq<char>) -> Seq<
    char,
> {
    file_location(
        output,
        snake_case(letters_of(indexer)) + "/events/"@ + snake_case(letters_of(source)),
    )
}

/// The path of the file for `location` below `output`.
pub fn generate_file_location(output: &str, location: &str) -> (path: String)
    ensures
        path@ == file_location(output@, location@),
{
    let mut path = String::from_str(output);
    path.append("/");
    path.append(location);
    path.append(".rs");
    path
}

/// The path of the file that holds the networks.
pub fn networks_location(output: &str) -> (path: String)
    ensures
        path@ == networks_file(output@),
{
    generate_file_location(output, "networks")
}

/// The path of the file that holds the contexts of an indexer.
pub fn contexts_location(output: &str, indexer_name: &str) -> (path: String)
    ensures
        path@ == contexts_file(output@, indexer_name@),
{
    let mut location = camel_to_snake(indexer_name);
    location.append("/contexts");
    generate_file_location(output, location.as_str())
}

/// The path of the file that holds the events of one source of an indexer.
pub fn events_location(output: &str, indexer_name: &str, source_name: &str) -> (path: String)
    ensures
        path@ == events_file(output@, indexer_name@, source_name@),
{
    let mut location = camel_to_snake(indexer_name);
    location.append("/events/");
    let source = camel_to_snake(source_name);
    location.append(source.as_str());
    generate_file_location(output, location.as_str())
}

/// An indexer, as far as the placing of its files goes: its name and the
/// names of its sources.
#[derive(Clone, Debug, PartialEq, Eq)]
pub struct IndexerNames {
    pub name: String,
    pub sources: Vec<String>,
}

/// The files of the first `n` sources of an indexer.
pub open spec fn events_files(output: Seq<char>, indexer: IndexerNames, n: int) -> Seq<Seq<char>>
    decreases n,
{
    if n <= 0 {
        Seq::empty()
    } else {
        events_files(output, indexer, n - 1).push(
            events_file(output, indexer.name@, indexer.sources@[n - 1]@),
        )
    }
}

/// The files of an indexer: its contexts, then the events of each source.
pub open spec fn indexer_files(output: Seq<char>, indexer: IndexerNames) -> Seq<Seq<char>> {
    seq![contexts_file(output, indexer.name@)] + events_files(
        output,
        indexer,
        indexer.sources@.len() as int,
    )
}

/// The files of a project: the networks, then the files of each of the
/// first `n` indexers.
pub open spec fn project_files(output: Seq<char>, indexers: Seq<IndexerNames>, n: int) -> Seq<
    Seq<char>,
>
    decreases n,
{
    if n <= 0 {
        seq![networks_file(output)]
    } else {
        project_files(output, indexers, n - 1) + indexer_files(output, indexers[n - 1])
    }
}

/// The paths that a list of strings holds.
pub open spec fn paths_of(files: Seq<String>) -> Seq<Seq<char>> {
    Seq::new(files.len(), |i: int| files[i]@)
}

/// The files that a build writes below `output`, in the order in which it
/// writes them.
pub fn build(output: &str, indexers: &Vec<IndexerNames>) -> (files: Vec<String>)
    ensures
        paths_of(files@) == project_files(output@, indexers@, indexers@.len() as int),
{
    let mut files: Vec<String> = Vec::new();
    files.push(networks_location(output));
    assert(paths_of(files@) =~= project_files(output@, indexers@, 0));
    let mut i: usize = 0;
    while i < indexers.len()
        invariant
            i <= indexers.len(),
            paths_of(files@) == project_files(output@, indexers@, i as int),
        decreases indexers.len() - i,
    {
        let indexer = &indexers[i];
        let ghost before = paths_of(files@);
        files.push(contexts_location(output, indexer.name.as_str()));
        assert(paths_of(files@) =~= before + seq![contexts_file(output@, indexer.name@)]
            + events_files(output@, *indexer, 0));
        let mut k: usize = 0;
        while k < indexer.sources.len()
            invariant
                k <= indexer.sources.len(),
                indexer == &indexers[i as int],
                paths_of(files@) == before + seq![contexts_file(output@, indexer.name@)]
                    + events_files(output@, *indexer, k as int),
            decreases indexer.sources.len() - k,
        {
            let ghost so_far = paths_of(files@);
            files.push(events_location(output, indexer.name.as_str(), indexer.sources[k].as_str()));
            assert(paths_of(files@) =~= so_far.push(
                events_file(output@, indexer.name@, indexer.sources@[k as int]@),
            ));
            k += 1;
        }
        assert(paths_of(files@) =~= before + indexer_files(output@, *indexer));
        i += 1;
    }
    files
}

} // verus!
