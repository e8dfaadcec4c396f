//! Bringing generated sources into a compilation: where a build left them,
//! which of the entries found there are taken, and the text that splices
//! each one in.

use vstd::prelude::*;
use vstd::string::*;

verus! {

/// Why generated sources cannot be brought in.
#[derive(Clone, Copy, Debug, PartialEq, Eq)]
pub enum InclusionError {
    /// No build has published its output directory, or no file was found
    /// under the directory of the projection and plugin.
    MissingGeneratedOutput,
}

/// One entry found under a directory, as the walk reports it.
#[derive(Debug, PartialEq, Eq)]
pub struct Entry {
    /// The entry's path.
    pub path: String,
    /// Whether the entry is a regular file.
    pub is_file: bool,
}

/// An [`Entry`] as plain values.
pub struct EntryView {
    pub path: Seq<char>,
    pub is_file: bool,
}

impl DeepView for Entry {
    type V = EntryView;

    open spec fn deep_view(&self) -> EntryView {
        EntryView { path: self.path@, is_file: self.is_file }
    }
}

/// The directory that holds what `plugin` generated for `projection`, under
/// the output directory of a build.
pub open spec fn generated_dir_spec(
    out_dir: Seq<char>,
    projection: Seq<char>,
    plugin: Seq<char>,
) -> Seq<char> {
    out_dir + "/"@ + projection + "/"@ + plugin + "/"@
}

/// The paths of the regular files among `entries`, in the order of the
/// entries.
pub open spec fn files_spec(entries: Seq<EntryView>) -> Seq<Seq<char>> {
    entries.filter(|entry: EntryView| entry.is_file).map_values(|entry: EntryView| entry.path)
}

/// The text that splices the file at `path` into the source it stands in.
pub open spec fn splice_spec(path: Seq<char>) -> Seq<char> {
    "include!(\""@ + path + "\");"@
}

/// The directory to look in for what `plugin` generated for `projection`.
/// `out_dir` is the output directory that a build published, if one did; with
/// none there is nothing to look for.
pub fn generated_dir(out_dir: Option<&str>, projection: &str, plugin: &str) -> (dir: Result<
    String,
    InclusionError,
>)
    ensures
        match out_dir {
            Some(base) => dir matches Ok(path) && path@ == generated_dir_spec(
                base@,
                projection@,
                plugin@,
            ),
            None => dir == Err::<String, InclusionError>(InclusionError::MissingGeneratedOutput),
        },
{
    match out_dir {
        Some(base) => {
            let mut path = String::from_str(base);
            path.append("/");
            path.append(projection);
            path.append("/");
            path.append(plugin);
            path.append("/");
            Ok(path)
        },
        None => Err(InclusionError::MissingGeneratedOutput),
    }
}

/// The text that splices the file at `path` into the source it stands in.
pub fn splice(path: &str) -> (line: String)
    ensures
        line@ == splice_spec(path@),
{
    let mut line = String::from_str("include!(\"");
    line.append(path);
    line.append("\");");
    line
}

/// The splices for what was found under the generated directory: one for each
/// regular file, in the order of `entries`. Finding no file at all is an
/// error.
pub fn inclusions(entries: &Vec<Entry>) -> (lines: Result<Vec<String>, InclusionError>)
    ensures
        match lines {
            Ok(spliced) => files_spec(entries.deep_view()).len() > 0 && spliced.deep_view()
                == files_spec(entries.deep_view()).map_values(|path: Seq<char>| splice_spec(path)),
            Err(error) => files_spec(entries.deep_view()).len() == 0 && error
                == InclusionError::MissingGeneratedOutput,
        },
{
    let mut spliced: Vec<String> = Vec::new();
    let ghost all = entries.deep_view();
    proof {
        lemma_files_empty();
    }
    for i in 0..entries.len()
        invariant
            all == entries.deep_view(),
            spliced.deep_view() == files_spec(all.take(i as int)).map_values(
                |path: Seq<char>| splice_spec(path),
            ),
    {
        proof {
            assert(all.take(i + 1) =~= all.take(i as int).push(all[i as int]));
            lemma_files_push(all.take(i as int), all[i as int]);
        }
        if entries[i].is_file {
            let ghost before = spliced.deep_view();
            spliced.push(splice(entries[i].path.as_str()));
            proof {
                assert(spliced.deep_view() =~= before.push(splice_spec(all[i as int].path)));
            }
        }
    }
    proof {
        assert(all.take(entries.len() as int) =~= all);
    }
    if spliced.len() == 0 {
        Err(InclusionError::MissingGeneratedOutput)
    } else {
        Ok(spliced)
    }
}

/// Among no entries there are no files.
pub proof fn lemma_files_empty()
    ensures
        files_spec(Seq::<EntryView>::empty()) == Seq::<Seq<char>>::empty(),
{
    reveal(Seq::filter);
}

/// One entry more adds its path where it is a regular file, and nothing
/// where it is not.
pub proof fn lemma_files_push(entries: Seq<EntryView>, entry: EntryView)
    ensures
        files_spec(entries.push(entry)) == if entry.is_file {
            files_spec(entries).push(entry.path)
        } else {
            files_spec(entries)
        },
{
    reveal(Seq::filter);
    assert(entries.push(entry).drop_last() =~= entries);
}

} // verus!
