//! What the build knows of the local machine: the home directory, and the text of
//! the credential files that were read for it.
use vstd::prelude::*;
use vstd::string::{StrSliceExecFns, StringExecFns};
use crate::search::{
    entry_under, is_first, lemma_first_index, lemma_first_index_absent,
    lemma_first_index_found, lemma_first_index_push, named,
};
use crate::text::same_text;

verus! {

/// What reading one file gave: its text, or the reason why it could not be read.
struct FileRecord {
    path: String,
    content: Result<String, String>,
}

/// What reading a file gave, as mathematical values.
pub open spec fn content_view(content: Result<String, String>) -> Result<Seq<char>, Seq<char>> {
    match content {
        Ok(text) => Ok(text@),
        Err(reason) => Err(reason@),
    }
}

impl View for FileRecord {
    type V = (Seq<char>, Result<Seq<char>, Seq<char>>);

    closed spec fn view(&self) -> (Seq<char>, Result<Seq<char>, Seq<char>>) {
        (self.path@, content_view(self.content))
    }
}

/// The home directory, if one is known, and the files that were read, in the order
/// in which they were recorded.
pub struct LocalFiles {
    home: Option<String>,
    records: Vec<FileRecord>,
}

/// The mathematical value of a [`LocalFiles`].
pub ghost struct LocalFilesView {
    pub home: Option<Seq<char>>,
    /// Each file's path with what reading it gave.
    pub records: Seq<(Seq<char>, Result<Seq<char>, Seq<char>>)>,
}

/// The reason given for a file of which there is no record.
pub open spec fn unread_reason() -> Seq<char> {
    "the file was not read"@
}

impl LocalFilesView {
    /// What is known of the file at `path`: what its first record holds, and for a
    /// file without a record the reason [`unread_reason`].
    pub open spec fn content_of(self, path: Seq<char>) -> Result<Seq<char>, Seq<char>> {
        match entry_under(self.records, path) {
            Some(content) => content,
            None => Err(unread_reason()),
        }
    }
}

/// Whether a path begins with `~/`, which stands for the home directory.
pub open spec fn has_home_prefix(path: Seq<char>) -> bool {
    path.len() >= 2 && path[0] == '~' && path[1] == '/'
}

/// What `std::path::Path::join` makes of a directory and a path to adjoin to it.
pub uninterp spec fn joined_path(base: Seq<char>, rest: Seq<char>) -> Seq<char>;

/// The place that a declared path stands for: a path that begins with `~/` stands
/// for the rest of it below the home directory, and for nothing where no home
/// directory is known; any other path stands for itself.
pub open spec fn expanded_path(path: Seq<char>, home: Option<Seq<char>>) -> Option<Seq<char>> {
    if has_home_prefix(path) {
        match home {
            Some(directory) => Some(joined_path(directory, path.skip(2))),
            None => None,
        }
    } else {
        Some(path)
    }
}

/// A path that does not begin with `~/` stands for itself, whatever the home
/// directory; one that does stands for the rest of it adjoined to the home
/// directory, and for nothing where none is known.
pub proof fn lemma_expanded_path(path: Seq<char>, home: Option<Seq<char>>)
    ensures
        !has_home_prefix(path) ==> expanded_path(path, home) == Some(path),
        has_home_prefix(path) && home is Some ==> expanded_path(path, home) == Some(
            joined_path(home->0, path.skip(2)),
        ),
        has_home_prefix(path) && home is None ==> expanded_path(path, home) is None,
{
}

/// A record changes what is known of its own file only, and of that file only if
/// there was no record of it before.
pub proof fn lemma_record(
    files: LocalFilesView,
    path: Seq<char>,
    content: Result<Seq<char>, Seq<char>>,
    other: Seq<char>,
)
    ensures
        ({
            let after = LocalFilesView { home: files.home, records: files.records.push((path, content)) };
            after.content_of(other) == if other == path && entry_under(files.records, path) is None {
                content
            } else {
                files.content_of(other)
            }
        }),
{
    lemma_first_index(files.records, named(other));
    lemma_first_index_push(files.records, named(other), (path, content));
}

/// Calls `dirs::home_dir`, which asks the system for the home directory of the
/// user who runs the process. The answer is handed on as text, and as `None` where
/// the directory's name is not valid Unicode. Nothing is claimed of it: it differs
/// from user to user and from machine to machine.
#[verifier::external_body]
fn home_dir() -> Option<String> {
    dirs::home_dir().and_then(|home| home.to_str().map(|text| text.to_string()))
}

/// Calls `std::path::Path::join`, which adjoins `rest` to `base` by the platform's
/// rules for paths. The result is a function of the two texts alone and has the
/// name [`joined_path`]; what it looks like is not stated.
#[verifier::external_body]
fn join_path(base: &str, rest: &str) -> (r: String)
    ensures
        r@ == joined_path(base@, rest@),
{
    std::path::Path::new(base).join(rest).to_string_lossy().into_owned()
}

impl View for LocalFiles {
    type V = LocalFilesView;

    closed spec fn view(&self) -> LocalFilesView {
        LocalFilesView {
            home: self.home.deep_view(),
            records: Seq::new(self.records@.len(), |i: int| self.records@[i]@),
        }
    }
}

impl LocalFiles {
    /// No file read yet, and the home directory as given.
    pub fn new(home: Option<String>) -> (r: Self)
        ensures
            r@.home == home.deep_view(),
            r@.records == Seq::<(Seq<char>, Result<Seq<char>, Seq<char>>)>::empty(),
    {
        let r = LocalFiles { home, records: Vec::new() };
        r
    }

    /// No file read yet, and the home directory of the user who runs the process,
    /// where the system knows one.
    pub fn for_current_user() -> (r: Self)
        ensures
            r@.records == Seq::<(Seq<char>, Result<Seq<char>, Seq<char>>)>::empty(),
    {
        Self::new(home_dir())
    }

    /// Adds the outcome of reading the file at `path`, behind the records made so far.
    pub fn record(&mut self, path: String, content: Result<String, String>)
        ensures
            final(self)@.home == old(self)@.home,
            final(self)@.records == old(self)@.records.push((path@, content_view(content))),
    {
        self.records.push(FileRecord { path, content });
    }

    /// The home directory, if one is known.
    pub fn home(&self) -> (r: Option<&String>)
        ensures
            r.deep_view() == self@.home,
    {
        self.home.as_ref()
    }

    /// What is known of the file at `path`.
    pub fn content(&self, path: &str) -> (r: Result<String, String>)
        ensures
            content_view(r) == self@.content_of(path@),
    {
        let ghost all = self@.records;
        let mut i: usize = 0;
        while i < self.records.len()
            invariant
                i <= self.records.len(),
                all == self@.records,
                forall|j: int|
                    0 <= j < i ==> !named::<Result<Seq<char>, Seq<char>>>(path@)(#[trigger] all[j]),
            decreases self.records.len() - i,
        {
            if same_text(self.records[i].path.as_str(), path) {
                proof {
                    lemma_first_index_found(all, named(path@), i as int);
                }
                return match &self.records[i].content {
                    Ok(text) => Ok(text.clone()),
                    Err(reason) => Err(reason.clone()),
                };
            }
            i += 1;
        }
        proof {
            lemma_first_index_absent(all, named::<Result<Seq<char>, Seq<char>>>(path@));
        }
        Err(String::from_str("the file was not read"))
    }
}

/// The place that a declared path stands for, with `~/` read as the home directory
/// that `files` knows.
pub fn expand_home(path: &str, files: &LocalFiles) -> (r: Option<String>)
    ensures
        r.deep_view() == expanded_path(path@, files@.home),
{
    let n = path.unicode_len();
    if n >= 2 && path.get_char(0) == '~' && path.get_char(1) == '/' {
        match &files.home {
            Some(directory) => Some(join_path(directory.as_str(), path.substring_char(2, n))),
            None => None,
        }
    } else {
        Some(path.to_owned())
    }
}

} // verus!
