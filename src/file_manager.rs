//! The startup loader's log: what is reported of a directory listing and of
//! reading one todo file. Reading the disk is left to the caller.

use vstd::prelude::*;
use vstd::string::*;

verus! {

/// Holds what was loaded at startup.
pub struct FileManager {
    pub data: String,
}

/// The log line for one directory entry.
pub open spec fn name_line(name: Seq<char>) -> Seq<char> {
    "Name: "@ + name
}

/// The log lines for reading the file `path`: on success a line naming the
/// file and a line with its contents; on failure a line with the error.
pub open spec fn load_lines(path: Seq<char>, read: Result<Seq<char>, Seq<char>>) -> Seq<Seq<char>> {
    match read {
        Ok(contents) => seq![
            "Successfully loaded file "@ + path,
            "Contents from file: \n"@ + contents,
        ],
        Err(e) => seq!["Failed to load file! "@ + e],
    }
}

/// The view of a read result.
pub open spec fn read_view(read: Result<String, String>) -> Result<Seq<char>, Seq<char>> {
    match read {
        Ok(c) => Ok(c@),
        Err(e) => Err(e@),
    }
}

impl FileManager {
    pub fn new() -> (r: FileManager)
        ensures
            r.data@ == Seq::<char>::empty(),
    {
        FileManager { data: String::new() }
    }

    /// The lines to log at startup: one per name of the directory listing,
    /// in order, then those for reading the todo file `path`.
    pub fn initialize(&self, names: &Vec<String>, path: &str, read: &Result<String, String>) -> (r:
        Vec<String>)
        ensures
            r@.len() == names@.len() + load_lines(path@, read_view(*read)).len(),
            forall|i: int| 0 <= i < names@.len() ==> #[trigger] r@[i]@ == name_line(names@[i]@),
            forall|j: int|
                0 <= j < load_lines(path@, read_view(*read)).len() ==> #[trigger] r@[names@.len()
                    + j]@ == load_lines(path@, read_view(*read))[j],
    {
        let mut r: Vec<String> = Vec::new();
        let mut i: usize = 0;
        while i < names.len()
            invariant
                i <= names@.len(),
                r@.len() == i,
                forall|k: int| 0 <= k < i ==> #[trigger] r@[k]@ == name_line(names@[k]@),
            decreases names@.len() - i,
        {
            r.push(String::from_str("Name: ").concat(names[i].as_str()));
            i = i + 1;
        }
        match read {
            Ok(contents) => {
                r.push(String::from_str("Successfully loaded file ").concat(path));
                r.push(String::from_str("Contents from file: \n").concat(contents.as_str()));
            },
            Err(e) => {
                r.push(String::from_str("Failed to load file! ").concat(e.as_str()));
            },
        }
        r
    }
}

} // verus!
