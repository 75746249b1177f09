//! The data file of the to-do manager. Reading and writing the file happen
//! outside the library; these types know where it is and what its outcome means.
use vstd::prelude::*;

verus! {

/// The file that data is read from and written to.
pub struct IOEngine {
    file_path: String,
}

impl IOEngine {
    pub closed spec fn path(&self) -> Seq<char> {
        self.file_path@
    }

    pub fn new(file_path: &str) -> (r: IOEngine)
        ensures
            r.path() == file_path@,
    {
        IOEngine { file_path: String::from_str(file_path) }
    }

    pub fn file_path(&self) -> (r: &str)
        ensures
            r@ == self.path(),
    {
        self.file_path.as_str()
    }
}

/// Reads and writes the to-do data through its engine.
pub struct DataHandler {
    io_engine: IOEngine,
}

impl DataHandler {
    pub closed spec fn path(&self) -> Seq<char> {
        self.io_engine.path()
    }

    pub fn new(file_path: &str) -> (r: DataHandler)
        ensures
            r.path() == file_path@,
    {
        DataHandler { io_engine: IOEngine::new(file_path) }
    }

    pub fn io_engine(&self) -> (r: &IOEngine)
        ensures
            r.path() == self.path(),
    {
        &self.io_engine
    }

    /// The data, given how reading the file went: its text, or nothing when it could
    /// not be read.
    pub fn read_data(&self, loaded: Result<String, String>) -> (r: Option<String>)
        ensures
            r == match loaded {
                Ok(text) => Some(text),
                Err(_) => None::<String>,
            },
    {
        match loaded {
            Ok(text) => Some(text),
            Err(_) => None,
        }
    }

    /// Whether the data was saved, given how writing the file went.
    pub fn write_data(&self, stored: Result<(), String>) -> (r: bool)
        ensures
            r == (stored is Ok),
    {
        stored.is_ok()
    }
}

} // verus!
