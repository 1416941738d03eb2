//! Naming of stored recordings: which request ids are safe as file names.

use vstd::prelude::*;
use vstd::string::{StringExecFns, StringSliceAdditionalSpecFns};

verus! {

/// Extension of a stored recording, with its dot.
pub const WAV_EXTENSION: &'static str = ".wav";

/// Basic statistics about saved recordings.
#[derive(Debug, Clone, Copy, PartialEq, Eq, Structural)]
pub struct RecordingsStats {
    /// Number of recordings.
    pub count: u64,
    /// Their total size in bytes.
    pub bytes: u64,
}

/// Whether a byte is an ASCII letter, a digit, a hyphen or an underscore.
pub open spec fn safe_byte(b: u8) -> bool {
    (0x61 <= b <= 0x7a) || (0x41 <= b <= 0x5a) || (0x30 <= b <= 0x39) || b == 0x2d || b == 0x5f
}

/// Whether an id can serve as a file name without escaping the store: it is
/// not empty and holds letters, digits, hyphens and underscores only.
pub open spec fn safe_request_id(bytes: Seq<u8>) -> bool {
    bytes.len() > 0 && forall|i: int| 0 <= i < bytes.len() ==> safe_byte(#[trigger] bytes[i])
}

/// How many of `count` recordings to delete, oldest first, to keep at most
/// `max_keep`. A limit of zero keeps them all.
pub fn prune_count(count: usize, max_keep: usize) -> (excess: usize)
    ensures
        excess == if max_keep == 0 || count <= max_keep {
            0
        } else {
            count - max_keep
        },
{
    if max_keep == 0 || count <= max_keep {
        0
    } else {
        count - max_keep
    }
}

/// The message for a request id that is not safe as a file name.
pub const INVALID_REQUEST_ID: &'static str = "Invalid request id";

/// The recordings of a directory, by request id. The files themselves are
/// read and written outside the library, which is told what is on disk.
#[derive(Debug, Clone)]
pub struct RecordingStore {
    dir: String,
}

impl RecordingStore {
    /// The directory of the store.
    pub closed spec fn spec_directory(&self) -> Seq<char> {
        self.dir@
    }

    /// The store of the given directory.
    pub fn new(dir: String) -> (store: Self)
        ensures
            store.spec_directory() == dir@,
    {
        RecordingStore { dir }
    }

    /// The directory of the store.
    pub fn directory(&self) -> (dir: &str)
        ensures
            dir@ == self.spec_directory(),
    {
        self.dir.as_str()
    }

    /// The file name, within the directory, of the recording with the given
    /// id if it exists on disk. An id that is not safe as a file name is
    /// rejected whatever is on disk.
    pub fn wav_path_if_exists(&self, id: &str, on_disk: bool) -> (r: Result<
        Option<String>,
        String,
    >)
        ensures
            match r {
                Err(message) => !safe_request_id(id.spec_bytes()) && message@
                    == INVALID_REQUEST_ID@,
                Ok(Some(name)) => safe_request_id(id.spec_bytes()) && on_disk && name@ == id@
                    + WAV_EXTENSION@,
                Ok(None) => safe_request_id(id.spec_bytes()) && !on_disk,
            },
    {
        if !RecordingStore::is_safe_request_id(id) {
            return Err(String::from_str(INVALID_REQUEST_ID));
        }
        if on_disk {
            Ok(Some(RecordingStore::file_name_for_id(id)))
        } else {
            Ok(None)
        }
    }

    /// Whether a recording is there: it is known to have been saved, or its
    /// file is on disk.
    pub fn has(&self, known: bool, on_disk: bool) -> (there: bool)
        ensures
            there == (known || on_disk),
    {
        known || on_disk
    }

    /// Check that a request id is safe to use as a file name.
    pub fn is_safe_request_id(id: &str) -> (safe: bool)
        ensures
            safe == safe_request_id(id.spec_bytes()),
    {
        let bytes = id.as_bytes();
        let n: usize = bytes.len();
        if n == 0 {
            return false;
        }
        let mut i: usize = 0;
        while i < n
            invariant
                i <= n,
                n == bytes@.len(),
                bytes@ == id.spec_bytes(),
                forall|j: int| 0 <= j < i ==> safe_byte(#[trigger] bytes@[j]),
            decreases n - i,
        {
            let b: u8 = bytes[i];
            let ok = (0x61 <= b && b <= 0x7a) || (0x41 <= b && b <= 0x5a) || (0x30 <= b && b
                <= 0x39) || b == 0x2d || b == 0x5f;
            if !ok {
                assert(!safe_byte(bytes@[i as int]));
                return false;
            }
            i = i + 1;
        }
        true
    }

    /// The file name of the recording with the given id: the id, then
    /// `.wav`.
    pub fn file_name_for_id(id: &str) -> (name: String)
        ensures
            name@ == id@ + WAV_EXTENSION@,
    {
        String::from_str(id).concat(WAV_EXTENSION)
    }
}

} // verus!
