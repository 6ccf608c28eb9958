//! Path companions and input validation: the encrypted-file extension, the
//! derived output paths, the pre-crypto input checks, and collision-free
//! temporary path names.

use vstd::prelude::*;
use vstd::slice::slice_index_get;
use vstd::string::{StrSliceExecFns, StringExecFns};

use crate::constants::{
    version_seq, HEADER_SIZE, MAX_FILE_SIZE, STREAM_TAG_SIZE, TMP_FILENAME_SIZE,
};
use crate::errors::ValidationError;
use crate::primitives::random_usize;

verus! {

/// Whether a path carries the encrypted-file extension: it ends in `.ic`, and
/// the dot belongs to a file name (the character before it exists and is not
/// a separator, so a bare `.ic` entry does not count).
pub open spec fn has_ic_extension(p: Seq<char>) -> bool {
    &&& p.len() >= 4
    &&& p[p.len() - 3] == '.'
    &&& p[p.len() - 2] == 'i'
    &&& p[p.len() - 1] == 'c'
    &&& p[p.len() - 4] != '/'
}

/// Tests `has_ic_extension` on a concrete path.
pub fn path_has_ic_extension(path: &str) -> (r: bool)
    ensures
        r == has_ic_extension(path@),
{
    let len = path.unicode_len();
    if len < 4 {
        return false;
    }
    path.get_char(len - 3) == '.' && path.get_char(len - 2) == 'i' && path.get_char(len - 1) == 'c'
        && path.get_char(len - 4) != '/'
}

/// The companion output path for encryption: the input path with the
/// encrypted-file extension appended.  When the input does not end in a
/// separator, the result carries the extension.
pub fn get_encrypted_path(path: &str) -> (r: String)
    ensures
        r@ == path@ + ".ic"@,
        path@.len() >= 1 && path@[path@.len() - 1] != '/' ==> has_ic_extension(r@),
{
    proof {
        reveal_strlit(".ic");
    }
    let r = String::from_str(path).concat(".ic");
    r
}

/// The companion output path for decryption: the input path with the three
/// characters of the encrypted-file extension stripped.
pub fn get_decrypted_path(path: &str) -> (r: String)
    requires
        path@.len() >= 4,
    ensures
        r@ == path@.subrange(0, path@.len() - 3),
{
    let len = path.unicode_len();
    let stem = path.substring_char(0, len - 3);
    String::from_str(stem)
}

/// The string-sanitising step on an input path: a single trailing separator
/// is stripped when the path is longer than one character, anything else
/// passes through unchanged.
pub fn strip_trailing_separator(path: &str) -> (r: String)
    ensures
        (path@.len() > 1 && (path@[path@.len() - 1] == '/' || path@[path@.len() - 1] == '\\'))
            ==> r@ == path@.subrange(0, path@.len() - 1),
        !(path@.len() > 1 && (path@[path@.len() - 1] == '/' || path@[path@.len() - 1] == '\\'))
            ==> r@ == path@,
{
    let len = path.unicode_len();
    if len > 1 {
        let last = path.get_char(len - 1);
        if last == '/' || last == '\\' {
            return String::from_str(path.substring_char(0, len - 1));
        }
    }
    String::from_str(path)
}

/// Compares two byte strings for equality, position by position.
fn bytes_eq(a: &[u8], b: &[u8]) -> (r: bool)
    ensures
        r <==> a@ == b@,
{
    if a.len() != b.len() {
        proof {
            assert(a@.len() != b@.len());
        }
        return false;
    }
    let n = a.len();
    let mut i: usize = 0;
    while i < n
        invariant
            i <= n,
            n == a@.len(),
            n == b@.len(),
            forall|j: int| 0 <= j < i ==> a@[j] == b@[j],
        decreases n - i,
    {
        if *slice_index_get(a, i) != *slice_index_get(b, i) {
            return false;
        }
        i = i + 1;
    }
    proof {
        assert(a@ =~= b@);
    }
    true
}

/// Validates an encryption input before any cryptographic work: the path must
/// not already carry the encrypted-file extension, and the file must be
/// neither empty nor at or above the supported maximum size.  Each rejection
/// comes exactly on the stated inputs, checked in this order.
pub fn validate_encryption(path: &str, size: u64) -> (r: Result<(), ValidationError>)
    ensures
        r matches Ok(u) <==> (!has_ic_extension(path@) && 0 < size < MAX_FILE_SIZE),
        r == Err::<(), ValidationError>(ValidationError::PathAlreadyEncrypted) <==> has_ic_extension(path@),
        r == Err::<(), ValidationError>(ValidationError::EmptyFile) <==> (!has_ic_extension(path@)
            && size == 0),
        r == Err::<(), ValidationError>(ValidationError::FileTooBig) <==> (!has_ic_extension(path@)
            && size >= MAX_FILE_SIZE),
{
    if path_has_ic_extension(path) {
        return Err(ValidationError::PathAlreadyEncrypted);
    }
    if size == 0 {
        return Err(ValidationError::EmptyFile);
    }
    if size >= MAX_FILE_SIZE {
        return Err(ValidationError::FileTooBig);
    }
    Ok(())
}

/// Whether a size could be a container produced by this format: strictly more
/// than a bare header and tag, strictly less than the payload maximum plus
/// that overhead.
pub open spec fn decryption_size_ok(size: u64) -> bool {
    HEADER_SIZE + STREAM_TAG_SIZE < size < MAX_FILE_SIZE + HEADER_SIZE + STREAM_TAG_SIZE
}

/// Validates a decryption input before any cryptographic work: the path must
/// carry the encrypted-file extension, the size must be plausible for a
/// container, and the first bytes must be the supported format version.  Each
/// rejection comes exactly on the stated inputs, checked in this order.
pub fn validate_decryption(path: &str, size: u64, version: &[u8]) -> (r: Result<
    (),
    ValidationError,
>)
    ensures
        r matches Ok(u) <==> (has_ic_extension(path@) && decryption_size_ok(size) && version@
            == version_seq()),
        r == Err::<(), ValidationError>(ValidationError::PathNotEncrypted) <==> !has_ic_extension(
            path@,
        ),
        r == Err::<(), ValidationError>(ValidationError::InvalidFileSize) <==> (has_ic_extension(
            path@,
        ) && !decryption_size_ok(size)),
        r == Err::<(), ValidationError>(ValidationError::WrongVersion) <==> (has_ic_extension(
            path@,
        ) && decryption_size_ok(size) && version@ != version_seq()),
{
    if !path_has_ic_extension(path) {
        return Err(ValidationError::PathNotEncrypted);
    }
    if size <= (HEADER_SIZE + STREAM_TAG_SIZE) as u64 || size >= MAX_FILE_SIZE + (HEADER_SIZE
        + STREAM_TAG_SIZE) as u64 {
        return Err(ValidationError::InvalidFileSize);
    }
    let expected = crate::constants::version_bytes();
    if !bytes_eq(version, expected.as_slice()) {
        return Err(ValidationError::WrongVersion);
    }
    Ok(())
}

/// Whether a character may appear in a generated temporary file name: one of
/// the restricted hexadecimal-style charset `0123456789abdef`.
pub open spec fn is_tmp_char(c: char) -> bool {
    c == '0' || c == '1' || c == '2' || c == '3' || c == '4' || c == '5' || c == '6' || c == '7'
        || c == '8' || c == '9' || c == 'a' || c == 'b' || c == 'd' || c == 'e' || c == 'f'
}

/// Whether `p` is a well-formed temporary path under `parent`: the parent, a
/// separator, and a name of `TMP_FILENAME_SIZE` charset characters.
pub open spec fn is_tmp_path_under(p: Seq<char>, parent: Seq<char>) -> bool {
    &&& p.len() == parent.len() + 1 + TMP_FILENAME_SIZE
    &&& p.subrange(0, parent.len() as int) == parent
    &&& p[parent.len() as int] == '/'
    &&& forall|i: int|
        parent.len() + 1 <= i < p.len() ==> is_tmp_char(#[trigger] p[i])
}

/// One character of the temporary-name charset, as a one-character string.
fn tmp_char_str(i: usize) -> (r: &'static str)
    requires
        i < 15,
    ensures
        r@.len() == 1,
        is_tmp_char(r@[0]),
{
    proof {
        reveal_strlit("0");
        reveal_strlit("1");
        reveal_strlit("2");
        reveal_strlit("3");
        reveal_strlit("4");
        reveal_strlit("5");
        reveal_strlit("6");
        reveal_strlit("7");
        reveal_strlit("8");
        reveal_strlit("9");
        reveal_strlit("a");
        reveal_strlit("b");
        reveal_strlit("d");
        reveal_strlit("e");
        reveal_strlit("f");
    }
    if i == 0 {
        "0"
    } else if i == 1 {
        "1"
    } else if i == 2 {
        "2"
    } else if i == 3 {
        "3"
    } else if i == 4 {
        "4"
    } else if i == 5 {
        "5"
    } else if i == 6 {
        "6"
    } else if i == 7 {
        "7"
    } else if i == 8 {
        "8"
    } else if i == 9 {
        "9"
    } else if i == 10 {
        "a"
    } else if i == 11 {
        "b"
    } else if i == 12 {
        "d"
    } else if i == 13 {
        "e"
    } else {
        "f"
    }
}

/// An ephemeral filesystem path used to stage an intermediate blob.  The
/// owning scope probes the filesystem for collisions and guarantees removal;
/// this type only carries the name and proves its shape.
pub struct TmpPath {
    path: String,
}

impl View for TmpPath {
    type V = Seq<char>;

    closed spec fn view(&self) -> Seq<char> {
        self.path@
    }
}

impl TmpPath {
    /// The full path as a string.
    pub fn path(&self) -> (p: &String)
        ensures
            p@ == self@,
    {
        &self.path
    }

    /// Generates one candidate temporary path under `parent`: a separator and
    /// a random fixed-length name from the restricted charset.  The caller
    /// draws again while the path exists on disk.
    pub fn new(parent: &str) -> (t: TmpPath)
        ensures
            is_tmp_path_under(t@, parent@),
    {
        let mut name = String::new();
        let mut i: usize = 0;
        while i < TMP_FILENAME_SIZE
            invariant
                i <= TMP_FILENAME_SIZE,
                name@.len() == i,
                forall|j: int| 0 <= j < i ==> is_tmp_char(#[trigger] name@[j]),
            decreases TMP_FILENAME_SIZE - i,
        {
            let idx = random_usize() % 15;
            name.append(tmp_char_str(idx));
            i = i + 1;
        }
        proof {
            reveal_strlit("/");
        }
        let mut path = String::from_str(parent);
        path.append("/");
        path.append(name.as_str());
        proof {
            assert(path@.subrange(0, parent@.len() as int) =~= parent@);
        }
        TmpPath { path }
    }
}

} // verus!
