use vstd::prelude::*;
use vstd::string::*;

use crate::codec::Base64File;
use crate::codec::b64_of;
use crate::errors::RpcError;

verus! {

/// A file envelope as it crosses the bridge: the resolved destination path
/// beside the size-guarded text payload.
#[derive(Debug)]
pub struct RpcFile {
    pub path: String,
    pub file: Base64File,
}

pub open spec fn is_separator(c: char) -> bool {
    c == '/' || c == '\\'
}

/// The index where the file-name component of a path begins: just after the
/// last separator, or zero when the path has none.
pub open spec fn file_name_start(p: Seq<char>) -> int
    decreases p.len(),
{
    if p.len() == 0 {
        0
    } else if is_separator(p[p.len() - 1]) {
        p.len() as int
    } else {
        file_name_start(p.drop_last())
    }
}

/// Whether the file-name component of a path has an extension: a dot that is
/// not its first character.
pub open spec fn has_extension(p: Seq<char>) -> bool {
    exists|i: int| file_name_start(p) < i < p.len() && p[i] == '.'
}

/// The sibling path that holds the single-generation backup of a
/// destination: the destination path with the backup suffix appended to its
/// extension.
pub open spec fn backup_path_spec(p: Seq<char>) -> Seq<char> {
    p + ".bak"@
}

/// Exact-match scan for an extension component in the path's file name.
pub fn path_has_extension(p: &String) -> (r: bool)
    ensures
        r == has_extension(p@),
{
    let s = p.as_str();
    let n = s.unicode_len();
    let mut i: usize = n;
    proof {
        assert(p@.take(n as int) =~= p@);
    }
    loop
        invariant
            i <= n,
            n == p@.len(),
            s@ == p@,
            file_name_start(p@) == file_name_start(p@.take(i as int)),
        ensures
            i == file_name_start(p@),
            i <= n,
            n == p@.len(),
            s@ == p@,
        decreases i,
    {
        if i == 0 {
            proof {
                assert(p@.take(0) =~= Seq::<char>::empty());
            }
            break;
        }
        let c = s.get_char(i - 1);
        if c == '/' || c == '\\' {
            proof {
                assert(p@.take(i as int).len() == i);
                assert(p@.take(i as int)[i - 1] == p@[i - 1]);
            }
            break;
        }
        proof {
            assert(p@.take(i as int).drop_last() =~= p@.take(i as int - 1));
            assert(p@.take(i as int)[i - 1] == p@[i - 1]);
        }
        i = i - 1;
    }
    let start = i;
    if start >= n {
        return false;
    }
    let mut j: usize = start + 1;
    while j < n
        invariant
            start < j <= n,
            n == p@.len(),
            s@ == p@,
            start == file_name_start(p@),
            forall|k: int| start < k < j ==> p@[k] != '.',
        decreases n - j,
    {
        if s.get_char(j) == '.' {
            proof {
                assert(file_name_start(p@) < j < p@.len() && p@[j as int] == '.');
            }
            return true;
        }
        j = j + 1;
    }
    false
}

/// The backup destination for a path: the path with the backup suffix
/// appended.
pub fn backup_path(p: &String) -> (r: String)
    ensures
        r@ == backup_path_spec(p@),
{
    p.clone().concat(".bak")
}

/// Builds the envelope that a load operation returns: `path` is the resolved
/// location the bytes were read from, and the payload records the byte count
/// exactly, so decoding the envelope gives back exactly the bytes read.
pub fn open_file(path: String, bytes: Vec<u8>) -> (r: RpcFile)
    ensures
        r.path@ == path@,
        r.file.unencoded_size == bytes@.len(),
        r.file.base64@ == b64_of(bytes@),
        r.file.decode_spec() == Some(bytes@),
{
    let file = Base64File::encode(&bytes);
    RpcFile { path, file }
}

/// Whether a save must first copy the existing destination to its sibling
/// backup: exactly when the destination exists and its file name has an
/// extension component.
pub open spec fn wants_backup(path: Seq<char>, dest_exists: bool) -> bool {
    dest_exists && has_extension(path)
}

/// Everything a save operation has decided before the host touches the
/// filesystem: where to write, whether (and where) to copy the existing
/// destination first, and the decoded bytes — or the decode failure that is
/// reported once the backup copy is done.
#[derive(Debug)]
pub struct SavePlan {
    pub path: String,
    pub backup_to: Option<String>,
    pub content: Result<Vec<u8>, RpcError>,
}

/// Plans a save. The backup copy is owed exactly when the destination exists
/// and has an extension; the payload is then decoded, and a payload that
/// does not decode to exactly its declared size makes the whole save fail
/// with `DecodeError` (after the backup copy, which precedes decoding).
pub fn write_file(rpc_file: RpcFile, dest_exists: bool) -> (r: SavePlan)
    ensures
        r.path@ == rpc_file.path@,
        r.backup_to is Some <==> wants_backup(rpc_file.path@, dest_exists),
        r.backup_to matches Some(b) ==> b@ == backup_path_spec(rpc_file.path@),
        match r.content {
            Ok(v) => rpc_file.file.decode_spec() == Some(v@),
            Err(e) => rpc_file.file.decode_spec() is None && e == RpcError::DecodeError,
        },
{
    let RpcFile { path, file } = rpc_file;
    let backup_to = if dest_exists && path_has_extension(&path) {
        Some(backup_path(&path))
    } else {
        None
    };
    let content = file.decode();
    SavePlan { path, backup_to, content }
}

/// A model of the directory a save acts on: each present path maps to its
/// byte content. A save first copies the destination to the backup path
/// (when one is planned and the destination is present), then overwrites the
/// destination with the new bytes.
pub open spec fn apply_save(
    fs: Map<Seq<char>, Seq<u8>>,
    path: Seq<char>,
    backup_to: Option<Seq<char>>,
    bytes: Seq<u8>,
) -> Map<Seq<char>, Seq<u8>> {
    let after_backup = match backup_to {
        Some(b) => if fs.contains_key(path) {
            fs.insert(b, fs[path])
        } else {
            fs
        },
        None => fs,
    };
    after_backup.insert(path, bytes)
}

/// Backup invariant: saving over an existing destination whose name has an
/// extension leaves a sibling backup file holding exactly the pre-save
/// destination content, and the destination holding the new bytes; saving to
/// a destination that did not exist creates no backup at all.
pub proof fn lemma_backup_invariant(
    fs: Map<Seq<char>, Seq<u8>>,
    path: Seq<char>,
    backup_to: Option<Seq<char>>,
    bytes: Seq<u8>,
)
    requires
        backup_to is Some <==> wants_backup(path, fs.contains_key(path)),
        backup_to matches Some(b) ==> b == backup_path_spec(path),
    ensures
        fs.contains_key(path) && has_extension(path) ==> apply_save(fs, path, backup_to, bytes)[backup_path_spec(path)]
            == fs[path],
        apply_save(fs, path, backup_to, bytes)[path] == bytes,
        !fs.contains_key(path) ==> apply_save(fs, path, backup_to, bytes) == fs.insert(path, bytes),
{
    reveal_strlit(".bak");
    assert(backup_path_spec(path).len() == path.len() + 4);
}

} // verus!
