//! The file gate: where a file goes when it is locked away, and how it
//! comes back.
//!
//! Nothing here touches the disk. Locking and unlocking by relocation are
//! planned as a [`FileMove`], which the caller carries out. Locking a file
//! where it stands is a matter of bytes: the caller reads the file, has the
//! bytes encoded or decoded here, and writes the result back.

use crate::crypto_utils::{
    decrypt_with_nonce, encrypt_with_nonce, fixed_nonce, opened, sealed, spec_fixed_nonce, Key,
    NonceBytes,
};
use rand::Rng;
use std::io::{Read, Write};
use vstd::prelude::*;
use vstd::string::*;

verus! {

/// One relocation of a file, to be carried out by the caller exactly as it
/// stands. A move that cannot be carried out is fatal for the operation
/// that planned it.
#[derive(Clone, Debug, PartialEq, Eq)]
pub struct FileMove {
    pub from: String,
    pub to: String,
}

/// Why a file could not be locked away.
#[derive(Clone, Copy, Debug, PartialEq, Eq, Structural)]
pub enum GateError {
    /// The folder pool holds no folder to move the file to.
    EmptyPool,
}

impl FileMove {
    /// Whether the move can be carried out on `disk`, a map from each path
    /// that exists to the bytes stored there: the source must exist, and the
    /// destination must be free.
    pub open spec fn spec_can_apply(self, disk: Map<Seq<char>, Seq<u8>>) -> bool {
        disk.contains_key(self.from@) && !disk.contains_key(self.to@)
    }

    /// The disk after the move: the bytes that were at the source are at the
    /// destination, and every other path is as it was.
    pub open spec fn spec_apply(self, disk: Map<Seq<char>, Seq<u8>>) -> Map<Seq<char>, Seq<u8>> {
        disk.remove(self.from@).insert(self.to@, disk[self.from@])
    }
}

/// Why the bytes of a file could not be encoded or decoded.
#[derive(Clone, Copy, Debug, PartialEq, Eq, Structural)]
pub enum CodecError {
    /// The bytes could not be compressed.
    Compression,
    /// The bytes are not a compressed frame.
    Decompression,
    /// The bytes could not be sealed.
    Sealing,
    /// The bytes are not what was sealed with this key.
    Opening,
    /// The archive could not be written.
    Archive,
    /// The bytes are not an archive with an entry to read.
    Extraction,
}

/// The error of std's `io` module.
#[verifier::external_type_specification]
#[verifier::external_body]
pub struct ExIoError(std::io::Error);

/// The error of the zip library.
#[verifier::external_type_specification]
#[verifier::external_body]
pub struct ExZipError(zip::result::ZipError);

/// The level that files are compressed at.
pub const COMPRESSION_LEVEL: i32 = 1;

/// The permissions of the one entry of an archive: `rwxr-xr-x`.
pub const ENTRY_PERMISSIONS: u32 = 0o755;

/// The name of the one entry of an archive.
pub open spec fn spec_entry_name() -> Seq<char> {
    "main"@
}

/// The zstd frame that `data` compresses to at `level`, or `None` where the
/// library fails.
pub uninterp spec fn zstd_frame(data: Seq<u8>, level: int) -> Option<Seq<u8>>;

/// The bytes that the zstd frames in `data` decompress to, or `None` where
/// `data` is not made of zstd frames.
pub uninterp spec fn zstd_content(data: Seq<u8>) -> Option<Seq<u8>>;

/// The zip archive with the single entry `name`, holding `data` compressed
/// with zstd, with the given Unix permissions; `None` where the library
/// fails.
pub uninterp spec fn zip_archive(name: Seq<char>, permissions: int, data: Seq<u8>) -> Option<
    Seq<u8>,
>;

/// The bytes of the first entry of the zip archive `archive`, read with
/// the empty password, or `None` where they cannot be read from it.
pub uninterp spec fn zip_first_entry(archive: Seq<u8>) -> Option<Seq<u8>>;

/// Compresses: zstd's `stream::encode_all` on the bytes of `data`.
#[verifier::external_body]
fn zstd_encode(data: &Vec<u8>, level: i32) -> (outcome: Result<Vec<u8>, std::io::Error>)
    ensures
        outcome is Ok <==> zstd_frame(data@, level as int) is Some,
        outcome matches Ok(bytes) ==> bytes@ == zstd_frame(data@, level as int).unwrap(),
{
    zstd::stream::encode_all(data.as_slice(), level)
}

/// Decompresses: zstd's `stream::decode_all` on the bytes of `data`.
#[verifier::external_body]
fn zstd_decode(data: &Vec<u8>) -> (outcome: Result<Vec<u8>, std::io::Error>)
    ensures
        outcome is Ok <==> zstd_content(data@) is Some,
        outcome matches Ok(bytes) ==> bytes@ == zstd_content(data@).unwrap(),
{
    zstd::stream::decode_all(data.as_slice())
}

/// Writes an archive in memory: zip's `ZipWriter::new` on a cursor,
/// `FileOptions::default` with `compression_method` zstd and
/// `unix_permissions`, `start_file`, `write_all` and `finish`. The library
/// is built without its clock, so the entry carries its fixed default date
/// and the archive depends on the arguments alone.
#[verifier::external_body]
fn zip_write_zstd(name: &str, permissions: u32, data: &Vec<u8>) -> (outcome: Result<
    Vec<u8>,
    zip::result::ZipError,
>)
    ensures
        outcome is Ok <==> zip_archive(name@, permissions as int, data@) is Some,
        outcome matches Ok(bytes) ==> bytes@ == zip_archive(
            name@,
            permissions as int,
            data@,
        ).unwrap(),
{
    let mut writer = zip::ZipWriter::new(std::io::Cursor::new(Vec::new()));
    let options = zip::write::FileOptions::default().compression_method(
        zip::CompressionMethod::Zstd,
    ).unix_permissions(permissions);
    writer.start_file(name, options)?;
    writer.write_all(data)?;
    Ok(writer.finish()?.into_inner())
}

/// Reads an archive in memory: zip's `ZipArchive::new` on a cursor,
/// `by_index_decrypt` for the first entry, with the empty password, and
/// std's `read_to_end` on it. Unlike `by_index`, that call hands back the
/// refusal of an entry that asks for a password instead of panicking on
/// it; the refusal is returned as the library's own error for a missing
/// password.
#[verifier::external_body]
fn zip_read(archive: &Vec<u8>) -> (outcome: Result<Vec<u8>, zip::result::ZipError>)
    ensures
        outcome is Ok <==> zip_first_entry(archive@) is Some,
        outcome matches Ok(bytes) ==> bytes@ == zip_first_entry(archive@).unwrap(),
{
    let mut reader = zip::ZipArchive::new(std::io::Cursor::new(archive.as_slice()))?;
    let mut entry = match reader.by_index_decrypt(0, &[])? {
        Ok(entry) => entry,
        Err(_) => return Err(zip::result::ZipError::UnsupportedArchive(
            zip::result::ZipError::PASSWORD_REQUIRED,
        )),
    };
    let mut bytes = Vec::new();
    entry.read_to_end(&mut bytes)?;
    Ok(bytes)
}

/// The shortest name that a locked file is given.
pub const MIN_NAME_LEN: usize = 3;

/// One more than the longest name that a locked file is given.
pub const NAME_LEN_LIMIT: usize = 20;

/// The number of letters that a name is drawn from: `a` to `z`.
pub const ALPHABET_LEN: usize = 26;

/// The `index`-th lower-case letter, counted from `a` as zero.
pub open spec fn spec_letter(index: int) -> char {
    (97 + index) as u8 as char
}

/// Whether `c` is one of `a` to `z`.
pub open spec fn is_lowercase_letter(c: char) -> bool {
    'a' <= c <= 'z'
}

/// Whether `name` is fit for a locked file: at least three and fewer
/// than twenty lower-case letters.
pub open spec fn is_gate_name(name: Seq<char>) -> bool {
    &&& MIN_NAME_LEN <= name.len() < NAME_LEN_LIMIT
    &&& forall|i: int| 0 <= i < name.len() ==> is_lowercase_letter(#[trigger] name[i])
}

/// The name that a sequence of draws spells, one letter for each draw.
pub open spec fn spec_name_from_draws(draws: Seq<usize>) -> Seq<char> {
    Seq::new(draws.len(), |i: int| spec_letter(draws[i] as int))
}

/// A random number generator: rand's `thread_rng`, asked through
/// `Rng::gen_range` for one value of the half-open range from `low` to
/// `high`. The range must not be empty, or the call panics; the value lies
/// in the range, and nothing else is known of it.
#[verifier::external_body]
fn random_in_range(low: usize, high: usize) -> (drawn: usize)
    requires
        low < high,
    ensures
        low <= drawn < high,
{
    rand::thread_rng().gen_range(low..high)
}

/// The lower-case letter with the given index.
pub fn letter(index: usize) -> (text: &'static str)
    requires
        index < ALPHABET_LEN,
    ensures
        text@ == seq![spec_letter(index as int)],
{
    let alphabet = "abcdefghijklmnopqrstuvwxyz";
    proof {
        reveal_strlit("abcdefghijklmnopqrstuvwxyz");
        assert(alphabet@.len() == 26);
        assert(forall|i: int| 0 <= i < 26 ==> alphabet@[i] == spec_letter(i));
        assert(vstd::utf8::is_ascii_chars(alphabet@));
    }
    let text = alphabet.substring_ascii(index, index + 1);
    assert(text@ =~= seq![spec_letter(index as int)]);
    text
}

/// Spells the name that `draws` stand for: one letter per draw, in order.
pub fn name_from_draws(draws: &Vec<usize>) -> (name: String)
    requires
        forall|i: int| 0 <= i < draws.len() ==> draws[i] < ALPHABET_LEN,
    ensures
        name@ == spec_name_from_draws(draws@),
{
    let mut name = String::new();
    let mut done: usize = 0;
    while done < draws.len()
        invariant
            done <= draws.len(),
            forall|i: int| 0 <= i < draws.len() ==> draws[i] < ALPHABET_LEN,
            name@ == spec_name_from_draws(draws@.take(done as int)),
        decreases draws.len() - done,
    {
        name.append(letter(draws[done]));
        done += 1;
        assert(name@ =~= spec_name_from_draws(draws@.take(done as int)));
    }
    assert(draws@.take(done as int) =~= draws@);
    name
}

/// A fresh random name for a locked file: at least three and fewer than
/// twenty letters, each drawn from `a` to `z`.
pub fn generate_name() -> (name: String)
    ensures
        is_gate_name(name@),
{
    let length = random_in_range(MIN_NAME_LEN, NAME_LEN_LIMIT);
    let mut draws: Vec<usize> = Vec::new();
    while draws.len() < length
        invariant
            draws.len() <= length,
            forall|i: int| 0 <= i < draws.len() ==> draws[i] < ALPHABET_LEN,
        decreases length - draws.len(),
    {
        draws.push(random_in_range(0, ALPHABET_LEN));
    }
    let name = name_from_draws(&draws);
    assert forall|i: int| 0 <= i < name@.len() implies is_lowercase_letter(#[trigger] name@[i]) by {
        assert(draws[i] < ALPHABET_LEN);
    }
    name
}

/// The path of the file called `name` in `folder`: the folder's path with
/// the name appended, nothing in between.
pub fn gated_path(folder: &String, name: &str) -> (path: String)
    ensures
        path@ == folder@ + name@,
{
    folder.clone().concat(name)
}

/// Plans locking `path` away in the folder of the pool that `choice`
/// selects, under `name`. An empty pool is refused before anything else
/// is looked at.
pub fn encode_file_by_moving_to(
    folder_pool: &Vec<String>,
    choice: usize,
    name: &str,
    path: &String,
) -> (plan: Result<FileMove, GateError>)
    requires
        folder_pool.len() > 0 ==> choice < folder_pool.len(),
    ensures
        plan is Err <==> folder_pool.len() == 0,
        plan matches Err(error) ==> error == GateError::EmptyPool,
        plan matches Ok(file_move) ==> file_move.from@ == path@ && file_move.to@
            == folder_pool[choice as int]@ + name@,
{
    if folder_pool.len() == 0 {
        return Err(GateError::EmptyPool);
    }
    Ok(FileMove { from: path.clone(), to: gated_path(&folder_pool[choice], name) })
}

/// Plans locking `path` away: one folder of the pool is drawn at random, and
/// the file is to go there under a fresh random name.
///
/// An empty pool is an error, reported before anything is drawn. With a
/// single folder in the pool the file goes to that folder.
pub fn encode_file_by_moving(folder_pool: &Vec<String>, path: &String) -> (plan: Result<
    FileMove,
    GateError,
>)
    ensures
        plan is Err <==> folder_pool.len() == 0,
        plan matches Err(error) ==> error == GateError::EmptyPool,
        plan matches Ok(file_move) ==> {
            &&& file_move.from@ == path@
            &&& exists|choice: int, name: Seq<char>|
                0 <= choice < folder_pool.len() && is_gate_name(name) && file_move.to@
                    == #[trigger] (folder_pool[choice]@ + name)
        },
        plan matches Ok(file_move) ==> (folder_pool.len() == 1 ==> exists|name: Seq<char>|
            is_gate_name(name) && file_move.to@ == #[trigger] (folder_pool[0]@ + name)),
{
    if folder_pool.len() == 0 {
        return Err(GateError::EmptyPool);
    }
    let choice = random_in_range(0, folder_pool.len());
    let name = generate_name();
    let plan = encode_file_by_moving_to(folder_pool, choice, name.as_str(), path);
    proof {
        let file_move = plan->Ok_0;
        assert(file_move.to@ == folder_pool[choice as int]@ + name@);
    }
    plan
}

/// Plans unlocking a file: it goes from where it is kept, `current_path`,
/// back to `initial_path`.
pub fn decode_file_from_moving(current_path: &String, initial_path: &String) -> (file_move:
    FileMove)
    ensures
        file_move.from@ == current_path@,
        file_move.to@ == initial_path@,
{
    FileMove { from: current_path.clone(), to: initial_path.clone() }
}

/// Encodes the bytes of a file by compression alone: the result is their
/// zstd frame. The key takes no part in it.
pub fn encode_file_by_compression(key: &Key, bytes: &Vec<u8>) -> (outcome: Result<
    Vec<u8>,
    CodecError,
>)
    ensures
        outcome is Ok <==> zstd_frame(bytes@, 1) is Some,
        outcome matches Ok(encoded) ==> encoded@ == zstd_frame(bytes@, 1).unwrap(),
        outcome matches Err(error) ==> error == CodecError::Compression,
{
    match zstd_encode(bytes, COMPRESSION_LEVEL) {
        Ok(encoded) => Ok(encoded),
        Err(_) => Err(CodecError::Compression),
    }
}

/// Decodes what [`encode_file_by_compression`] made: the result is what
/// the frame decompresses to. The key takes no part in it.
pub fn decode_file_from_compression(key: &Key, bytes: &Vec<u8>) -> (outcome: Result<
    Vec<u8>,
    CodecError,
>)
    ensures
        outcome is Ok <==> zstd_content(bytes@) is Some,
        outcome matches Ok(decoded) ==> decoded@ == zstd_content(bytes@).unwrap(),
        outcome matches Err(error) ==> error == CodecError::Decompression,
{
    match zstd_decode(bytes) {
        Ok(decoded) => Ok(decoded),
        Err(_) => Err(CodecError::Decompression),
    }
}

/// Packs `bytes_to_write` into an archive with one entry, called `main`.
pub fn create_archive(bytes_to_write: &Vec<u8>) -> (outcome: Result<Vec<u8>, CodecError>)
    ensures
        outcome is Ok <==> zip_archive(spec_entry_name(), 0o755, bytes_to_write@) is Some,
        outcome matches Ok(archive) ==> archive@ == zip_archive(
            spec_entry_name(),
            0o755,
            bytes_to_write@,
        ).unwrap(),
        outcome matches Err(error) ==> error == CodecError::Archive,
{
    match zip_write_zstd("main", ENTRY_PERMISSIONS, bytes_to_write) {
        Ok(archive) => Ok(archive),
        Err(_) => Err(CodecError::Archive),
    }
}

/// Unpacks the first entry of an archive.
pub fn extract_from(archive: &Vec<u8>) -> (outcome: Result<Vec<u8>, CodecError>)
    ensures
        outcome is Ok <==> zip_first_entry(archive@) is Some,
        outcome matches Ok(bytes) ==> bytes@ == zip_first_entry(archive@).unwrap(),
        outcome matches Err(error) ==> error == CodecError::Extraction,
{
    match zip_read(archive) {
        Ok(bytes) => Ok(bytes),
        Err(_) => Err(CodecError::Extraction),
    }
}

/// The archive of what `bytes` seal to under `key` and `nonce`, or the
/// error of the step that failed.
pub open spec fn spec_encoded_unstable(key: Seq<u8>, nonce: Seq<u8>, bytes: Seq<u8>) -> Result<
    Seq<u8>,
    CodecError,
> {
    match sealed(key, nonce, bytes) {
        None => Err(CodecError::Sealing),
        Some(cipher) => match zip_archive(spec_entry_name(), 0o755, cipher) {
            None => Err(CodecError::Archive),
            Some(archive) => Ok(archive),
        },
    }
}

/// What the first entry of `archive` opens to under `key` and `nonce`, or
/// the error of the step that failed.
pub open spec fn spec_decoded_unstable(key: Seq<u8>, nonce: Seq<u8>, archive: Seq<u8>) -> Result<
    Seq<u8>,
    CodecError,
> {
    match zip_first_entry(archive) {
        None => Err(CodecError::Extraction),
        Some(cipher) => match opened(key, nonce, cipher) {
            None => Err(CodecError::Opening),
            Some(bytes) => Ok(bytes),
        },
    }
}

/// Encodes the bytes of a file by sealing them under `key` and `nonce` and
/// packing the result into an archive. A nonce must never be used twice
/// with one key: take a fresh one for each file, and keep it with the file,
/// for it is needed to decode.
pub fn encode_file_unstable_with_nonce(
    key: &Key,
    nonce: NonceBytes,
    bytes: &Vec<u8>,
) -> (outcome: Result<Vec<u8>, CodecError>)
    ensures
        outcome is Ok <==> spec_encoded_unstable(key@, nonce@, bytes@) is Ok,
        outcome matches Ok(encoded) ==> spec_encoded_unstable(key@, nonce@, bytes@) == Ok::<
            Seq<u8>,
            CodecError,
        >(encoded@),
        outcome matches Err(error) ==> spec_encoded_unstable(key@, nonce@, bytes@) == Err::<
            Seq<u8>,
            CodecError,
        >(error),
{
    let mut cipher = bytes.clone();
    match encrypt_with_nonce(key, nonce, &mut cipher) {
        Err(_) => Err(CodecError::Sealing),
        Ok(()) => create_archive(&cipher),
    }
}

/// Decodes what [`encode_file_unstable_with_nonce`] made under `key` and
/// `nonce`: unpacks the archive and opens what it held.
pub fn decode_file_unstable_with_nonce(
    key: &Key,
    nonce: NonceBytes,
    archive: &Vec<u8>,
) -> (outcome: Result<Vec<u8>, CodecError>)
    ensures
        outcome is Ok <==> spec_decoded_unstable(key@, nonce@, archive@) is Ok,
        outcome matches Ok(decoded) ==> spec_decoded_unstable(key@, nonce@, archive@) == Ok::<
            Seq<u8>,
            CodecError,
        >(decoded@),
        outcome matches Err(error) ==> spec_decoded_unstable(key@, nonce@, archive@) == Err::<
            Seq<u8>,
            CodecError,
        >(error),
{
    match extract_from(archive) {
        Err(error) => Err(error),
        Ok(cipher) => {
            let mut bytes = cipher;
            match decrypt_with_nonce(key, nonce, &mut bytes) {
                Err(_) => Err(CodecError::Opening),
                Ok(()) => Ok(bytes),
            }
        },
    }
}

/// Encodes the bytes of a file as [`encode_file_unstable_with_nonce`] does,
/// with the fixed nonce of [`encrypt`](crate::crypto_utils::encrypt): all
/// zero, and so fit for one file per key at most.
pub fn encode_file_unstable(key: &Key, bytes: &Vec<u8>) -> (outcome: Result<Vec<u8>, CodecError>)
    ensures
        outcome is Ok <==> spec_encoded_unstable(key@, spec_fixed_nonce(), bytes@) is Ok,
        outcome matches Ok(encoded) ==> spec_encoded_unstable(key@, spec_fixed_nonce(), bytes@)
            == Ok::<Seq<u8>, CodecError>(encoded@),
        outcome matches Err(error) ==> spec_encoded_unstable(key@, spec_fixed_nonce(), bytes@)
            == Err::<Seq<u8>, CodecError>(error),
{
    encode_file_unstable_with_nonce(key, fixed_nonce(), bytes)
}

/// Decodes what [`encode_file_unstable`] made under `key`: unpacks the
/// archive and opens what it held, with the fixed nonce.
pub fn decode_file_unstable(key: &Key, archive: &Vec<u8>) -> (outcome: Result<Vec<u8>, CodecError>)
    ensures
        outcome is Ok <==> spec_decoded_unstable(key@, spec_fixed_nonce(), archive@) is Ok,
        outcome matches Ok(decoded) ==> spec_decoded_unstable(key@, spec_fixed_nonce(), archive@)
            == Ok::<Seq<u8>, CodecError>(decoded@),
        outcome matches Err(error) ==> spec_decoded_unstable(key@, spec_fixed_nonce(), archive@)
            == Err::<Seq<u8>, CodecError>(error),
{
    decode_file_unstable_with_nonce(key, fixed_nonce(), archive)
}

/// Unlocking undoes locking: after a move that could be carried out, the
/// move that leads back can be carried out too, and it leaves every path
/// with exactly the bytes it held before. The same holds of locking a
/// rented file again.
pub proof fn lemma_unlock_undoes_lock(
    disk: Map<Seq<char>, Seq<u8>>,
    lock: FileMove,
    unlock: FileMove,
)
    requires
        lock.spec_can_apply(disk),
        unlock.from@ == lock.to@,
        unlock.to@ == lock.from@,
    ensures
        unlock.spec_can_apply(lock.spec_apply(disk)),
        unlock.spec_apply(lock.spec_apply(disk)) == disk,
{
    assert(unlock.spec_apply(lock.spec_apply(disk)) =~= disk);
}

} // verus!
