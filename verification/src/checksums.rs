//! SHA-256 checksum files written beside release artifacts.
use vstd::prelude::*;

use sha2::Digest;

use crate::artifacts::is_checksum_path;
use crate::util::{is_style_separator, HostStyle};
use vstd::string::*;

use crate::text::{
    ends_with, has_suffix, owned, push_char, push_str, replace_char, replace_char_exec,
};

verus! {

/// The SHA-256 digest of a byte sequence.
pub uninterp spec fn sha256_of(data: Seq<u8>) -> Seq<u8>;

/// `sha2::Sha256::digest`: the digest of `data`, as the 32 bytes of the
/// `GenericArray<u8, U32>` it returns.
#[verifier::external_body]
fn sha256_digest(data: &[u8]) -> (r: Vec<u8>)
    ensures
        r@ == sha256_of(data@),
        r@.len() == 32,
{
    sha2::Sha256::digest(data).to_vec()
}

/// The lower-case hexadecimal digit of `n < 16`.
pub open spec fn hex_digit(n: int) -> char {
    if n < 10 {
        (('0' as int) + n) as char
    } else {
        (('a' as int) + n - 10) as char
    }
}

/// Two lower-case hexadecimal digits per byte, high nibble first.
pub open spec fn hex_lower(data: Seq<u8>) -> Seq<char>
    decreases data.len(),
{
    if data.len() == 0 {
        Seq::empty()
    } else {
        let b = data.last() as int;
        hex_lower(data.drop_last()) + seq![hex_digit(b / 16), hex_digit(b % 16)]
    }
}

/// `hex::encode`: each byte as two lower-case hexadecimal digits, high nibble
/// first (the crate's `HEX_CHARS_LOWER` table).
#[verifier::external_body]
fn hex_encode(data: &[u8]) -> (r: String)
    ensures
        r@ == hex_lower(data@),
{
    hex::encode(data)
}

/// The lower-case hexadecimal SHA-256 digest of `data`.
pub fn sha256_hex(data: &[u8]) -> (r: String)
    ensures
        r@ == hex_lower(sha256_of(data@)),
        r@.len() == 64,
{
    let digest = sha256_digest(data);
    let r = hex_encode(digest.as_slice());
    proof {
        lemma_hex_len(digest@);
    }
    r
}

proof fn lemma_hex_len(data: Seq<u8>)
    ensures
        hex_lower(data).len() == 2 * data.len(),
    decreases data.len(),
{
    if data.len() > 0 {
        lemma_hex_len(data.drop_last());
    }
}

/// The name written in a checksum line: the file's name, else `artifact`.
pub open spec fn checksum_name(file_name: Option<Seq<char>>) -> Seq<char> {
    match file_name {
        Some(n) => n,
        None => "artifact"@,
    }
}

/// The line of a checksum file: digest, two spaces, name, newline.
pub open spec fn checksum_line(digest_hex: Seq<char>, name: Seq<char>) -> Seq<char> {
    digest_hex + seq![' ', ' '] + name + seq!['\n']
}

/// The contents of the checksum file of a file named `file_name` holding
/// `data`.
pub fn checksum_contents(file_name: &Option<String>, data: &[u8]) -> (r: String)
    ensures
        r@ == checksum_line(hex_lower(sha256_of(data@)), checksum_name(crate::util::opt_view(*file_name))),
{
    let mut r = sha256_hex(data);
    push_char(&mut r, ' ');
    push_char(&mut r, ' ');
    match file_name {
        Some(n) => push_str(&mut r, n.as_str()),
        None => push_str(&mut r, "artifact"),
    }
    push_char(&mut r, '\n');
    r
}

/// The checksum file of `path`: `path` with `.sha256` appended (what
/// `with_extension` gives for the extension `<ext>.sha256` or `sha256`).
pub fn checksum_path(path: &str) -> (r: String)
    ensures
        r@ == path@ + ".sha256"@,
{
    let mut r = owned(path);
    push_str(&mut r, ".sha256");
    r
}

/// The checksum file of a file is recognized as a checksum file, so it gets
/// no checksum and no manifest entry of its own.
pub proof fn law_checksum_files_are_skipped(path: Seq<char>, style: HostStyle)
    requires
        is_file_path(path, style),
    ensures
        is_checksum_path(path + ".sha256"@, style),
{
    reveal_strlit(".sha256");
    let p = path + ".sha256"@;
    assert(p.subrange(p.len() - 7, p.len() as int) =~= ".sha256"@);
    assert(p[p.len() - 8] == path.last());
}

/// Whether `path` is itself a checksum file (its extension is `sha256`);
/// such files get no checksum and no manifest entry.
pub fn is_checksum_file(path: &str, style: HostStyle) -> (r: bool)
    ensures
        r == is_checksum_path(path@, style),
{
    let n = path.unicode_len();
    if !ends_with(path, ".sha256") || n <= 7 {
        return false;
    }
    let c = path.get_char(n - 8);
    match style {
        HostStyle::Posix => c != '/',
        HostStyle::Windows => c != '/' && c != '\\',
    }
}

/// A path that names a file: not empty and not ending in a separator of the
/// host's style.
pub open spec fn is_file_path(path: Seq<char>, style: HostStyle) -> bool {
    path.len() > 0 && !is_style_separator(path.last(), style)
}

/// The file whose checksum file `q` would be: `q` without its last seven
/// characters (`.sha256`).
pub open spec fn checksum_source(q: Seq<char>) -> Seq<char> {
    q.subrange(0, q.len() - 7)
}

/// A checksum run over `files` writes `q`: `q` is the checksum file
/// (`checksum_path`) of a file of `files` that is not itself a checksum file.
pub open spec fn written_by_run<V>(files: Map<Seq<char>, V>, q: Seq<char>, style: HostStyle) -> bool {
    &&& has_suffix(q, ".sha256"@)
    &&& files.contains_key(checksum_source(q))
    &&& !is_checksum_path(checksum_source(q), style)
}

/// A directory after one checksum run: beside every file that is not a
/// checksum file (`is_checksum_file`) stands its checksum file
/// (`checksum_path`), holding `contents` of the file's path and data (for
/// this library, `checksum_contents`); nothing else changes.
pub open spec fn checksum_run<V>(
    files: Map<Seq<char>, V>,
    contents: spec_fn(Seq<char>, V) -> V,
    style: HostStyle,
) -> Map<Seq<char>, V> {
    Map::new(
        |q: Seq<char>| files.contains_key(q) || written_by_run(files, q, style),
        |q: Seq<char>|
            if written_by_run(files, q, style) {
                contents(checksum_source(q), files[checksum_source(q)])
            } else {
                files[q]
            },
    )
}

/// What a run writes is a checksum file.
proof fn lemma_written_is_checksum<V>(files: Map<Seq<char>, V>, q: Seq<char>, style: HostStyle)
    requires
        forall|p: Seq<char>| files.contains_key(p) ==> is_file_path(p, style),
        written_by_run(files, q, style),
    ensures
        is_checksum_path(q, style),
{
    reveal_strlit(".sha256");
    let p = checksum_source(q);
    assert(q =~= p + ".sha256"@);
    assert(files.contains_key(p));
    assert(is_file_path(p, style));
    law_checksum_files_are_skipped(p, style);
}

/// Checksum runs only ever write checksum files: no other file is created,
/// changed or removed, and a second run leaves the directory as the first
/// one left it.
pub proof fn law_checksum_run_is_idempotent<V>(
    files: Map<Seq<char>, V>,
    contents: spec_fn(Seq<char>, V) -> V,
    style: HostStyle,
)
    requires
        forall|p: Seq<char>| files.contains_key(p) ==> is_file_path(p, style),
    ensures
        forall|q: Seq<char>| #[trigger]
            files.contains_key(q) ==> checksum_run(files, contents, style).contains_key(q),
        forall|q: Seq<char>|
            !is_checksum_path(q, style) ==> (#[trigger] checksum_run(files, contents, style).contains_key(q)
                == files.contains_key(q)),
        forall|q: Seq<char>|
            files.contains_key(q) && !is_checksum_path(q, style) ==> #[trigger] checksum_run(
                files,
                contents,
                style,
            )[q] == files[q],
        checksum_run(checksum_run(files, contents, style), contents, style) == checksum_run(files, contents, style),
{
    let once = checksum_run(files, contents, style);
    let twice = checksum_run(once, contents, style);
    assert forall|q: Seq<char>| written_by_run(files, q, style) implies #[trigger] is_checksum_path(q, style) by {
        lemma_written_is_checksum(files, q, style);
    }
    assert forall|q: Seq<char>| #[trigger] written_by_run(once, q, style) == written_by_run(files, q, style) by {
        let p = checksum_source(q);
        if written_by_run(once, q, style) && !files.contains_key(p) {
            assert(written_by_run(files, p, style));
        }
    }
    assert forall|q: Seq<char>| !is_checksum_path(q, style) && files.contains_key(q) implies !written_by_run(
        files,
        q,
        style,
    ) && #[trigger] once[q] == files[q] by {}
    assert forall|q: Seq<char>| #[trigger] twice.contains_key(q) == once.contains_key(q) by {}
    assert forall|q: Seq<char>| #[trigger] twice.contains_key(q) implies twice[q] == once[q] by {
        if written_by_run(once, q, style) {
            let p = checksum_source(q);
            assert(once[p] == files[p]);
        }
    }
    assert(twice =~= once);
}

} // verus!
