//! Self-update decisions: comparing release versions, choosing the release
//! build for this platform, and taking the binary out of its archive.

use vstd::prelude::*;
use crate::text::{
    chars_of, contains_seq, contains_str, ends_with, find_char, index_of, is_text,
    lemma_index_of_at, slice_chars, split_chars, split_on, string_from_chars,
    views,
};

verus! {

// ---------------------------------------------------------------------------
// Version numbers
// ---------------------------------------------------------------------------

pub open spec fn is_digit(c: char) -> bool {
    '0' <= c <= '9'
}

pub open spec fn all_digits(s: Seq<char>) -> bool {
    forall|i: int| 0 <= i < s.len() ==> is_digit(#[trigger] s[i])
}

/// The number written by the decimal digits `s`.
pub open spec fn digits_value(s: Seq<char>) -> nat
    decreases s.len(),
{
    if s.len() == 0 {
        0
    } else {
        digits_value(s.drop_last()) * 10 + (s.last() as nat - '0' as nat) as nat
    }
}

/// `u64::from_str`: an optional `+`, then at least one decimal digit, with a
/// value that fits in 64 bits.
pub open spec fn spec_parse_u64(s: Seq<char>) -> Option<u64> {
    let d = if s.len() > 0 && s[0] == '+' {
        s.drop_first()
    } else {
        s
    };
    if d.len() == 0 || !all_digits(d) || digits_value(d) > u64::MAX {
        None
    } else {
        Some(digits_value(d) as u64)
    }
}

/// A version component as a number, `0` where it does not parse.
pub open spec fn component_value(s: Seq<char>) -> u64 {
    match spec_parse_u64(s) {
        Some(n) => n,
        None => 0,
    }
}

/// The release part of a version: what comes before the first `-`.
pub open spec fn release_part(version: Seq<char>) -> Seq<char> {
    version.take(index_of(version, '-') as int)
}

/// The dot-separated numbers of the release part of `version`.
pub open spec fn spec_numbers(version: Seq<char>) -> Seq<u64> {
    split_on(release_part(version), '.').map_values(|p: Seq<char>| component_value(p))
}

/// `a > b` in the lexicographic order of `Vec<u64>`: the first difference
/// decides, and a proper extension is greater.
pub open spec fn lex_greater(a: Seq<u64>, b: Seq<u64>) -> bool
    decreases a.len(),
{
    if a.len() == 0 {
        false
    } else if b.len() == 0 {
        true
    } else if a[0] != b[0] {
        a[0] > b[0]
    } else {
        lex_greater(a.drop_first(), b.drop_first())
    }
}

/// `candidate` is a later release than `current`.
pub open spec fn spec_is_newer(candidate: Seq<char>, current: Seq<char>) -> bool {
    lex_greater(spec_numbers(candidate), spec_numbers(current))
}

proof fn lemma_digits_value_prefix(s: Seq<char>, i: int)
    requires
        0 <= i <= s.len(),
    ensures
        digits_value(s.take(i)) <= digits_value(s),
    decreases s.len() - i,
{
    if i < s.len() {
        lemma_digits_value_prefix(s, i + 1);
        assert(s.take(i + 1).drop_last() =~= s.take(i));
        assert(s.take(i + 1).last() == s[i]);
    } else {
        assert(s.take(i) =~= s);
    }
}

/// `u64::from_str` on the characters of `s`.
pub fn parse_u64(s: &Vec<char>) -> (r: Option<u64>)
    ensures
        r == spec_parse_u64(s@),
{
    let start: usize = if s.len() > 0 && s[0] == '+' {
        1
    } else {
        0
    };
    let ghost d = if s@.len() > 0 && s@[0] == '+' {
        s@.drop_first()
    } else {
        s@
    };
    assert(d =~= s@.skip(start as int));
    if start == s.len() {
        return None;
    }
    let mut acc: u64 = 0;
    let mut i = start;
    while i < s.len()
        invariant
            start <= i <= s.len(),
            d =~= s@.skip(start as int),
            d == (if s@.len() > 0 && s@[0] == '+' {
                s@.drop_first()
            } else {
                s@
            }),
            start < s@.len(),
            all_digits(d.take(i - start)),
            acc as nat == digits_value(d.take(i - start)),
        decreases s.len() - i,
    {
        let c = s[i];
        proof {
            assert(d.take(i + 1 - start).drop_last() =~= d.take(i - start));
            assert(d.take(i + 1 - start).last() == c);
        }
        if c < '0' || c > '9' {
            proof {
                assert(d[i - start] == c);
                assert(!is_digit(d[i - start]));
            }
            return None;
        }
        let digit = (c as u32 - '0' as u32) as u64;
        proof {
            let t = d.take(i + 1 - start);
            assert(digits_value(t) == digits_value(t.drop_last()) * 10 + (t.last() as nat
                - '0' as nat) as nat);
            assert(digits_value(t) == acc * 10 + digit);
        }
        if acc > 1844674407370955161u64 || (acc == 1844674407370955161u64 && digit > 5) {
            proof {
                assert(digits_value(d.take(i + 1 - start)) > u64::MAX);
                lemma_digits_value_prefix(d, i + 1 - start);
            }
            return None;
        }
        acc = acc * 10 + digit;
        proof {
            assert forall|j: int| 0 <= j < i + 1 - start implies is_digit(
                #[trigger] d.take(i + 1 - start)[j],
            ) by {
                if j < i - start {
                    assert(d.take(i + 1 - start)[j] == d.take(i - start)[j]);
                }
            }
        }
        i = i + 1;
    }
    assert(d.take(s.len() - start) =~= d);
    Some(acc)
}

/// The numbers of a version, compared when looking for updates. A
/// prerelease such as `1.0.3-beta.1` counts as `1.0.3`; a component that is
/// not a number counts as `0`.
pub fn numbers(version: &str) -> (r: Vec<u64>)
    ensures
        r@ == spec_numbers(version@),
{
    let v = chars_of(version);
    let dash = find_char(&v, 0, '-');
    let release = slice_chars(&v, 0, dash);
    proof {
        assert(v@.skip(0) =~= v@);
        assert(release@ =~= release_part(version@));
    }
    let parts = split_chars(&release, '.');
    let mut r: Vec<u64> = Vec::new();
    let mut i: usize = 0;
    while i < parts.len()
        invariant
            i <= parts.len(),
            views(parts@) == split_on(release@, '.'),
            r@ =~= views(parts@).take(i as int).map_values(|p: Seq<char>| component_value(p)),
        decreases parts.len() - i,
    {
        let n = match parse_u64(&parts[i]) {
            Some(n) => n,
            None => 0,
        };
        proof {
            assert(views(parts@)[i as int] == parts@[i as int]@);
        }
        r.push(n);
        proof {
            assert(views(parts@).take(i + 1).map_values(|p: Seq<char>| component_value(p))
                =~= views(parts@).take(i as int).map_values(|p: Seq<char>| component_value(p)).push(
                n,
            ));
        }
        i = i + 1;
    }
    proof {
        assert(views(parts@).take(parts@.len() as int) =~= views(parts@));
    }
    r
}

fn lex_greater_exec(a: &Vec<u64>, b: &Vec<u64>) -> (r: bool)
    ensures
        r == lex_greater(a@, b@),
{
    let mut i: usize = 0;
    assert(a@.skip(0) =~= a@);
    assert(b@.skip(0) =~= b@);
    while i < a.len() && i < b.len() && a[i] == b[i]
        invariant
            i <= a.len(),
            i <= b.len(),
            lex_greater(a@, b@) == lex_greater(a@.skip(i as int), b@.skip(i as int)),
        decreases a.len() - i,
    {
        proof {
            assert(a@.skip(i as int).drop_first() =~= a@.skip(i + 1));
            assert(b@.skip(i as int).drop_first() =~= b@.skip(i + 1));
        }
        i = i + 1;
    }
    proof {
        assert(a@.skip(0) =~= a@);
    }
    if i == a.len() {
        false
    } else if i == b.len() {
        true
    } else {
        a[i] > b[i]
    }
}

/// Whether `candidate` is a later release than `current`, comparing the
/// dot-separated numbers so that 1.10.0 outranks 1.9.0.
pub fn is_newer(candidate: &str, current: &str) -> (r: bool)
    ensures
        r == spec_is_newer(candidate@, current@),
{
    let a = numbers(candidate);
    let b = numbers(current);
    lex_greater_exec(&a, &b)
}

/// The version a release tag names: the tag without its leading `v`s
/// (`v1.2.0` names 1.2.0).
pub open spec fn spec_release_version(tag: Seq<char>) -> Seq<char>
    decreases tag.len(),
{
    if tag.len() > 0 && tag[0] == 'v' {
        spec_release_version(tag.drop_first())
    } else {
        tag
    }
}

/// The version a release tag names (see [`spec_release_version`]).
pub fn release_version(tag: &str) -> (version: String)
    ensures
        version@ == spec_release_version(tag@),
{
    let t = chars_of(tag);
    let mut i: usize = 0;
    assert(t@.skip(0) =~= t@);
    while i < t.len() && t[i] == 'v'
        invariant
            i <= t.len(),
            t@ == tag@,
            spec_release_version(tag@) == spec_release_version(t@.skip(i as int)),
        decreases t.len() - i,
    {
        assert(t@.skip(i as int).drop_first() =~= t@.skip(i + 1));
        i = i + 1;
    }
    let rest = slice_chars(&t, i, t.len());
    assert(rest@ =~= tag@.skip(i as int));
    string_from_chars(&rest)
}

// ---------------------------------------------------------------------------
// Laws of the version order
// ---------------------------------------------------------------------------

proof fn lemma_lex_irreflexive(a: Seq<u64>)
    ensures
        !lex_greater(a, a),
    decreases a.len(),
{
    if a.len() > 0 {
        lemma_lex_irreflexive(a.drop_first());
    }
}

proof fn lemma_lex_asymmetric(a: Seq<u64>, b: Seq<u64>)
    ensures
        lex_greater(a, b) ==> !lex_greater(b, a),
    decreases a.len(),
{
    if a.len() > 0 && b.len() > 0 && a[0] == b[0] {
        lemma_lex_asymmetric(a.drop_first(), b.drop_first());
    }
}

proof fn lemma_lex_transitive(a: Seq<u64>, b: Seq<u64>, c: Seq<u64>)
    ensures
        lex_greater(a, b) && lex_greater(b, c) ==> lex_greater(a, c),
    decreases a.len(),
{
    if a.len() > 0 && b.len() > 0 && c.len() > 0 {
        lemma_lex_transitive(a.drop_first(), b.drop_first(), c.drop_first());
    }
}

proof fn lemma_lex_total(a: Seq<u64>, b: Seq<u64>)
    ensures
        a =~= b || lex_greater(a, b) || lex_greater(b, a),
    decreases a.len(),
{
    if a.len() > 0 && b.len() > 0 && a[0] == b[0] {
        lemma_lex_total(a.drop_first(), b.drop_first());
        if a.drop_first() =~= b.drop_first() {
            assert(a =~= b) by {
                assert forall|i: int| 0 <= i < a.len() implies a[i] == b[i] by {
                    if i > 0 {
                        assert(a[i] == a.drop_first()[i - 1]);
                        assert(b[i] == b.drop_first()[i - 1]);
                    }
                }
            }
        }
    }
}

/// "Newer" is a strict order on versions: no version is newer than itself,
/// newer-than is never mutual, and it chains.
pub proof fn is_newer_strict_order(a: Seq<char>, b: Seq<char>, c: Seq<char>)
    ensures
        !spec_is_newer(a, a),
        spec_is_newer(a, b) ==> !spec_is_newer(b, a),
        spec_is_newer(a, b) && spec_is_newer(b, c) ==> spec_is_newer(a, c),
{
    lemma_lex_irreflexive(spec_numbers(a));
    lemma_lex_asymmetric(spec_numbers(a), spec_numbers(b));
    lemma_lex_transitive(spec_numbers(a), spec_numbers(b), spec_numbers(c));
}

/// Of two versions with different numbers, one is newer than the other.
pub proof fn is_newer_total(a: Seq<char>, b: Seq<char>)
    requires
        spec_numbers(a) != spec_numbers(b),
    ensures
        spec_is_newer(a, b) || spec_is_newer(b, a),
{
    lemma_lex_total(spec_numbers(a), spec_numbers(b));
}

/// A prerelease counts as its release: `v-suffix` has the numbers of `v`,
/// so it is never newer than `v` nor `v` newer than it.
pub proof fn prerelease_counts_as_release(v: Seq<char>, suffix: Seq<char>)
    requires
        !v.contains('-'),
    ensures
        spec_numbers(v + seq!['-'] + suffix) == spec_numbers(v),
        !spec_is_newer(v + seq!['-'] + suffix, v),
        !spec_is_newer(v, v + seq!['-'] + suffix),
{
    let w = v + seq!['-'] + suffix;
    assert forall|j: int| 0 <= j < v.len() implies w[j] != '-' by {
        assert(w[j] == v[j]);
    }
    lemma_index_of_at(w, '-', v.len() as int);
    assert(w.take(v.len() as int) =~= v);
    assert forall|j: int| 0 <= j < v.len() implies v[j] != '-' by {
        assert(v.contains(v[j]) || true);
        if v[j] == '-' {
            assert(v.contains('-'));
        }
    }
    lemma_index_of_at(v, '-', v.len() as int);
    assert(v.take(v.len() as int) =~= v);
    lemma_lex_irreflexive(spec_numbers(v));
}

// ---------------------------------------------------------------------------
// Release build selection
// ---------------------------------------------------------------------------

/// Why an update could not go ahead.
#[derive(Debug, Clone, Copy, PartialEq, Eq, Structural)]
pub enum UpdateError {
    /// No prebuilt release exists for this operating system and architecture.
    NoPrebuiltRelease,
    /// The release has no asset for this platform's target.
    NoAssetForTarget,
    /// The asset is neither a `.zip` nor a `.tar.gz` archive.
    UnsupportedArchive,
    /// The archive could not be opened or read.
    UnreadableArchive,
    /// The archive does not hold the binary.
    BinaryMissing,
}

/// The release target triple for an operating system and architecture
/// (`std::env::consts::OS`, `std::env::consts::ARCH`).
pub open spec fn spec_release_target(os: Seq<char>, arch: Seq<char>) -> Option<Seq<char>> {
    if arch == "x86_64"@ && os == "linux"@ {
        Some("x86_64-unknown-linux-gnu"@)
    } else if arch == "x86_64"@ && os == "macos"@ {
        Some("x86_64-apple-darwin"@)
    } else if arch == "x86_64"@ && os == "windows"@ {
        Some("x86_64-pc-windows-msvc"@)
    } else {
        None
    }
}

/// The release target built for `os` and `arch`.
pub fn release_target(os: &str, arch: &str) -> (r: Result<&'static str, UpdateError>)
    ensures
        match r {
            Ok(t) => spec_release_target(os@, arch@) == Some(t@),
            Err(e) => spec_release_target(os@, arch@) is None && e == UpdateError::NoPrebuiltRelease,
        },
{
    let o = chars_of(os);
    let a = chars_of(arch);
    if is_text(&a, "x86_64") {
        if is_text(&o, "linux") {
            return Ok("x86_64-unknown-linux-gnu");
        }
        if is_text(&o, "macos") {
            return Ok("x86_64-apple-darwin");
        }
        if is_text(&o, "windows") {
            return Ok("x86_64-pc-windows-msvc");
        }
    }
    Err(UpdateError::NoPrebuiltRelease)
}

/// Index of the first asset whose name contains the target triple.
pub fn find_asset(names: &Vec<String>, target: &str) -> (r: Result<usize, UpdateError>)
    ensures
        match r {
            Ok(i) => i < names.len() && contains_seq(names@[i as int]@, target@) && forall|j: int|
                0 <= j < i ==> !contains_seq(#[trigger] names@[j]@, target@),
            Err(e) => e == UpdateError::NoAssetForTarget && forall|j: int|
                0 <= j < names.len() ==> !contains_seq(#[trigger] names@[j]@, target@),
        },
{
    let mut i: usize = 0;
    while i < names.len()
        invariant
            i <= names.len(),
            forall|j: int| 0 <= j < i ==> !contains_seq(#[trigger] names@[j]@, target@),
        decreases names.len() - i,
    {
        let name = chars_of(names[i].as_str());
        if contains_str(&name, target) {
            return Ok(i);
        }
        i = i + 1;
    }
    Err(UpdateError::NoAssetForTarget)
}

/// What `fusion update` does once it knows the latest release.
#[derive(Debug, Clone, Copy, PartialEq, Eq, Structural)]
pub enum UpdateStep {
    /// The installed version is not older than the release: nothing to do.
    UpToDate,
    /// Download the release asset at this index of the asset list.
    Download(usize),
}

/// Decides an update from the latest release's tag and asset names, the
/// installed version, and the operating system and architecture: the
/// release's version, and whether to stay or which asset to download.
pub fn plan_update(tag: &str, installed: &str, os: &str, arch: &str, asset_names: &Vec<String>) -> (r: Result<
    (String, UpdateStep),
    UpdateError,
>)
    ensures
        match r {
            Ok((latest, step)) => latest@ == spec_release_version(tag@) && match step {
                UpdateStep::UpToDate => !spec_is_newer(latest@, installed@),
                UpdateStep::Download(i) => {
                    &&& spec_is_newer(latest@, installed@)
                    &&& spec_release_target(os@, arch@) matches Some(t)
                    &&& i < asset_names.len()
                    &&& contains_seq(asset_names@[i as int]@, t)
                    &&& forall|j: int| 0 <= j < i ==> !contains_seq(#[trigger] asset_names@[j]@, t)
                },
            },
            Err(e) => spec_is_newer(spec_release_version(tag@), installed@) && match spec_release_target(
                os@,
                arch@,
            ) {
                None => e == UpdateError::NoPrebuiltRelease,
                Some(t) => e == UpdateError::NoAssetForTarget && forall|j: int|
                    0 <= j < asset_names.len() ==> !contains_seq(#[trigger] asset_names@[j]@, t),
            },
        },
{
    let latest = release_version(tag);
    if !is_newer(latest.as_str(), installed) {
        return Ok((latest, UpdateStep::UpToDate));
    }
    let target = release_target(os, arch)?;
    let index = find_asset(asset_names, target)?;
    Ok((latest, UpdateStep::Download(index)))
}

/// How a release asset is packed.
#[derive(Debug, Clone, Copy, PartialEq, Eq, Structural)]
pub enum ArchiveFormat {
    Zip,
    TarGz,
}

/// The archive format named by an asset's file name.
pub open spec fn spec_archive_format(name: Seq<char>) -> Option<ArchiveFormat> {
    if ".zip"@.is_suffix_of(name) {
        Some(ArchiveFormat::Zip)
    } else if ".tar.gz"@.is_suffix_of(name) {
        Some(ArchiveFormat::TarGz)
    } else {
        None
    }
}

/// The archive format of a release asset, from its name.
pub fn archive_format(name: &str) -> (r: Result<ArchiveFormat, UpdateError>)
    ensures
        match r {
            Ok(f) => spec_archive_format(name@) == Some(f),
            Err(e) => spec_archive_format(name@) is None && e == UpdateError::UnsupportedArchive,
        },
{
    let n = chars_of(name);
    if ends_with(&n, &chars_of(".zip")) {
        Ok(ArchiveFormat::Zip)
    } else if ends_with(&n, &chars_of(".tar.gz")) {
        Ok(ArchiveFormat::TarGz)
    } else {
        Err(UpdateError::UnsupportedArchive)
    }
}

// ---------------------------------------------------------------------------
// Taking the binary out of a release archive
// ---------------------------------------------------------------------------

/// What the zip archive `archive` holds under `name`: the file's bytes, or
/// `UnreadableArchive` when the archive cannot be opened or the file read,
/// or `BinaryMissing` when it has no such file.
pub uninterp spec fn zip_file_bytes(archive: Seq<u8>, name: Seq<char>) -> Result<Seq<u8>, UpdateError>;

/// The entries of the gzip-compressed tar archive `archive`, in order, each
/// as its raw path bytes and its contents, and whether reading stopped on
/// an error before the end.
pub uninterp spec fn tar_gz_contents(archive: Seq<u8>) -> (Seq<(Seq<u8>, Seq<u8>)>, bool);

/// Reads the file `name` out of a zip archive (`zip::ZipArchive::new`,
/// `ZipArchive::by_name`, then reading the file). The outcome is named by
/// `zip_file_bytes`; the zip format itself is not restated.
#[verifier::external_body]
fn zip_file(archive: &[u8], name: &str) -> (r: Result<Vec<u8>, UpdateError>)
    ensures
        match r {
            Ok(v) => zip_file_bytes(archive@, name@) == Ok::<Seq<u8>, UpdateError>(v@),
            Err(e) => zip_file_bytes(archive@, name@) == Err::<Seq<u8>, UpdateError>(e),
        },
{
    let Ok(mut zip) = zip::ZipArchive::new(std::io::Cursor::new(archive)) else {
        return Err(UpdateError::UnreadableArchive);
    };
    let Ok(mut file) = zip.by_name(name) else { return Err(UpdateError::BinaryMissing) };
    let mut bytes = Vec::new();
    match std::io::Read::read_to_end(&mut file, &mut bytes) {
        Ok(_) => Ok(bytes),
        Err(_) => Err(UpdateError::UnreadableArchive),
    }
}

pub open spec fn entry_views(v: Seq<(Vec<u8>, Vec<u8>)>) -> Seq<(Seq<u8>, Seq<u8>)> {
    Seq::new(v.len(), |i: int| (v[i].0@, v[i].1@))
}

/// Lists the entries of a `.tar.gz` archive (`tar::Archive::entries` over a
/// `flate2::read::GzDecoder`), each with its raw path bytes
/// (`Entry::path_bytes`) and contents, stopping at the first entry that
/// cannot be read. The outcome is named by `tar_gz_contents`; the tar and
/// gzip formats are not restated.
#[verifier::external_body]
fn tar_gz_entries(archive: &[u8]) -> (r: (Vec<(Vec<u8>, Vec<u8>)>, bool))
    ensures
        tar_gz_contents(archive@) == (entry_views(r.0@), r.1),
{
    let mut tar = tar::Archive::new(flate2::read::GzDecoder::new(archive));
    let mut out = Vec::new();
    let Ok(entries) = tar.entries() else { return (out, true) };
    for entry in entries {
        let Ok(mut entry) = entry else { return (out, true) };
        let path = entry.path_bytes().into_owned();
        let mut bytes = Vec::new();
        let Ok(_) = std::io::Read::read_to_end(&mut entry, &mut bytes) else { return (out, true) };
        out.push((path, bytes));
    }
    (out, false)
}

/// The binary taken out of a zip release archive.
pub fn extract_from_zip(archive: &[u8], binary_name: &str) -> (r: Result<Vec<u8>, UpdateError>)
    ensures
        match r {
            Ok(v) => zip_file_bytes(archive@, binary_name@) == Ok::<Seq<u8>, UpdateError>(v@),
            Err(e) => zip_file_bytes(archive@, binary_name@) == Err::<Seq<u8>, UpdateError>(e),
        },
{
    zip_file(archive, binary_name)
}

/// Start of the last `/`-separated segment of `p`.
pub open spec fn segment_start(p: Seq<u8>) -> nat
    decreases p.len(),
{
    if p.len() == 0 {
        0
    } else if p.last() == 0x2fu8 {
        p.len()
    } else {
        segment_start(p.drop_last())
    }
}

/// The file name of a `/`-separated path given as bytes, as
/// `Path::file_name` reads a Unix path: the last segment, skipping empty
/// segments and `.`, and none when that segment is `..` or there is none.
pub open spec fn file_name_bytes(p: Seq<u8>) -> Option<Seq<u8>>
    decreases p.len(),
{
    if p.len() == 0 {
        None
    } else if p.last() == 0x2fu8 {
        file_name_bytes(p.drop_last())
    } else {
        let start = segment_start(p);
        let segment = p.skip(start as int);
        if segment == seq![0x2eu8] {
            if start == 0 {
                None
            } else {
                proof {
                    lemma_segment_start(p);
                }
                file_name_bytes(p.take(start - 1))
            }
        } else if segment == seq![0x2eu8, 0x2eu8] {
            None
        } else {
            Some(segment)
        }
    }
}

pub proof fn lemma_segment_start(p: Seq<u8>)
    ensures
        segment_start(p) <= p.len(),
        segment_start(p) > 0 ==> p[segment_start(p) - 1] == 0x2fu8,
        forall|j: int| segment_start(p) <= j < p.len() ==> p[j] != 0x2fu8,
    decreases p.len(),
{
    if p.len() > 0 && p.last() != 0x2fu8 {
        let q = p.drop_last();
        lemma_segment_start(q);
        assert forall|j: int| segment_start(p) <= j < p.len() implies p[j] != 0x2fu8 by {
            if j < q.len() {
                assert(p[j] == q[j]);
            }
        }
        if segment_start(p) > 0 {
            assert(p[segment_start(p) - 1] == q[segment_start(q) - 1]);
        }
    }
}

/// The file name of a path given as bytes (see [`file_name_bytes`]).
pub fn file_name_of(p: &Vec<u8>) -> (r: Option<Vec<u8>>)
    ensures
        match r {
            Some(n) => file_name_bytes(p@) == Some(n@),
            None => file_name_bytes(p@) is None,
        },
{
    let mut end: usize = p.len();
    assert(p@.take(end as int) =~= p@);
    loop
        invariant
            end <= p.len(),
            file_name_bytes(p@) == file_name_bytes(p@.take(end as int)),
        decreases end,
    {
        let ghost q = p@.take(end as int);
        if end == 0 {
            return None;
        }
        if p[end - 1] == 0x2fu8 {
            assert(q.drop_last() =~= p@.take(end - 1));
            end = end - 1;
        } else {
            let mut start: usize = end;
            while start > 0 && p[start - 1] != 0x2fu8
                invariant
                    start <= end <= p.len(),
                    end > 0,
                    p@[end - 1] != 0x2fu8,
                    q == p@.take(end as int),
                    segment_start(q) == segment_start(p@.take(start as int)),
                    start < end ==> segment_start(p@.take(start as int)) == segment_start(p@.take(start + 1)),
                decreases start,
            {
                assert(p@.take(start as int).drop_last() =~= p@.take(start - 1));
                start = start - 1;
            }
            assert(q.drop_last() =~= p@.take(end - 1));
            assert(segment_start(q) == start);
            let segment = slice_bytes(p, start, end);
            assert(segment@ =~= q.skip(start as int));
            if segment.len() == 1 && segment[0] == 0x2eu8 {
                assert(segment@ =~= seq![0x2eu8]);
                if start == 0 {
                    return None;
                }
                assert(q.take(start - 1) =~= p@.take(start - 1));
                end = start - 1;
            } else if segment.len() == 2 && segment[0] == 0x2eu8 && segment[1] == 0x2eu8 {
                assert(segment@ =~= seq![0x2eu8, 0x2eu8]);
                return None;
            } else {
                assert(segment@ != seq![0x2eu8]);
                assert(segment@ != seq![0x2eu8, 0x2eu8]);
                return Some(segment);
            }
        }
    }
}

fn slice_bytes(s: &Vec<u8>, from: usize, to: usize) -> (r: Vec<u8>)
    requires
        from <= to <= s.len(),
    ensures
        r@ == s@.subrange(from as int, to as int),
{
    let mut r: Vec<u8> = Vec::new();
    let mut i = from;
    while i < to
        invariant
            from <= i <= to <= s.len(),
            r@ == s@.subrange(from as int, i as int),
        decreases to - i,
    {
        r.push(s[i]);
        i = i + 1;
    }
    r
}

fn same_bytes(a: &Vec<u8>, b: &[u8]) -> (r: bool)
    ensures
        r == (a@ == b@),
{
    if a.len() != b.len() {
        return false;
    }
    let mut i: usize = 0;
    while i < a.len()
        invariant
            i <= a.len() == b@.len(),
            forall|j: int| 0 <= j < i ==> a@[j] == b@[j],
        decreases a.len() - i,
    {
        if a[i] != b[i] {
            return false;
        }
        i = i + 1;
    }
    assert(a@ =~= b@);
    true
}

/// What is taken out of a list of archive entries: the bytes of the first
/// entry whose path has the file name `name` (UTF-8 bytes); failing that,
/// `UnreadableArchive` when the listing stopped on an error, else
/// `BinaryMissing`.
pub open spec fn spec_pick_entry(
    entries: Seq<(Seq<u8>, Seq<u8>)>,
    failed: bool,
    name: Seq<u8>,
) -> Result<Seq<u8>, UpdateError>
    decreases entries.len(),
{
    if entries.len() == 0 {
        if failed {
            Err(UpdateError::UnreadableArchive)
        } else {
            Err(UpdateError::BinaryMissing)
        }
    } else if file_name_bytes(entries[0].0) == Some(name) {
        Ok(entries[0].1)
    } else {
        spec_pick_entry(entries.drop_first(), failed, name)
    }
}

/// The contents of the first archive entry (raw path, contents) whose file
/// name is `binary_name`.
pub fn pick_entry(entries: Vec<(Vec<u8>, Vec<u8>)>, failed: bool, binary_name: &str) -> (r: Result<
    Vec<u8>,
    UpdateError,
>)
    ensures
        match r {
            Ok(v) => spec_pick_entry(entry_views(entries@), failed, vstd::utf8::encode_utf8(binary_name@)) == Ok::<
                Seq<u8>,
                UpdateError,
            >(v@),
            Err(e) => spec_pick_entry(entry_views(entries@), failed, vstd::utf8::encode_utf8(binary_name@)) == Err::<
                Seq<u8>,
                UpdateError,
            >(e),
        },
{
    let wanted = binary_name.as_bytes();
    let mut i: usize = 0;
    assert(entry_views(entries@).skip(0) =~= entry_views(entries@));
    while i < entries.len()
        invariant
            i <= entries.len(),
            wanted@ == vstd::utf8::encode_utf8(binary_name@),
            spec_pick_entry(entry_views(entries@), failed, vstd::utf8::encode_utf8(binary_name@)) == spec_pick_entry(
                entry_views(entries@).skip(i as int),
                failed,
                vstd::utf8::encode_utf8(binary_name@),
            ),
        decreases entries.len() - i,
    {
        let ghost rest = entry_views(entries@).skip(i as int);
        proof {
            assert(rest[0] == entry_views(entries@)[i as int]);
            assert(rest.drop_first() =~= entry_views(entries@).skip(i + 1));
        }
        let matches = match file_name_of(&entries[i].0) {
            Some(name) => same_bytes(&name, wanted),
            None => false,
        };
        if matches {
            return Ok(entries[i].1.clone());
        }
        i = i + 1;
    }
    if failed {
        Err(UpdateError::UnreadableArchive)
    } else {
        Err(UpdateError::BinaryMissing)
    }
}

/// The binary taken out of a `.tar.gz` release archive.
pub fn extract_from_tar_gz(archive: &[u8], binary_name: &str) -> (r: Result<Vec<u8>, UpdateError>)
    ensures
        match r {
            Ok(v) => spec_pick_entry(tar_gz_contents(archive@).0, tar_gz_contents(archive@).1, vstd::utf8::encode_utf8(binary_name@))
                == Ok::<Seq<u8>, UpdateError>(v@),
            Err(e) => spec_pick_entry(tar_gz_contents(archive@).0, tar_gz_contents(archive@).1, vstd::utf8::encode_utf8(binary_name@))
                == Err::<Seq<u8>, UpdateError>(e),
        },
{
    let (entries, failed) = tar_gz_entries(archive);
    pick_entry(entries, failed, binary_name)
}

/// The binary taken out of a release asset, by the asset's archive format.
pub fn extract_binary(archive: &[u8], asset_name: &str, binary_name: &str) -> (r: Result<Vec<u8>, UpdateError>)
    ensures
        match spec_archive_format(asset_name@) {
            None => r == Err::<Vec<u8>, UpdateError>(UpdateError::UnsupportedArchive),
            Some(ArchiveFormat::Zip) => match r {
                Ok(v) => zip_file_bytes(archive@, binary_name@) == Ok::<Seq<u8>, UpdateError>(v@),
                Err(e) => zip_file_bytes(archive@, binary_name@) == Err::<Seq<u8>, UpdateError>(e),
            },
            Some(ArchiveFormat::TarGz) => match r {
                Ok(v) => spec_pick_entry(tar_gz_contents(archive@).0, tar_gz_contents(archive@).1, vstd::utf8::encode_utf8(binary_name@))
                    == Ok::<Seq<u8>, UpdateError>(v@),
                Err(e) => spec_pick_entry(tar_gz_contents(archive@).0, tar_gz_contents(archive@).1, vstd::utf8::encode_utf8(binary_name@))
                    == Err::<Seq<u8>, UpdateError>(e),
            },
        },
{
    match archive_format(asset_name) {
        Ok(ArchiveFormat::Zip) => extract_from_zip(archive, binary_name),
        Ok(ArchiveFormat::TarGz) => extract_from_tar_gz(archive, binary_name),
        Err(e) => Err(e),
    }
}

} // verus!
