//! Unpacking a downloaded module repository: which entries of its zip
//! archive are written, where, and which directory holds the repository.

use vstd::prelude::*;
use crate::text::{chars_of, is_text, string_from_chars, views_of_strings};

verus! {

/// Why a module archive could not be read.
#[derive(Debug, Clone, Copy, PartialEq, Eq, Structural)]
pub enum ArchiveError {
    /// The bytes are not a zip archive.
    Open,
    /// The entry at this index could not be read.
    Entry(usize),
}

/// One entry of a zip archive: the components of its name when the name
/// stays inside the extraction directory (`ZipFile::enclosed_name`), whether
/// it is a directory, its contents, and its Unix mode.
pub type ZipEntry = (Option<Vec<String>>, bool, Vec<u8>, Option<u32>);

/// The content of a [`ZipEntry`].
pub open spec fn entry_view(e: ZipEntry) -> (Option<Seq<Seq<char>>>, bool, Seq<u8>, Option<u32>) {
    (
        match e.0 {
            Some(cs) => Some(views_of_strings(cs@)),
            None => None,
        },
        e.1,
        e.2@,
        e.3,
    )
}

pub open spec fn entry_views(v: Seq<ZipEntry>) -> Seq<(Option<Seq<Seq<char>>>, bool, Seq<u8>, Option<u32>)> {
    Seq::new(v.len(), |i: int| entry_view(v[i]))
}

/// The entries of the zip archive `archive`, in order, or why it could not
/// be read.
pub uninterp spec fn zip_entries_of(archive: Seq<u8>) -> Result<
    Seq<(Option<Seq<Seq<char>>>, bool, Seq<u8>, Option<u32>)>,
    ArchiveError,
>;

/// Reads every entry of a zip archive (`zip::ZipArchive::new`,
/// `ZipArchive::by_index`, `ZipFile::enclosed_name` split into its
/// components, `ZipFile::is_dir`, reading the entry, `ZipFile::unix_mode`).
/// The outcome is named by `zip_entries_of`; the zip format and the rules
/// of `enclosed_name` are not restated.
#[verifier::external_body]
fn zip_entries(archive: &[u8]) -> (r: Result<Vec<ZipEntry>, ArchiveError>)
    ensures
        match r {
            Ok(v) => zip_entries_of(archive@) == Ok::<_, ArchiveError>(entry_views(v@)),
            Err(e) => zip_entries_of(archive@) == Err::<Seq<(Option<Seq<Seq<char>>>, bool, Seq<u8>, Option<u32>)>, ArchiveError>(e),
        },
{
    let mut zip = zip::ZipArchive::new(std::io::Cursor::new(archive)).map_err(|_| ArchiveError::Open)?;
    let mut out = Vec::new();
    for index in 0..zip.len() {
        let mut file = zip.by_index(index).map_err(|_| ArchiveError::Entry(index))?;
        let name = file.enclosed_name().map(|p| p.iter().map(|c| c.to_string_lossy().into_owned()).collect());
        let mut bytes = Vec::new();
        std::io::Read::read_to_end(&mut file, &mut bytes).map_err(|_| ArchiveError::Entry(index))?;
        out.push((name, file.is_dir(), bytes, file.unix_mode()));
    }
    Ok(out)
}

/// A path component that names a directory entry and nothing else: not
/// empty, not `.` or `..`, and with no separator or NUL in it.
pub open spec fn plain_component(c: Seq<char>) -> bool {
    &&& c.len() > 0
    &&& c != "."@
    &&& c != ".."@
    &&& !c.contains('/')
    &&& !c.contains('\\')
    &&& !c.contains('\0')
}

/// A relative path made of plain components only, so it stays inside the
/// directory it is joined to.
pub open spec fn contained_path(cs: Seq<Seq<char>>) -> bool {
    cs.len() > 0 && forall|i: int| 0 <= i < cs.len() ==> plain_component(#[trigger] cs[i])
}

/// The entries that are extracted, in archive order: those whose name
/// stays inside the extraction directory, at that path.
pub open spec fn kept_entries(es: Seq<(Option<Seq<Seq<char>>>, bool, Seq<u8>, Option<u32>)>) -> Seq<
    (Seq<Seq<char>>, bool, Seq<u8>, Option<u32>),
>
    decreases es.len(),
{
    if es.len() == 0 {
        seq![]
    } else {
        let e = es.last();
        let rest = kept_entries(es.drop_last());
        match e.0 {
            Some(cs) => if contained_path(cs) {
                rest.push((cs, e.1, e.2, e.3))
            } else {
                rest
            },
            None => rest,
        }
    }
}

/// What is extracted from a module archive: each kept entry's path
/// components, whether it is a directory, its contents and its Unix mode;
/// and the first component of the first kept entry, the folder the
/// repository is wrapped in.
pub struct ExtractionPlan {
    pub root: Option<String>,
    pub items: Vec<(Vec<String>, bool, Vec<u8>, Option<u32>)>,
}

pub open spec fn item_views(v: Seq<(Vec<String>, bool, Vec<u8>, Option<u32>)>) -> Seq<
    (Seq<Seq<char>>, bool, Seq<u8>, Option<u32>),
> {
    Seq::new(v.len(), |i: int| (views_of_strings(v[i].0@), v[i].1, v[i].2@, v[i].3))
}

fn is_plain_component(c: &String) -> (r: bool)
    ensures
        r == plain_component(c@),
{
    let v = chars_of(c.as_str());
    if v.len() == 0 || is_text(&v, ".") || is_text(&v, "..") {
        return false;
    }
    let mut i: usize = 0;
    while i < v.len()
        invariant
            i <= v.len(),
            v@ == c@,
            forall|j: int| 0 <= j < i ==> v@[j] != '/' && v@[j] != '\\' && v@[j] != '\0',
        decreases v.len() - i,
    {
        if v[i] == '/' || v[i] == '\\' || v[i] == '\0' {
            assert(c@.contains(v@[i as int]));
            return false;
        }
        i = i + 1;
    }
    proof {
        if c@.contains('/') {
            let k = choose|k: int| 0 <= k < c@.len() && c@[k] == '/';
            assert(v@[k] == '/');
        }
        if c@.contains('\\') {
            let k = choose|k: int| 0 <= k < c@.len() && c@[k] == '\\';
            assert(v@[k] == '\\');
        }
        if c@.contains('\0') {
            let k = choose|k: int| 0 <= k < c@.len() && c@[k] == '\0';
            assert(v@[k] == '\0');
        }
    }
    true
}

fn is_contained_path(cs: &Vec<String>) -> (r: bool)
    ensures
        r == contained_path(views_of_strings(cs@)),
{
    if cs.len() == 0 {
        return false;
    }
    let mut i: usize = 0;
    while i < cs.len()
        invariant
            i <= cs.len(),
            forall|j: int| 0 <= j < i ==> plain_component(#[trigger] views_of_strings(cs@)[j]),
        decreases cs.len() - i,
    {
        if !is_plain_component(&cs[i]) {
            assert(views_of_strings(cs@)[i as int] == cs@[i as int]@);
            return false;
        }
        i = i + 1;
    }
    true
}

fn copy_components(cs: &Vec<String>) -> (r: Vec<String>)
    ensures
        views_of_strings(r@) == views_of_strings(cs@),
{
    let mut r: Vec<String> = Vec::new();
    let mut i: usize = 0;
    while i < cs.len()
        invariant
            i <= cs.len(),
            r@.len() == i,
            forall|j: int| 0 <= j < i ==> r@[j]@ == cs@[j]@,
        decreases cs.len() - i,
    {
        r.push(string_from_chars(&chars_of(cs[i].as_str())));
        i = i + 1;
    }
    assert(views_of_strings(r@) =~= views_of_strings(cs@));
    r
}

proof fn lemma_kept_contained(es: Seq<(Option<Seq<Seq<char>>>, bool, Seq<u8>, Option<u32>)>)
    ensures
        forall|k: int| 0 <= k < kept_entries(es).len() ==> contained_path(#[trigger] kept_entries(es)[k].0),
    decreases es.len(),
{
    if es.len() > 0 {
        let rest = kept_entries(es.drop_last());
        lemma_kept_contained(es.drop_last());
        assert forall|k: int| 0 <= k < kept_entries(es).len() implies contained_path(
            #[trigger] kept_entries(es)[k].0,
        ) by {
            if k < rest.len() {
                assert(kept_entries(es)[k] == rest[k]);
            }
        }
    }
}

/// Decides what is extracted from a module archive's entries: entries whose
/// name does not stay inside the extraction directory are skipped.
pub fn plan_extraction(entries: &Vec<ZipEntry>) -> (p: ExtractionPlan)
    ensures
        item_views(p.items@) == kept_entries(entry_views(entries@)),
        p.root matches Some(r) ==> kept_entries(entry_views(entries@)).len() > 0 && r@
            == kept_entries(entry_views(entries@))[0].0[0],
        p.root is None ==> kept_entries(entry_views(entries@)).len() == 0,
{
    let mut items: Vec<(Vec<String>, bool, Vec<u8>, Option<u32>)> = Vec::new();
    let mut i: usize = 0;
    assert(entry_views(entries@).take(0) =~= seq![]);
    while i < entries.len()
        invariant
            i <= entries.len(),
            item_views(items@) == kept_entries(entry_views(entries@).take(i as int)),
        decreases entries.len() - i,
    {
        let ghost before = items@;
        proof {
            let t = entry_views(entries@).take(i + 1);
            assert(t.drop_last() =~= entry_views(entries@).take(i as int));
            assert(t.last() == entry_view(entries@[i as int]));
        }
        match &entries[i].0 {
            Some(cs) => {
                if is_contained_path(cs) {
                    let item = (copy_components(cs), entries[i].1, entries[i].2.clone(), entries[i].3);
                    items.push(item);
                    assert(item_views(items@) =~= item_views(before).push(
                        (views_of_strings(cs@), entries@[i as int].1, entries@[i as int].2@, entries@[i as int].3),
                    ));
                }
            },
            None => {},
        }
        i = i + 1;
    }
    assert(entry_views(entries@).take(entries.len() as int) =~= entry_views(entries@));
    let root = if items.len() > 0 && items[0].0.len() > 0 {
        let first = &items[0].0[0];
        proof {
            assert(item_views(items@)[0].0[0] == first@);
        }
        Some(string_from_chars(&chars_of(first.as_str())))
    } else {
        None
    };
    proof {
        lemma_kept_contained(entry_views(entries@));
        if items.len() > 0 {
            assert(contained_path(item_views(items@)[0].0));
            assert(item_views(items@)[0].0.len() == items@[0].0@.len());
        }
    }
    ExtractionPlan { root, items }
}

/// The entries of a downloaded module archive and what is extracted from
/// them.
pub fn read_module_archive(archive: &[u8]) -> (r: Result<ExtractionPlan, ArchiveError>)
    ensures
        match r {
            Ok(p) => zip_entries_of(archive@) matches Ok(es) && item_views(p.items@) == kept_entries(es)
                && (p.root matches Some(root) ==> kept_entries(es).len() > 0 && root@ == kept_entries(es)[0].0[0])
                && (p.root is None ==> kept_entries(es).len() == 0),
            Err(e) => zip_entries_of(archive@) == Err::<Seq<(Option<Seq<Seq<char>>>, bool, Seq<u8>, Option<u32>)>, ArchiveError>(e),
        },
{
    let entries = zip_entries(archive)?;
    Ok(plan_extraction(&entries))
}

} // verus!
