//! CFDI packages: the ZIP archives the SAT hands out, and the XML files an
//! import takes from them.

use vstd::prelude::*;
use std::io::Cursor;
use zip::ZipArchive;
use zip::result::ZipError;
use vstd::string::StringExecFns;
use crate::text::{to_lowercase, lowercase_text, ends_with};
use crate::cfdi::{read_cfdi_xml, xml_nodes_of, without_bom, cfdi_summary_spec};
use crate::cfdi_record::{pairs_view, NodesView, CfdiRecord, record_matches, parse_cfdi_record};

verus! {

/// `std::io::Cursor`, the in-memory reader an archive is opened over; opaque here.
#[verifier::external_type_specification]
#[verifier::external_body]
#[verifier::reject_recursive_types(T)]
pub struct ExCursor<T>(Cursor<T>);

/// `zip::ZipArchive`, an opened archive; opaque here, its entries are named
/// by `zip_entries`.
#[verifier::external_type_specification]
#[verifier::external_body]
#[verifier::reject_recursive_types(R)]
pub struct ExZipArchive<R>(ZipArchive<R>);

/// `zip::result::ZipError`, why the ZIP library refused an archive or an entry; opaque here.
#[verifier::external_type_specification]
#[verifier::external_body]
pub struct ExZipError(ZipError);

/// What an opened archive holds, entry by entry in its central directory:
/// `None` for an entry that cannot be opened, else the entry's name and, when
/// its content reads to the end as UTF-8 text, that text.
pub uninterp spec fn zip_entries(archive: ZipArchive<Cursor<Vec<u8>>>) -> Seq<Option<(Seq<char>, Option<Seq<char>>)>>;

/// The entries of the archive that the ZIP library reads from these bytes,
/// or `None` when it refuses them as an archive.
pub uninterp spec fn zip_archive_of(bytes: Seq<u8>) -> Option<Seq<Option<(Seq<char>, Option<Seq<char>>)>>>;

/// Calls `zip::ZipArchive::new` on the bytes behind a `std::io::Cursor`. The
/// archive's entries are those named for the bytes, and it is refused exactly
/// when the name gives none.
#[verifier::external_body]
fn zip_open(bytes: Vec<u8>) -> (r: Result<ZipArchive<Cursor<Vec<u8>>>, ZipError>)
    ensures
        match r {
            Ok(a) => zip_archive_of(bytes@) == Some(zip_entries(a)),
            Err(_) => zip_archive_of(bytes@) is None,
        },
{
    ZipArchive::new(Cursor::new(bytes))
}

/// Calls `ZipArchive::len`: the number of entries.
#[verifier::external_body]
fn zip_len(archive: &ZipArchive<Cursor<Vec<u8>>>) -> (n: usize)
    ensures
        n == zip_entries(*archive).len(),
{
    archive.len()
}

/// Calls `ZipArchive::by_index` and takes `ZipFile::name` of the entry it
/// opens. It fails for a position past the end (`FileNotFound`) and for an
/// entry that cannot be opened; the entries stay as they were.
#[verifier::external_body]
fn zip_entry_name(archive: &mut ZipArchive<Cursor<Vec<u8>>>, i: usize) -> (r: Result<String, ZipError>)
    ensures
        zip_entries(*final(archive)) == zip_entries(*old(archive)),
        match r {
            Ok(name) => i < zip_entries(*old(archive)).len()
                && (zip_entries(*old(archive))[i as int] matches Some(e) && e.0 == name@),
            Err(_) => i >= zip_entries(*old(archive)).len()
                || zip_entries(*old(archive))[i as int] is None,
        },
{
    archive.by_index(i).map(|file| file.name().to_string())
}

/// Calls `ZipArchive::by_index` and reads the entry it opens with
/// `std::io::Read::read_to_string`; `Ok(None)` when that read fails (the
/// content is not UTF-8 text, or does not decompress). It fails as
/// `zip_entry_name` does; the entries stay as they were.
#[verifier::external_body]
fn zip_entry_text(archive: &mut ZipArchive<Cursor<Vec<u8>>>, i: usize) -> (r: Result<Option<String>, ZipError>)
    ensures
        zip_entries(*final(archive)) == zip_entries(*old(archive)),
        match r {
            Ok(t) => i < zip_entries(*old(archive)).len()
                && (zip_entries(*old(archive))[i as int] matches Some(e) && e.1 == crate::text::opt_view(t)),
            Err(_) => i >= zip_entries(*old(archive)).len()
                || zip_entries(*old(archive))[i as int] is None,
        },
{
    let mut file = archive.by_index(i)?;
    let mut text = String::new();
    match std::io::Read::read_to_string(&mut file, &mut text) {
        Ok(_) => Ok(Some(text)),
        Err(_) => Ok(None),
    }
}

/// The XML files an import takes from an archive's entries, in order: each
/// entry whose lower-cased name ends in ".xml", under that lower-cased name,
/// with its text. The first entry that cannot be opened, or the first XML
/// entry whose text cannot be read, refuses the whole archive.
pub open spec fn xml_files_spec(entries: Seq<Option<(Seq<char>, Option<Seq<char>>)>>) -> Result<Seq<(Seq<char>, Seq<char>)>, Seq<char>>
    decreases entries.len(),
{
    if entries.len() == 0 {
        Ok(Seq::empty())
    } else {
        match xml_files_spec(entries.drop_last()) {
            Err(m) => Err(m),
            Ok(files) => match entries.last() {
                None => Err("Reading ZIP entry"@),
                Some(e) => {
                    let lower = lowercase_text(e.0);
                    if !".xml"@.is_suffix_of(lower) {
                        Ok(files)
                    } else {
                        match e.1 {
                            None => Err("Reading "@ + lower + " from ZIP"@),
                            Some(t) => Ok(files.push((lower, t))),
                        }
                    }
                },
            },
        }
    }
}

/// The XML files of a package given as the bytes of a ZIP archive; bytes the
/// ZIP library does not read as an archive are refused.
pub open spec fn package_files_spec(bytes: Seq<u8>) -> Result<Seq<(Seq<char>, Seq<char>)>, Seq<char>> {
    match zip_archive_of(bytes) {
        None => Err("Opening ZIP"@),
        Some(entries) => xml_files_spec(entries),
    }
}

pub open spec fn files_view(r: Result<Vec<(String, String)>, String>) -> Result<Seq<(Seq<char>, Seq<char>)>, Seq<char>> {
    match r {
        Ok(v) => Ok(pairs_view(v@)),
        Err(m) => Err(m@),
    }
}

/// Once the entries up to `k` refuse the archive, so do the entries up to
/// any later position, with the same message.
proof fn lemma_refusal_stays(entries: Seq<Option<(Seq<char>, Option<Seq<char>>)>>, k: int, j: int)
    requires
        0 <= k <= j <= entries.len(),
        xml_files_spec(entries.take(k)) is Err,
    ensures
        xml_files_spec(entries.take(j)) == xml_files_spec(entries.take(k)),
    decreases j - k,
{
    if j > k {
        lemma_refusal_stays(entries, k, j - 1);
        assert(entries.take(j).drop_last() =~= entries.take(j - 1));
    }
}

/// What an archive yields holds only XML files: each name ends in ".xml",
/// and there are no more files than entries.
pub proof fn lemma_package_files_are_xml(entries: Seq<Option<(Seq<char>, Option<Seq<char>>)>>)
    ensures
        xml_files_spec(entries) matches Ok(files) ==> {
            &&& files.len() <= entries.len()
            &&& forall|i: int| 0 <= i < files.len() ==> ".xml"@.is_suffix_of(#[trigger] files[i].0)
        },
    decreases entries.len(),
{
    if entries.len() > 0 {
        lemma_package_files_are_xml(entries.drop_last());
        if let Ok(files) = xml_files_spec(entries) {
            let earlier = xml_files_spec(entries.drop_last())->Ok_0;
            if let Some(e) = entries.last() {
                let lower = lowercase_text(e.0);
                if ".xml"@.is_suffix_of(lower) && e.1 is Some {
                    assert forall|i: int| 0 <= i < files.len() implies ".xml"@.is_suffix_of(#[trigger] files[i].0) by {
                        if i < earlier.len() {
                            assert(files[i] == earlier[i]);
                        }
                    }
                }
            }
        }
    }
}

/// Each CFDI that an import keeps has a readable summary, and no more are
/// kept than there are texts.
pub proof fn lemma_readable_cfdis_have_summaries(texts: Seq<Seq<char>>)
    ensures
        readable_cfdis(texts).len() <= texts.len(),
        forall|i: int| 0 <= i < readable_cfdis(texts).len() ==> #[trigger] cfdi_summary_spec(readable_cfdis(texts)[i]) is Ok,
    decreases texts.len(),
{
    if texts.len() > 0 {
        lemma_readable_cfdis_have_summaries(texts.drop_last());
        let earlier = readable_cfdis(texts.drop_last());
        assert forall|i: int| 0 <= i < readable_cfdis(texts).len() implies #[trigger] cfdi_summary_spec(readable_cfdis(texts)[i]) is Ok by {
            if i < earlier.len() {
                assert(readable_cfdis(texts)[i] == earlier[i]);
            }
        }
    }
}

/// Takes the XML files out of a CFDI package: each entry whose lower-cased
/// name ends in ".xml", under that name, with its text.
pub fn zip_xml_files(zip_bytes: &[u8]) -> (r: Result<Vec<(String, String)>, String>)
    ensures
        files_view(r) == package_files_spec(zip_bytes@),
{
    let mut archive = match zip_open(vstd::slice::slice_to_vec(zip_bytes)) {
        Ok(a) => a,
        Err(_) => return Err(String::from_str("Opening ZIP")),
    };
    let ghost entries = zip_entries(archive);
    let n = zip_len(&archive);
    let mut files: Vec<(String, String)> = Vec::new();
    let mut i: usize = 0;
    assert(entries.take(0) =~= Seq::<Option<(Seq<char>, Option<Seq<char>>)>>::empty());
    assert(pairs_view(files@) =~= Seq::<(Seq<char>, Seq<char>)>::empty());
    while i < n
        invariant
            i <= n,
            n == entries.len(),
            zip_archive_of(zip_bytes@) == Some(entries),
            zip_entries(archive) == entries,
            xml_files_spec(entries.take(i as int)) == Ok::<_, Seq<char>>(pairs_view(files@)),
        decreases n - i,
    {
        assert(entries.take(i + 1).drop_last() =~= entries.take(i as int));
        assert(entries.take(i + 1).last() == entries[i as int]);
        let name = match zip_entry_name(&mut archive, i) {
            Ok(nm) => nm,
            Err(_) => {
                proof {
                    lemma_refusal_stays(entries, i + 1, n as int);
                    assert(entries.take(n as int) =~= entries);
                }
                return Err(String::from_str("Reading ZIP entry"));
            },
        };
        let lower = to_lowercase(name.as_str());
        if ends_with(lower.as_str(), ".xml") {
            match zip_entry_text(&mut archive, i) {
                Ok(Some(text)) => {
                    let ghost before = files@;
                    let ghost entry = (lower@, text@);
                    files.push((lower, text));
                    assert(pairs_view(files@) =~= pairs_view(before).push(entry));
                },
                Ok(None) => {
                    let mut m = String::from_str("Reading ");
                    m.append(lower.as_str());
                    m.append(" from ZIP");
                    proof {
                        lemma_refusal_stays(entries, i + 1, n as int);
                        assert(entries.take(n as int) =~= entries);
                    }
                    return Err(m);
                },
                Err(_) => {
                    proof {
                        lemma_refusal_stays(entries, i + 1, n as int);
                        assert(entries.take(n as int) =~= entries);
                    }
                    return Err(String::from_str("Reading ZIP entry"));
                },
            }
        }
        i = i + 1;
    }
    assert(entries.take(n as int) =~= entries);
    Ok(files)
}

/// The nodes of each XML text whose CFDI can be read, in order; a text
/// that does not parse, or whose summary is refused, is skipped.
pub open spec fn readable_cfdis(texts: Seq<Seq<char>>) -> Seq<NodesView>
    decreases texts.len(),
{
    if texts.len() == 0 {
        Seq::empty()
    } else {
        let earlier = readable_cfdis(texts.drop_last());
        match xml_nodes_of(without_bom(texts.last())) {
            Some(ns) => if cfdi_summary_spec(ns) is Ok {
                earlier.push(ns)
            } else {
                earlier
            },
            None => earlier,
        }
    }
}

/// The texts of a list of named files.
pub open spec fn file_texts(files: Seq<(Seq<char>, Seq<char>)>) -> Seq<Seq<char>> {
    files.map_values(|f: (Seq<char>, Seq<char>)| f.1)
}

/// Reads the stored record of a CFDI from its XML text (a leading
/// byte-order mark is skipped).
pub fn import_xml(xml: &str) -> (r: Result<CfdiRecord, String>)
    ensures
        match xml_nodes_of(without_bom(xml@)) {
            None => r matches Err(m) && m@ == "Parsing CFDI XML"@,
            Some(ns) => match cfdi_summary_spec(ns) {
                Ok(_) => r matches Ok(rec) && record_matches(rec, ns),
                Err(m) => r matches Err(e) && e@ == m,
            },
        },
{
    let (nodes, _summary) = read_cfdi_xml(xml)?;
    parse_cfdi_record(&nodes)
}

/// Imports the CFDIs of a package: the record of each XML file in it whose
/// CFDI can be read, in order; the others are skipped. A package whose
/// files cannot be taken out is refused.
pub fn import_zip(zip_bytes: &[u8]) -> (r: Result<Vec<CfdiRecord>, String>)
    ensures
        match package_files_spec(zip_bytes@) {
            Err(m) => r matches Err(e) && e@ == m,
            Ok(files) => r matches Ok(v) && v@.len() == readable_cfdis(file_texts(files)).len()
                && forall|i: int| 0 <= i < v@.len()
                    ==> #[trigger] record_matches(v@[i], readable_cfdis(file_texts(files))[i]),
        },
{
    let files = zip_xml_files(zip_bytes)?;
    let ghost texts = file_texts(pairs_view(files@));
    let mut records: Vec<CfdiRecord> = Vec::new();
    let mut i: usize = 0;
    assert(texts.take(0) =~= Seq::<Seq<char>>::empty());
    while i < files.len()
        invariant
            i <= files@.len(),
            texts == file_texts(pairs_view(files@)),
            records@.len() == readable_cfdis(texts.take(i as int)).len(),
            forall|j: int| 0 <= j < records@.len()
                ==> #[trigger] record_matches(records@[j], readable_cfdis(texts.take(i as int))[j]),
        decreases files.len() - i,
    {
        assert(texts.take(i + 1).drop_last() =~= texts.take(i as int));
        assert(texts.take(i + 1).last() == files@[i as int].1@);
        match import_xml(files[i].1.as_str()) {
            Ok(rec) => {
                records.push(rec);
            },
            Err(_) => {},
        }
        i = i + 1;
    }
    assert(texts.take(files@.len() as int) =~= texts);
    Ok(records)
}

} // verus!
