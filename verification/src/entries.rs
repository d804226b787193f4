//! Directory entries: the typed model of one listing record, the parsing of
//! raw FTP LIST lines through the client library's parser, the
//! classification of local filesystem records, and the rendered form the
//! file tables display.
use vstd::prelude::*;

use crate::size::{format_size, size_str};

verus! {

/// What a directory entry is: exactly a file or a directory.
#[derive(Clone, Copy, Debug, PartialEq, Eq, Structural)]
pub enum EntryKind {
    File,
    Directory,
}

/// One directory entry as reported by the FTP server or the local
/// filesystem: a name, a kind, and a byte size known only for files.
pub struct RemoteEntry {
    pub name: String,
    pub kind: EntryKind,
    pub size: Option<usize>,
}

impl RemoteEntry {
    /// Well-formed: a byte size is carried only by files, never by
    /// directories.
    pub open spec fn wf(&self) -> bool {
        self.kind is Directory ==> self.size is None
    }

    /// Classifies one record into a well-formed entry: a directory carries
    /// no byte size, a file keeps the size that was reported for it.
    pub fn from_fields(name: String, is_dir: bool, size: Option<usize>) -> (e: RemoteEntry)
        ensures
            e.name == name,
            e.kind == (if is_dir {
                EntryKind::Directory
            } else {
                EntryKind::File
            }),
            e.size == (if is_dir {
                Option::<usize>::None
            } else {
                size
            }),
            e.wf(),
    {
        if is_dir {
            RemoteEntry { name, kind: EntryKind::Directory, size: None }
        } else {
            RemoteEntry { name, kind: EntryKind::File, size }
        }
    }
}

/// The name, directory flag and byte size that the POSIX LIST parser reads
/// from a line it accepts: what is read from an accepted line is determined
/// by the line alone.
pub uninterp spec fn posix_line_fields(line: Seq<char>) -> Option<(Seq<char>, bool, usize)>;

/// The name, directory flag and byte size that the DOS LIST parser reads
/// from a line, or nothing for a line it rejects: the DOS parser is a
/// function of the line alone.
pub uninterp spec fn dos_line_fields(line: Seq<char>) -> Option<(Seq<char>, bool, usize)>;

/// Whether an entry's name, kind and size come from the given parsed
/// fields, with the size dropped for directories.
pub open spec fn matches_fields(e: RemoteEntry, fields: Option<(Seq<char>, bool, usize)>) -> bool {
    match fields {
        Some(f) => {
            &&& e.name@ == f.0
            &&& e.kind == (if f.1 {
                EntryKind::Directory
            } else {
                EntryKind::File
            })
            &&& e.size == (if f.1 {
                Option::<usize>::None
            } else {
                Some(f.2)
            })
        },
        None => false,
    }
}

/// Whether an entry is the classification of a listing line that one of the
/// two parsers, POSIX or DOS, accepted.
pub open spec fn entry_matches_line(e: RemoteEntry, line: Seq<char>) -> bool {
    matches_fields(e, posix_line_fields(line)) || matches_fields(e, dos_line_fields(line))
}

/// Relies on suppaftp's `ListParser::parse_posix` with the `name`,
/// `is_directory` and `size` getters: the parser accepts or rejects a line
/// without panicking, and the fields it reads from an accepted line are
/// determined by the line alone. Whether a line whose date carries no year
/// is accepted can depend on the current date, so nothing is promised about
/// which lines are accepted.
#[verifier::external_body]
fn parse_posix_line(line: &String) -> (r: Option<(String, bool, usize)>)
    ensures
        r matches Some(f) ==> posix_line_fields(line@) == Some((f.0@, f.1, f.2)),
{
    match suppaftp::list::ListParser::parse_posix(line.as_str()) {
        Ok(f) => Some((f.name().to_string(), f.is_directory(), f.size())),
        Err(_) => None,
    }
}

/// Relies on suppaftp's `ListParser::parse_dos` with the `name`,
/// `is_directory` and `size` getters: the parser is a function of the line
/// alone — a DOS listing line carries its full date — accepting or
/// rejecting without panicking.
#[verifier::external_body]
fn parse_dos_line(line: &String) -> (r: Option<(String, bool, usize)>)
    ensures
        r is Some <==> dos_line_fields(line@) is Some,
        r matches Some(f) ==> dos_line_fields(line@) == Some((f.0@, f.1, f.2)),
{
    match suppaftp::list::ListParser::parse_dos(line.as_str()) {
        Ok(f) => Some((f.name().to_string(), f.is_directory(), f.size())),
        Err(_) => None,
    }
}

/// One listing line's parse record: the fields one of the parsers read, or
/// nothing for a line both rejected.
pub open spec fn record_matches_line(rec: Option<(String, bool, usize)>, line: Seq<char>) -> bool {
    match rec {
        Some(f) => posix_line_fields(line) == Some((f.0@, f.1, f.2)) || dos_line_fields(line)
            == Some((f.0@, f.1, f.2)),
        None => dos_line_fields(line) is None,
    }
}

/// Reads one raw listing line, trying the POSIX format first and the DOS
/// format second, as the LIST output of either kind of server asks.
fn parse_line_record(line: &String) -> (r: Option<(String, bool, usize)>)
    ensures
        record_matches_line(r, line@),
{
    match parse_posix_line(line) {
        Some(f) => Some(f),
        None => parse_dos_line(line),
    }
}

/// The well-formed entry that one parsed field record classifies to: the
/// size is kept for files and dropped for directories.
pub open spec fn classified(f: (String, bool, usize)) -> RemoteEntry {
    RemoteEntry {
        name: f.0,
        kind: if f.1 {
            EntryKind::Directory
        } else {
            EntryKind::File
        },
        size: if f.1 {
            Option::<usize>::None
        } else {
            Some(f.2)
        },
    }
}

/// The listing that a sequence of parse records classifies to: exactly one
/// entry per accepted record, in the records' order, rejected records
/// skipped.
pub open spec fn listing_model(records: Seq<Option<(String, bool, usize)>>) -> Seq<RemoteEntry>
    decreases records.len(),
{
    if records.len() == 0 {
        Seq::empty()
    } else {
        let rest = listing_model(records.drop_last());
        match records.last() {
            Some(f) => rest.push(classified(f)),
            None => rest,
        }
    }
}

/// A listing never holds more entries than it had records.
pub proof fn lemma_listing_model_len(records: Seq<Option<(String, bool, usize)>>)
    ensures
        listing_model(records).len() <= records.len(),
    decreases records.len(),
{
    if records.len() > 0 {
        lemma_listing_model_len(records.drop_last());
    }
}

/// Classifies a sequence of parse records into the listing they describe:
/// exactly one well-formed entry per accepted record, in order, rejected
/// records skipped — nothing dropped and nothing invented.
pub fn entries_from_records(records: Vec<Option<(String, bool, usize)>>) -> (r: Vec<RemoteEntry>)
    ensures
        r@ == listing_model(records@),
        forall|i: int| 0 <= i < r@.len() ==> (#[trigger] r@[i]).wf(),
{
    let mut r: Vec<RemoteEntry> = Vec::new();
    let mut i: usize = 0;
    proof {
        assert(records@.take(0) =~= Seq::<Option<(String, bool, usize)>>::empty());
    }
    while i < records.len()
        invariant
            i <= records@.len(),
            r@ == listing_model(records@.take(i as int)),
            forall|k: int| 0 <= k < r@.len() ==> (#[trigger] r@[k]).wf(),
        decreases records@.len() - i,
    {
        proof {
            assert(records@.take(i + 1).drop_last() =~= records@.take(i as int));
            assert(records@.take(i + 1).last() == records@[i as int]);
        }
        match &records[i] {
            Some(f) => {
                let e = RemoteEntry::from_fields(f.0.clone(), f.1, Some(f.2));
                proof {
                    assert(e == classified((f.0, f.1, f.2)));
                }
                r.push(e);
            },
            None => {},
        }
        i = i + 1;
    }
    proof {
        assert(records@.take(records@.len() as int) =~= records@);
    }
    r
}

/// Parses a raw LIST response: each line is read by the POSIX parser, then
/// the DOS parser, and the listing is exactly the classification of what
/// they read — one well-formed entry per accepted line, in the response's
/// order, only the lines both parsers rejected discarded.
pub fn parse_listing(lines: &Vec<String>) -> (r: Vec<RemoteEntry>)
    ensures
        r@.len() <= lines@.len(),
        forall|i: int| 0 <= i < r@.len() ==> (#[trigger] r@[i]).wf(),
        exists|recs: Seq<Option<(String, bool, usize)>>|
            {
                &&& recs.len() == lines@.len()
                &&& forall|j: int|
                    0 <= j < recs.len() ==> record_matches_line(#[trigger] recs[j], lines@[j]@)
                &&& r@ == listing_model(recs)
            },
{
    let mut records: Vec<Option<(String, bool, usize)>> = Vec::new();
    let mut i: usize = 0;
    while i < lines.len()
        invariant
            i <= lines@.len(),
            records@.len() == i,
            forall|j: int|
                0 <= j < records@.len() ==> record_matches_line(
                    #[trigger] records@[j],
                    lines@[j]@,
                ),
        decreases lines@.len() - i,
    {
        let rec = parse_line_record(&lines[i]);
        records.push(rec);
        i = i + 1;
    }
    let ghost recs = records@;
    proof {
        lemma_listing_model_len(recs);
    }
    entries_from_records(records)
}

/// Parses one raw listing line into a typed, well-formed entry, trying the
/// POSIX format first and the DOS format second; a line both parsers reject
/// gives nothing.
pub fn entry_from_line(line: &String) -> (r: Option<RemoteEntry>)
    ensures
        r matches Some(e) ==> entry_matches_line(e, line@) && e.wf(),
{
    match parse_line_record(line) {
        Some((name, is_dir, size)) => Some(RemoteEntry::from_fields(name, is_dir, Some(size))),
        None => None,
    }
}

/// The well-formed entry that one local directory record classifies to,
/// from the name and the metadata that could be read for it: a record is a
/// directory exactly when its metadata says so, and it carries a byte size
/// exactly when its metadata marks it a plain file. A record whose metadata
/// could not be read counts as a file of unknown size.
pub open spec fn local_classified(name: String, meta: Option<(bool, bool, usize)>) -> RemoteEntry {
    RemoteEntry {
        name,
        kind: if meta matches Some(m) && m.0 {
            EntryKind::Directory
        } else {
            EntryKind::File
        },
        size: match meta {
            Some(m) => if !m.0 && m.1 {
                Some(m.2)
            } else {
                Option::<usize>::None
            },
            None => Option::<usize>::None,
        },
    }
}

/// Classifies one local directory record into a well-formed entry: exactly
/// `local_classified` of the name and metadata.
pub fn local_entry(name: String, meta: Option<(bool, bool, usize)>) -> (e: RemoteEntry)
    ensures
        e == local_classified(name, meta),
        e.wf(),
{
    match meta {
        Some((is_dir, is_file, len)) => {
            if is_dir {
                RemoteEntry { name, kind: EntryKind::Directory, size: None }
            } else if is_file {
                RemoteEntry { name, kind: EntryKind::File, size: Some(len) }
            } else {
                RemoteEntry { name, kind: EntryKind::File, size: None }
            }
        },
        None => RemoteEntry { name, kind: EntryKind::File, size: None },
    }
}

/// The listing that a local directory's records classify to: one entry per
/// record, names kept, in the records' order.
pub open spec fn local_listing_model(
    records: Seq<(String, Option<(bool, bool, usize)>)>,
) -> Seq<RemoteEntry> {
    Seq::new(records.len(), |i: int| local_classified(records[i].0, records[i].1))
}

/// Classifies a local directory's records into its listing: exactly one
/// well-formed entry per readable child, names kept, in order.
pub fn local_listing(records: Vec<(String, Option<(bool, bool, usize)>)>) -> (r: Vec<RemoteEntry>)
    ensures
        r@ == local_listing_model(records@),
        forall|i: int| 0 <= i < r@.len() ==> (#[trigger] r@[i]).wf(),
{
    let mut r: Vec<RemoteEntry> = Vec::new();
    let mut i: usize = 0;
    while i < records.len()
        invariant
            i <= records@.len(),
            r@.len() == i,
            forall|k: int|
                0 <= k < r@.len() ==> #[trigger] r@[k] == local_classified(
                    records@[k].0,
                    records@[k].1,
                ) && r@[k].wf(),
        decreases records@.len() - i,
    {
        let rec = &records[i];
        let e = local_entry(rec.0.clone(), rec.1);
        r.push(e);
        i = i + 1;
    }
    proof {
        assert(r@ =~= local_listing_model(records@));
    }
    r
}

/// The rendered form of one entry: what the file tables display.
pub struct FileInfo {
    pub name: String,
    pub kind: String,
    pub size: String,
}

impl FileInfo {
    /// Renders one entry: the kind shown as `dir` or `file`, the size
    /// formatted human-readably, an unknown size shown as zero bytes.
    pub fn from_entry(e: &RemoteEntry) -> (r: FileInfo)
        ensures
            r.name@ == e.name@,
            r.kind@ == (if e.kind is Directory {
                "dir"@
            } else {
                "file"@
            }),
            r.size@ == size_str(
                (match e.size {
                    Some(s) => s,
                    None => 0,
                }) as nat,
            ),
    {
        let size: usize = match e.size {
            Some(s) => s,
            None => 0,
        };
        FileInfo {
            name: e.name.clone(),
            kind: if matches!(e.kind, EntryKind::Directory) {
                "dir".to_owned()
            } else {
                "file".to_owned()
            },
            size: format_size(&size),
        }
    }
}

/// Renders a whole listing, entry by entry, in order.
pub fn render_infos(entries: &Vec<RemoteEntry>) -> (r: Vec<FileInfo>)
    ensures
        r@.len() == entries@.len(),
        forall|i: int|
            0 <= i < r@.len() ==> (#[trigger] r@[i]).name@ == entries@[i].name@
                && r@[i].kind@ == (if entries@[i].kind is Directory {
                "dir"@
            } else {
                "file"@
            }) && r@[i].size@ == size_str(
                (match entries@[i].size {
                    Some(s) => s,
                    None => 0,
                }) as nat,
            ),
{
    let mut r: Vec<FileInfo> = Vec::new();
    let mut i: usize = 0;
    while i < entries.len()
        invariant
            i <= entries@.len(),
            r@.len() == i,
            forall|k: int|
                0 <= k < r@.len() ==> (#[trigger] r@[k]).name@ == entries@[k].name@
                    && r@[k].kind@ == (if entries@[k].kind is Directory {
                    "dir"@
                } else {
                    "file"@
                }) && r@[k].size@ == size_str(
                    (match entries@[k].size {
                        Some(s) => s,
                        None => 0,
                    }) as nat,
                ),
        decreases entries@.len() - i,
    {
        let info = FileInfo::from_entry(&entries[i]);
        r.push(info);
        i = i + 1;
    }
    r
}

} // verus!
