use vstd::prelude::*;
use flate2::write::GzEncoder;
use crate::paths::{
    collected, entries_view, file_count, lemma_collected_set, lemma_entries_are_dirs_or_files,
    lemma_root_never_collected, tree_entries, EntryKind, FileEntry,
};
use crate::quota::Clearance;

verus! {

#[verifier::external_type_specification]
#[verifier::external_body]
pub struct ExIoError(std::io::Error);

/// A gzip stream being written into memory. Verus cannot declare flate2's
/// `GzEncoder` itself, whose parameter is bound by `std::io::Write`, so it is
/// held here out of Verus's sight.
#[verifier::external_body]
pub struct GzipBuffer {
    inner: GzEncoder<Vec<u8>>,
}

/// A tar archive written into a gzip stream. Verus cannot declare tar's
/// `Builder`, whose parameter is bound by `std::io::Write`, so it is held here
/// out of Verus's sight.
#[verifier::external_body]
pub struct TarGzStream {
    inner: tar::Builder<GzEncoder<Vec<u8>>>,
}

/// Permission bits of a directory record.
pub const DIRECTORY_MODE: u32 = 0o755;

/// Permission bits of a file record.
pub const FILE_MODE: u32 = 0o644;

/// What has been appended to a tar builder, entry by entry: the path, whether
/// it is a directory, its mode and its data.
pub uninterp spec fn appended(b: TarGzStream) -> Seq<(Seq<char>, bool, u32, Seq<u8>)>;

/// The bytes written so far into a gzip stream, before compression.
pub uninterp spec fn gzip_input(g: GzipBuffer) -> Seq<u8>;

/// Whether tar's `Header::set_path` takes this path for a ustar header, directly
/// or through a GNU long-name record: it must be relative, have at least one
/// component and no `..`.
pub uninterp spec fn tar_accepts(path: Seq<char>) -> bool;

/// The ustar stream tar's `Builder` writes for these entries, headers made by
/// `Header::new_ustar` and closed by the two end-of-archive blocks.
pub uninterp spec fn tar_stream_of(entries: Seq<(Seq<char>, bool, u32, Seq<u8>)>) -> Seq<u8>;

/// The gzip stream flate2's `GzEncoder` writes at the default level for these bytes.
pub uninterp spec fn gzip_of(data: Seq<u8>) -> Seq<u8>;

/// Relies on flate2's `GzEncoder::new`: a gzip stream at the default level into
/// an empty buffer, with nothing written yet.
#[verifier::external_body]
fn new_gzip_buffer() -> (r: GzipBuffer)
    ensures
        gzip_input(r).len() == 0,
{
    GzipBuffer { inner: GzEncoder::new(Vec::new(), flate2::Compression::default()) }
}

/// Relies on tar's `Builder::new`: an archive with no entries over the gzip stream.
#[verifier::external_body]
fn new_tar(enc: GzipBuffer) -> (r: TarGzStream)
    requires
        gzip_input(enc).len() == 0,
    ensures
        appended(r).len() == 0,
{
    TarGzStream { inner: tar::Builder::new(enc.inner) }
}

/// Relies on tar's `Builder::append_data`: writes one ustar record followed by
/// `data`. The header is made with `Header::new_ustar` and filled from the
/// arguments with `set_entry_type`, `set_mode` and `set_size`. The only error
/// comes from a path the header refuses, before anything is written: the
/// stream below is an in-memory buffer, whose writes do not fail. The declared
/// size must be the data's length, as `append_data` asks for a valid archive.
#[verifier::external_body]
fn tar_append(
    b: &mut TarGzStream,
    path: &str,
    is_dir: bool,
    mode: u32,
    size: u64,
    data: &[u8],
) -> (r: Result<(), std::io::Error>)
    requires
        size == data@.len(),
    ensures
        r is Ok <==> tar_accepts(path@),
        r is Ok ==> appended(*final(b)) == appended(*old(b)).push((path@, is_dir, mode, data@)),
        r is Err ==> appended(*final(b)) == appended(*old(b)),
{
    let mut header = tar::Header::new_ustar();
    header.set_entry_type(if is_dir { tar::EntryType::Directory } else { tar::EntryType::Regular });
    header.set_mode(mode);
    header.set_size(size);
    b.inner.append_data(&mut header, path, data)
}

/// Relies on tar's `Builder::into_inner`: writes the archive's end blocks and
/// hands back the gzip stream, which then holds the whole tar stream of what
/// was appended. Writes into the in-memory buffer do not fail.
#[verifier::external_body]
fn tar_into_inner(b: TarGzStream) -> (r: Result<GzipBuffer, std::io::Error>)
    ensures
        r is Ok,
        r matches Ok(g) ==> gzip_input(g) == tar_stream_of(appended(b)),
{
    b.inner.into_inner().map(|inner| GzipBuffer { inner })
}

/// Relies on flate2's `GzEncoder::finish`: writes the gzip trailer and hands
/// back the compressed bytes. Writes into the in-memory buffer do not fail.
#[verifier::external_body]
fn gzip_finish(enc: GzipBuffer) -> (r: Result<Vec<u8>, std::io::Error>)
    ensures
        r is Ok,
        r matches Ok(bytes) ==> bytes@ == gzip_of(gzip_input(enc)),
{
    enc.inner.finish()
}

/// Why an archive could not be built.
#[derive(Debug, Clone, Copy, PartialEq, Eq, Structural)]
pub enum ArchiveBuildError {
    /// Writing a record or finishing the stream failed.
    Write,
    /// The record asked for is not the next entry's kind.
    OutOfOrder,
    /// Not every entry has been written yet.
    Incomplete,
    /// An earlier write failed; the archive is abandoned.
    Abandoned,
}

/// One record written to the archive: the header's path, type, mode and
/// declared size, and the data that followed it.
pub struct ArchiveRecord {
    pub path: Seq<char>,
    pub kind: EntryKind,
    pub mode: u32,
    pub size: nat,
    pub data: Seq<u8>,
}

/// What the next step of a build is.
#[derive(Debug, Clone)]
pub enum ArchiveStep {
    AddDirectory(String),
    AddFile(String),
    Finish,
}

/// The abstract state of a build.
pub struct ArchiveModel {
    pub entries: Seq<(Seq<char>, EntryKind)>,
    pub records: Seq<ArchiveRecord>,
    pub files_done: nat,
    pub limit: nat,
    pub failed: bool,
}

/// The record written for an entry carries its path and kind; a directory has
/// no content, a file's declared size is the length of its content.
pub open spec fn record_fits(r: ArchiveRecord, e: (Seq<char>, EntryKind)) -> bool {
    &&& r.path == e.0
    &&& r.kind == e.1
    &&& r.size == r.data.len()
    &&& e.1 == EntryKind::Directory ==> r.mode == DIRECTORY_MODE && r.size == 0
    &&& e.1 == EntryKind::File ==> r.mode == FILE_MODE
}

/// The entries handed to tar for these records.
pub open spec fn tar_entries(records: Seq<ArchiveRecord>) -> Seq<(Seq<char>, bool, u32, Seq<u8>)> {
    records.map_values(|r: ArchiveRecord| (r.path, r.kind == EntryKind::Directory, r.mode, r.data))
}

pub open spec fn model_wf(m: ArchiveModel) -> bool {
    &&& m.records.len() <= m.entries.len()
    &&& forall|i: int| 0 <= i < m.records.len() ==> record_fits(#[trigger] m.records[i], m.entries[i])
    &&& forall|i: int| 0 <= i < m.entries.len() ==> (#[trigger] m.entries[i]).1 != EntryKind::Other
    &&& m.files_done == file_count(m.entries.take(m.records.len() as int))
    &&& file_count(m.entries) <= m.limit
}

/// A gzip-compressed tar archive of a project's entries, written in entry order.
pub struct ArchiveJob {
    builder: TarGzStream,
    entries: Vec<FileEntry>,
    next: usize,
    files_done: u64,
    limit: u64,
    failed: bool,
    records: Ghost<Seq<ArchiveRecord>>,
}

impl View for ArchiveJob {
    type V = ArchiveModel;

    closed spec fn view(&self) -> ArchiveModel {
        ArchiveModel {
            entries: entries_view(self.entries@),
            records: self.records@,
            files_done: self.files_done as nat,
            limit: self.limit as nat,
            failed: self.failed,
        }
    }
}

impl ArchiveJob {
    pub closed spec fn wf(&self) -> bool {
        &&& model_wf(self@)
        &&& self.next == self.records@.len()
        &&& self.entries@.len() == entries_view(self.entries@).len()
        &&& appended(self.builder) == tar_entries(self.records@)
    }

    /// Starts an archive of the entries a clearance covers. A clearance comes
    /// only from `quota_gate`, and only for a project within its file limit,
    /// so no archive is started for a project over quota.
    pub fn new(clearance: Clearance) -> (r: ArchiveJob)
        ensures
            r.wf(),
            r@.entries == clearance.entries_spec(),
            r@.records.len() == 0,
            r@.limit == clearance.limit_spec(),
            !r@.failed,
            file_count(r@.entries) <= r@.limit,
    {
        let (entries, limit) = clearance.into_entries();
        let enc = new_gzip_buffer();
        let job = ArchiveJob {
            builder: new_tar(enc),
            entries,
            next: 0,
            files_done: 0,
            limit,
            failed: false,
            records: Ghost(Seq::empty()),
        };
        proof {
            assert(entries_view(job.entries@).take(0) =~= Seq::empty());
            assert(tar_entries(job.records@) =~= appended(job.builder));
            lemma_entries_are_dirs_or_files(job.entries@);
        }
        job
    }

    /// Number of file records written so far.
    pub fn files_done(&self) -> (r: u64)
        requires
            self.wf(),
        ensures
            r == self@.files_done,
    {
        self.files_done
    }

    /// Number of files the archive will hold.
    pub fn total_files(&self) -> (r: u64)
        requires
            self.wf(),
        ensures
            r == file_count(self@.entries),
    {
        let mut n: u64 = 0;
        let mut i: usize = 0;
        while i < self.entries.len()
            invariant
                self.wf(),
                i <= self.entries@.len(),
                n == file_count(entries_view(self.entries@).take(i as int)),
                n <= i,
            decreases self.entries@.len() - i,
        {
            proof {
                assert(entries_view(self.entries@).take(i as int + 1).drop_last() =~= entries_view(self.entries@).take(i as int));
            }
            if self.entries[i].kind() == EntryKind::File {
                n = n + 1;
            }
            i = i + 1;
        }
        proof {
            assert(entries_view(self.entries@).take(i as int) =~= entries_view(self.entries@));
        }
        n
    }

    /// The next step of the build: the entry to add, or finishing.
    pub fn next_step(&self) -> (r: ArchiveStep)
        requires
            self.wf(),
        ensures
            self@.records.len() == self@.entries.len() <==> r is Finish,
            r matches ArchiveStep::AddDirectory(p) ==> self@.records.len() < self@.entries.len()
                && self@.entries[self@.records.len() as int] == (p@, EntryKind::Directory),
            r matches ArchiveStep::AddFile(p) ==> self@.records.len() < self@.entries.len()
                && self@.entries[self@.records.len() as int] == (p@, EntryKind::File),
    {
        if self.next >= self.entries.len() {
            return ArchiveStep::Finish;
        }
        let e = &self.entries[self.next];
        proof {
            assert(entries_view(self.entries@)[self.next as int] == e@);
            assert(e@.1 != EntryKind::Other);
        }
        if e.is_dir() {
            ArchiveStep::AddDirectory(e.relative_path().clone())
        } else {
            ArchiveStep::AddFile(e.relative_path().clone())
        }
    }

    /// Writes the next entry, which must be a directory, as a record without content.
    pub fn add_directory(&mut self) -> (r: Result<(), ArchiveBuildError>)
        requires
            old(self).wf(),
        ensures
            final(self).wf(),
            final(self)@.entries == old(self)@.entries,
            final(self)@.limit == old(self)@.limit,
            old(self)@.failed ==> r == Err::<(), ArchiveBuildError>(ArchiveBuildError::Abandoned) && final(self)@ == old(self)@,
            !old(self)@.failed && !(old(self)@.records.len() < old(self)@.entries.len()
                && old(self)@.entries[old(self)@.records.len() as int].1 == EntryKind::Directory)
                ==> r == Err::<(), ArchiveBuildError>(ArchiveBuildError::OutOfOrder) && final(self)@ == old(self)@,
            r is Ok ==> final(self)@.records == old(self)@.records.push(ArchiveRecord {
                path: old(self)@.entries[old(self)@.records.len() as int].0,
                kind: EntryKind::Directory,
                mode: DIRECTORY_MODE,
                size: 0,
                data: Seq::empty(),
            }) && !final(self)@.failed && final(self)@.files_done == old(self)@.files_done,
            r matches Err(ArchiveBuildError::Write) ==> final(self)@.failed && final(self)@.records == old(self)@.records,
            !old(self)@.failed && old(self)@.records.len() < old(self)@.entries.len()
                && old(self)@.entries[old(self)@.records.len() as int].1 == EntryKind::Directory
                ==> (r is Ok <==> tar_accepts(old(self)@.entries[old(self)@.records.len() as int].0))
                && (r is Err ==> r == Err::<(), ArchiveBuildError>(ArchiveBuildError::Write)),
    {
        if self.failed {
            return Err(ArchiveBuildError::Abandoned);
        }
        if self.next >= self.entries.len() || !self.entries[self.next].is_dir() {
            return Err(ArchiveBuildError::OutOfOrder);
        }
        let empty: [u8; 0] = [];
        let no_data = empty.as_slice();
        assert(no_data@ =~= Seq::<u8>::empty());
        let res = tar_append(&mut self.builder, self.entries[self.next].relative_path().as_str(), true, DIRECTORY_MODE, 0, no_data);
        match res {
            Err(_) => {
                self.failed = true;
                Err(ArchiveBuildError::Write)
            },
            Ok(()) => {
                let ghost rec = ArchiveRecord {
                    path: entries_view(self.entries@)[self.next as int].0,
                    kind: EntryKind::Directory,
                    mode: DIRECTORY_MODE,
                    size: 0,
                    data: Seq::empty(),
                };
                proof {
                    assert(entries_view(self.entries@).take(self.next as int + 1).drop_last()
                        =~= entries_view(self.entries@).take(self.next as int));
                }
                proof {
                    assert(tar_entries(self.records@.push(rec)) =~= tar_entries(self.records@).push(
                        (rec.path, rec.kind == EntryKind::Directory, rec.mode, rec.data),
                    ));
                }
                self.records = Ghost(self.records@.push(rec));
                self.next = self.next + 1;
                Ok(())
            },
        }
    }

    /// Writes the next entry, which must be a file, with `contents` as its data.
    pub fn add_file(&mut self, contents: Vec<u8>) -> (r: Result<(), ArchiveBuildError>)
        requires
            old(self).wf(),
        ensures
            final(self).wf(),
            final(self)@.entries == old(self)@.entries,
            final(self)@.limit == old(self)@.limit,
            old(self)@.failed ==> r == Err::<(), ArchiveBuildError>(ArchiveBuildError::Abandoned) && final(self)@ == old(self)@,
            !old(self)@.failed && !(old(self)@.records.len() < old(self)@.entries.len()
                && old(self)@.entries[old(self)@.records.len() as int].1 == EntryKind::File)
                ==> r == Err::<(), ArchiveBuildError>(ArchiveBuildError::OutOfOrder) && final(self)@ == old(self)@,
            r is Ok ==> final(self)@.records == old(self)@.records.push(ArchiveRecord {
                path: old(self)@.entries[old(self)@.records.len() as int].0,
                kind: EntryKind::File,
                mode: FILE_MODE,
                size: contents@.len(),
                data: contents@,
            }) && !final(self)@.failed && final(self)@.files_done == old(self)@.files_done + 1,
            r matches Err(ArchiveBuildError::Write) ==> final(self)@.failed && final(self)@.records == old(self)@.records,
            !old(self)@.failed && old(self)@.records.len() < old(self)@.entries.len()
                && old(self)@.entries[old(self)@.records.len() as int].1 == EntryKind::File
                ==> (r is Ok <==> tar_accepts(old(self)@.entries[old(self)@.records.len() as int].0))
                && (r is Err ==> r == Err::<(), ArchiveBuildError>(ArchiveBuildError::Write)),
    {
        if self.failed {
            return Err(ArchiveBuildError::Abandoned);
        }
        if self.next >= self.entries.len() || self.entries[self.next].kind() != EntryKind::File {
            return Err(ArchiveBuildError::OutOfOrder);
        }
        let size = contents.len() as u64;
        let res = tar_append(&mut self.builder, self.entries[self.next].relative_path().as_str(), false, FILE_MODE, size, contents.as_slice());
        match res {
            Err(_) => {
                self.failed = true;
                Err(ArchiveBuildError::Write)
            },
            Ok(()) => {
                let ghost rec = ArchiveRecord {
                    path: entries_view(self.entries@)[self.next as int].0,
                    kind: EntryKind::File,
                    mode: FILE_MODE,
                    size: contents@.len(),
                    data: contents@,
                };
                proof {
                    let ev = entries_view(self.entries@);
                    assert(ev.take(self.next as int + 1).drop_last() =~= ev.take(self.next as int));
                    lemma_file_count_prefix_bound(ev, self.next as int + 1);
                }
                proof {
                    assert(tar_entries(self.records@.push(rec)) =~= tar_entries(self.records@).push(
                        (rec.path, rec.kind == EntryKind::Directory, rec.mode, rec.data),
                    ));
                }
                self.records = Ghost(self.records@.push(rec));
                self.next = self.next + 1;
                self.files_done = self.files_done + 1;
                Ok(())
            },
        }
    }

    /// Ends the archive and returns its compressed bytes; only a build that
    /// wrote every entry without a failure yields them.
    pub fn finish(self) -> (r: Result<Vec<u8>, ArchiveBuildError>)
        requires
            self.wf(),
        ensures
            self@.failed ==> r == Err::<Vec<u8>, ArchiveBuildError>(ArchiveBuildError::Abandoned),
            !self@.failed && self@.records.len() < self@.entries.len() ==> r == Err::<Vec<u8>, ArchiveBuildError>(ArchiveBuildError::Incomplete),
            r is Ok ==> !self@.failed && self@.records.len() == self@.entries.len(),
            r matches Err(e) ==> e != ArchiveBuildError::OutOfOrder,
            !self@.failed && self@.records.len() == self@.entries.len() ==> (r matches Ok(bytes)
                && bytes@ == gzip_of(tar_stream_of(tar_entries(self@.records)))),
    {
        if self.failed {
            return Err(ArchiveBuildError::Abandoned);
        }
        if self.next < self.entries.len() {
            return Err(ArchiveBuildError::Incomplete);
        }
        match tar_into_inner(self.builder) {
            Err(_) => Err(ArchiveBuildError::Write),
            Ok(enc) => match gzip_finish(enc) {
                Err(_) => Err(ArchiveBuildError::Write),
                Ok(bytes) => Ok(bytes),
            },
        }
    }
}

/// A prefix holds no more files than the whole.
proof fn lemma_file_count_prefix_bound(s: Seq<(Seq<char>, EntryKind)>, n: int)
    requires
        0 <= n <= s.len(),
    ensures
        file_count(s.take(n)) <= file_count(s),
    decreases s.len() - n,
{
    if n < s.len() {
        assert(s.take(n + 1).drop_last() =~= s.take(n));
        lemma_file_count_prefix_bound(s, n + 1);
    } else {
        assert(s.take(n) =~= s);
    }
}

/// The path and type of each record, in the order written.
pub open spec fn record_entries(records: Seq<ArchiveRecord>) -> Seq<(Seq<char>, EntryKind)> {
    records.map_values(|r: ArchiveRecord| (r.path, r.kind))
}

/// A finished archive of a walked tree holds exactly the tree's directories and
/// files other than the root, by relative path and type, whatever order the
/// walk reported them in; no record has an empty path.
pub proof fn lemma_archive_matches_tree(root: Seq<char>, walk: Seq<(Seq<char>, EntryKind)>, job: ArchiveModel)
    requires
        collected(root, walk) == Some(job.entries),
        model_wf(job),
        job.records.len() == job.entries.len(),
    ensures
        record_entries(job.records).to_set() == tree_entries(root, walk.to_set()),
        forall|i: int| 0 <= i < job.records.len() ==> (#[trigger] job.records[i]).path.len() > 0,
{
    lemma_collected_set(root, walk);
    lemma_root_never_collected(root, walk);
    assert(record_entries(job.records) =~= job.entries) by {
        assert forall|i: int| 0 <= i < job.records.len() implies record_entries(job.records)[i] == job.entries[i] by {
            assert(record_fits(job.records[i], job.entries[i]));
        }
    }
    assert forall|i: int| 0 <= i < job.records.len() implies (#[trigger] job.records[i]).path.len() > 0 by {
        assert(record_fits(job.records[i], job.entries[i]));
        assert(collected(root, walk)->0[i] == job.entries[i]);
    }
}

/// Every record written has a declared size equal to the length of its data,
/// and a directory record carries no data.
pub proof fn lemma_record_sizes(job: ArchiveModel)
    requires
        model_wf(job),
    ensures
        forall|i: int| 0 <= i < job.records.len() ==> (#[trigger] job.records[i]).size == job.records[i].data.len(),
        forall|i: int| 0 <= i < job.records.len() && (#[trigger] job.records[i]).kind == EntryKind::Directory
            ==> job.records[i].data.len() == 0,
{
    assert forall|i: int| 0 <= i < job.records.len() && (#[trigger] job.records[i]).kind == EntryKind::Directory
        implies job.records[i].data.len() == 0 by {
        assert(record_fits(job.records[i], job.entries[i]));
    }
    assert forall|i: int| 0 <= i < job.records.len() implies (#[trigger] job.records[i]).size == job.records[i].data.len() by {
        assert(record_fits(job.records[i], job.entries[i]));
    }
}

/// A well-formed job's abstract state is well formed.
pub proof fn lemma_job_model_wf(job: &ArchiveJob)
    requires
        job.wf(),
    ensures
        model_wf(job@),
{
}

/// A job only ever holds as many files as the policy it was cleared under allows.
pub proof fn lemma_job_within_quota(job: ArchiveModel)
    requires
        model_wf(job),
    ensures
        job.files_done <= file_count(job.entries),
        file_count(job.entries) <= job.limit,
{
    lemma_file_count_prefix_bound(job.entries, job.records.len() as int);
}

} // verus!
