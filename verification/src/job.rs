//! Jobs: one unit of work for one source, its state, and the list of jobs
//! that a run starts from.

use crate::error::IngestError;
use crate::path::{join_path, spec_join_path};
use crate::text::{char_is_whitespace, chars_of, is_whitespace, string_of};
use vstd::prelude::*;

verus! {

/// Where a job stands. A job starts in `Wait`; `Done` and `Error` are final.
#[derive(Debug, Clone, PartialEq, Eq)]
pub enum JobState {
    Wait,
    /// `done` of `total` bytes are here.
    Downloading { done: u64, total: u64 },
    Unzipping { percent: u8 },
    Parsing { percent: u8, current_entity: String },
    Done,
    Error { message: String },
}

/// What a `JobState` holds.
pub enum JobStateView {
    Wait,
    Downloading { done: u64, total: u64 },
    Unzipping { percent: u8 },
    Parsing { percent: u8, current_entity: Seq<char> },
    Done,
    Error { message: Seq<char> },
}

impl JobStateView {
    /// Whether nothing follows this state.
    pub open spec fn is_terminal(self) -> bool {
        self is Done || self is Error
    }

    /// Whether a job in this state is at work: it has left `Wait` and has
    /// not ended.
    pub open spec fn is_active(self) -> bool {
        !(self is Wait) && !self.is_terminal()
    }
}

impl View for JobState {
    type V = JobStateView;

    open spec fn view(&self) -> JobStateView {
        match *self {
            JobState::Wait => JobStateView::Wait,
            JobState::Downloading { done, total } => JobStateView::Downloading { done, total },
            JobState::Unzipping { percent } => JobStateView::Unzipping { percent },
            JobState::Parsing { percent, current_entity } => JobStateView::Parsing {
                percent,
                current_entity: current_entity@,
            },
            JobState::Done => JobStateView::Done,
            JobState::Error { message } => JobStateView::Error { message: message@ },
        }
    }
}

impl JobState {
    /// Whether nothing follows this state.
    pub fn is_terminal(&self) -> (r: bool)
        ensures
            r == self@.is_terminal(),
    {
        match self {
            JobState::Done => true,
            JobState::Error { .. } => true,
            _ => false,
        }
    }

    /// Whether a job in this state is at work.
    pub fn is_active(&self) -> (r: bool)
        ensures
            r == self@.is_active(),
    {
        match self {
            JobState::Wait => false,
            JobState::Done => false,
            JobState::Error { .. } => false,
            _ => true,
        }
    }

    /// A copy of this state.
    pub fn duplicate(&self) -> (r: JobState)
        ensures
            r@ == self@,
    {
        match self {
            JobState::Wait => JobState::Wait,
            JobState::Downloading { done, total } => JobState::Downloading {
                done: *done,
                total: *total,
            },
            JobState::Unzipping { percent } => JobState::Unzipping { percent: *percent },
            JobState::Parsing { percent, current_entity } => JobState::Parsing {
                percent: *percent,
                current_entity: current_entity.clone(),
            },
            JobState::Done => JobState::Done,
            JobState::Error { message } => JobState::Error { message: message.clone() },
        }
    }
}

/// One unit of work for one source: where to fetch the archive from, if
/// anywhere, where the archive lies, and where the work stands.
#[derive(Debug, Clone, PartialEq, Eq)]
pub struct Job {
    source_ref: Option<String>,
    archive_path: String,
    state: JobState,
}

/// What a `Job` holds.
pub struct JobView {
    pub source_ref: Option<Seq<char>>,
    pub archive_path: Seq<char>,
    pub state: JobStateView,
}

impl View for Job {
    type V = JobView;

    closed spec fn view(&self) -> JobView {
        JobView {
            source_ref: match self.source_ref {
                Some(s) => Some(s@),
                None => None,
            },
            archive_path: self.archive_path@,
            state: self.state@,
        }
    }
}

/// What the jobs of a sequence hold, in order.
pub open spec fn jobs_view(jobs: Seq<Job>) -> Seq<JobView> {
    Seq::new(jobs.len(), |i: int| jobs[i]@)
}

impl Job {
    /// A job that waits: for the archive at `archive_path`, to be fetched
    /// from `source_ref` where there is one.
    pub fn new(source_ref: Option<String>, archive_path: String) -> (job: Job)
        ensures
            job@ == (JobView {
                source_ref: match source_ref {
                    Some(s) => Some(s@),
                    None => None,
                },
                archive_path: archive_path@,
                state: JobStateView::Wait,
            }),
    {
        Job { source_ref, archive_path, state: JobState::Wait }
    }

    /// Where the archive is fetched from, if anywhere.
    pub fn source_ref(&self) -> (r: Option<String>)
        ensures
            match r {
                Some(s) => self@.source_ref == Some(s@),
                None => self@.source_ref is None,
            },
    {
        match &self.source_ref {
            Some(s) => Some(s.clone()),
            None => None,
        }
    }

    /// Where the archive lies.
    pub fn archive_path(&self) -> (r: String)
        ensures
            r@ == self@.archive_path,
    {
        self.archive_path.clone()
    }

    /// Where the work stands.
    pub fn state(&self) -> (r: JobState)
        ensures
            r@ == self@.state,
    {
        self.state.duplicate()
    }

    /// Moves the job to the state `next`, unless the job has ended: nothing
    /// leaves `Done` or `Error`. Says whether the job moved.
    pub fn set_state(&mut self, next: JobState) -> (moved: bool)
        ensures
            moved == !old(self)@.state.is_terminal(),
            moved ==> final(self)@ == (JobView { state: next@, ..old(self)@ }),
            !moved ==> final(self)@ == old(self)@,
    {
        if self.state.is_terminal() {
            false
        } else {
            self.state = next;
            true
        }
    }
}

/// The words of `s` that follow the unfinished word `cur`: a word is a
/// longest run of characters that are not white space.
pub open spec fn words_acc(s: Seq<char>, cur: Seq<char>) -> Seq<Seq<char>>
    decreases s.len(),
{
    let done = if cur.len() > 0 {
        seq![cur]
    } else {
        Seq::empty()
    };
    if s.len() == 0 {
        done
    } else if is_whitespace(s[0]) {
        done + words_acc(s.skip(1), Seq::empty())
    } else {
        words_acc(s.skip(1), cur.push(s[0]))
    }
}

/// The words of `s`, in order.
pub open spec fn words(s: Seq<char>) -> Seq<Seq<char>> {
    words_acc(s, Seq::empty())
}

/// The lines of `s` that follow the unfinished line `cur`: a line ends at a
/// line feed, or where the text ends.
pub open spec fn lines_acc(s: Seq<char>, cur: Seq<char>) -> Seq<Seq<char>>
    decreases s.len(),
{
    if s.len() == 0 {
        seq![cur]
    } else if s[0] == '\n' {
        seq![cur] + lines_acc(s.skip(1), Seq::empty())
    } else {
        lines_acc(s.skip(1), cur.push(s[0]))
    }
}

/// The lines of `s`, in order.
pub open spec fn split_lines(s: Seq<char>) -> Seq<Seq<char>> {
    lines_acc(s, Seq::empty())
}

/// What a line of the site list says.
pub enum ManifestLine {
    /// Nothing but white space.
    Blank,
    /// A line whose first word begins with `#`.
    Comment,
    /// A local name and the address to fetch it from.
    Entry { local_name: Seq<char>, url: Seq<char> },
    /// Any other line: it has not exactly two fields.
    Malformed,
}

/// What the line `line` says.
pub open spec fn classify_line(line: Seq<char>) -> ManifestLine {
    let w = words(line);
    if w.len() == 0 {
        ManifestLine::Blank
    } else if w[0].len() > 0 && w[0][0] == '#' {
        ManifestLine::Comment
    } else if w.len() == 2 {
        ManifestLine::Entry { local_name: w[0], url: w[1] }
    } else {
        ManifestLine::Malformed
    }
}

/// The index of the first malformed line, if any line is malformed.
pub open spec fn first_malformed(lines: Seq<Seq<char>>) -> Option<int>
    decreases lines.len(),
{
    if lines.len() == 0 {
        None
    } else {
        match first_malformed(lines.drop_last()) {
            Some(i) => Some(i),
            None => if classify_line(lines.last()) is Malformed {
                Some(lines.len() - 1)
            } else {
                None
            },
        }
    }
}

/// The jobs that the lines ask for, in the order of the lines: one waiting
/// job for each entry, its archive inside `data_path`.
pub open spec fn manifest_jobs(lines: Seq<Seq<char>>, data_path: Seq<char>) -> Seq<JobView>
    decreases lines.len(),
{
    if lines.len() == 0 {
        Seq::empty()
    } else {
        let before = manifest_jobs(lines.drop_last(), data_path);
        match classify_line(lines.last()) {
            ManifestLine::Entry { local_name, url } => before.push(
                JobView {
                    source_ref: Some(url),
                    archive_path: spec_join_path(data_path, local_name),
                    state: JobStateView::Wait,
                },
            ),
            _ => before,
        }
    }
}

/// What the character vectors of a sequence hold, in order.
pub open spec fn chars_view(v: Seq<Vec<char>>) -> Seq<Seq<char>> {
    Seq::new(v.len(), |i: int| v[i]@)
}

/// The words of a line.
pub fn words_of(line: &Vec<char>) -> (out: Vec<Vec<char>>)
    ensures
        chars_view(out@) == words(line@),
{
    let mut out: Vec<Vec<char>> = Vec::new();
    let mut cur: Vec<char> = Vec::new();
    let mut i: usize = 0;
    assert(line@.skip(0) == line@);
    assert(chars_view(out@) =~= Seq::<Seq<char>>::empty());
    assert(Seq::<Seq<char>>::empty() + words(line@) == words(line@));
    while i < line.len()
        invariant
            i <= line.len(),
            chars_view(out@) + words_acc(line@.skip(i as int), cur@) == words(line@),
        decreases line.len() - i,
    {
        let c = line[i];
        let ghost rest = line@.skip(i as int);
        let ghost before = chars_view(out@);
        let ghost word = cur@;
        assert(rest.len() > 0 && rest[0] == c);
        assert(rest.skip(1) == line@.skip(i + 1));
        if char_is_whitespace(c) {
            if cur.len() > 0 {
                out.push(cur);
                cur = Vec::new();
                assert(chars_view(out@) =~= before + seq![word]);
                assert((before + seq![word]) + words_acc(rest.skip(1), Seq::empty()) == before + (
                seq![word] + words_acc(rest.skip(1), Seq::empty())));
            } else {
                assert(cur@ == Seq::<char>::empty());
                assert(Seq::<Seq<char>>::empty() + words_acc(rest.skip(1), Seq::empty())
                    == words_acc(rest.skip(1), Seq::empty()));
            }
        } else {
            cur.push(c);
        }
        i += 1;
    }
    assert(line@.skip(line.len() as int) == Seq::<char>::empty());
    let ghost before = chars_view(out@);
    let ghost word = cur@;
    if cur.len() > 0 {
        out.push(cur);
        assert(chars_view(out@) =~= before + seq![word]);
    } else {
        assert(before + Seq::<Seq<char>>::empty() == before);
    }
    out
}

/// The lines of a text.
pub fn lines_of(text: &Vec<char>) -> (out: Vec<Vec<char>>)
    ensures
        chars_view(out@) == split_lines(text@),
        out.len() <= text.len() + 1,
{
    let mut out: Vec<Vec<char>> = Vec::new();
    let mut cur: Vec<char> = Vec::new();
    let mut i: usize = 0;
    assert(text@.skip(0) == text@);
    assert(chars_view(out@) =~= Seq::<Seq<char>>::empty());
    assert(Seq::<Seq<char>>::empty() + split_lines(text@) == split_lines(text@));
    while i < text.len()
        invariant
            i <= text.len(),
            out.len() <= i,
            chars_view(out@) + lines_acc(text@.skip(i as int), cur@) == split_lines(text@),
        decreases text.len() - i,
    {
        let c = text[i];
        let ghost rest = text@.skip(i as int);
        let ghost before = chars_view(out@);
        let ghost line = cur@;
        assert(rest.len() > 0 && rest[0] == c);
        assert(rest.skip(1) == text@.skip(i + 1));
        if c == '\n' {
            out.push(cur);
            cur = Vec::new();
            assert(chars_view(out@) =~= before + seq![line]);
            assert((before + seq![line]) + lines_acc(rest.skip(1), Seq::empty()) == before + (
            seq![line] + lines_acc(rest.skip(1), Seq::empty())));
        } else {
            cur.push(c);
        }
        i += 1;
    }
    assert(text@.skip(text.len() as int) == Seq::<char>::empty());
    let ghost before = chars_view(out@);
    let ghost line = cur@;
    out.push(cur);
    assert(chars_view(out@) =~= before + seq![line]);
    out
}

/// The jobs that a site list asks for. Each line that is neither blank nor
/// a comment names an archive and the address to fetch it from, separated by
/// white space; a line that begins with `#` is a comment. The archives lie
/// inside `data_path`. A line with another number of fields fails the whole
/// list, with the number of the first such line.
pub fn create_job_list(data_path: &str, site_list: &str) -> (r: Result<Vec<Job>, IngestError>)
    ensures
        match first_malformed(split_lines(site_list@)) {
            Some(i) => r == Err::<Vec<Job>, IngestError>(
                IngestError::MalformedManifestLine((i + 1) as usize),
            ),
            None => r matches Ok(jobs) && jobs_view(jobs@) == manifest_jobs(
                split_lines(site_list@),
                data_path@,
            ),
        },
{
    let text = chars_of(site_list);
    let lines = lines_of(&text);
    let ghost all = split_lines(site_list@);
    let mut jobs: Vec<Job> = Vec::new();
    let mut i: usize = 0;
    assert(all.take(0) == Seq::<Seq<char>>::empty());
    assert(jobs_view(jobs@) =~= Seq::<JobView>::empty());
    while i < lines.len()
        invariant
            i <= lines.len(),
            all == chars_view(lines@),
            all == split_lines(site_list@),
            first_malformed(all.take(i as int)) is None,
            jobs_view(jobs@) == manifest_jobs(all.take(i as int), data_path@),
        decreases lines.len() - i,
    {
        let ghost prefix = all.take(i + 1);
        assert(prefix.drop_last() == all.take(i as int));
        assert(prefix.last() == lines@[i as int]@);
        let w = words_of(&lines[i]);
        let ghost before = jobs_view(jobs@);
        proof {
            let wv = chars_view(w@);
            assert(wv == words(prefix.last()));
            assert(wv.len() == w.len());
            if w.len() > 0 {
                assert(wv[0] == w@[0]@);
            }
            if w.len() > 1 {
                assert(wv[1] == w@[1]@);
            }
        }
        if w.len() == 0 {
        } else if w[0].len() > 0 && w[0][0] == '#' {
        } else if w.len() == 2 {
            let local_name = string_of(&w[0]);
            let url = string_of(&w[1]);
            let archive_path = join_path(data_path, local_name.as_str());
            let job = Job::new(Some(url), archive_path);
            jobs.push(job);
            assert(jobs_view(jobs@) =~= before.push(
                JobView {
                    source_ref: Some(w@[1]@),
                    archive_path: spec_join_path(data_path@, w@[0]@),
                    state: JobStateView::Wait,
                },
            ));
        } else {
            proof {
                assert(classify_line(prefix.last()) is Malformed);
                assert(first_malformed(prefix) == Some(i as int));
                lemma_first_malformed_prefix(all, i + 1);
            }
            return Err(IngestError::MalformedManifestLine(i + 1));
        }
        i += 1;
    }
    assert(all.take(lines.len() as int) == all);
    Ok(jobs)
}

/// Whether a file name is an archive's: it ends in `.7z`.
pub open spec fn is_archive_name(name: Seq<char>) -> bool {
    name.len() >= 3 && name.subrange(name.len() - 3, name.len() as int) == seq!['.', '7', 'z']
}

/// The jobs for the archives among the files `names` of the directory
/// `data_path`, in the order of the names: one waiting job without a remote
/// source for each archive.
pub open spec fn archive_jobs(names: Seq<Seq<char>>, data_path: Seq<char>) -> Seq<JobView>
    decreases names.len(),
{
    if names.len() == 0 {
        Seq::empty()
    } else {
        let before = archive_jobs(names.drop_last(), data_path);
        if is_archive_name(names.last()) {
            before.push(
                JobView {
                    source_ref: None,
                    archive_path: spec_join_path(data_path, names.last()),
                    state: JobStateView::Wait,
                },
            )
        } else {
            before
        }
    }
}

/// Whether a file name is an archive's.
pub fn has_archive_extension(name: &str) -> (r: bool)
    ensures
        r == is_archive_name(name@),
{
    let v = chars_of(name);
    let n = v.len();
    if n < 3 {
        return false;
    }
    let r = v[n - 3] == '.' && v[n - 2] == '7' && v[n - 1] == 'z';
    proof {
        let tail = name@.subrange(n - 3, n as int);
        assert(tail[0] == v@[n - 3] && tail[1] == v@[n - 2] && tail[2] == v@[n - 1]);
        if r {
            assert(tail =~= seq!['.', '7', 'z']);
        }
    }
    r
}

/// The jobs of a run without a site list: one for each archive that already
/// lies in the directory `data_path`, whose files are `file_names`. Such a
/// job has no remote source, so nothing is downloaded for it.
pub fn jobs_from_archives(data_path: &str, file_names: &Vec<String>) -> (jobs: Vec<Job>)
    ensures
        jobs_view(jobs@) == archive_jobs(
            Seq::new(file_names.len() as nat, |i: int| file_names@[i]@),
            data_path@,
        ),
{
    let ghost all = Seq::new(file_names.len() as nat, |i: int| file_names@[i]@);
    let mut jobs: Vec<Job> = Vec::new();
    let mut i: usize = 0;
    assert(all.take(0) == Seq::<Seq<char>>::empty());
    assert(jobs_view(jobs@) =~= Seq::<JobView>::empty());
    while i < file_names.len()
        invariant
            i <= file_names.len(),
            all == Seq::new(file_names.len() as nat, |i: int| file_names@[i]@),
            jobs_view(jobs@) == archive_jobs(all.take(i as int), data_path@),
        decreases file_names.len() - i,
    {
        assert(all.take(i + 1).drop_last() == all.take(i as int));
        assert(all.take(i + 1).last() == file_names@[i as int]@);
        let ghost before = jobs_view(jobs@);
        if has_archive_extension(file_names[i].as_str()) {
            let path = join_path(data_path, file_names[i].as_str());
            jobs.push(Job::new(None, path));
            assert(jobs_view(jobs@) =~= before.push(
                JobView {
                    source_ref: None,
                    archive_path: spec_join_path(data_path@, file_names@[i as int]@),
                    state: JobStateView::Wait,
                },
            ));
        }
        i += 1;
    }
    assert(all.take(file_names.len() as int) == all);
    jobs
}

/// The first malformed line among the first `k` lines is the first
/// malformed line of all.
pub proof fn lemma_first_malformed_prefix(lines: Seq<Seq<char>>, k: int)
    requires
        0 <= k <= lines.len(),
        first_malformed(lines.take(k)) is Some,
    ensures
        first_malformed(lines) == first_malformed(lines.take(k)),
    decreases lines.len() - k,
{
    if k == lines.len() {
        assert(lines.take(k) == lines);
    } else {
        assert(lines.take(k + 1).drop_last() == lines.take(k));
        lemma_first_malformed_prefix(lines, k + 1);
    }
}

} // verus!
