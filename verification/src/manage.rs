//! The replay manager's jobs: saving the latest battle, exporting a bundle, rendering a
//! video and deleting a bundle. One job runs per replay at a time; this module decides
//! which requests start one, what a job shows while it runs and when it ends, and what
//! the replay list is told. The work itself (files, threads, the encoder) is the
//! caller's.

use vstd::prelude::*;
use crate::feedback::Slot;
use crate::replay::Pick;
use crate::sandbox::{percentage, spec_percentage};
use crate::text::{dec, decimal, push_str, same_text};

verus! {

/// The label of an idle replay.
pub const READY_LABEL: &'static str = "Ready";
/// The label of a job that completed.
pub const DONE_LABEL: &'static str = "Done";
/// The reason given when no state folder holds the latest battle.
pub const NO_STATE_FOLDER: &'static str = "there is no state folder holding the latest battle";

/// The kind of work a job does.
#[derive(Clone, Copy, Debug, PartialEq, Eq, Structural)]
pub enum Work {
    Save,
    Copy,
    Video,
}

/// How a job ended.
#[derive(Clone, Copy, Debug, PartialEq, Eq, Structural)]
pub enum Ended {
    Completed,
    Aborted,
    Failed,
}

/// What the work reported at its end.
#[derive(Clone, Debug, PartialEq, Eq)]
pub enum JobOutcome {
    Completed,
    Aborted,
    Failed(String),
}

/// What a replay's status line shows; the bar is full unless the status says otherwise.
#[derive(Clone, Debug, PartialEq, Eq)]
pub enum Status {
    Ready,
    /// A stage of the work and how far it is, in whole percent.
    Progress { stage: String, percent: u32 },
    /// A bundle being exported (the bar is empty).
    Exporting,
    /// An abort was asked for; the bar stays where it was.
    Aborting { percent: u32 },
    Done,
    Failed(String),
}

/// A status as text and numbers.
pub enum StatusView {
    Ready,
    Progress(Seq<char>, u32),
    Exporting,
    Aborting(u32),
    Done,
    Failed(Seq<char>),
}

impl View for Status {
    type V = StatusView;

    open spec fn view(&self) -> StatusView {
        match *self {
            Status::Ready => StatusView::Ready,
            Status::Progress { stage, percent } => StatusView::Progress(stage@, percent),
            Status::Exporting => StatusView::Exporting,
            Status::Aborting { percent } => StatusView::Aborting(percent),
            Status::Done => StatusView::Done,
            Status::Failed(reason) => StatusView::Failed(reason@),
        }
    }
}

/// How full a status's bar is, in percent.
pub open spec fn spec_bar(status: StatusView) -> u32 {
    match status {
        StatusView::Progress(_, percent) => percent,
        StatusView::Exporting => 0,
        StatusView::Aborting(percent) => percent,
        _ => 100,
    }
}

/// The text of a status line.
pub open spec fn spec_status_label(status: StatusView) -> Seq<char> {
    match status {
        StatusView::Ready => READY_LABEL@,
        StatusView::Progress(stage, percent) => stage + " | "@ + dec(percent as nat) + "%"@,
        StatusView::Exporting => "Exporting..."@,
        StatusView::Aborting(_) => "Aborting..."@,
        StatusView::Done => DONE_LABEL@,
        StatusView::Failed(reason) => "Failed | "@ + reason,
    }
}

impl Status {
    /// How full the bar is, in percent.
    pub fn bar(&self) -> (p: u32)
        ensures
            p == spec_bar(self@),
    {
        match self {
            Status::Progress { percent, .. } => *percent,
            Status::Exporting => 0,
            Status::Aborting { percent } => *percent,
            _ => 100,
        }
    }

    /// The text of the status line.
    pub fn label(&self) -> (s: String)
        ensures
            s@ == spec_status_label(self@),
    {
        let mut s = String::new();
        match self {
            Status::Ready => push_str(&mut s, READY_LABEL),
            Status::Progress { stage, percent } => {
                push_str(&mut s, stage.as_str());
                push_str(&mut s, " | ");
                let number = decimal(*percent as u64);
                push_str(&mut s, number.as_str());
                push_str(&mut s, "%");
            },
            Status::Exporting => push_str(&mut s, "Exporting..."),
            Status::Aborting { .. } => push_str(&mut s, "Aborting..."),
            Status::Done => push_str(&mut s, DONE_LABEL),
            Status::Failed(reason) => {
                push_str(&mut s, "Failed | ");
                push_str(&mut s, reason.as_str());
            },
        }
        s
    }
}

/// A replay's job: the work running (if any), whether it is being aborted, its status,
/// whether the status is held after the end, and how it ended (shown on its button
/// until that expires).
#[derive(Debug)]
pub struct Job {
    pub running: Option<Work>,
    pub aborting: bool,
    pub status: Status,
    pub settled: Slot<()>,
    pub ended: Slot<(Work, Ended)>,
}

/// A job as plain values.
pub struct JobView {
    pub running: Option<Work>,
    pub aborting: bool,
    pub status: StatusView,
    pub settled: bool,
    pub ended: Option<(Work, Ended)>,
}

impl View for Job {
    type V = JobView;

    open spec fn view(&self) -> JobView {
        JobView {
            running: self.running,
            aborting: self.aborting,
            status: self.status@,
            settled: self.settled.value is Some,
            ended: self.ended.value,
        }
    }
}

/// A replay as plain values.
pub enum PickView {
    Latest,
    Bundle(Seq<char>),
}

/// A replay as plain values.
pub open spec fn pick_view(p: Pick) -> PickView {
    match p {
        Pick::Latest => PickView::Latest,
        Pick::Bundle(path) => PickView::Bundle(path@),
    }
}

/// Whether two picks name the same replay.
pub fn is_same_pick(a: &Pick, b: &Pick) -> (r: bool)
    ensures
        r == (pick_view(*a) == pick_view(*b)),
{
    match (a, b) {
        (Pick::Latest, Pick::Latest) => true,
        (Pick::Bundle(x), Pick::Bundle(y)) => same_text(x.as_str(), y.as_str()),
        _ => false,
    }
}

/// A replay with no job yet.
pub open spec fn idle_job() -> JobView {
    JobView { running: None, aborting: false, status: StatusView::Ready, settled: false, ended: None }
}

/// A job started with `work`, showing `status`.
pub open spec fn started(work: Work, status: StatusView) -> JobView {
    JobView { running: Some(work), aborting: false, status, settled: false, ended: None }
}

/// What the work reported at its end, as plain values: `None` for a completion or an
/// abort, else the failure's reason.
pub enum OutcomeView {
    Completed,
    Aborted,
    Failed(Seq<char>),
}

/// What the work reported, as plain values.
pub open spec fn outcome_view(o: JobOutcome) -> OutcomeView {
    match o {
        JobOutcome::Completed => OutcomeView::Completed,
        JobOutcome::Aborted => OutcomeView::Aborted,
        JobOutcome::Failed(reason) => OutcomeView::Failed(reason@),
    }
}

/// A job after its work reported `outcome`: nothing runs, the status says how it ended
/// and is held, and the button shows the work (a job that never started counts as an
/// export) and how it ended.
pub open spec fn spec_finished(job: JobView, outcome: OutcomeView) -> JobView {
    let work = match job.running { Some(w) => w, None => Work::Copy };
    let (ended, status) = match outcome {
        OutcomeView::Completed => (Ended::Completed, StatusView::Done),
        OutcomeView::Aborted => (Ended::Aborted, StatusView::Ready),
        OutcomeView::Failed(reason) => (Ended::Failed, StatusView::Failed(reason)),
    };
    JobView { running: None, aborting: false, status, settled: true, ended: Some((work, ended)) }
}

/// What finishing a job tells the replay list: a completed save adds a bundle.
pub open spec fn spec_finish_saves(job: JobView, outcome: OutcomeView) -> bool {
    job.running == Some(Work::Save) && outcome == OutcomeView::Completed
}

/// The position of the job kept for `key`, or -1.
pub open spec fn spec_find(jobs: Seq<(PickView, JobView)>, key: PickView) -> int
    decreases jobs.len(),
{
    if jobs.len() == 0 {
        -1
    } else {
        let r = spec_find(jobs.drop_last(), key);
        if r >= 0 {
            r
        } else if jobs.last().0 == key {
            jobs.len() - 1
        } else {
            -1
        }
    }
}

proof fn lemma_find(jobs: Seq<(PickView, JobView)>, key: PickView)
    ensures
        -1 <= spec_find(jobs, key) < jobs.len(),
        spec_find(jobs, key) >= 0 ==> jobs[spec_find(jobs, key)].0 == key,
        spec_find(jobs, key) == -1 ==> forall|i: int| 0 <= i < jobs.len() ==> (#[trigger] jobs[i]).0 != key,
    decreases jobs.len(),
{
    if jobs.len() > 0 {
        lemma_find(jobs.drop_last(), key);
        assert forall|i: int| 0 <= i < jobs.len() - 1 implies #[trigger] jobs[i] == jobs.drop_last()[i] by {}
    }
}

proof fn lemma_find_prefix(jobs: Seq<(PickView, JobView)>, key: PickView, n: int)
    requires
        0 <= n <= jobs.len(),
        spec_find(jobs.take(n), key) >= 0,
    ensures
        spec_find(jobs, key) == spec_find(jobs.take(n), key),
    decreases jobs.len() - n,
{
    if n < jobs.len() {
        assert(jobs.take(n + 1).drop_last() =~= jobs.take(n));
        lemma_find_prefix(jobs, key, n + 1);
    } else {
        assert(jobs.take(n) =~= jobs);
    }
}

/// The job kept for `key`, or an idle one.
pub open spec fn job_of(jobs: Seq<(PickView, JobView)>, key: PickView) -> JobView {
    let i = spec_find(jobs, key);
    if i >= 0 { jobs[i].1 } else { idle_job() }
}

/// The jobs after the one kept for `key` becomes `job` (added if none was kept).
pub open spec fn with_job(jobs: Seq<(PickView, JobView)>, key: PickView, job: JobView) -> Seq<(PickView, JobView)> {
    let i = spec_find(jobs, key);
    if i >= 0 { jobs.update(i, (key, job)) } else { jobs.push((key, job)) }
}

/// The jobs after the one kept for `key`, if any, becomes `job`.
pub open spec fn with_kept(jobs: Seq<(PickView, JobView)>, key: PickView, job: JobView) -> Seq<(PickView, JobView)> {
    let i = spec_find(jobs, key);
    if i >= 0 { jobs.update(i, (key, job)) } else { jobs }
}

/// The jobs a refresh keeps: those running, the latest battle's, and those of bundles
/// still listed.
pub open spec fn retained(jobs: Seq<(PickView, JobView)>, listed: Seq<Seq<char>>) -> Seq<(PickView, JobView)>
    decreases jobs.len(),
{
    if jobs.len() == 0 {
        jobs
    } else {
        let before = retained(jobs.drop_last(), listed);
        if keeps(jobs.last(), listed) { before.push(jobs.last()) } else { before }
    }
}

/// Whether a refresh keeps a job.
pub open spec fn keeps(entry: (PickView, JobView), listed: Seq<Seq<char>>) -> bool {
    entry.1.running is Some || match entry.0 {
        PickView::Latest => true,
        PickView::Bundle(path) => listed.contains(path),
    }
}

/// No replay has two jobs in the table.
pub open spec fn distinct_keys(jobs: Seq<(PickView, JobView)>) -> bool {
    forall|i: int, j: int| 0 <= i < j < jobs.len() ==> #[trigger] jobs[i].0 != #[trigger] jobs[j].0
}

proof fn lemma_find_distinct(jobs: Seq<(PickView, JobView)>, key: PickView, i: int)
    requires
        distinct_keys(jobs),
        0 <= i < jobs.len(),
        jobs[i].0 == key,
    ensures
        spec_find(jobs, key) == i,
    decreases jobs.len(),
{
    lemma_find(jobs, key);
    if i < jobs.len() - 1 {
        assert(jobs.drop_last()[i] == jobs[i]);
        lemma_find_distinct(jobs.drop_last(), key, i);
    } else {
        lemma_find(jobs.drop_last(), key);
        if spec_find(jobs.drop_last(), key) >= 0 {
            let k = spec_find(jobs.drop_last(), key);
            assert(jobs.drop_last()[k] == jobs[k]);
        }
    }
}

/// Once a replay's job is kept as `job`, the replay's job is `job` and every other
/// replay's job is as it was.
pub proof fn law_jobs_are_kept_apart(jobs: Seq<(PickView, JobView)>, key: PickView, job: JobView, other: PickView)
    requires
        distinct_keys(jobs),
    ensures
        distinct_keys(with_job(jobs, key, job)),
        job_of(with_job(jobs, key, job), key) == job,
        other != key ==> job_of(with_job(jobs, key, job), other) == job_of(jobs, other),
{
    lemma_find(jobs, key);
    lemma_find(jobs, other);
    let t = with_job(jobs, key, job);
    let i = spec_find(jobs, key);
    assert(distinct_keys(t)) by {
        assert forall|a: int, b: int| 0 <= a < b < t.len() implies #[trigger] t[a].0 != #[trigger] t[b].0 by {
            if i < 0 && b == jobs.len() {
                assert(t[a] == jobs[a]);
            }
        }
    }
    let at = if i >= 0 { i } else { jobs.len() as int };
    assert(t[at].0 == key);
    lemma_find_distinct(t, key, at);
    lemma_find(t, other);
    if other != key {
        let o = spec_find(jobs, other);
        if o >= 0 {
            assert(t[o] == jobs[o]);
            lemma_find_distinct(t, other, o);
        } else {
            if spec_find(t, other) >= 0 {
                let q = spec_find(t, other);
                assert(q != at);
                assert(t[q] == jobs[q]);
            }
        }
    }
}

/// A started job keeps its replay busy, so that no second job starts for it, and a
/// finished one leaves it free for the next.
pub proof fn law_one_job_per_replay(jobs: Seq<(PickView, JobView)>, key: PickView, work: Work, status: StatusView, outcome: OutcomeView)
    requires
        distinct_keys(jobs),
    ensures
        job_of(with_job(jobs, key, started(work, status)), key).running == Some(work),
        job_of(with_job(jobs, key, spec_finished(job_of(jobs, key), outcome)), key).running is None,
{
    law_jobs_are_kept_apart(jobs, key, started(work, status), key);
    law_jobs_are_kept_apart(jobs, key, spec_finished(job_of(jobs, key), outcome), key);
}

/// The replay manager: a job per replay, the delete button, whether the video encoder
/// is installed, and the quality and compression fields as typed.
pub struct Manager {
    pub jobs: Vec<(Pick, Job)>,
    pub deleting: Slot<()>,
    pub ffmpeg: bool,
    pub quality: String,
    pub compression: String,
}

impl Manager {
    /// The jobs as plain values, in the order they were first kept.
    pub open spec fn table(self) -> Seq<(PickView, JobView)> {
        self.jobs@.map_values(|e: (Pick, Job)| (pick_view(e.0), e.1@))
    }

    /// No replay has two jobs.
    pub open spec fn wf(self) -> bool {
        distinct_keys(self.table())
    }

    /// The job of `key` is running.
    pub open spec fn spec_busy(self, key: PickView) -> bool {
        job_of(self.table(), key).running is Some
    }

    /// A manager with no jobs.
    pub fn new(ffmpeg: bool) -> (m: Manager)
        ensures
            m.wf(),
            m.table().len() == 0,
            m.deleting.value is None,
            m.ffmpeg == ffmpeg,
            m.quality@.len() == 0,
            m.compression@.len() == 0,
    {
        let m = Manager { jobs: Vec::new(), deleting: Slot::new(), ffmpeg, quality: String::new(), compression: String::new() };
        assert(m.table() =~= Seq::<(PickView, JobView)>::empty());
        m
    }

    fn find(&self, key: &Pick) -> (r: Option<usize>)
        ensures
            r matches Some(i) ==> i == spec_find(self.table(), pick_view(*key)),
            r is None ==> spec_find(self.table(), pick_view(*key)) == -1,
    {
        let ghost t = self.table();
        let ghost k = pick_view(*key);
        let mut i: usize = 0;
        while i < self.jobs.len()
            invariant
                i <= self.jobs@.len(),
                t == self.table(),
                k == pick_view(*key),
                t.len() == self.jobs@.len(),
                spec_find(t.take(i as int), k) == -1,
            decreases self.jobs.len() - i,
        {
            proof {
                assert(t.take(i + 1).drop_last() =~= t.take(i as int));
                assert(t[i as int] == (pick_view(self.jobs@[i as int].0), self.jobs@[i as int].1@));
            }
            if is_same_pick(&self.jobs[i].0, key) {
                proof {
                    assert(t[i as int].0 == k);
                    lemma_find_prefix(t, k, i + 1);
                }
                return Some(i);
            }
            i = i + 1;
        }
        assert(t.take(i as int) =~= t);
        None
    }

    /// Whether the job of `key` is running.
    pub fn busy(&self, key: &Pick) -> (b: bool)
        ensures
            b == self.spec_busy(pick_view(*key)),
    {
        proof { lemma_find(self.table(), pick_view(*key)); }
        match self.find(key) {
            Some(i) => self.jobs[i].1.running.is_some(),
            None => false,
        }
    }

    /// How the job of `key` that did `work` ended, while its button shows it.
    pub fn ended(&self, key: &Pick, work: Work) -> (r: Option<Ended>)
        ensures
            r == (match job_of(self.table(), pick_view(*key)).ended {
                Some((held, ended)) => if held == work { Some(ended) } else { None },
                None => None,
            }),
    {
        proof { lemma_find(self.table(), pick_view(*key)); }
        match self.find(key) {
            Some(i) => match self.jobs[i].1.ended.value {
                Some((held, ended)) => if held == work { Some(ended) } else { None },
                None => None,
            },
            None => None,
        }
    }

    fn put(&mut self, key: Pick, job: Job)
        requires
            old(self).wf(),
        ensures
            final(self).wf(),
            final(self).table() == with_job(old(self).table(), pick_view(key), job@),
            final(self).deleting == old(self).deleting,
            final(self).ffmpeg == old(self).ffmpeg,
            final(self).quality == old(self).quality,
            final(self).compression == old(self).compression,
    {
        let ghost k = pick_view(key);
        let ghost j = job@;
        proof { lemma_find(self.table(), k); }
        match self.find(&key) {
            Some(i) => {
                self.jobs[i].1 = job;
                assert(self.table() =~= with_job(old(self).table(), k, j));
            },
            None => {
                self.jobs.push((key, job));
                assert(self.table() =~= with_job(old(self).table(), k, j));
            },
        }
    }
}

fn copy_pick(p: &Pick) -> (q: Pick)
    ensures
        pick_view(q) == pick_view(*p),
{
    match p {
        Pick::Latest => Pick::Latest,
        Pick::Bundle(b) => Pick::Bundle(b.clone()),
    }
}

fn is_listed(bundles: &Vec<String>, path: &String) -> (b: bool)
    ensures
        b == bundles@.map_values(|x: String| x@).contains(path@),
{
    let ghost listed = bundles@.map_values(|x: String| x@);
    let mut i: usize = 0;
    while i < bundles.len()
        invariant
            i <= bundles@.len(),
            listed == bundles@.map_values(|x: String| x@),
            forall|j: int| 0 <= j < i ==> (#[trigger] listed[j]) != path@,
        decreases bundles.len() - i,
    {
        if same_text(bundles[i].as_str(), path.as_str()) {
            assert(listed[i as int] == path@);
            return true;
        }
        i = i + 1;
    }
    false
}

impl Manager {
    fn take_job(&mut self, key: &Pick) -> (r: Option<Job>)
        requires
            old(self).wf(),
        ensures
            final(self).wf(),
            ({
                let i = spec_find(old(self).table(), pick_view(*key));
                &&& i >= 0 ==> (r matches Some(j) && j@ == old(self).table()[i].1 && final(self).table() == old(self).table().remove(i))
                &&& i < 0 ==> (r is None && final(self).table() == old(self).table())
            }),
            final(self).deleting == old(self).deleting,
            final(self).ffmpeg == old(self).ffmpeg,
            final(self).quality == old(self).quality,
            final(self).compression == old(self).compression,
    {
        proof { lemma_find(self.table(), pick_view(*key)); }
        match self.find(key) {
            Some(i) => {
                let ghost t = old(self).table();
                let (_, job) = self.jobs.remove(i);
                assert(self.table() =~= t.remove(i as int));
                assert forall|a: int, b: int| 0 <= a < b < self.table().len() implies
                    #[trigger] self.table()[a].0 != #[trigger] self.table()[b].0 by {
                    let a2 = if a < i { a } else { a + 1 };
                    let b2 = if b < i { b } else { b + 1 };
                    assert(self.table()[a] == t[a2]);
                    assert(self.table()[b] == t[b2]);
                }
                Some(job)
            },
            None => None,
        }
    }

    /// A save of the latest battle is asked for while `picked` is chosen; `found` says
    /// whether the latest battle's state folder exists. A save starts (returns `true`)
    /// when the latest battle is chosen, no save of it runs and its folder exists;
    /// without the folder the job fails at once.
    pub fn save(&mut self, picked: Option<&Pick>, found: bool) -> (began: bool)
        requires
            old(self).wf(),
        ensures
            final(self).wf(),
            ({
                let allowed = (picked matches Some(p) && pick_view(*p) == PickView::Latest) && !old(self).spec_busy(PickView::Latest);
                &&& began == (allowed && found)
                &&& !allowed ==> final(self).table() == old(self).table()
                &&& allowed && found ==> final(self).table() == with_job(old(self).table(), PickView::Latest,
                        started(Work::Save, StatusView::Progress("Saving"@, 0)))
                &&& allowed && !found ==> final(self).table() == with_job(old(self).table(), PickView::Latest,
                        spec_finished(job_of(old(self).table(), PickView::Latest), OutcomeView::Failed(NO_STATE_FOLDER@)))
            }),
            final(self).deleting == old(self).deleting,
            final(self).ffmpeg == old(self).ffmpeg,
    {
        let allowed = match picked {
            Some(Pick::Latest) => !self.busy(&Pick::Latest),
            _ => false,
        };
        if !allowed {
            return false;
        }
        if !found {
            self.finish(Pick::Latest, JobOutcome::Failed(String::from_str(NO_STATE_FOLDER)));
            return false;
        }
        let stage = String::from_str("Saving");
        self.put(Pick::Latest, Job {
            running: Some(Work::Save),
            aborting: false,
            status: Status::Progress { stage, percent: 0 },
            settled: Slot::new(),
            ended: Slot::new(),
        });
        true
    }

    /// An export of the chosen bundle is asked for: it starts when a bundle is chosen and
    /// its job is not running; the result is the bundle to export.
    pub fn copy(&mut self, picked: Option<&Pick>) -> (bundle: Option<String>)
        requires
            old(self).wf(),
        ensures
            final(self).wf(),
            ({
                let allowed = (picked matches Some(p) && p is Bundle) && !old(self).spec_busy(pick_view(*picked.unwrap()));
                &&& allowed ==> (bundle matches Some(b) && PickView::Bundle(b@) == pick_view(*picked.unwrap())
                        && final(self).table() == with_job(old(self).table(), pick_view(*picked.unwrap()), started(Work::Copy, StatusView::Exporting)))
                &&& !allowed ==> bundle is None && final(self).table() == old(self).table()
            }),
            final(self).deleting == old(self).deleting,
            final(self).ffmpeg == old(self).ffmpeg,
    {
        match picked {
            Some(Pick::Bundle(path)) => {
                let key = Pick::Bundle(path.clone());
                if self.busy(&key) {
                    return None;
                }
                self.put(key, Job {
                    running: Some(Work::Copy),
                    aborting: false,
                    status: Status::Exporting,
                    settled: Slot::new(),
                    ended: Slot::new(),
                });
                Some(path.clone())
            },
            _ => None,
        }
    }

    /// A video of the chosen replay is asked for: it starts when a replay is chosen, the
    /// encoder is installed and the replay's job is not running; the result is the replay
    /// to render.
    pub fn export(&mut self, picked: Option<&Pick>) -> (render: Option<Pick>)
        requires
            old(self).wf(),
        ensures
            final(self).wf(),
            ({
                let allowed = picked is Some && old(self).ffmpeg && !old(self).spec_busy(pick_view(*picked.unwrap()));
                &&& allowed ==> (render matches Some(p) && pick_view(p) == pick_view(*picked.unwrap())
                        && final(self).table() == with_job(old(self).table(), pick_view(*picked.unwrap()),
                            started(Work::Video, StatusView::Progress("Rendering"@, 0))))
                &&& !allowed ==> render is None && final(self).table() == old(self).table()
            }),
            final(self).deleting == old(self).deleting,
            final(self).ffmpeg == old(self).ffmpeg,
    {
        let p = match picked {
            Some(p) => p,
            None => return None,
        };
        if !self.ffmpeg || self.busy(p) {
            return None;
        }
        let stage = String::from_str("Rendering");
        self.put(copy_pick(p), Job {
            running: Some(Work::Video),
            aborting: false,
            status: Status::Progress { stage, percent: 0 },
            settled: Slot::new(),
            ended: Slot::new(),
        });
        Some(copy_pick(p))
    }

    /// An abort of the chosen replay's save or video is asked for: the returned `true`
    /// means the work is to be told to stop; the job shows that it is aborting. An export,
    /// an idle replay or one already aborting is left alone.
    pub fn abort(&mut self, picked: Option<&Pick>) -> (stop: bool)
        requires
            old(self).wf(),
        ensures
            final(self).wf(),
            ({
                let j = job_of(old(self).table(), pick_view(*picked.unwrap()));
                let go = picked is Some && (j.running == Some(Work::Save) || j.running == Some(Work::Video)) && !j.aborting;
                &&& stop == go
                &&& go ==> final(self).table() == with_kept(old(self).table(), pick_view(*picked.unwrap()),
                        JobView { aborting: true, status: StatusView::Aborting(spec_bar(j.status)), ..j })
                &&& !go ==> final(self).table() == old(self).table()
            }),
            final(self).deleting == old(self).deleting,
            final(self).ffmpeg == old(self).ffmpeg,
    {
        let p = match picked {
            Some(p) => p,
            None => return false,
        };
        proof { lemma_find(self.table(), pick_view(*p)); }
        let i = match self.find(p) {
            Some(i) => i,
            None => return false,
        };
        let go = match self.jobs[i].1.running {
            Some(Work::Save) | Some(Work::Video) => !self.jobs[i].1.aborting,
            _ => false,
        };
        if !go {
            return false;
        }
        let percent = self.jobs[i].1.status.bar();
        self.jobs[i].1.aborting = true;
        self.jobs[i].1.status = Status::Aborting { percent };
        assert(self.table() =~= with_kept(old(self).table(), pick_view(*p),
            JobView { aborting: true, status: StatusView::Aborting(percent), ..job_of(old(self).table(), pick_view(*p)) }));
        true
    }

    /// The work of `key` reports how far it is: shown while the job runs and is not being
    /// aborted.
    pub fn progress(&mut self, key: &Pick, stage: String, percent: u32)
        requires
            old(self).wf(),
        ensures
            final(self).wf(),
            ({
                let j = job_of(old(self).table(), pick_view(*key));
                let shown = j.running is Some && !j.aborting;
                &&& shown ==> final(self).table() == with_kept(old(self).table(), pick_view(*key),
                        JobView { status: StatusView::Progress(stage@, percent), ..j })
                &&& !shown ==> final(self).table() == old(self).table()
            }),
            final(self).deleting == old(self).deleting,
            final(self).ffmpeg == old(self).ffmpeg,
    {
        let ghost s = stage@;
        proof { lemma_find(self.table(), pick_view(*key)); }
        let i = match self.find(key) {
            Some(i) => i,
            None => return,
        };
        if self.jobs[i].1.running.is_none() || self.jobs[i].1.aborting {
            return;
        }
        self.jobs[i].1.status = Status::Progress { stage, percent };
        assert(self.table() =~= with_kept(old(self).table(), pick_view(*key),
            JobView { status: StatusView::Progress(s, percent), ..job_of(old(self).table(), pick_view(*key)) }));
    }

    /// The work of `key` ended with `outcome` (see [`spec_finished`]); returns what the
    /// replay list is told.
    pub fn finish(&mut self, key: Pick, outcome: JobOutcome) -> (effect: Effect)
        requires
            old(self).wf(),
        ensures
            final(self).wf(),
            final(self).table() == with_job(old(self).table(), pick_view(key),
                spec_finished(job_of(old(self).table(), pick_view(key)), outcome_view(outcome))),
            effect == (if spec_finish_saves(job_of(old(self).table(), pick_view(key)), outcome_view(outcome)) {
                Effect::Saved
            } else {
                Effect::Nothing
            }),
            final(self).deleting == old(self).deleting,
            final(self).ffmpeg == old(self).ffmpeg,
    {
        proof { lemma_find(self.table(), pick_view(key)); }
        let running = match self.find(&key) {
            Some(i) => self.jobs[i].1.running,
            None => None,
        };
        let work = match running {
            Some(w) => w,
            None => Work::Copy,
        };
        let (ended, status) = match outcome {
            JobOutcome::Completed => (Ended::Completed, Status::Done),
            JobOutcome::Aborted => (Ended::Aborted, Status::Ready),
            JobOutcome::Failed(reason) => (Ended::Failed, Status::Failed(reason)),
        };
        let saves = running == Some(Work::Save) && ended == Ended::Completed;
        let mut settled = Slot::new();
        settled.set(());
        let mut button = Slot::new();
        button.set((work, ended));
        self.put(key, Job { running: None, aborting: false, status, settled, ended: button });
        if saves { Effect::Saved } else { Effect::Nothing }
    }

    /// A press of the delete button: a chosen bundle whose job is not running is deleted
    /// on the second press (the first arms the button); the result is the bundle to delete
    /// now.
    pub fn delete(&mut self, picked: Option<&Pick>) -> (doomed: Option<String>)
        requires
            old(self).wf(),
        ensures
            final(self).wf(),
            final(self).table() == old(self).table(),
            ({
                let allowed = (picked matches Some(p) && p is Bundle) && !old(self).spec_busy(pick_view(*picked.unwrap()));
                &&& !allowed ==> doomed is None && final(self).deleting == old(self).deleting
                &&& allowed && old(self).deleting.value is None ==> doomed is None && final(self).deleting.value is Some
                &&& allowed && old(self).deleting.value is Some ==> (doomed matches Some(b)
                        && PickView::Bundle(b@) == pick_view(*picked.unwrap()) && final(self).deleting.value is None)
            }),
            final(self).ffmpeg == old(self).ffmpeg,
    {
        match picked {
            Some(Pick::Bundle(path)) => {
                let key = Pick::Bundle(path.clone());
                if self.busy(&key) {
                    return None;
                }
                if !self.deleting.is_set() {
                    self.deleting.set(());
                    return None;
                }
                self.deleting.clear();
                Some(path.clone())
            },
            _ => None,
        }
    }

    /// The bundle was deleted (`Ok`) or could not be (`Err` with the reason): a deleted
    /// bundle's job goes and the list is told; a failure ends the bundle's job as failed.
    pub fn deleted(&mut self, bundle: String, result: Result<(), String>) -> (effect: Effect)
        requires
            old(self).wf(),
        ensures
            final(self).wf(),
            ({
                let k = PickView::Bundle(bundle@);
                let i = spec_find(old(self).table(), k);
                match result {
                    Ok(_) => {
                        &&& effect matches Effect::Deleted(b) && b@ == bundle@
                        &&& final(self).table() == if i >= 0 { old(self).table().remove(i) } else { old(self).table() }
                    },
                    Err(reason) => {
                        &&& effect == Effect::Nothing
                        &&& final(self).table() == with_job(old(self).table(), k,
                                spec_finished(job_of(old(self).table(), k), OutcomeView::Failed(reason@)))
                    },
                }
            }),
            final(self).deleting == old(self).deleting,
            final(self).ffmpeg == old(self).ffmpeg,
    {
        let key = Pick::Bundle(bundle.clone());
        match result {
            Ok(_) => {
                let _ = self.take_job(&key);
                Effect::Deleted(bundle)
            },
            Err(reason) => {
                proof { lemma_find(self.table(), pick_view(key)); }
                let effect = self.finish(key, JobOutcome::Failed(reason));
                effect
            },
        }
    }

    /// The ended-work button of `key` stops showing how the job ended.
    pub fn button_expired(&mut self, key: &Pick)
        requires
            old(self).wf(),
        ensures
            final(self).wf(),
            final(self).table() == with_kept(old(self).table(), pick_view(*key),
                JobView { ended: None, ..job_of(old(self).table(), pick_view(*key)) }),
            final(self).deleting == old(self).deleting,
            final(self).ffmpeg == old(self).ffmpeg,
    {
        proof { lemma_find(self.table(), pick_view(*key)); }
        match self.find(key) {
            Some(i) => {
                self.jobs[i].1.ended.expire();
                assert(self.table() =~= with_kept(old(self).table(), pick_view(*key),
                    JobView { ended: None, ..job_of(old(self).table(), pick_view(*key)) }));
            },
            None => {},
        }
    }

    /// The held status of `key` runs out: an idle job shows ready again.
    pub fn status_expired(&mut self, key: &Pick)
        requires
            old(self).wf(),
        ensures
            final(self).wf(),
            ({
                let j = job_of(old(self).table(), pick_view(*key));
                final(self).table() == with_kept(old(self).table(), pick_view(*key), JobView {
                    settled: false,
                    status: if j.running is None { StatusView::Ready } else { j.status },
                    ..j
                })
            }),
            final(self).deleting == old(self).deleting,
            final(self).ffmpeg == old(self).ffmpeg,
    {
        proof { lemma_find(self.table(), pick_view(*key)); }
        match self.find(key) {
            Some(i) => {
                self.jobs[i].1.settled.expire();
                if self.jobs[i].1.running.is_none() {
                    self.jobs[i].1.status = Status::Ready;
                }
                let ghost j = job_of(old(self).table(), pick_view(*key));
                assert(self.table() =~= with_kept(old(self).table(), pick_view(*key), JobView {
                    settled: false,
                    status: if j.running is None { StatusView::Ready } else { j.status },
                    ..j
                }));
            },
            None => {},
        }
    }

    /// The delete button's confirmation runs out.
    pub fn delete_expired(&mut self)
        ensures
            final(self).deleting.value is None,
            final(self).table() == old(self).table(),
            final(self).ffmpeg == old(self).ffmpeg,
    {
        self.deleting.expire();
    }

    /// The delete button forgets a pending confirmation (another replay was chosen).
    pub fn forget_confirm(&mut self)
        ensures
            final(self).deleting.value is None,
            final(self).table() == old(self).table(),
            final(self).ffmpeg == old(self).ffmpeg,
    {
        self.deleting.clear();
    }

    /// The quality field is edited: digits only; the value to keep in the settings is
    /// returned (see [`spec_percentage`]) and the field shows it.
    pub fn set_quality(&mut self, input: &str) -> (kept: Option<Option<u32>>)
        ensures
            match spec_percentage(input@) {
                Some((value, shown)) => kept == Some(value) && final(self).quality@ == shown,
                None => kept is None && final(self).quality == old(self).quality,
            },
            final(self).table() == old(self).table(),
            final(self).compression == old(self).compression,
    {
        match percentage(input) {
            Some((value, text)) => {
                self.quality = text;
                Some(value)
            },
            None => None,
        }
    }

    /// The compression field is edited, as the quality field is.
    pub fn set_compression(&mut self, input: &str) -> (kept: Option<Option<u32>>)
        ensures
            match spec_percentage(input@) {
                Some((value, shown)) => kept == Some(value) && final(self).compression@ == shown,
                None => kept is None && final(self).compression == old(self).compression,
            },
            final(self).table() == old(self).table(),
            final(self).quality == old(self).quality,
    {
        match percentage(input) {
            Some((value, text)) => {
                self.compression = text;
                Some(value)
            },
            None => None,
        }
    }

    /// The manager is shown again: it takes whether the encoder is installed and the
    /// settings' quality and compression, and forgets the jobs of bundles no longer
    /// listed unless they run.
    pub fn refresh(&mut self, ffmpeg: bool, quality: Option<u32>, compression: Option<u32>, bundles: &Vec<String>)
        requires
            old(self).wf(),
        ensures
            final(self).wf(),
            final(self).ffmpeg == ffmpeg,
            final(self).quality@ == (match quality { Some(v) => dec(v as nat), None => Seq::<char>::empty() }),
            final(self).compression@ == (match compression { Some(v) => dec(v as nat), None => Seq::<char>::empty() }),
            final(self).table() == retained(old(self).table(), bundles@.map_values(|x: String| x@)),
            final(self).deleting == old(self).deleting,
    {
        let ghost listed = bundles@.map_values(|x: String| x@);
        let ghost t = self.table();
        let mut rest: Vec<(Pick, Job)> = Vec::new();
        std::mem::swap(&mut rest, &mut self.jobs);
        let n0 = rest.len();
        let mut n: usize = 0;
        assert(self.table() =~= Seq::<(PickView, JobView)>::empty());
        assert(t.take(0) =~= Seq::<(PickView, JobView)>::empty());
        while rest.len() > 0
            invariant
                t == old(self).table(),
                self.deleting == old(self).deleting,
                t.len() == n0,
                n <= n0,
                rest@.len() == n0 - n,
                forall|a: int| 0 <= a < rest@.len() ==> t[n + a] == (pick_view((#[trigger] rest@[a]).0), rest@[a].1@),
                forall|a: int, b: int| 0 <= a < b < t.len() ==> #[trigger] t[a].0 != #[trigger] t[b].0,
                self.table() == retained(t.take(n as int), listed),
                forall|a: int| #![trigger self.table()[a]] 0 <= a < self.table().len() ==> exists|m: int| 0 <= m < n && #[trigger] t[m] == self.table()[a],
                forall|a: int, b: int| 0 <= a < b < self.table().len() ==> #[trigger] self.table()[a].0 != #[trigger] self.table()[b].0,
                listed == bundles@.map_values(|x: String| x@),
            decreases rest@.len(),
        {
            let ghost before = self.table();
            let ghost rest_before = rest@;
            assert(t[n as int] == (pick_view(rest@[0].0), rest@[0].1@));
            let (key, job) = rest.remove(0);
            let keep = job.running.is_some() || match &key {
                Pick::Latest => true,
                Pick::Bundle(path) => is_listed(bundles, path),
            };
            proof {
                assert(t.take(n + 1).drop_last() =~= t.take(n as int));
                assert(t.take(n + 1).last() == t[n as int]);
                assert(keep == keeps(t[n as int], listed));
                assert forall|a: int| 0 <= a < rest@.len() implies t[n + 1 + a] == (pick_view((#[trigger] rest@[a]).0), rest@[a].1@) by {
                    assert(rest@[a] == rest_before[a + 1]);
                }
            }
            if keep {
                self.jobs.push((key, job));
                proof {
                    assert(self.table() =~= before.push(t[n as int]));
                    assert forall|a: int, b: int| 0 <= a < b < self.table().len() implies
                        #[trigger] self.table()[a].0 != #[trigger] self.table()[b].0 by {
                        if b == before.len() {
                            let m = choose|m: int| 0 <= m < n && #[trigger] t[m] == before[a];
                            assert(t[m].0 != t[n as int].0);
                        } else {
                            assert(self.table()[a] == before[a]);
                            assert(self.table()[b] == before[b]);
                        }
                    }
                    assert forall|a: int| #![trigger self.table()[a]] 0 <= a < self.table().len() implies exists|m: int| 0 <= m < n + 1 && #[trigger] t[m] == self.table()[a] by {
                        if a == before.len() {
                            assert(t[n as int] == self.table()[a]);
                        } else {
                            assert(self.table()[a] == before[a]);
                            let m = choose|m: int| 0 <= m < n && #[trigger] t[m] == before[a];
                            assert(t[m] == self.table()[a]);
                        }
                    }
                }
            }
            n = n + 1;
        }
        proof {
            assert(t.take(n as int) =~= t);
        }
        self.ffmpeg = ffmpeg;
        self.quality = match quality {
            Some(v) => decimal(v as u64),
            None => String::new(),
        };
        self.compression = match compression {
            Some(v) => decimal(v as u64),
            None => String::new(),
        };
    }

    /// The job kept for `old_key` moves to `fresh` (a bundle was renamed), replacing any
    /// job `fresh` had.
    pub fn rekey(&mut self, old_key: &Pick, fresh: Pick)
        requires
            old(self).wf(),
        ensures
            final(self).wf(),
            ({
                let i = spec_find(old(self).table(), pick_view(*old_key));
                &&& i >= 0 ==> final(self).table() == with_job(old(self).table().remove(i), pick_view(fresh), old(self).table()[i].1)
                &&& i < 0 ==> final(self).table() == old(self).table()
            }),
            final(self).deleting == old(self).deleting,
            final(self).ffmpeg == old(self).ffmpeg,
    {
        match self.take_job(old_key) {
            Some(job) => self.put(fresh, job),
            None => {},
        }
    }
}

/// What a replay job left for the list to do.
#[derive(Clone, Debug, PartialEq, Eq)]
pub enum Effect {
    Nothing,
    Saved,
    Deleted(String),
}

} // verus!
