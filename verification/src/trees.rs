//! Operations on whole directory trees: the size of a tree and the copy of
//! one. Both walk the tree one listing at a time.

use crate::file_ops::{out_of_turn, FileOpsError, FileOpsErrorView};
use crate::fsio::{
    DirEntry, DirEntryView, EntryMeta, EntryMetaView, FsRequest, FsRequestView, FsResponse,
    FsResponseView, PathKind, Step, StepView,
};
use crate::paths::{join, join_spec};
use vstd::prelude::*;
use vstd::string::*;

verus! {

/// The message for an entry whose name cannot be written as text.
pub open spec fn unreadable_name() -> Seq<char> {
    "name is not valid Unicode"@
}

/// The sum of two sizes, held at the largest number where it does not fit.
pub open spec fn capped_sum(a: u64, b: u64) -> u64 {
    if a + b > u64::MAX {
        u64::MAX
    } else {
        (a + b) as u64
    }
}

/// Whether an entry is a directory itself, not a link to one.
pub open spec fn real_dir(e: DirEntryView) -> bool {
    !e.symlink && e.kind == PathKind::Directory
}

/// Whether an entry is a regular file itself, not a link to one.
pub open spec fn real_file(e: DirEntryView) -> bool {
    !e.symlink && e.kind == PathKind::File
}

/// What one entry of the directory `dir` adds to the directories still to
/// visit and to the sum of sizes: a directory is put on the stack, a file is
/// counted, anything else is passed over.
pub open spec fn tally_one(
    e: DirEntryView,
    dir: Seq<char>,
    acc: (Seq<Seq<char>>, u64),
) -> Result<(Seq<Seq<char>>, u64), Seq<char>> {
    if real_dir(e) {
        match e.name {
            Some(n) => Ok((acc.0.push(join_spec(dir, n)), acc.1)),
            None => Err(unreadable_name()),
        }
    } else if real_file(e) {
        match e.meta {
            EntryMetaView::Known(m) => Ok((acc.0, capped_sum(acc.1, m.size))),
            EntryMetaView::Unreadable(t) => Err(t),
        }
    } else {
        Ok(acc)
    }
}

/// What the entries of the directory `dir` add, one after the other; the
/// first error ends it.
pub open spec fn tally(entries: Seq<DirEntryView>, dir: Seq<char>, acc: (Seq<Seq<char>>, u64))
    -> Result<(Seq<Seq<char>>, u64), Seq<char>>
    decreases entries.len(),
{
    if entries.len() == 0 {
        Ok(acc)
    } else {
        match tally(entries.drop_last(), dir, acc) {
            Ok(sofar) => tally_one(entries.last(), dir, sofar),
            Err(e) => Err(e),
        }
    }
}

/// Where the first `k` entries end in an error, all do.
pub proof fn lemma_tally_error(
    entries: Seq<DirEntryView>,
    k: int,
    dir: Seq<char>,
    acc: (Seq<Seq<char>>, u64),
)
    requires
        0 <= k <= entries.len(),
        tally(entries.take(k), dir, acc) is Err,
    ensures
        tally(entries, dir, acc) == tally(entries.take(k), dir, acc),
    decreases entries.len() - k,
{
    if k < entries.len() {
        assert(entries.take(k + 1).drop_last() == entries.take(k));
        lemma_tally_error(entries, k + 1, dir, acc);
    } else {
        assert(entries.take(k) == entries);
    }
}

/// The measuring of a tree under way: `current` is the directory being
/// probed or listed, `stack` the directories still to visit, `total` the sum
/// of the sizes of the files seen.
#[derive(Debug, Clone, PartialEq, Eq)]
pub struct SizeScan {
    pub current: String,
    pub stack: Vec<String>,
    pub total: u64,
    pub probing: bool,
}

pub ghost struct SizeScanView {
    pub current: Seq<char>,
    pub stack: Seq<Seq<char>>,
    pub total: u64,
    pub probing: bool,
}

impl DeepView for SizeScan {
    type V = SizeScanView;

    open spec fn deep_view(&self) -> SizeScanView {
        SizeScanView {
            current: self.current@,
            stack: self.stack.deep_view(),
            total: self.total,
            probing: self.probing,
        }
    }
}

pub type SizeScanStepView = StepView<SizeScanView, u64, FileOpsErrorView>;

impl SizeScanView {
    /// The measuring at its beginning, and the probe it begins with.
    pub open spec fn begin(path: Seq<char>) -> (SizeScanView, FsRequestView) {
        (
            SizeScanView { current: path, stack: Seq::empty(), total: 0, probing: true },
            FsRequestView::Probe { path },
        )
    }

    /// The listing of the directory on top of `stack`, or the end with
    /// `total` where none is left.
    pub open spec fn visit(stack: Seq<Seq<char>>, total: u64) -> SizeScanStepView {
        if stack.len() == 0 {
            StepView::Finished(total)
        } else {
            StepView::Ask(
                SizeScanView {
                    current: stack.last(),
                    stack: stack.drop_last(),
                    total,
                    probing: false,
                },
                FsRequestView::ReadDir { path: stack.last() },
            )
        }
    }

    /// The next move. The path must be a directory; then each directory of
    /// the tree is listed, and the sizes of its files are added up.
    pub open spec fn step(self, resp: FsResponseView) -> SizeScanStepView {
        if self.probing {
            match resp {
                FsResponseView::Kind(PathKind::Missing) => StepView::Failed(
                    FileOpsErrorView::SourceNotFound(self.current),
                ),
                FsResponseView::Kind(PathKind::Directory) => StepView::Ask(
                    SizeScanView { probing: false, ..self },
                    FsRequestView::ReadDir { path: self.current },
                ),
                FsResponseView::Kind(_) => StepView::Failed(
                    FileOpsErrorView::NotADirectory(self.current),
                ),
                _ => StepView::Failed(FileOpsErrorView::Io(out_of_turn())),
            }
        } else {
            match resp {
                FsResponseView::Entries(es) => match tally(
                    es,
                    self.current,
                    (self.stack, self.total),
                ) {
                    Ok(acc) => Self::visit(acc.0, acc.1),
                    Err(e) => StepView::Failed(FileOpsErrorView::Io(e)),
                },
                FsResponseView::Failed(e) => StepView::Failed(FileOpsErrorView::Io(e)),
                _ => StepView::Failed(FileOpsErrorView::Io(out_of_turn())),
            }
        }
    }
}

pub type SizeScanStep = Step<SizeScan, u64, FileOpsError>;

fn tally_entries(es: &Vec<DirEntry>, current: &str, stack: Vec<String>, total: u64) -> (r: Result<
    (Vec<String>, u64),
    String,
>)
    ensures
        match r {
            Ok(acc) => tally(es.deep_view(), current@, (stack.deep_view(), total)) == Ok::<
                (Seq<Seq<char>>, u64),
                Seq<char>,
            >((acc.0.deep_view(), acc.1)),
            Err(e) => tally(es.deep_view(), current@, (stack.deep_view(), total)) == Err::<
                (Seq<Seq<char>>, u64),
                Seq<char>,
            >(e@),
        },
{
    let ghost all = es.deep_view();
    let ghost start = (stack.deep_view(), total);
    let mut pending = stack;
    let mut sum = total;
    let mut i: usize = 0;
    assert(all.take(0) =~= Seq::<DirEntryView>::empty());
    while i < es.len()
        invariant
            i <= es.len(),
            all == es.deep_view(),
            start == (stack.deep_view(), total),
            tally(all.take(i as int), current@, start) == Ok::<(Seq<Seq<char>>, u64), Seq<char>>(
                (pending.deep_view(), sum),
            ),
        decreases es.len() - i,
    {
        let ghost sofar = pending.deep_view();
        proof {
            assert(all.take(i + 1).drop_last() == all.take(i as int));
            assert(all.take(i + 1).last() == es@[i as int].deep_view());
        }
        let e = &es[i];
        let is_dir = match e.kind {
            PathKind::Directory => true,
            _ => false,
        };
        let is_file = match e.kind {
            PathKind::File => true,
            _ => false,
        };
        if !e.symlink && is_dir {
            match &e.name {
                Some(n) => {
                    let path = join(current, n.as_str());
                    pending.push(path);
                    assert(pending.deep_view() =~= sofar.push(path@));
                },
                None => {
                    proof {
                        lemma_tally_error(all, i + 1, current@, start);
                    }
                    return Err(String::from_str("name is not valid Unicode"));
                },
            }
        } else if !e.symlink && is_file {
            match &e.meta {
                EntryMeta::Known(m) => {
                    sum = if m.size > u64::MAX - sum {
                        u64::MAX
                    } else {
                        sum + m.size
                    };
                },
                EntryMeta::Unreadable(t) => {
                    proof {
                        lemma_tally_error(all, i + 1, current@, start);
                    }
                    return Err(t.clone());
                },
            }
        }
        i = i + 1;
    }
    assert(all.take(es.len() as int) == all);
    Ok((pending, sum))
}

impl SizeScan {
    /// Takes the response to the last request and makes the next move.
    pub fn step(self, resp: FsResponse) -> (out: SizeScanStep)
        ensures
            out.deep_view() == self.deep_view().step(resp.deep_view()),
    {
        let SizeScan { current, stack, total, probing } = self;
        if probing {
            match resp {
                FsResponse::Kind(PathKind::Missing) => Step::Failed(
                    FileOpsError::SourceNotFound(current),
                ),
                FsResponse::Kind(PathKind::Directory) => {
                    let req = FsRequest::ReadDir { path: current.clone() };
                    Step::Ask(SizeScan { current, stack, total, probing: false }, req)
                },
                FsResponse::Kind(_) => Step::Failed(FileOpsError::NotADirectory(current)),
                _ => Step::Failed(FileOpsError::out_of_turn()),
            }
        } else {
            match resp {
                FsResponse::Entries(es) => match tally_entries(&es, current.as_str(), stack, total) {
                    Ok((stack, total)) => {
                        let mut stack = stack;
                        let ghost full = stack.deep_view();
                        match stack.pop() {
                            Some(next) => {
                                assert(stack.deep_view() =~= full.drop_last());
                                let req = FsRequest::ReadDir { path: next.clone() };
                                Step::Ask(
                                    SizeScan { current: next, stack, total, probing: false },
                                    req,
                                )
                            },
                            None => Step::Finished(total),
                        }
                    },
                    Err(e) => Step::Failed(FileOpsError::Io(e)),
                },
                FsResponse::Failed(e) => Step::Failed(FileOpsError::Io(e)),
                _ => Step::Failed(FileOpsError::out_of_turn()),
            }
        }
    }
}

/// Begins the measuring of the tree below the directory `path`: the sum of
/// the sizes of its files. Fails with `SourceNotFound` where nothing stands
/// at `path` and with `NotADirectory` where it is no directory.
pub fn get_dir_size(path: &str) -> (r: (SizeScan, FsRequest))
    ensures
        r.deep_view() == SizeScanView::begin(path@),
{
    let scan = SizeScan {
        current: String::from_str(path),
        stack: Vec::new(),
        total: 0,
        probing: true,
    };
    assert(scan.stack.deep_view() =~= Seq::<Seq<char>>::empty());
    (scan, FsRequest::Probe { path: String::from_str(path) })
}

/// One thing left to copy: a directory with all below it, or one file.
#[derive(Debug, Clone, PartialEq, Eq)]
pub struct CopyTask {
    pub dir: bool,
    pub src: String,
    pub dst: String,
}

pub ghost struct CopyTaskView {
    pub dir: bool,
    pub src: Seq<char>,
    pub dst: Seq<char>,
}

impl DeepView for CopyTask {
    type V = CopyTaskView;

    open spec fn deep_view(&self) -> CopyTaskView {
        CopyTaskView { dir: self.dir, src: self.src@, dst: self.dst@ }
    }
}

/// Where the copy of a tree stands.
#[derive(Debug, Clone, Copy, PartialEq, Eq, Structural)]
pub enum CopyStage {
    ProbeSource,
    ProbeTarget,
    MakeDir,
    List,
    CopyFile,
}

/// The copy of a tree under way: `src` and `dst` are the directory at hand
/// and its copy, `tasks` what is left to do after it, the next on top.
#[derive(Debug, Clone, PartialEq, Eq)]
pub struct CopyTree {
    pub src: String,
    pub dst: String,
    pub tasks: Vec<CopyTask>,
    pub stage: CopyStage,
}

pub ghost struct CopyTreeView {
    pub src: Seq<char>,
    pub dst: Seq<char>,
    pub tasks: Seq<CopyTaskView>,
    pub stage: CopyStage,
}

impl DeepView for CopyTree {
    type V = CopyTreeView;

    open spec fn deep_view(&self) -> CopyTreeView {
        CopyTreeView {
            src: self.src@,
            dst: self.dst@,
            tasks: self.tasks.deep_view(),
            stage: self.stage,
        }
    }
}

/// The tasks for the entries of the directory `src`, copied to `dst`, put
/// on `tasks` so that the first entry is on top; `None` where an entry has
/// no readable name.
pub open spec fn queued(
    entries: Seq<DirEntryView>,
    src: Seq<char>,
    dst: Seq<char>,
    tasks: Seq<CopyTaskView>,
) -> Option<Seq<CopyTaskView>>
    decreases entries.len(),
{
    if entries.len() == 0 {
        Some(tasks)
    } else {
        match entries.last().name {
            Some(n) => queued(
                entries.drop_last(),
                src,
                dst,
                tasks.push(
                    CopyTaskView {
                        dir: real_dir(entries.last()),
                        src: join_spec(src, n),
                        dst: join_spec(dst, n),
                    },
                ),
            ),
            None => None,
        }
    }
}

pub type CopyTreeStepView = StepView<CopyTreeView, (), FileOpsErrorView>;

impl CopyTreeView {
    /// The copy at its beginning, and the probe it begins with.
    pub open spec fn begin(src: Seq<char>, dst: Seq<char>) -> (CopyTreeView, FsRequestView) {
        (
            CopyTreeView { src, dst, tasks: Seq::empty(), stage: CopyStage::ProbeSource },
            FsRequestView::Probe { path: src },
        )
    }

    /// The start of the task on top of `tasks`, or the end where none is
    /// left.
    pub open spec fn proceed(self, tasks: Seq<CopyTaskView>) -> CopyTreeStepView {
        if tasks.len() == 0 {
            StepView::Finished(())
        } else if tasks.last().dir {
            StepView::Ask(
                CopyTreeView {
                    src: tasks.last().src,
                    dst: tasks.last().dst,
                    tasks: tasks.drop_last(),
                    stage: CopyStage::ProbeSource,
                },
                FsRequestView::Probe { path: tasks.last().src },
            )
        } else {
            StepView::Ask(
                CopyTreeView { tasks: tasks.drop_last(), stage: CopyStage::CopyFile, ..self },
                FsRequestView::CopyFile { src_file: tasks.last().src, dst_file: tasks.last().dst },
            )
        }
    }

    /// The next move. Each directory must exist and its copy must not; the
    /// copy is created, the directory listed, and its entries are copied in
    /// the order of the listing, a directory with all below it before the
    /// entry after it.
    pub open spec fn step(self, resp: FsResponseView) -> CopyTreeStepView {
        match self.stage {
            CopyStage::ProbeSource => match resp {
                FsResponseView::Kind(PathKind::Missing) => StepView::Failed(
                    FileOpsErrorView::SourceNotFound(self.src),
                ),
                FsResponseView::Kind(_) => StepView::Ask(
                    CopyTreeView { stage: CopyStage::ProbeTarget, ..self },
                    FsRequestView::Probe { path: self.dst },
                ),
                _ => StepView::Failed(FileOpsErrorView::Io(out_of_turn())),
            },
            CopyStage::ProbeTarget => match resp {
                FsResponseView::Kind(PathKind::Missing) => StepView::Ask(
                    CopyTreeView { stage: CopyStage::MakeDir, ..self },
                    FsRequestView::CreateDirAll { path: self.dst },
                ),
                FsResponseView::Kind(_) => StepView::Failed(
                    FileOpsErrorView::DestinationExists(self.dst),
                ),
                _ => StepView::Failed(FileOpsErrorView::Io(out_of_turn())),
            },
            CopyStage::MakeDir => match resp {
                FsResponseView::Done => StepView::Ask(
                    CopyTreeView { stage: CopyStage::List, ..self },
                    FsRequestView::ReadDir { path: self.src },
                ),
                FsResponseView::Failed(e) => StepView::Failed(FileOpsErrorView::Io(e)),
                _ => StepView::Failed(FileOpsErrorView::Io(out_of_turn())),
            },
            CopyStage::List => match resp {
                FsResponseView::Entries(es) => match queued(es, self.src, self.dst, self.tasks) {
                    Some(tasks) => self.proceed(tasks),
                    None => StepView::Failed(FileOpsErrorView::Io(unreadable_name())),
                },
                FsResponseView::Failed(e) => StepView::Failed(FileOpsErrorView::Io(e)),
                _ => StepView::Failed(FileOpsErrorView::Io(out_of_turn())),
            },
            CopyStage::CopyFile => match resp {
                FsResponseView::Done => self.proceed(self.tasks),
                FsResponseView::Failed(e) => StepView::Failed(FileOpsErrorView::Io(e)),
                _ => StepView::Failed(FileOpsErrorView::Io(out_of_turn())),
            },
        }
    }
}

pub type CopyTreeStep = Step<CopyTree, (), FileOpsError>;

fn queue_entries(es: &Vec<DirEntry>, src: &str, dst: &str, tasks: Vec<CopyTask>) -> (r: Option<
    Vec<CopyTask>,
>)
    ensures
        r.deep_view() == queued(es.deep_view(), src@, dst@, tasks.deep_view()),
{
    let ghost all = es.deep_view();
    let ghost start = tasks.deep_view();
    let mut queue = tasks;
    let mut i: usize = es.len();
    assert(all.take(i as int) == all);
    while i > 0
        invariant
            i <= es.len(),
            all == es.deep_view(),
            start == tasks.deep_view(),
            queued(all, src@, dst@, start) == queued(
                all.take(i as int),
                src@,
                dst@,
                queue.deep_view(),
            ),
        decreases i,
    {
        let ghost sofar = queue.deep_view();
        let ghost head = all.take(i as int);
        assert(head.last() == es@[i - 1].deep_view());
        assert(head.drop_last() == all.take(i - 1));
        i = i - 1;
        let e = &es[i];
        let is_dir = match e.kind {
            PathKind::Directory => true,
            _ => false,
        };
        match &e.name {
            Some(n) => {
                let task = CopyTask {
                    dir: !e.symlink && is_dir,
                    src: join(src, n.as_str()),
                    dst: join(dst, n.as_str()),
                };
                queue.push(task);
                assert(queue.deep_view() =~= sofar.push(task.deep_view()));
            },
            None => {
                return None;
            },
        }
    }
    assert(all.take(0) =~= Seq::<DirEntryView>::empty());
    Some(queue)
}

impl CopyTree {
    fn proceed(src: String, dst: String, tasks: Vec<CopyTask>) -> (out: CopyTreeStep)
        ensures
            out.deep_view() == (CopyTreeView {
                src: src@,
                dst: dst@,
                tasks: Seq::empty(),
                stage: CopyStage::List,
            }).proceed(tasks.deep_view()),
    {
        let mut tasks = tasks;
        let ghost full = tasks.deep_view();
        match tasks.pop() {
            None => Step::Finished(()),
            Some(task) => {
                assert(tasks.deep_view() =~= full.drop_last());
                assert(task.deep_view() == full.last());
                if task.dir {
                    let req = FsRequest::Probe { path: task.src.clone() };
                    Step::Ask(
                        CopyTree {
                            src: task.src,
                            dst: task.dst,
                            tasks,
                            stage: CopyStage::ProbeSource,
                        },
                        req,
                    )
                } else {
                    Step::Ask(
                        CopyTree { src, dst, tasks, stage: CopyStage::CopyFile },
                        FsRequest::CopyFile { src_file: task.src, dst_file: task.dst },
                    )
                }
            },
        }
    }

    /// Takes the response to the last request and makes the next move.
    pub fn step(self, resp: FsResponse) -> (out: CopyTreeStep)
        ensures
            out.deep_view() == self.deep_view().step(resp.deep_view()),
    {
        let CopyTree { src, dst, tasks, stage } = self;
        match stage {
            CopyStage::ProbeSource => match resp {
                FsResponse::Kind(PathKind::Missing) => Step::Failed(
                    FileOpsError::SourceNotFound(src),
                ),
                FsResponse::Kind(_) => {
                    let req = FsRequest::Probe { path: dst.clone() };
                    Step::Ask(CopyTree { src, dst, tasks, stage: CopyStage::ProbeTarget }, req)
                },
                _ => Step::Failed(FileOpsError::out_of_turn()),
            },
            CopyStage::ProbeTarget => match resp {
                FsResponse::Kind(PathKind::Missing) => {
                    let req = FsRequest::CreateDirAll { path: dst.clone() };
                    Step::Ask(CopyTree { src, dst, tasks, stage: CopyStage::MakeDir }, req)
                },
                FsResponse::Kind(_) => Step::Failed(FileOpsError::DestinationExists(dst)),
                _ => Step::Failed(FileOpsError::out_of_turn()),
            },
            CopyStage::MakeDir => match resp {
                FsResponse::Done => {
                    let req = FsRequest::ReadDir { path: src.clone() };
                    Step::Ask(CopyTree { src, dst, tasks, stage: CopyStage::List }, req)
                },
                FsResponse::Failed(e) => Step::Failed(FileOpsError::Io(e)),
                _ => Step::Failed(FileOpsError::out_of_turn()),
            },
            CopyStage::List => match resp {
                FsResponse::Entries(es) => match queue_entries(&es, src.as_str(), dst.as_str(), tasks) {
                    Some(tasks) => Self::proceed(src, dst, tasks),
                    None => Step::Failed(
                        FileOpsError::Io(String::from_str("name is not valid Unicode")),
                    ),
                },
                FsResponse::Failed(e) => Step::Failed(FileOpsError::Io(e)),
                _ => Step::Failed(FileOpsError::out_of_turn()),
            },
            CopyStage::CopyFile => match resp {
                FsResponse::Done => Self::proceed(src, dst, tasks),
                FsResponse::Failed(e) => Step::Failed(FileOpsError::Io(e)),
                _ => Step::Failed(FileOpsError::out_of_turn()),
            },
        }
    }
}

/// Begins the copy of the tree below the directory `src` to `dst`. Fails
/// with `SourceNotFound` where `src` does not exist and with
/// `DestinationExists` where something stands at `dst`.
pub fn copy_dir_recursive(src: &str, dst: &str) -> (r: (CopyTree, FsRequest))
    ensures
        r.deep_view() == CopyTreeView::begin(src@, dst@),
{
    let copy = CopyTree {
        src: String::from_str(src),
        dst: String::from_str(dst),
        tasks: Vec::new(),
        stage: CopyStage::ProbeSource,
    };
    assert(copy.tasks.deep_view() =~= Seq::<CopyTaskView>::empty());
    (copy, FsRequest::Probe { path: String::from_str(src) })
}

} // verus!
