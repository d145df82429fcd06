//! Workspace locks: at most one write-capable agent per workspace, any
//! number of read-only agents when no writer holds it; plus the paths of
//! per-task worktrees and of on-disk lock files.

use vstd::prelude::*;

use crate::text::{decimal, fmt_usize, join_path, own, path_join, push_str, str_eq, string_from_chars};

verus! {

/// How an agent uses a workspace.
#[derive(Debug, Clone, Copy, PartialEq, Eq, Structural)]
pub enum WorkspaceMode {
    /// Read-only agent: several may share the workspace.
    Reader,
    /// Write-capable agent: needs the workspace alone.
    Writer,
}

/// The wire name of each [`WorkspaceMode`] value.
pub open spec fn workspace_mode_name(x: WorkspaceMode) -> Seq<char> {
    match x {
        WorkspaceMode::Reader => "reader"@,
        WorkspaceMode::Writer => "writer"@,
    }
}

impl WorkspaceMode {
    /// The wire name of the value.
    pub fn as_str(&self) -> (r: &'static str)
        ensures
            r@ == workspace_mode_name(*self),
    {
        match self {
            WorkspaceMode::Reader => "reader",
            WorkspaceMode::Writer => "writer",
        }
    }
}

/// Who holds a workspace lock and since when (milliseconds since the Unix epoch).
#[derive(Debug, Clone)]
pub struct WorkspaceLockInfo {
    pub workspace: String,
    pub owner_task_id: String,
    pub mode: WorkspaceMode,
    pub acquired_at: i64,
}

/// A granted lock; hand it back to [`WorkspaceLocker::release`].
#[derive(Debug)]
pub struct WorkspaceLock {
    workspace: String,
    task_id: String,
    mode: WorkspaceMode,
}

impl WorkspaceLock {
    /// The workspace the lock covers.
    pub closed spec fn workspace_view(&self) -> Seq<char> {
        self.workspace@
    }

    /// The task holding the lock.
    pub closed spec fn task_view(&self) -> Seq<char> {
        self.task_id@
    }

    /// The mode the lock was granted in.
    pub closed spec fn mode_view(&self) -> WorkspaceMode {
        self.mode
    }

    /// The workspace the lock covers.
    pub fn workspace(&self) -> (r: &str)
        ensures
            r@ == self.workspace_view(),
    {
        self.workspace.as_str()
    }

    /// The task holding the lock.
    pub fn task_id(&self) -> (r: &str)
        ensures
            r@ == self.task_view(),
    {
        self.task_id.as_str()
    }

    /// The mode the lock was granted in.
    pub fn mode(&self) -> (r: WorkspaceMode)
        ensures
            r == self.mode_view(),
    {
        self.mode
    }
}

/// The lock state of one workspace.
#[derive(Debug)]
pub struct WorkspaceEntry {
    pub key: String,
    pub writer: Option<WorkspaceLockInfo>,
    pub readers: Vec<WorkspaceLockInfo>,
    pub last_touched: i64,
}

/// The registry of workspace locks of one process.
#[derive(Debug)]
pub struct WorkspaceLocker {
    entries: Vec<WorkspaceEntry>,
}

/// The task ids of a list of lock holders.
pub open spec fn holder_ids(rs: Seq<WorkspaceLockInfo>) -> Set<Seq<char>> {
    Set::new(|t: Seq<char>| exists|i: int| 0 <= i < rs.len() && rs[i].owner_task_id@ == t)
}

/// No task id occurs twice among the holders.
pub open spec fn distinct_holders(rs: Seq<WorkspaceLockInfo>) -> bool {
    forall|i: int, j: int|
        0 <= i < rs.len() && 0 <= j < rs.len() && i != j ==> rs[i].owner_task_id@ != rs[j].owner_task_id@
}

/// The index of the entry for `ws`, or `-1`.
pub open spec fn find_key(es: Seq<WorkspaceEntry>, ws: Seq<char>) -> int
    decreases es.len(),
{
    if es.len() == 0 {
        -1
    } else if find_key(es.drop_last(), ws) >= 0 {
        find_key(es.drop_last(), ws)
    } else if es.last().key@ == ws {
        es.len() - 1
    } else {
        -1
    }
}

/// The error text for a refused acquisition.
pub open spec fn refusal(ws: Seq<char>, mode: WorkspaceMode, writer: Option<Seq<char>>) -> Seq<char> {
    match mode {
        WorkspaceMode::Writer => match writer {
            Some(w) => "workspace `"@ + ws + "` is already locked by writer "@ + w,
            None => "workspace `"@ + ws + "` has active readers; writer cannot acquire"@,
        },
        WorkspaceMode::Reader => "workspace `"@ + ws + "` is locked by a writer; reader cannot acquire"@,
    }
}

/// The holders of `ws` after `task` was granted it in `mode`.
pub open spec fn granted(before: WorkspaceLocker, after: WorkspaceLocker, ws: Seq<char>, task: Seq<char>, mode: WorkspaceMode) -> bool {
    match mode {
        WorkspaceMode::Writer => after.writer_of(ws) == Some(task) && after.readers_of(ws) == before.readers_of(ws),
        WorkspaceMode::Reader => after.writer_of(ws).is_none() && after.readers_of(ws) == before.readers_of(ws).insert(task),
    }
}

/// The holders of `ws` after `task` gave back its lock in `mode`.
pub open spec fn given_back(before: WorkspaceLocker, after: WorkspaceLocker, ws: Seq<char>, task: Seq<char>, mode: WorkspaceMode) -> bool {
    match mode {
        WorkspaceMode::Writer => after.writer_of(ws) == (if before.writer_of(ws) == Some(task) {
            None
        } else {
            before.writer_of(ws)
        }) && after.readers_of(ws) == before.readers_of(ws),
        WorkspaceMode::Reader => after.writer_of(ws) == before.writer_of(ws) && after.readers_of(ws) == before.readers_of(ws).remove(task),
    }
}

impl WorkspaceLocker {
    /// The task holding `ws` for writing, if any.
    pub closed spec fn writer_of(&self, ws: Seq<char>) -> Option<Seq<char>> {
        let i = find_key(self.entries@, ws);
        if i < 0 {
            None
        } else {
            match self.entries@[i].writer {
                Some(w) => Some(w.owner_task_id@),
                None => None,
            }
        }
    }

    /// The tasks holding `ws` for reading.
    pub closed spec fn readers_of(&self, ws: Seq<char>) -> Set<Seq<char>> {
        let i = find_key(self.entries@, ws);
        if i < 0 {
            Set::empty()
        } else {
            holder_ids(self.entries@[i].readers@)
        }
    }

    /// Well-formedness: per workspace, a writer excludes readers and no
    /// reader task is listed twice.
    pub closed spec fn inv(&self) -> bool {
        forall|i: int|
            0 <= i < self.entries@.len() ==> {
                &&& (#[trigger] self.entries@[i]).writer.is_some() ==> self.entries@[i].readers@.len() == 0
                &&& distinct_holders(self.entries@[i].readers@)
            }
    }

    /// `self` and `other` agree on every workspace except possibly `ws`.
    pub open spec fn same_except(&self, other: &WorkspaceLocker, ws: Seq<char>) -> bool {
        forall|w: Seq<char>| w != ws ==> self.writer_of(w) == other.writer_of(w) && self.readers_of(w) == other.readers_of(w)
    }

    /// An empty registry.
    pub fn new() -> (r: Self)
        ensures
            r.inv(),
            forall|w: Seq<char>| r.writer_of(w).is_none() && r.readers_of(w).is_empty(),
    {
        WorkspaceLocker { entries: Vec::new() }
    }

    fn find(&self, ws: &str) -> (r: Option<usize>)
        ensures
            match r {
                Some(i) => i < self.entries@.len() && find_key(self.entries@, ws@) == i,
                None => find_key(self.entries@, ws@) == -1,
            },
    {
        let mut i: usize = 0;
        while i < self.entries.len()
            invariant
                i <= self.entries.len(),
                find_key(self.entries@.take(i as int), ws@) == -1,
            decreases self.entries.len() - i,
        {
            assert(self.entries@.take((i + 1) as int).drop_last() =~= self.entries@.take(i as int));
            if str_eq(self.entries[i].key.as_str(), ws) {
                proof {
                    lemma_find_key_prefix(self.entries@, (i + 1) as int, ws@);
                }
                return Some(i);
            }
            i = i + 1;
        }
        assert(self.entries@.take(i as int) =~= self.entries@);
        None
    }

    /// Grants `task_id` the workspace `ws` in `mode` at time `now`. A
    /// writer needs the workspace free of writers and readers; a reader
    /// needs it free of writers. A refusal changes no lock.
    pub fn acquire(&mut self, ws: &str, task_id: &str, mode: WorkspaceMode, now: i64) -> (r: Result<WorkspaceLock, String>)
        requires
            old(self).inv(),
        ensures
            final(self).inv(),
            final(self).same_except(old(self), ws@),
            r is Ok <==> match mode {
                WorkspaceMode::Writer => old(self).writer_of(ws@).is_none() && old(self).readers_of(ws@).is_empty(),
                WorkspaceMode::Reader => old(self).writer_of(ws@).is_none(),
            },
            match r {
                Ok(lock) => lock.workspace_view() == ws@ && lock.task_view() == task_id@ && lock.mode_view() == mode
                    && granted(*old(self), *final(self), ws@, task_id@, mode),
                Err(msg) => msg@ == refusal(ws@, mode, old(self).writer_of(ws@))
                    && final(self).writer_of(ws@) == old(self).writer_of(ws@)
                    && final(self).readers_of(ws@) == old(self).readers_of(ws@),
            },
    {
        let idx = match self.find(ws) {
            Some(i) => i,
            None => {
                let ghost before = self.entries@;
                self.entries.push(WorkspaceEntry { key: own(ws), writer: None, readers: Vec::new(), last_touched: now });
                proof {
                    lemma_find_key_push(before, self.entries@.last(), ws@);
                    assert forall|w: Seq<char>| w != ws@ implies find_key(self.entries@, w) == find_key(before, w) by {
                        lemma_find_key_push(before, self.entries@.last(), w);
                    }
                    assert(self.entries@.drop_last() =~= before);
                    assert(holder_ids(self.entries@.last().readers@) =~= Set::empty());
                }
                (self.entries.len() - 1) as usize
            },
        };
        let ghost mid = self.entries@;
        assert(self.inv()) by {
            assert forall|k: int| 0 <= k < self.entries@.len() implies {
                &&& (#[trigger] self.entries@[k]).writer.is_some() ==> self.entries@[k].readers@.len() == 0
                &&& distinct_holders(self.entries@[k].readers@)
            } by {
                if k < old(self).entries@.len() {
                    assert(self.entries@[k] == old(self).entries@[k]);
                }
            }
        }
        assert(mid[idx as int].writer.is_some() ==> mid[idx as int].readers@.len() == 0);
        assert(distinct_holders(mid[idx as int].readers@));
        assert(self.writer_of(ws@) == old(self).writer_of(ws@));
        assert(self.readers_of(ws@) == old(self).readers_of(ws@));
        let mut e = self.entries.remove(idx);
        proof {
            assert(mid[idx as int] == e);
        }
        let result: Result<WorkspaceLock, String>;
        match mode {
            WorkspaceMode::Writer => {
                if let Some(w) = &e.writer {
                    let mut msg: Vec<char> = Vec::new();
                    push_str(&mut msg, "workspace `");
                    push_str(&mut msg, ws);
                    push_str(&mut msg, "` is already locked by writer ");
                    push_str(&mut msg, w.owner_task_id.as_str());
                    result = Err(string_from_chars(&msg));
                } else if e.readers.len() > 0 {
                    let mut msg: Vec<char> = Vec::new();
                    push_str(&mut msg, "workspace `");
                    push_str(&mut msg, ws);
                    push_str(&mut msg, "` has active readers; writer cannot acquire");
                    assert(holder_ids(e.readers@).contains(e.readers@[0].owner_task_id@));
                    result = Err(string_from_chars(&msg));
                } else {
                    e.writer = Some(WorkspaceLockInfo { workspace: own(ws), owner_task_id: own(task_id), mode, acquired_at: now });
                    e.last_touched = now;
                    result = Ok(WorkspaceLock { workspace: own(ws), task_id: own(task_id), mode });
                }
            },
            WorkspaceMode::Reader => {
                if e.writer.is_some() {
                    let mut msg: Vec<char> = Vec::new();
                    push_str(&mut msg, "workspace `");
                    push_str(&mut msg, ws);
                    push_str(&mut msg, "` is locked by a writer; reader cannot acquire");
                    result = Err(string_from_chars(&msg));
                } else {
                    let info = WorkspaceLockInfo { workspace: own(ws), owner_task_id: own(task_id), mode, acquired_at: now };
                    put_reader(&mut e.readers, info);
                    e.last_touched = now;
                    result = Ok(WorkspaceLock { workspace: own(ws), task_id: own(task_id), mode });
                }
            },
        }
        let ghost e2 = e;
        self.entries.insert(idx, e);
        proof {
            assert(self.entries@ =~= mid.update(idx as int, e2));
            lemma_find_key_update(mid, idx as int, e2);
            lemma_find_key_bounds(mid, ws@);
            assert forall|w: Seq<char>| w != ws@ implies self.writer_of(w) == old(self).writer_of(w) && self.readers_of(w) == old(self).readers_of(w) by {
                lemma_find_key_bounds(mid, w);
                assert(find_key(self.entries@, w) == find_key(mid, w));
            }
            assert forall|k: int| 0 <= k < self.entries@.len() implies {
                &&& (#[trigger] self.entries@[k]).writer.is_some() ==> self.entries@[k].readers@.len() == 0
                &&& distinct_holders(self.entries@[k].readers@)
            } by {
                if k != idx {
                    assert(self.entries@[k] == mid[k]);
                }
            }
        }
        result
    }

    /// Gives back a lock at time `now`: a writer lock clears the writer
    /// if `lock`'s task still holds it; a reader lock removes the task
    /// from the readers.
    pub fn release(&mut self, lock: &WorkspaceLock, now: i64)
        requires
            old(self).inv(),
        ensures
            final(self).inv(),
            final(self).same_except(old(self), lock.workspace_view()),
            given_back(*old(self), *final(self), lock.workspace_view(), lock.task_view(), lock.mode_view()),
    {
        let idx = match self.find(lock.workspace.as_str()) {
            Some(i) => i,
            None => {
                assert(old(self).readers_of(lock.workspace@).remove(lock.task_id@) =~= Set::empty());
                return;
            },
        };
        let ghost mid = self.entries@;
        assert(mid[idx as int].writer.is_some() ==> mid[idx as int].readers@.len() == 0);
        assert(distinct_holders(mid[idx as int].readers@));
        let mut e = self.entries.remove(idx);
        proof {
            assert(mid[idx as int] == e);
        }
        match lock.mode {
            WorkspaceMode::Writer => {
                let holds = match &e.writer {
                    Some(w) => str_eq(w.owner_task_id.as_str(), lock.task_id.as_str()),
                    None => false,
                };
                if holds {
                    e.writer = None;
                }
            },
            WorkspaceMode::Reader => {
                drop_reader(&mut e.readers, lock.task_id.as_str());
            },
        }
        e.last_touched = now;
        let ghost e2 = e;
        self.entries.insert(idx, e);
        proof {
            assert(self.entries@ =~= mid.update(idx as int, e2));
            lemma_find_key_update(mid, idx as int, e2);
            lemma_find_key_bounds(mid, lock.workspace@);
            assert forall|w: Seq<char>| w != lock.workspace@ implies self.writer_of(w) == old(self).writer_of(w) && self.readers_of(w) == old(self).readers_of(w) by {
                lemma_find_key_bounds(mid, w);
                assert(find_key(self.entries@, w) == find_key(mid, w));
            }
            assert forall|k: int| 0 <= k < self.entries@.len() implies {
                &&& (#[trigger] self.entries@[k]).writer.is_some() ==> self.entries@[k].readers@.len() == 0
                &&& distinct_holders(self.entries@[k].readers@)
            } by {
                if k != idx {
                    assert(self.entries@[k] == mid[k]);
                }
            }
        }
    }

    /// The holders of `ws`: the writer (if any) and the readers.
    pub fn inspect(&self, ws: &str) -> (r: Option<(Option<WorkspaceLockInfo>, Vec<WorkspaceLockInfo>)>)
        ensures
            match r {
                None => self.writer_of(ws@).is_none() && self.readers_of(ws@).is_empty(),
                Some((w, rs)) => (match w {
                    Some(x) => self.writer_of(ws@) == Some(x.owner_task_id@),
                    None => self.writer_of(ws@).is_none(),
                }) && holder_ids(rs@) == self.readers_of(ws@),
            },
    {
        match self.find(ws) {
            None => None,
            Some(i) => {
                let e = &self.entries[i];
                let w = match &e.writer {
                    Some(x) => Some(clone_info(x)),
                    None => None,
                };
                let mut rs: Vec<WorkspaceLockInfo> = Vec::new();
                let mut k: usize = 0;
                while k < e.readers.len()
                    invariant
                        k <= e.readers.len(),
                        rs@.len() == k,
                        forall|j: int| 0 <= j < k ==> rs@[j].owner_task_id@ == e.readers@[j].owner_task_id@,
                    decreases e.readers.len() - k,
                {
                    rs.push(clone_info(&e.readers[k]));
                    k = k + 1;
                }
                assert(holder_ids(rs@) =~= holder_ids(e.readers@)) by {
                    assert forall|t: Seq<char>| holder_ids(rs@).contains(t) implies holder_ids(e.readers@).contains(t) by {
                        let j = choose|j: int| 0 <= j < rs@.len() && rs@[j].owner_task_id@ == t;
                        assert(e.readers@[j].owner_task_id@ == t);
                    }
                    assert forall|t: Seq<char>| holder_ids(e.readers@).contains(t) implies holder_ids(rs@).contains(t) by {
                        let j = choose|j: int| 0 <= j < e.readers@.len() && e.readers@[j].owner_task_id@ == t;
                        assert(rs@[j].owner_task_id@ == t);
                    }
                }
                Some((w, rs))
            },
        }
    }
}

fn clone_info(x: &WorkspaceLockInfo) -> (r: WorkspaceLockInfo)
    ensures
        r.owner_task_id@ == x.owner_task_id@,
        r.workspace@ == x.workspace@,
        r.mode == x.mode,
        r.acquired_at == x.acquired_at,
{
    WorkspaceLockInfo {
        workspace: x.workspace.clone(),
        owner_task_id: x.owner_task_id.clone(),
        mode: x.mode,
        acquired_at: x.acquired_at,
    }
}

/// Adds or replaces the reader entry of `info`'s task.
fn put_reader(rs: &mut Vec<WorkspaceLockInfo>, info: WorkspaceLockInfo)
    requires
        distinct_holders(old(rs)@),
    ensures
        distinct_holders(final(rs)@),
        holder_ids(final(rs)@) == holder_ids(old(rs)@).insert(info.owner_task_id@),
{
    let ghost t = info.owner_task_id@;
    let ghost before = rs@;
    let mut i: usize = 0;
    while i < rs.len()
        invariant
            i <= rs.len(),
            rs@ == before,
            before == old(rs)@,
            distinct_holders(before),
            t == info.owner_task_id@,
            forall|j: int| 0 <= j < i ==> rs@[j].owner_task_id@ != t,
        decreases rs.len() - i,
    {
        if str_eq(rs[i].owner_task_id.as_str(), info.owner_task_id.as_str()) {
            assert(before[i as int].owner_task_id@ == t);
            assert(holder_ids(before).contains(t));
            rs.remove(i);
            rs.insert(i, info);
            assert(rs@ =~= before.update(i as int, info));
            assert forall|j: int| 0 <= j < rs@.len() implies rs@[j].owner_task_id@ == before[j].owner_task_id@ by {
            }
            assert(holder_ids(rs@) =~= holder_ids(before));
            assert(holder_ids(before).insert(t) =~= holder_ids(before));
            return;
        }
        i = i + 1;
    }
    rs.push(info);
    assert(holder_ids(rs@) =~= holder_ids(before).insert(t)) by {
        assert forall|x: Seq<char>| holder_ids(before).insert(t).contains(x) implies holder_ids(rs@).contains(x) by {
            if x != t {
                let j = choose|j: int| 0 <= j < before.len() && before[j].owner_task_id@ == x;
                assert(rs@[j].owner_task_id@ == x);
            } else {
                assert(rs@[before.len() as int].owner_task_id@ == x);
            }
        }
        assert forall|x: Seq<char>| holder_ids(rs@).contains(x) implies holder_ids(before).insert(t).contains(x) by {
            let j = choose|j: int| 0 <= j < rs@.len() && rs@[j].owner_task_id@ == x;
            if j < before.len() {
                assert(before[j].owner_task_id@ == x);
            }
        }
    }
}

/// Removes the reader entry of `task`, if present.
fn drop_reader(rs: &mut Vec<WorkspaceLockInfo>, task: &str)
    requires
        distinct_holders(old(rs)@),
    ensures
        distinct_holders(final(rs)@),
        holder_ids(final(rs)@) == holder_ids(old(rs)@).remove(task@),
        final(rs)@.len() <= old(rs)@.len(),
{
    let ghost before = rs@;
    let mut i: usize = 0;
    while i < rs.len()
        invariant
            i <= rs.len(),
            rs@ == before,
            before == old(rs)@,
            distinct_holders(before),
            forall|j: int| 0 <= j < i ==> rs@[j].owner_task_id@ != task@,
        decreases rs.len() - i,
    {
        if str_eq(rs[i].owner_task_id.as_str(), task) {
            rs.remove(i);
            assert(rs@ =~= before.remove(i as int));
            assert(distinct_holders(rs@)) by {
                assert forall|a: int, b: int| 0 <= a < rs@.len() && 0 <= b < rs@.len() && a != b implies rs@[a].owner_task_id@ != rs@[b].owner_task_id@ by {
                    let a2 = if a < i { a } else { a + 1 };
                    let b2 = if b < i { b } else { b + 1 };
                    assert(rs@[a] == before[a2]);
                    assert(rs@[b] == before[b2]);
                }
            }
            assert(holder_ids(rs@) =~= holder_ids(before).remove(task@)) by {
                assert forall|x: Seq<char>| holder_ids(before).remove(task@).contains(x) implies holder_ids(rs@).contains(x) by {
                    let j = choose|j: int| 0 <= j < before.len() && before[j].owner_task_id@ == x;
                    if j < i {
                        assert(rs@[j].owner_task_id@ == x);
                    } else {
                        assert(j != i);
                        assert(rs@[j - 1].owner_task_id@ == x);
                    }
                }
                assert forall|x: Seq<char>| holder_ids(rs@).contains(x) implies holder_ids(before).remove(task@).contains(x) by {
                    let j = choose|j: int| 0 <= j < rs@.len() && rs@[j].owner_task_id@ == x;
                    if j < i {
                        assert(before[j].owner_task_id@ == x);
                        assert(before[j].owner_task_id@ != before[i as int].owner_task_id@);
                    } else {
                        assert(before[j + 1].owner_task_id@ == x);
                        assert(before[j + 1].owner_task_id@ != before[i as int].owner_task_id@);
                    }
                }
            }
            return;
        }
        i = i + 1;
    }
    assert(holder_ids(before).remove(task@) =~= holder_ids(before));
}

proof fn lemma_find_key_prefix(es: Seq<WorkspaceEntry>, k: int, ws: Seq<char>)
    requires
        0 < k <= es.len(),
        find_key(es.take(k - 1), ws) == -1,
        es[k - 1].key@ == ws,
    ensures
        find_key(es, ws) == k - 1,
    decreases es.len() - k,
{
    assert(es.take(k).drop_last() =~= es.take(k - 1));
    assert(find_key(es.take(k), ws) == k - 1);
    if k < es.len() {
        lemma_find_key_stable(es, k, ws);
    } else {
        assert(es.take(k) =~= es);
    }
}

proof fn lemma_find_key_stable(es: Seq<WorkspaceEntry>, k: int, ws: Seq<char>)
    requires
        0 <= k <= es.len(),
        find_key(es.take(k), ws) >= 0,
    ensures
        find_key(es, ws) == find_key(es.take(k), ws),
    decreases es.len() - k,
{
    if k < es.len() {
        assert(es.take(k + 1).drop_last() =~= es.take(k));
        lemma_find_key_stable(es, k + 1, ws);
    } else {
        assert(es.take(k) =~= es);
    }
}

proof fn lemma_find_key_push(es: Seq<WorkspaceEntry>, e: WorkspaceEntry, ws: Seq<char>)
    requires
        find_key(es, e.key@) == -1 || e.key@ != ws,
    ensures
        find_key(es.push(e), ws) == if find_key(es, ws) >= 0 {
            find_key(es, ws)
        } else if e.key@ == ws {
            es.len() as int
        } else {
            -1
        },
{
    assert(es.push(e).drop_last() =~= es);
}

proof fn lemma_find_key_bounds(es: Seq<WorkspaceEntry>, ws: Seq<char>)
    ensures
        -1 <= find_key(es, ws) < es.len(),
        find_key(es, ws) >= 0 ==> es[find_key(es, ws)].key@ == ws,
    decreases es.len(),
{
    if es.len() > 0 {
        lemma_find_key_bounds(es.drop_last(), ws);
    }
}

proof fn lemma_find_key_update(es: Seq<WorkspaceEntry>, i: int, e: WorkspaceEntry)
    requires
        0 <= i < es.len(),
        e.key@ == es[i].key@,
    ensures
        forall|ws: Seq<char>| #[trigger] find_key(es.update(i, e), ws) == find_key(es, ws),
    decreases es.len(),
{
    assert forall|ws: Seq<char>| #[trigger] find_key(es.update(i, e), ws) == find_key(es, ws) by {
        lemma_find_key_update_one(es, i, e, ws);
    }
}

proof fn lemma_find_key_update_one(es: Seq<WorkspaceEntry>, i: int, e: WorkspaceEntry, ws: Seq<char>)
    requires
        0 <= i < es.len(),
        e.key@ == es[i].key@,
    ensures
        find_key(es.update(i, e), ws) == find_key(es, ws),
    decreases es.len(),
{
    if i < es.len() - 1 {
        assert(es.update(i, e).drop_last() =~= es.drop_last().update(i, e));
        lemma_find_key_update_one(es.drop_last(), i, e, ws);
    } else {
        assert(es.update(i, e).drop_last() =~= es.drop_last());
    }
}

/// A per-task isolated worktree.
#[derive(Debug, Clone)]
pub struct Worktree {
    pub task_id: String,
    pub root: String,
}

/// Places per-task worktrees under `<base>/.jarvis/worktrees/`.
#[derive(Debug, Clone)]
pub struct WorktreeManager {
    base: String,
}

/// `<base>/.jarvis/worktrees`.
pub open spec fn worktrees_root_of(base: Seq<char>) -> Seq<char> {
    path_join(path_join(base, ".jarvis"@), "worktrees"@)
}

impl WorktreeManager {
    /// The base directory worktrees are placed under.
    pub closed spec fn base_view(&self) -> Seq<char> {
        self.base@
    }

    /// A manager for worktrees under `base`.
    pub fn new(base: &str) -> (r: Self)
        ensures
            r.base_view() == base@,
    {
        WorktreeManager { base: own(base) }
    }

    /// The directory holding all worktrees.
    pub fn worktrees_root(&self) -> (r: String)
        ensures
            r@ == worktrees_root_of(self.base_view()),
    {
        let j = join_path(self.base.as_str(), ".jarvis");
        join_path(j.as_str(), "worktrees")
    }

    /// The worktree of `task_id` (its directory is created by the caller).
    pub fn worktree_for(&self, task_id: &str) -> (r: Worktree)
        ensures
            r.task_id@ == task_id@,
            r.root@ == path_join(worktrees_root_of(self.base_view()), task_id@),
    {
        let root = self.worktrees_root();
        Worktree { task_id: own(task_id), root: join_path(root.as_str(), task_id) }
    }
}

/// An on-disk lock file `<workspace>/.jarvis/locks/<task_id>.lock`.
#[derive(Debug)]
pub struct DurableWorkspaceLock {
    path: String,
}

/// `<workspace>/.jarvis/locks/<task_id>.lock`.
pub open spec fn lock_file_of(workspace: Seq<char>, task_id: Seq<char>) -> Seq<char> {
    path_join(path_join(path_join(workspace, ".jarvis"@), "locks"@), task_id + ".lock"@)
}

impl DurableWorkspaceLock {
    /// The lock file's path.
    pub closed spec fn path_view(&self) -> Seq<char> {
        self.path@
    }

    /// The lock file of `task_id` in `workspace` (created by the caller).
    pub fn for_task(workspace: &str, task_id: &str) -> (r: Self)
        ensures
            r.path_view() == lock_file_of(workspace@, task_id@),
    {
        let a = join_path(workspace, ".jarvis");
        let b = join_path(a.as_str(), "locks");
        let mut name: Vec<char> = Vec::new();
        push_str(&mut name, task_id);
        push_str(&mut name, ".lock");
        let file = string_from_chars(&name);
        DurableWorkspaceLock { path: join_path(b.as_str(), file.as_str()) }
    }

    /// The lock file's path.
    pub fn path(&self) -> (r: &str)
        ensures
            r@ == self.path_view(),
    {
        self.path.as_str()
    }

    /// The line written into a lock file: a JSON object with the task, the
    /// holder's process id and when it took the lock, then a newline.
    pub fn record(task_id: &str, pid: u32, acquired_at: &str) -> (r: String)
        ensures
            r@ == "{\"task_id\":\""@ + task_id@ + "\",\"pid\":"@ + decimal(pid as nat) + ",\"acquired_at\":\""@
                + acquired_at@ + "\"}\n"@,
    {
        let mut out: Vec<char> = Vec::new();
        push_str(&mut out, "{\"task_id\":\"");
        push_str(&mut out, task_id);
        push_str(&mut out, "\",\"pid\":");
        let digits = fmt_usize(pid as usize);
        crate::text::push_chars(&mut out, &digits);
        push_str(&mut out, ",\"acquired_at\":\"");
        push_str(&mut out, acquired_at);
        push_str(&mut out, "\"}\n");
        string_from_chars(&out)
    }

    /// A lock file is stale when its age is known and exceeds `max_age`
    /// (both in one unit; a file dated in the future has no age and is
    /// never stale).
    pub fn is_stale(age: Option<u64>, max_age: u64) -> (r: bool)
        ensures
            r == match age {
                Some(a) => a > max_age,
                None => false,
            },
    {
        match age {
            Some(a) => a > max_age,
            None => false,
        }
    }
}

/// Giving back a lock right after it was granted restores the holders of
/// every workspace, provided the task did not already read it.
pub proof fn lemma_release_restores(
    s0: WorkspaceLocker,
    s1: WorkspaceLocker,
    s2: WorkspaceLocker,
    ws: Seq<char>,
    task: Seq<char>,
    mode: WorkspaceMode,
)
    requires
        s0.inv(),
        !s0.readers_of(ws).contains(task),
        s0.writer_of(ws).is_none(),
        s1.same_except(&s0, ws),
        granted(s0, s1, ws, task, mode),
        s2.same_except(&s1, ws),
        given_back(s1, s2, ws, task, mode),
    ensures
        forall|w: Seq<char>| s2.writer_of(w) == s0.writer_of(w) && s2.readers_of(w) == s0.readers_of(w),
{
    assert forall|w: Seq<char>| s2.writer_of(w) == s0.writer_of(w) && s2.readers_of(w) == s0.readers_of(w) by {
        if w == ws {
            if mode == WorkspaceMode::Reader {
                assert(s0.readers_of(ws).insert(task).remove(task) =~= s0.readers_of(ws));
                lemma_writer_excludes_readers(&s0, ws);
            }
        }
    }
}

/// A workspace is never held by a writer and readers at once.
pub proof fn lemma_writer_excludes_readers(l: &WorkspaceLocker, ws: Seq<char>)
    requires
        l.inv(),
    ensures
        l.writer_of(ws).is_some() ==> l.readers_of(ws).is_empty(),
{
    let i = find_key(l.entries@, ws);
    lemma_find_key_bounds(l.entries@, ws);
    if i >= 0 && l.writer_of(ws).is_some() {
        assert(l.entries@[i].writer.is_some());
        assert(holder_ids(l.entries@[i].readers@) =~= Set::empty());
    }
}

} // verus!
