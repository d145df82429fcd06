//! Tentacle files: the `.tentacle/` directory of a sub-task
//! (`CONTEXT.md`, `todo.md`, `NOTES.md`, `HANDOFF.md`), their contents and
//! the rules for changing them: checkboxes are ticked one at a time, notes
//! are only appended, the handoff is written once, and sub-agents never
//! overwrite the context.

use vstd::prelude::*;

use crate::text::{
    lines, push_lines,
    chars_of, join_path, occurs_at, occurs_at_exec, own, path_join, push_chars, push_str,
    seq_contains, str_eq, string_from_chars, trim_end, trim_end_chars, views,
};

verus! {

/// What the orchestrator writes into a new tentacle.
#[derive(Debug, Clone)]
pub struct TentacleSpec {
    pub task_title: String,
    pub scope_summary: String,
    pub key_files: Vec<String>,
    pub constraints: Vec<String>,
    pub do_not_break: Vec<String>,
    pub todo_steps: Vec<String>,
}

/// The text of `CONTEXT.md` for a spec.
pub open spec fn context_text(s: TentacleSpec) -> Seq<char> {
    "# 任务作用域\n\n"@ + s.task_title@ + "\n\n"@ + "## 范围\n\n"@ + s.scope_summary@ + "\n\n## 关键文件\n\n"@
        + lines("- "@, views(s.key_files@)) + "\n## 约束\n\n"@ + lines("- "@, views(s.constraints@))
        + if s.do_not_break@.len() > 0 {
        "\n## 不要破坏\n\n"@ + lines("- "@, views(s.do_not_break@))
    } else {
        Seq::empty()
    }
}

/// The text of `todo.md` for a spec: one unchecked box per step.
pub open spec fn todo_text(s: TentacleSpec) -> Seq<char> {
    "# 执行计划\n\n"@ + lines("- [ ] "@, views(s.todo_steps@))
}

impl TentacleSpec {
    /// The text of `CONTEXT.md`: title, scope, key files, constraints and,
    /// when there are any, the things not to break.
    pub fn render_context(&self) -> (r: String)
        ensures
            r@ == context_text(*self),
    {
        let mut s: Vec<char> = Vec::new();
        push_str(&mut s, "# 任务作用域\n\n");
        push_str(&mut s, self.task_title.as_str());
        push_str(&mut s, "\n\n");
        push_str(&mut s, "## 范围\n\n");
        push_str(&mut s, self.scope_summary.as_str());
        push_str(&mut s, "\n\n## 关键文件\n\n");
        push_lines(&mut s, "- ", &self.key_files);
        push_str(&mut s, "\n## 约束\n\n");
        push_lines(&mut s, "- ", &self.constraints);
        if self.do_not_break.len() > 0 {
            push_str(&mut s, "\n## 不要破坏\n\n");
            push_lines(&mut s, "- ", &self.do_not_break);
        }
        assert(s@ =~= context_text(*self));
        string_from_chars(&s)
    }

    /// The text of `todo.md`: one unchecked box per step.
    pub fn render_todo(&self) -> (r: String)
        ensures
            r@ == todo_text(*self),
    {
        let mut s: Vec<char> = Vec::new();
        push_str(&mut s, "# 执行计划\n\n");
        push_lines(&mut s, "- [ ] ", &self.todo_steps);
        string_from_chars(&s)
    }
}

/// The files of a tentacle directory.
#[derive(Debug, Clone)]
pub struct TentaclePaths {
    pub root: String,
    pub context_md: String,
    pub todo_md: String,
    pub notes_md: String,
    pub handoff_md: String,
}

impl TentaclePaths {
    /// The files under `root`.
    pub fn from_root(root: &str) -> (r: Self)
        ensures
            r.root@ == root@,
            r.context_md@ == path_join(root@, "CONTEXT.md"@),
            r.todo_md@ == path_join(root@, "todo.md"@),
            r.notes_md@ == path_join(root@, "NOTES.md"@),
            r.handoff_md@ == path_join(root@, "HANDOFF.md"@),
    {
        TentaclePaths {
            context_md: join_path(root, "CONTEXT.md"),
            todo_md: join_path(root, "todo.md"),
            notes_md: join_path(root, "NOTES.md"),
            handoff_md: join_path(root, "HANDOFF.md"),
            root: own(root),
        }
    }
}

/// A tentacle directory.
#[derive(Debug, Clone)]
pub struct Tentacle {
    paths: TentaclePaths,
}

/// Materialises tentacle directories (the file writes are done by the caller).
#[derive(Debug, Clone, Copy)]
pub struct TentacleGenerator;

impl Tentacle {
    /// The tentacle whose files are `paths`.
    pub fn at(paths: TentaclePaths) -> (r: Self)
        ensures
            r.paths_view() == paths,
    {
        Tentacle { paths }
    }

    /// The tentacle's files.
    pub closed spec fn paths_view(&self) -> TentaclePaths {
        self.paths
    }

    /// The tentacle's files.
    pub fn paths(&self) -> (r: &TentaclePaths)
        ensures
            *r == self.paths_view(),
    {
        &self.paths
    }

    /// Sub-agents may not replace `CONTEXT.md`: always refused.
    pub fn try_overwrite_context(&self, body: &str) -> (r: Result<(), String>)
        ensures
            r matches Err(e) && e@ == "CONTEXT.md is write-protected; only the orchestrator can replace it"@,
    {
        Err(own("CONTEXT.md is write-protected; only the orchestrator can replace it"))
    }
}

/// `HANDOFF.md` is written once: refused when it already exists.
pub fn handoff_write_allowed(exists: bool) -> (r: Result<(), String>)
    ensures
        exists <==> r is Err,
        r matches Err(e) ==> e@ == "HANDOFF.md already written"@,
{
    if exists {
        Err(own("HANDOFF.md already written"))
    } else {
        Ok(())
    }
}

/// The first position where `needle` occurs in `hay`, or `-1`.
pub open spec fn first_occurrence(hay: Seq<char>, needle: Seq<char>) -> int {
    if seq_contains(hay, needle) {
        choose|i: int| occurs_at(hay, needle, i) && forall|j: int| 0 <= j < i ==> !occurs_at(hay, needle, j)
    } else {
        -1
    }
}

/// `hay` with its first occurrence of `needle` replaced by `by` (the first
/// occurrence starts at `i`).
pub open spec fn replace_at(hay: Seq<char>, needle: Seq<char>, by: Seq<char>, i: int) -> Seq<char> {
    hay.take(i) + by + hay.skip(i + needle.len())
}

/// The unchecked line of a todo step.
pub open spec fn unchecked(text: Seq<char>) -> Seq<char> {
    "- [ ] "@ + text
}

/// The checked line of a todo step.
pub open spec fn checked(text: Seq<char>) -> Seq<char> {
    "- [x] "@ + text
}

fn first_index(hay: &Vec<char>, needle: &Vec<char>) -> (r: Option<usize>)
    ensures
        match r {
            Some(i) => occurs_at(hay@, needle@, i as int) && forall|j: int| 0 <= j < i ==> !occurs_at(hay@, needle@, j),
            None => !seq_contains(hay@, needle@),
        },
{
    if needle.len() > hay.len() {
        return None;
    }
    let last = hay.len() - needle.len();
    let mut i: usize = 0;
    while i <= last
        invariant
            last == hay.len() - needle.len(),
            needle.len() <= hay.len(),
            forall|j: int| 0 <= j < i ==> !occurs_at(hay@, needle@, j),
        decreases last + 1 - i,
    {
        if occurs_at_exec(hay, needle, i) {
            return Some(i);
        }
        if i == last {
            assert forall|j: int| !occurs_at(hay@, needle@, j) by {
                if 0 <= j && j <= last {
                }
            }
            return None;
        }
        i = i + 1;
    }
    None
}

/// Ticks the checkbox of `todo_text` in the `todo.md` text `body`: the
/// first `- [ ] <todo_text>` becomes `- [x] <todo_text>`; `Err` when there
/// is no such unchecked line.
pub fn tick_todo(body: &str, todo_text: &str) -> (r: Result<String, String>)
    ensures
        match r {
            Ok(t) => seq_contains(body@, unchecked(todo_text@)) && t@ == replace_at(
                body@,
                unchecked(todo_text@),
                checked(todo_text@),
                first_occurrence(body@, unchecked(todo_text@)),
            ),
            Err(e) => !seq_contains(body@, unchecked(todo_text@)) && e@ == "todo.md does not contain `"@
                + todo_text@ + "`"@,
        },
{
    let b = chars_of(body);
    let mut needle: Vec<char> = Vec::new();
    push_str(&mut needle, "- [ ] ");
    push_str(&mut needle, todo_text);
    let mut done: Vec<char> = Vec::new();
    push_str(&mut done, "- [x] ");
    push_str(&mut done, todo_text);
    match first_index(&b, &needle) {
        None => {
            let mut m: Vec<char> = Vec::new();
            push_str(&mut m, "todo.md does not contain `");
            push_str(&mut m, todo_text);
            push_str(&mut m, "`");
            Err(string_from_chars(&m))
        },
        Some(i) => {
            proof {
                let n = unchecked(todo_text@);
                assert(needle@ =~= n);
                assert(seq_contains(body@, n));
                let c = first_occurrence(body@, n);
                assert(occurs_at(body@, n, c) && forall|j: int| 0 <= j < c ==> !occurs_at(body@, n, j));
                assert(b@ == body@);
                if c < i {
                    assert(!occurs_at(b@, needle@, c));
                    assert(false);
                } else if c > i {
                    assert(!occurs_at(body@, n, i as int));
                    assert(false);
                }
                assert(c == i);
            }
            let mut out: Vec<char> = Vec::new();
            let mut k: usize = 0;
            while k < i
                invariant
                    k <= i,
                    i + needle.len() <= b.len(),
                    out@ == b@.take(k as int),
                decreases i - k,
            {
                out.push(b[k]);
                k = k + 1;
                assert(out@ =~= b@.take(k as int));
            }
            push_chars(&mut out, &done);
            let mut k2: usize = i + needle.len();
            let ghost prefix = out@;
            while k2 < b.len()
                invariant
                    i + needle.len() <= k2 <= b.len(),
                    out@ == prefix + b@.subrange(i + needle.len(), k2 as int),
                decreases b.len() - k2,
            {
                out.push(b[k2]);
                k2 = k2 + 1;
                assert(out@ =~= prefix + b@.subrange(i + needle.len(), k2 as int));
            }
            assert(b@.subrange(i + needle.len(), b.len() as int) =~= b@.skip(i + needle.len()));
            assert(done@ =~= checked(todo_text@));
            Ok(string_from_chars(&out))
        },
    }
}

/// Ticking keeps the text's length (the two checkbox forms are equally
/// long) and leaves the step checked.
pub proof fn lemma_tick_effect(body: Seq<char>, text: Seq<char>, i: int)
    requires
        occurs_at(body, unchecked(text), i),
    ensures
        replace_at(body, unchecked(text), checked(text), i).len() == body.len(),
        seq_contains(replace_at(body, unchecked(text), checked(text), i), checked(text)),
{
    reveal_strlit("- [ ] ");
    reveal_strlit("- [x] ");
    let r = replace_at(body, unchecked(text), checked(text), i);
    assert(r.subrange(i, i + checked(text).len()) =~= checked(text));
    assert(occurs_at(r, checked(text), i));
}

/// `NOTES.md` after appending `line`: a newline closes a last line that
/// lacks one, then `- <line without trailing whitespace>\n`.
pub open spec fn appended_notes(existing: Seq<char>, line: Seq<char>) -> Seq<char> {
    (if existing.len() > 0 && existing.last() != '\n' {
        existing.push('\n')
    } else {
        existing
    }) + "- "@ + trim_end(line) + "\n"@
}

/// The notes text after appending `line`.
pub fn append_note_text(existing: &str, line: &str) -> (r: String)
    ensures
        r@ == appended_notes(existing@, line@),
{
    let mut out = chars_of(existing);
    if out.len() > 0 && out[out.len() - 1] != '\n' {
        out.push('\n');
    }
    push_str(&mut out, "- ");
    let l = chars_of(line);
    let t = trim_end_chars(&l);
    push_chars(&mut out, &t);
    push_str(&mut out, "\n");
    string_from_chars(&out)
}

/// Appending a note keeps everything that was there.
pub proof fn lemma_notes_append_only(existing: Seq<char>, line: Seq<char>)
    ensures
        appended_notes(existing, line).take(existing.len() as int) == existing,
{
    assert(appended_notes(existing, line).take(existing.len() as int) =~= existing);
}

/// A granted tentacle file lock; give it back with [`TentacleLocks::unlock`].
#[derive(Debug)]
pub struct LockGuard {
    key: String,
}

impl LockGuard {
    /// The lock's key, `<kind>::<root>`.
    pub closed spec fn key_view(&self) -> Seq<char> {
        self.key@
    }

    /// The lock's key.
    pub fn key(&self) -> (r: &str)
        ensures
            r@ == self.key_view(),
    {
        self.key.as_str()
    }
}

/// Short-lived locks on tentacle files, keyed by `<kind>::<root>`; a lock
/// older than thirty seconds counts as stale and may be taken over.
#[derive(Debug)]
pub struct TentacleLocks {
    held: Vec<(String, i64)>,
}

/// The key of a lock of `kind` on the tentacle at `root`.
pub open spec fn lock_key(kind: Seq<char>, root: Seq<char>) -> Seq<char> {
    kind + "::"@ + root
}

impl TentacleLocks {
    /// Since when `key` is held, if it is.
    pub closed spec fn held_since(&self, key: Seq<char>) -> Option<i64> {
        if exists|i: int| 0 <= i < self.held@.len() && self.held@[i].0@ == key {
            let i = choose|i: int| 0 <= i < self.held@.len() && self.held@[i].0@ == key;
            Some(self.held@[i].1)
        } else {
            None
        }
    }

    /// No key is listed twice.
    pub closed spec fn inv(&self) -> bool {
        forall|i: int, j: int|
            0 <= i < self.held@.len() && 0 <= j < self.held@.len() && i != j ==> self.held@[i].0@ != self.held@[j].0@
    }

    /// No lock held.
    pub fn new() -> (r: Self)
        ensures
            r.inv(),
            forall|k: Seq<char>| r.held_since(k).is_none(),
    {
        TentacleLocks { held: Vec::new() }
    }

    fn position(&self, key: &str) -> (r: Option<usize>)
        requires
            self.inv(),
        ensures
            match r {
                Some(i) => i < self.held@.len() && self.held@[i as int].0@ == key@ && self.held_since(key@) == Some(self.held@[i as int].1),
                None => self.held_since(key@).is_none(),
            },
    {
        let mut i: usize = 0;
        while i < self.held.len()
            invariant
                self.inv(),
                i <= self.held.len(),
                forall|j: int| 0 <= j < i ==> self.held@[j].0@ != key@,
            decreases self.held.len() - i,
        {
            if str_eq(self.held[i].0.as_str(), key) {
                proof {
                    assert(self.held@[i as int].0@ == key@);
                    let c = choose|c: int| 0 <= c < self.held@.len() && self.held@[c].0@ == key@;
                    if c != i {
                        assert(self.held@[c].0@ != self.held@[i as int].0@);
                    }
                }
                return Some(i);
            }
            i = i + 1;
        }
        None
    }

    /// Takes the lock of `kind` on `root` at `now` (milliseconds): refused
    /// while another holder took it less than thirty seconds ago.
    pub fn lock(&mut self, kind: &str, root: &str, now: i64) -> (r: Result<LockGuard, String>)
        requires
            old(self).inv(),
        ensures
            final(self).inv(),
            match old(self).held_since(lock_key(kind@, root@)) {
                Some(t) if now - t < 30_000 => r is Err && final(self).held_since(lock_key(kind@, root@)) == Some(t),
                _ => r matches Ok(g) && g.key_view() == lock_key(kind@, root@)
                    && final(self).held_since(lock_key(kind@, root@)) == Some(now),
            },
            forall|k: Seq<char>| k != lock_key(kind@, root@) ==> final(self).held_since(k) == old(self).held_since(k),
    {
        let mut kv: Vec<char> = Vec::new();
        push_str(&mut kv, kind);
        push_str(&mut kv, "::");
        push_str(&mut kv, root);
        let key = string_from_chars(&kv);
        assert(key@ == lock_key(kind@, root@));
        match self.position(key.as_str()) {
            Some(i) => {
                let t = self.held[i].1;
                if (now as i128) - (t as i128) < 30_000 {
                    let mut m: Vec<char> = Vec::new();
                    push_str(&mut m, "tentacle lock busy: kind=");
                    push_str(&mut m, kind);
                    push_str(&mut m, " root=");
                    push_str(&mut m, root);
                    return Err(string_from_chars(&m));
                }
                let ghost before = self.held@;
                self.held.set(i, (key.clone(), now));
                proof {
                    assert forall|k: Seq<char>| k != key@ implies self.held_since(k) == old(self).held_since(k) by {
                        if exists|j: int| 0 <= j < before.len() && before[j].0@ == k {
                            let j = choose|j: int| 0 <= j < before.len() && before[j].0@ == k;
                            assert(self.held@[j].0@ == k);
                        }
                        if exists|j: int| 0 <= j < self.held@.len() && self.held@[j].0@ == k {
                            let j = choose|j: int| 0 <= j < self.held@.len() && self.held@[j].0@ == k;
                            assert(before[j].0@ == k);
                        }
                    }
                    assert(self.held@[i as int].0@ == key@);
                }
                Ok(LockGuard { key })
            },
            None => {
                let ghost before = self.held@;
                self.held.push((key.clone(), now));
                proof {
                    assert(self.held@[before.len() as int].0@ == key@);
                    assert forall|k: Seq<char>| k != key@ implies self.held_since(k) == old(self).held_since(k) by {
                        if exists|j: int| 0 <= j < before.len() && before[j].0@ == k {
                            let j = choose|j: int| 0 <= j < before.len() && before[j].0@ == k;
                            assert(self.held@[j].0@ == k);
                        }
                        if exists|j: int| 0 <= j < self.held@.len() && self.held@[j].0@ == k {
                            let j = choose|j: int| 0 <= j < self.held@.len() && self.held@[j].0@ == k;
                            assert(before[j].0@ == k);
                        }
                    }
                }
                Ok(LockGuard { key })
            },
        }
    }

    /// Gives a lock back.
    pub fn unlock(&mut self, guard: &LockGuard)
        requires
            old(self).inv(),
        ensures
            final(self).inv(),
            final(self).held_since(guard.key_view()).is_none(),
            forall|k: Seq<char>| k != guard.key_view() ==> final(self).held_since(k) == old(self).held_since(k),
    {
        match self.position(guard.key.as_str()) {
            None => {},
            Some(i) => {
                let ghost before = self.held@;
                self.held.remove(i);
                proof {
                    assert forall|k: Seq<char>| k != guard.key@ implies self.held_since(k) == old(self).held_since(k) by {
                        if exists|j: int| 0 <= j < before.len() && before[j].0@ == k {
                            let j = choose|j: int| 0 <= j < before.len() && before[j].0@ == k;
                            assert(j != i);
                            let j2 = if j < i { j } else { j - 1 };
                            assert(self.held@[j2].0@ == k);
                        }
                        if exists|j: int| 0 <= j < self.held@.len() && self.held@[j].0@ == k {
                            let j = choose|j: int| 0 <= j < self.held@.len() && self.held@[j].0@ == k;
                            let j2 = if j < i { j } else { j + 1 };
                            assert(before[j2].0@ == k);
                        }
                    }
                    if exists|j: int| 0 <= j < self.held@.len() && self.held@[j].0@ == guard.key@ {
                        let j = choose|j: int| 0 <= j < self.held@.len() && self.held@[j].0@ == guard.key@;
                        let j2 = if j < i { j } else { j + 1 };
                        assert(before[j2].0@ == guard.key@);
                    }
                }
            },
        }
    }
}

} // verus!
