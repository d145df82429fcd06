//! Tool sandbox policy: per-tool program allowlists, argument length
//! limits, forbidden patterns and working-directory restrictions, checked
//! before any process is spawned.

use vstd::prelude::*;
use vstd::utf8::encode_utf8;

use crate::text::{
    chars_of, contains, join, join_strings, opt_str_view, own, seq_contains, seq_has, seq_starts_with, str_eq,
    str_starts_with, string_from_chars, views,
};

verus! {

/// The policy applied to a tool invocation.
#[derive(Debug, Clone)]
pub struct SandboxSpec {
    /// Programs that may be executed. Empty means nothing is allowed.
    pub allowed_programs: Vec<String>,
    /// Substrings that, found in the joined arguments or the program,
    /// force a denial.
    pub forbidden_patterns: Vec<String>,
    /// Maximum byte length of the space-joined arguments; `None` is unbounded.
    pub max_args_length: Option<usize>,
    /// Working directories (as prefixes) the tool may run in. Empty
    /// means any directory.
    pub allowed_cwds: Vec<String>,
}

/// Why a sandbox refused an invocation.
#[derive(Debug, Clone, PartialEq, Eq)]
pub enum SandboxDenial {
    ProgramNotAllowed(String),
    ArgsTooLong(usize, usize),
    ForbiddenPattern(String),
    CwdNotAllowed(String),
}

/// The mathematical value of a [`SandboxDenial`].
pub enum DenialView {
    ProgramNotAllowed(Seq<char>),
    ArgsTooLong(nat, nat),
    ForbiddenPattern(Seq<char>),
    CwdNotAllowed(Seq<char>),
}

impl View for SandboxDenial {
    type V = DenialView;

    open spec fn view(&self) -> DenialView {
        match self {
            SandboxDenial::ProgramNotAllowed(p) => DenialView::ProgramNotAllowed(p@),
            SandboxDenial::ArgsTooLong(n, l) => DenialView::ArgsTooLong(*n as nat, *l as nat),
            SandboxDenial::ForbiddenPattern(p) => DenialView::ForbiddenPattern(p@),
            SandboxDenial::CwdNotAllowed(c) => DenialView::CwdNotAllowed(c@),
        }
    }
}

/// The pattern `p` is found in the joined arguments or in the program.
pub open spec fn pattern_hits(p: Seq<char>, combined: Seq<char>, program: Seq<char>) -> bool {
    seq_contains(combined, p) || seq_contains(program, p)
}

/// The index of the first pattern, at or after `k`, that hits; `-1` when none does.
pub open spec fn first_hit(
    pats: Seq<Seq<char>>,
    combined: Seq<char>,
    program: Seq<char>,
    k: int,
) -> int
    decreases pats.len() - k,
{
    if k < 0 || k >= pats.len() {
        -1
    } else if pattern_hits(pats[k], combined, program) {
        k
    } else {
        first_hit(pats, combined, program, k + 1)
    }
}

/// The length in bytes that `str::len` reports for text `s` (its UTF-8
/// encoding).
pub open spec fn byte_len(s: Seq<char>) -> usize {
    encode_utf8(s).len() as usize
}

/// The patterns that `SandboxSpec::deny_all` forbids.
pub open spec fn default_forbidden_spec() -> Seq<Seq<char>> {
    seq![
        "rm -rf /"@,
        ":(){"@,
        "/dev/sda"@,
        "mkfs."@,
        "dd if=/dev/zero"@,
        "shutdown"@,
        "reboot"@,
    ]
}

/// The patterns forbidden by default: the obvious self-harm commands.
pub fn default_forbidden() -> (r: Vec<String>)
    ensures
        views(r@) == default_forbidden_spec(),
{
    let mut v: Vec<String> = Vec::new();
    v.push(own("rm -rf /"));
    v.push(own(":(){"));
    v.push(own("/dev/sda"));
    v.push(own("mkfs."));
    v.push(own("dd if=/dev/zero"));
    v.push(own("shutdown"));
    v.push(own("reboot"));
    assert(views(v@) =~= default_forbidden_spec());
    v
}

impl SandboxSpec {
    /// The program is on the allowlist.
    pub open spec fn permits_program(&self, program: Seq<char>) -> bool {
        seq_has(views(self.allowed_programs@), program)
    }

    /// The joined arguments are longer (in UTF-8 bytes) than the limit.
    pub open spec fn args_too_long(&self, combined: Seq<char>) -> bool {
        match self.max_args_length {
            Some(limit) => byte_len(combined) > limit,
            None => false,
        }
    }

    /// The working directory is refused: a restriction is set and no
    /// allowed directory is a prefix of it.
    pub open spec fn cwd_refused(&self, cwd: Option<Seq<char>>) -> bool {
        match cwd {
            Some(c) => self.allowed_cwds.len() > 0 && !(exists|i: int|
                0 <= i < self.allowed_cwds.len() && seq_starts_with(c, #[trigger] self.allowed_cwds@[i]@)),
            None => false,
        }
    }

    /// The verdict on running `program` with `args` in `cwd`: `None` when
    /// the invocation is admitted, otherwise the first check that fails,
    /// in the order program, argument length, forbidden patterns, cwd.
    pub open spec fn verdict(
        &self,
        program: Seq<char>,
        args: Seq<Seq<char>>,
        cwd: Option<Seq<char>>,
    ) -> Option<DenialView> {
        let combined = join(args, seq![' ']);
        let hit = first_hit(views(self.forbidden_patterns@), combined, program, 0);
        if !self.permits_program(program) {
            Some(DenialView::ProgramNotAllowed(program))
        } else if self.args_too_long(combined) {
            Some(
                DenialView::ArgsTooLong(
                    byte_len(combined) as nat,
                    self.max_args_length.unwrap() as nat,
                ),
            )
        } else if hit >= 0 {
            Some(DenialView::ForbiddenPattern(self.forbidden_patterns@[hit]@))
        } else if self.cwd_refused(cwd) {
            Some(DenialView::CwdNotAllowed(cwd.unwrap()))
        } else {
            None
        }
    }

    /// Conservative default: no program allowed, the default forbidden
    /// patterns, an 8192-byte argument limit, no cwd restriction.
    pub fn deny_all() -> (r: Self)
        ensures
            r.allowed_programs@.len() == 0,
            views(r.forbidden_patterns@) == default_forbidden_spec(),
            r.max_args_length == Some(8192usize),
            r.allowed_cwds@.len() == 0,
    {
        SandboxSpec {
            allowed_programs: Vec::new(),
            forbidden_patterns: default_forbidden(),
            max_args_length: Some(8192),
            allowed_cwds: Vec::new(),
        }
    }

    /// Adds `program` to the allowlist.
    pub fn allow_program(self, program: &str) -> (r: Self)
        ensures
            views(r.allowed_programs@) == views(self.allowed_programs@).push(program@),
            r.forbidden_patterns == self.forbidden_patterns,
            r.max_args_length == self.max_args_length,
            r.allowed_cwds == self.allowed_cwds,
    {
        let mut s = self;
        s.allowed_programs.push(own(program));
        assert(views(s.allowed_programs@) =~= views(self.allowed_programs@).push(program@));
        s
    }

    /// Adds `cwd` to the allowed working directories.
    pub fn allow_cwd(self, cwd: &str) -> (r: Self)
        ensures
            views(r.allowed_cwds@) == views(self.allowed_cwds@).push(cwd@),
            r.allowed_programs == self.allowed_programs,
            r.forbidden_patterns == self.forbidden_patterns,
            r.max_args_length == self.max_args_length,
    {
        let mut s = self;
        s.allowed_cwds.push(own(cwd));
        assert(views(s.allowed_cwds@) =~= views(self.allowed_cwds@).push(cwd@));
        s
    }

    /// Adds `pattern` to the forbidden patterns.
    pub fn forbid(self, pattern: &str) -> (r: Self)
        ensures
            views(r.forbidden_patterns@) == views(self.forbidden_patterns@).push(pattern@),
            r.allowed_programs == self.allowed_programs,
            r.max_args_length == self.max_args_length,
            r.allowed_cwds == self.allowed_cwds,
    {
        let mut s = self;
        s.forbidden_patterns.push(own(pattern));
        assert(views(s.forbidden_patterns@) =~= views(self.forbidden_patterns@).push(pattern@));
        s
    }

    fn program_allowed(&self, program: &str) -> (r: bool)
        ensures
            r == self.permits_program(program@),
    {
        let mut i: usize = 0;
        while i < self.allowed_programs.len()
            invariant
                i <= self.allowed_programs.len(),
                forall|j: int| 0 <= j < i ==> self.allowed_programs@[j]@ != program@,
            decreases self.allowed_programs.len() - i,
        {
            if str_eq(self.allowed_programs[i].as_str(), program) {
                assert(views(self.allowed_programs@)[i as int] == program@);
                return true;
            }
            i = i + 1;
        }
        false
    }

    fn cwd_allowed(&self, c: &str) -> (r: bool)
        ensures
            r == !self.cwd_refused(Some(c@)),
    {
        if self.allowed_cwds.len() == 0 {
            return true;
        }
        let mut i: usize = 0;
        while i < self.allowed_cwds.len()
            invariant
                i <= self.allowed_cwds.len(),
                forall|j: int| 0 <= j < i ==> !seq_starts_with(c@, #[trigger] self.allowed_cwds@[j]@),
            decreases self.allowed_cwds.len() - i,
        {
            if str_starts_with(c, self.allowed_cwds[i].as_str()) {
                return true;
            }
            i = i + 1;
        }
        false
    }

    /// Checks an invocation against the policy; `Err` carries the first
    /// check that fails (see [`SandboxSpec::verdict`]).
    pub fn validate(&self, program: &str, args: &[String], cwd: Option<&str>) -> (r: Result<
        (),
        SandboxDenial,
    >)
        ensures
            match r {
                Ok(()) => self.verdict(program@, views(args@), opt_str_view(cwd)).is_none(),
                Err(d) => self.verdict(program@, views(args@), opt_str_view(cwd)) == Some(d@),
            },
    {
        if !self.program_allowed(program) {
            return Err(SandboxDenial::ProgramNotAllowed(own(program)));
        }
        let combined_chars = join_strings(args, " ");
        let combined = string_from_chars(&combined_chars);
        let ghost comb = join(views(args@), seq![' ']);
        assert(" "@ == seq![' ']) by {
            reveal_strlit(" ");
        }
        assert(combined@ == comb);
        let n = combined.as_str().len();
        if let Some(limit) = self.max_args_length {
            if n > limit {
                return Err(SandboxDenial::ArgsTooLong(n, limit));
            }
        }
        assert(n == byte_len(comb));
        assert(!self.args_too_long(comb));
        let prog_chars = chars_of(program);
        let ghost pats = views(self.forbidden_patterns@);
        let mut k: usize = 0;
        while k < self.forbidden_patterns.len()
            invariant
                k <= self.forbidden_patterns.len(),
                pats == views(self.forbidden_patterns@),
                combined_chars@ == comb,
                prog_chars@ == program@,
                first_hit(pats, comb, program@, 0) == first_hit(pats, comb, program@, k as int),
                comb == join(views(args@), seq![' ']),
                self.permits_program(program@),
                !self.args_too_long(comb),
            decreases self.forbidden_patterns.len() - k,
        {
            let pat = chars_of(self.forbidden_patterns[k].as_str());
            assert(pat@ == pats[k as int]);
            if contains(&combined_chars, &pat) || contains(&prog_chars, &pat) {
                assert(pattern_hits(pats[k as int], comb, program@));
                assert(first_hit(pats, comb, program@, k as int) == k);
                let p = self.forbidden_patterns[k].clone();
                assert(p@ == self.forbidden_patterns@[k as int]@);
                assert(self.verdict(program@, views(args@), opt_str_view(cwd)) == Some(
                    DenialView::ForbiddenPattern(p@),
                ));
                return Err(SandboxDenial::ForbiddenPattern(p));
            }
            k = k + 1;
        }
        assert(first_hit(pats, comb, program@, k as int) == -1);
        if let Some(c) = cwd {
            if !self.cwd_allowed(c) {
                return Err(SandboxDenial::CwdNotAllowed(own(c)));
            }
        }
        Ok(())
    }
}

impl Default for SandboxSpec {
    /// Nothing allowed, nothing forbidden, no limits.
    fn default() -> (r: Self)
        ensures
            r.allowed_programs@.len() == 0,
            r.forbidden_patterns@.len() == 0,
            r.max_args_length.is_none(),
            r.allowed_cwds@.len() == 0,
    {
        SandboxSpec {
            allowed_programs: Vec::new(),
            forbidden_patterns: Vec::new(),
            max_args_length: None,
            allowed_cwds: Vec::new(),
        }
    }
}

} // verus!
