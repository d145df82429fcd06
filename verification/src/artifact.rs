//! Artifacts: what sub-tasks produce. The orchestrator only ever sees an
//! artifact's title, summary and content reference, which keeps its context
//! bounded.

use vstd::prelude::*;

use crate::text::{opt_str_view, opt_view, own, own_opt, str_eq};

verus! {

/// What an artifact is.
#[derive(Debug, Clone, Copy, PartialEq, Eq, Structural)]
pub enum ArtifactKind {
    File,
    CodePatch,
    Analysis,
    SearchResult,
    Config,
    Note,
    Walkthrough,
}

/// The wire name of each [`ArtifactKind`] value.
pub open spec fn artifact_kind_name(x: ArtifactKind) -> Seq<char> {
    match x {
        ArtifactKind::File => "file"@,
        ArtifactKind::CodePatch => "code_patch"@,
        ArtifactKind::Analysis => "analysis"@,
        ArtifactKind::SearchResult => "search_result"@,
        ArtifactKind::Config => "config"@,
        ArtifactKind::Note => "note"@,
        ArtifactKind::Walkthrough => "walkthrough"@,
    }
}

/// The value that `ArtifactKind::parse` gives for `s`: the variant whose wire
/// name is `s`, or `Note` for any other text.
pub open spec fn artifact_kind_parsed(s: Seq<char>) -> ArtifactKind {
    if s == "file"@ {
        ArtifactKind::File
    } else if s == "code_patch"@ {
        ArtifactKind::CodePatch
    } else if s == "analysis"@ {
        ArtifactKind::Analysis
    } else if s == "search_result"@ {
        ArtifactKind::SearchResult
    } else if s == "config"@ {
        ArtifactKind::Config
    } else if s == "note"@ {
        ArtifactKind::Note
    } else if s == "walkthrough"@ {
        ArtifactKind::Walkthrough
    } else {
        ArtifactKind::Note
    }
}

impl ArtifactKind {
    /// The wire name of the value.
    pub fn as_str(&self) -> (r: &'static str)
        ensures
            r@ == artifact_kind_name(*self),
    {
        match self {
            ArtifactKind::File => "file",
            ArtifactKind::CodePatch => "code_patch",
            ArtifactKind::Analysis => "analysis",
            ArtifactKind::SearchResult => "search_result",
            ArtifactKind::Config => "config",
            ArtifactKind::Note => "note",
            ArtifactKind::Walkthrough => "walkthrough",
        }
    }

    /// Reads a wire name; unknown text gives `Note`.
    pub fn parse(s: &str) -> (r: Self)
        ensures
            r == artifact_kind_parsed(s@),
    {
        if str_eq(s, "file") {
            ArtifactKind::File
        } else if str_eq(s, "code_patch") {
            ArtifactKind::CodePatch
        } else if str_eq(s, "analysis") {
            ArtifactKind::Analysis
        } else if str_eq(s, "search_result") {
            ArtifactKind::SearchResult
        } else if str_eq(s, "config") {
            ArtifactKind::Config
        } else if str_eq(s, "note") {
            ArtifactKind::Note
        } else if str_eq(s, "walkthrough") {
            ArtifactKind::Walkthrough
        } else {
            ArtifactKind::Note
        }
    }
}

/// Reading back the wire name of any value gives that value.
pub proof fn lemma_artifact_kind_round_trip(x: ArtifactKind)
    ensures
        artifact_kind_parsed(artifact_kind_name(x)) == x,
{
    reveal_strlit("file");
    reveal_strlit("code_patch");
    reveal_strlit("analysis");
    reveal_strlit("search_result");
    reveal_strlit("config");
    reveal_strlit("note");
    reveal_strlit("walkthrough");
    assert("file"@.len() != "code_patch"@.len());
    assert("file"@ != "code_patch"@);
    assert("file"@.len() != "analysis"@.len());
    assert("file"@ != "analysis"@);
    assert("file"@.len() != "search_result"@.len());
    assert("file"@ != "search_result"@);
    assert("file"@.len() != "config"@.len());
    assert("file"@ != "config"@);
    assert("file"@[0] != "note"@[0]);
    assert("file"@ != "note"@);
    assert("file"@.len() != "walkthrough"@.len());
    assert("file"@ != "walkthrough"@);
    assert("code_patch"@.len() != "analysis"@.len());
    assert("code_patch"@ != "analysis"@);
    assert("code_patch"@.len() != "search_result"@.len());
    assert("code_patch"@ != "search_result"@);
    assert("code_patch"@.len() != "config"@.len());
    assert("code_patch"@ != "config"@);
    assert("code_patch"@.len() != "note"@.len());
    assert("code_patch"@ != "note"@);
    assert("code_patch"@.len() != "walkthrough"@.len());
    assert("code_patch"@ != "walkthrough"@);
    assert("analysis"@.len() != "search_result"@.len());
    assert("analysis"@ != "search_result"@);
    assert("analysis"@.len() != "config"@.len());
    assert("analysis"@ != "config"@);
    assert("analysis"@.len() != "note"@.len());
    assert("analysis"@ != "note"@);
    assert("analysis"@.len() != "walkthrough"@.len());
    assert("analysis"@ != "walkthrough"@);
    assert("search_result"@.len() != "config"@.len());
    assert("search_result"@ != "config"@);
    assert("search_result"@.len() != "note"@.len());
    assert("search_result"@ != "note"@);
    assert("search_result"@.len() != "walkthrough"@.len());
    assert("search_result"@ != "walkthrough"@);
    assert("config"@.len() != "note"@.len());
    assert("config"@ != "note"@);
    assert("config"@.len() != "walkthrough"@.len());
    assert("config"@ != "walkthrough"@);
    assert("note"@.len() != "walkthrough"@.len());
    assert("note"@ != "walkthrough"@);
}

/// A registered artifact. Timestamps are milliseconds since the Unix epoch.
#[derive(Debug, Clone)]
pub struct Artifact {
    pub id: String,
    pub task_node_id: Option<String>,
    pub session_id: String,
    pub trace_id: Option<String>,
    pub kind: ArtifactKind,
    pub title: String,
    pub summary: String,
    pub content_ref: String,
    pub size_bytes: Option<u64>,
    pub token_estimate: Option<u32>,
    pub created_at: i64,
    pub expires_at: Option<i64>,
}

/// The index entry of an artifact.
#[derive(Debug, Clone)]
pub struct ArtifactSummary {
    pub id: String,
    pub kind: ArtifactKind,
    pub title: String,
    pub summary: String,
    pub created_at: i64,
}

impl Artifact {
    /// A fresh artifact `id` of `kind` for `session_id`, made at `now`: no
    /// trace, size, token estimate or expiry yet.
    pub fn create(
        id: &str,
        session_id: &str,
        kind: ArtifactKind,
        title: &str,
        summary: &str,
        content_ref: &str,
        task_node_id: Option<&str>,
        now: i64,
    ) -> (r: Self)
        ensures
            r.id@ == id@,
            opt_view(r.task_node_id) == opt_str_view(task_node_id),
            r.session_id@ == session_id@,
            r.trace_id.is_none(),
            r.kind == kind,
            r.title@ == title@,
            r.summary@ == summary@,
            r.content_ref@ == content_ref@,
            r.size_bytes.is_none(),
            r.token_estimate.is_none(),
            r.created_at == now,
            r.expires_at.is_none(),
    {
        Artifact {
            id: own(id),
            task_node_id: own_opt(task_node_id),
            session_id: own(session_id),
            trace_id: None,
            kind,
            title: own(title),
            summary: own(summary),
            content_ref: own(content_ref),
            size_bytes: None,
            token_estimate: None,
            created_at: now,
            expires_at: None,
        }
    }

    /// The artifact's index entry.
    pub fn index_entry(&self) -> (r: ArtifactSummary)
        ensures
            r.id@ == self.id@,
            r.kind == self.kind,
            r.title@ == self.title@,
            r.summary@ == self.summary@,
            r.created_at == self.created_at,
    {
        ArtifactSummary {
            id: self.id.clone(),
            kind: self.kind,
            title: self.title.clone(),
            summary: self.summary.clone(),
            created_at: self.created_at,
        }
    }
}

} // verus!
