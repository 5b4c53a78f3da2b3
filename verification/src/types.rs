//! Protocol types: the task shape a plugin reads and the sync report shapes
//! it emits, with the issue projection the mirror keeps on a task.

use vstd::prelude::*;

verus! {

broadcast use vstd::string::group_string_axioms;

/// One entry of a task's `links`.
#[derive(Debug, Clone)]
pub struct Link {
    pub link_type: String,
    pub target: String,
}

/// The issue projection the mirror keeps on a task
/// (`external.github-issues.issue`), field by field as far as it is set.
#[derive(Debug, Clone)]
pub struct IssueProjection {
    pub number: Option<u64>,
    pub url: Option<String>,
    pub state: Option<String>,
    pub source: Option<String>,
    pub synced_at: Option<String>,
    pub last_synced_status: Option<String>,
    pub last_synced_title: Option<String>,
    pub last_synced_body_hash: Option<String>,
}

/// A balls task as received: the fields plugins read.
#[derive(Debug, Clone)]
pub struct Task {
    pub id: String,
    pub title: String,
    pub status: String,
    pub description: String,
    pub tags: Vec<String>,
    pub links: Vec<Link>,
    pub target_branch: Option<String>,
    /// The mirror's issue projection, if the task carries one.
    pub issue: Option<IssueProjection>,
}

impl Task {
    /// The mirrored issue number, if any.
    pub fn issue_number(&self) -> (r: Option<u64>)
        ensures
            r == (match self.issue {
                Some(p) => p.number,
                None => None,
            }),
    {
        match &self.issue {
            Some(p) => p.number,
            None => None,
        }
    }

    /// The title recorded at the last sync, if any.
    pub fn last_synced_title(&self) -> (r: Option<&String>)
        ensures
            r == (match self.issue {
                Some(p) => match p.last_synced_title {
                    Some(t) => Some(&t),
                    None => None,
                },
                None => None,
            }),
    {
        match &self.issue {
            Some(p) => match &p.last_synced_title {
                Some(t) => Some(t),
                None => None,
            },
            None => None,
        }
    }

    /// The body hash recorded at the last sync, if any.
    pub fn last_synced_body_hash(&self) -> (r: Option<&String>)
        ensures
            r == (match self.issue {
                Some(p) => match p.last_synced_body_hash {
                    Some(t) => Some(&t),
                    None => None,
                },
                None => None,
            }),
    {
        match &self.issue {
            Some(p) => match &p.last_synced_body_hash {
                Some(t) => Some(t),
                None => None,
            },
            None => None,
        }
    }
}

/// The projection blob a sync writes for a task.
#[derive(Debug, Clone)]
pub struct ProjectionBlob {
    pub number: u64,
    pub url: String,
    pub state: String,
    pub source: String,
    pub synced_at: String,
    pub last_synced_status: String,
    pub last_synced_title: Option<String>,
    pub last_synced_body_hash: Option<String>,
}

/// A new task to create locally.
#[derive(Debug, Clone)]
pub struct SyncCreate {
    pub title: String,
    pub task_type: String,
    pub priority: u8,
    pub status: String,
    pub description: String,
    pub tags: Vec<String>,
    pub external: ProjectionBlob,
}

/// The top-level task fields an update sets.
#[derive(Debug, Clone)]
pub struct UpdateFields {
    pub status: Option<String>,
    pub title: Option<String>,
    pub description: Option<String>,
}

/// Fields to update on an existing local task, the projection to write
/// (none leaves it untouched), and a note.
#[derive(Debug, Clone)]
pub struct SyncUpdate {
    pub task_id: String,
    pub fields: UpdateFields,
    pub external: Option<ProjectionBlob>,
    pub add_note: String,
}

/// A local task to mark as deferred.
#[derive(Debug, Clone)]
pub struct SyncDelete {
    pub task_id: String,
    pub reason: String,
}

/// The full sync report.
#[derive(Debug, Clone)]
pub struct SyncReport {
    pub created: Vec<SyncCreate>,
    pub updated: Vec<SyncUpdate>,
    pub deleted: Vec<SyncDelete>,
}

impl Default for SyncReport {
    /// The empty report.
    fn default() -> (r: SyncReport)
        ensures
            r.created@.len() == 0,
            r.updated@.len() == 0,
            r.deleted@.len() == 0,
    {
        SyncReport::new()
    }
}

impl SyncReport {
    /// The empty report (nothing changed).
    pub fn new() -> (r: SyncReport)
        ensures
            r.created@.len() == 0,
            r.updated@.len() == 0,
            r.deleted@.len() == 0,
    {
        SyncReport { created: Vec::new(), updated: Vec::new(), deleted: Vec::new() }
    }
}

} // verus!
