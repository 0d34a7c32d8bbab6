//! Plain data records of the surrounding project-management tool: the
//! kanban entities persisted by the store, and the file-tree node shown
//! by the browser. Constructors pin down every default a fresh record
//! carries.

use vstd::prelude::*;

verus! {

/// A project: a named workspace rooted at a filesystem path.
#[derive(Clone, Debug)]
pub struct Project {
    pub id: String,
    pub name: String,
    pub root_path: String,
    pub created_at: i64,
    pub updated_at: i64,
    pub settings: String,
}

/// A kanban board belonging to a project.
#[derive(Clone, Debug)]
pub struct Board {
    pub id: String,
    pub project_id: String,
    pub name: String,
    pub position: i32,
    pub created_at: i64,
}

/// A column of a board.
#[derive(Clone, Debug)]
pub struct Column {
    pub id: String,
    pub board_id: String,
    pub name: String,
    pub position: i32,
    pub automation_rules: String,
    pub created_at: i64,
}

/// A card: one unit of work, the entity a ghost branch isolates.
#[derive(Clone, Debug)]
pub struct Card {
    pub id: String,
    pub column_id: String,
    pub title: String,
    pub description: Option<String>,
    pub folder_path: Option<String>,
    pub file_paths: String,
    pub agent_config: String,
    pub position: i32,
    pub status: String,
    pub created_at: i64,
    pub updated_at: i64,
    pub metadata: String,
}

/// A node of the file tree shown by the browser.
#[derive(Debug)]
pub struct FileNode {
    pub name: String,
    pub path: String,
    pub is_directory: bool,
    pub children: Option<Vec<FileNode>>,
    pub size: Option<u64>,
    pub modified: Option<i64>,
}

impl Project {
    /// A freshly created project: empty settings, both timestamps set
    /// to the creation time.
    pub fn new(id: String, name: String, root_path: String, now: i64) -> (r: Project)
        ensures
            r.id@ == id@,
            r.name@ == name@,
            r.root_path@ == root_path@,
            r.created_at == now,
            r.updated_at == now,
            r.settings@ == "{}"@,
    {
        Project {
            id,
            name,
            root_path,
            created_at: now,
            updated_at: now,
            settings: String::from_str("{}"),
        }
    }
}

impl Board {
    /// A freshly created board.
    pub fn new(id: String, project_id: String, name: String, position: i32, now: i64) -> (r: Board)
        ensures
            r.id@ == id@,
            r.project_id@ == project_id@,
            r.name@ == name@,
            r.position == position,
            r.created_at == now,
    {
        Board { id, project_id, name, position, created_at: now }
    }
}

impl Column {
    /// A freshly created column: no automation rules yet.
    pub fn new(id: String, board_id: String, name: String, position: i32, now: i64) -> (r: Column)
        ensures
            r.id@ == id@,
            r.board_id@ == board_id@,
            r.name@ == name@,
            r.position == position,
            r.automation_rules@ == "[]"@,
            r.created_at == now,
    {
        Column {
            id,
            board_id,
            name,
            position,
            automation_rules: String::from_str("[]"),
            created_at: now,
        }
    }
}

impl Card {
    /// A freshly created card: idle, with no attached folder, empty
    /// file list and default configuration payloads, both timestamps
    /// set to the creation time.
    pub fn new(
        id: String,
        column_id: String,
        title: String,
        description: Option<String>,
        position: i32,
        now: i64,
    ) -> (r: Card)
        ensures
            r.id@ == id@,
            r.column_id@ == column_id@,
            r.title@ == title@,
            r.description == description,
            r.folder_path is None,
            r.file_paths@ == "[]"@,
            r.agent_config@ == "{}"@,
            r.position == position,
            r.status@ == "idle"@,
            r.created_at == now,
            r.updated_at == now,
            r.metadata@ == "{}"@,
    {
        Card {
            id,
            column_id,
            title,
            description,
            folder_path: None,
            file_paths: String::from_str("[]"),
            agent_config: String::from_str("{}"),
            position,
            status: String::from_str("idle"),
            created_at: now,
            updated_at: now,
            metadata: String::from_str("{}"),
        }
    }
}

/// Character-wise equality of two string slices.
pub fn str_eq(a: &str, b: &str) -> (r: bool)
    ensures
        r == (a@ == b@),
{
    let na = a.unicode_len();
    let nb = b.unicode_len();
    if na != nb {
        return false;
    }
    let mut i: usize = 0;
    while i < na
        invariant
            i <= na,
            na == a@.len(),
            nb == b@.len(),
            na == nb,
            forall|j: int| 0 <= j < i ==> a@[j] == b@[j],
        decreases na - i,
    {
        if a.get_char(i) != b.get_char(i) {
            return false;
        }
        i += 1;
    }
    proof {
        assert(a@ =~= b@);
    }
    true
}

/// Entries the file-tree browser hides: hidden names and the common
/// dependency or build-output directories.
pub open spec fn skipped_name(s: Seq<char>) -> bool {
    ||| (s.len() >= 1 && s[0] == '.')
    ||| s == "node_modules"@
    ||| s == "target"@
    ||| s == "dist"@
}

/// True iff the file-tree browser hides an entry with this name.
pub fn should_skip(name: &str) -> (r: bool)
    ensures
        r == skipped_name(name@),
{
    if name.unicode_len() >= 1 && name.get_char(0) == '.' {
        return true;
    }
    str_eq(name, "node_modules") || str_eq(name, "target") || str_eq(name, "dist")
}

} // verus!
