//! The workspace provisioner: the rules by which a thread gets a directory of
//! its own below the application's workspace root. The rules are decided
//! here; reading the environment and creating the directory are the host's.

use crate::text::{
    chars_of, is_space, lower_char, lowered, text_of, to_lower, trim, trimmed,
    trimmed_is_empty_iff_all_space, trimmed_keeps_non_space,
    trimmed_keeps_what_has_no_outer_space,
};
use vstd::prelude::*;

verus! {

/// A character that a thread identifier may hold: a small letter, a digit,
/// `-`, `_` or `.`.
pub open spec fn is_thread_id_char(c: char) -> bool {
    ||| ('a' <= c && c <= 'z')
    ||| ('0' <= c && c <= '9')
    ||| c == '-'
    ||| c == '_'
    ||| c == '.'
}

/// A thread identifier in normal form: not empty, every character allowed.
pub open spec fn is_thread_id(id: Seq<char>) -> bool {
    &&& id.len() > 0
    &&& forall|i: int| 0 <= i < id.len() ==> is_thread_id_char(#[trigger] id[i])
}

/// The normal form of a thread identifier: trimmed and in lower case, where
/// that is a thread identifier.
pub open spec fn normalized_thread_id(raw: Seq<char>) -> Option<Seq<char>> {
    let id = lowered(trimmed(raw));
    if is_thread_id(id) {
        Some(id)
    } else {
        None
    }
}

/// Whether `c` may stand in a thread identifier.
fn allowed_in_thread_id(c: char) -> (allowed: bool)
    ensures
        allowed == is_thread_id_char(c),
{
    ('a' <= c && c <= 'z') || ('0' <= c && c <= '9') || c == '-' || c == '_' || c == '.'
}

/// Trims `thread_id` and puts it in lower case. What is then empty, or holds
/// a character that is not allowed, is no thread identifier.
pub fn normalize_thread_id(thread_id: &str) -> (normalized: Option<String>)
    ensures
        text_of(normalized) == normalized_thread_id(thread_id@),
{
    let kept = trim(thread_id);
    let folded = to_lower(kept.as_str());
    let chars = chars_of(folded.as_str());
    if chars.len() == 0 {
        return None;
    }
    let mut i: usize = 0;
    while i < chars.len()
        invariant
            i <= chars.len(),
            chars@ == folded@,
            folded@ == lowered(trimmed(thread_id@)),
            forall|k: int| 0 <= k < i ==> is_thread_id_char(#[trigger] folded@[k]),
        decreases chars.len() - i,
    {
        if !allowed_in_thread_id(chars[i]) {
            assert(!is_thread_id_char(folded@[i as int]));
            return None;
        }
        i += 1;
    }
    Some(folded)
}

/// A thread identifier in normal form is its own normal form.
pub proof fn thread_id_is_its_own_normal_form(id: Seq<char>)
    requires
        is_thread_id(id),
    ensures
        normalized_thread_id(id) == Some(id),
{
    assert(is_thread_id_char(id[0]));
    assert(is_thread_id_char(id.last()));
    trimmed_keeps_what_has_no_outer_space(id);
    assert forall|i: int| 0 <= i < id.len() implies lower_char(id[i]) == id[i] by {
        assert(is_thread_id_char(id[i]));
    }
    assert(lowered(id) =~= id);
}

/// Normalizing a thread identifier twice is normalizing it once.
pub proof fn normalized_thread_id_is_stable(raw: Seq<char>)
    ensures
        normalized_thread_id(raw) matches Some(id) ==> normalized_thread_id(id) == Some(id),
{
    if let Some(id) = normalized_thread_id(raw) {
        thread_id_is_its_own_normal_form(id);
    }
}

/// A thread identifier that holds a character which is neither white space
/// nor, in lower case, allowed has no normal form. A slash is such a
/// character.
pub proof fn thread_id_with_foreign_character_is_refused(raw: Seq<char>, at: int)
    requires
        0 <= at < raw.len(),
        !is_space(raw[at]),
        !is_thread_id_char(lower_char(raw[at])),
    ensures
        normalized_thread_id(raw) is None,
{
    trimmed_keeps_non_space(raw, at);
    let kept = choose|kept: int|
        0 <= kept < trimmed(raw).len() && #[trigger] trimmed(raw)[kept] == raw[at];
    let id = lowered(trimmed(raw));
    assert(id[kept] == lower_char(raw[at]));
}

/// A thread identifier that is empty or white space throughout has no normal
/// form.
pub proof fn blank_thread_id_is_refused(raw: Seq<char>)
    requires
        forall|i: int| 0 <= i < raw.len() ==> is_space(#[trigger] raw[i]),
    ensures
        normalized_thread_id(raw) is None,
{
    trimmed_is_empty_iff_all_space(raw);
}

/// A thread identifier with a slash in it has no normal form.
pub proof fn thread_id_with_slash_is_refused(raw: Seq<char>)
    requires
        raw.contains('/'),
    ensures
        normalized_thread_id(raw) is None,
{
    let at = choose|at: int| 0 <= at < raw.len() && raw[at] == '/';
    thread_id_with_foreign_character_is_refused(raw, at);
}

/// A thread identifier with a space left in it after trimming has no normal
/// form. A space at either end is trimmed away and refuses nothing.
pub proof fn thread_id_with_inner_space_is_refused(raw: Seq<char>)
    requires
        trimmed(raw).contains(' '),
    ensures
        normalized_thread_id(raw) is None,
{
    let kept = choose|kept: int| 0 <= kept < trimmed(raw).len() && trimmed(raw)[kept] == ' ';
    let id = lowered(trimmed(raw));
    assert(id[kept] == ' ');
    assert(!is_thread_id_char(id[kept]));
}

/// `segment` below `base`: a separator stands between them unless `base` is
/// empty or ends in one.
pub open spec fn joined(base: Seq<char>, segment: Seq<char>) -> Seq<char> {
    if base.len() == 0 || base.last() == '/' {
        base + segment
    } else {
        base + seq!['/'] + segment
    }
}

/// The path of `segment` below `base`.
pub fn join_path(base: &str, segment: &str) -> (path: String)
    ensures
        path@ == joined(base@, segment@),
{
    let chars = chars_of(base);
    let mut path = base.to_owned();
    if chars.len() > 0 && chars[chars.len() - 1] != '/' {
        path.push('/');
    }
    path.append(segment);
    path
}

/// The workspace root of a home directory: `Executive Assistant/Ken` below it.
pub open spec fn workspace_root_text(home_directory: Seq<char>) -> Seq<char> {
    joined(joined(home_directory, "Executive Assistant"@), "Ken"@)
}

/// The workspace root below `home_directory`.
pub fn workspace_root_path(home_directory: &str) -> (root: String)
    ensures
        root@ == workspace_root_text(home_directory@),
{
    let parent = join_path(home_directory, "Executive Assistant");
    join_path(parent.as_str(), "Ken")
}

/// Why a directory could not be created: the system's words, and whether it
/// refused for want of permission.
#[derive(Debug, PartialEq, Eq)]
pub struct CreateFailure {
    pub permission_denied: bool,
    pub detail: String,
}

/// What the user is told to do where permission was refused.
pub open spec fn permission_guidance() -> Seq<char> {
    ". Grant Files and Folders access to Ken Desktop in System Settings and ensure ~/Executive Assistant/Ken is writable."@
}

/// The message of a failed creation of `path`: the path and the system's
/// words, and the guidance where permission was refused.
pub open spec fn create_error_text(path: Seq<char>, permission_denied: bool, detail: Seq<char>) -> Seq<
    char,
> {
    let base = "Unable to create workspace at "@ + path + ": "@ + detail;
    if permission_denied {
        base + permission_guidance()
    } else {
        base
    }
}

/// The message that reports that the directory `path` could not be created.
pub fn workspace_create_error(path: &str, failure: &CreateFailure) -> (message: String)
    ensures
        message@ == create_error_text(path@, failure.permission_denied, failure.detail@),
{
    let mut message = "Unable to create workspace at ".to_owned();
    message.append(path);
    message.append(": ");
    message.append(failure.detail.as_str());
    if failure.permission_denied {
        message.append(
            ". Grant Files and Folders access to Ken Desktop in System Settings and ensure ~/Executive Assistant/Ken is writable.",
        );
    }
    message
}

/// The message for a thread identifier that is empty or holds a character
/// that is not allowed.
pub open spec fn invalid_thread_id_text() -> Seq<char> {
    "Thread ID is required and can only contain letters, numbers, '.', '_' or '-'."@
}

/// The message for a home directory that the environment does not name.
pub open spec fn home_unresolved_text() -> Seq<char> {
    "Unable to resolve user home directory."@
}

/// The home directory, where the environment names one. That it names none
/// is a failure: no other place is tried.
pub fn home_directory(found: Option<String>) -> (home: Result<String, String>)
    ensures
        match found {
            Some(path) => home == Ok::<String, String>(path),
            None => home matches Err(message) && message@ == home_unresolved_text(),
        },
{
    match found {
        Some(path) => Ok(path),
        None => Err("Unable to resolve user home directory.".to_owned()),
    }
}

/// Where the directory of a thread lies, before anything is known of the
/// file system.
#[derive(Debug, PartialEq, Eq)]
pub struct WorkspacePlan {
    pub thread_id: String,
    pub root_path: String,
    pub thread_path: String,
}

/// A `WorkspacePlan` as plain text.
pub struct PlanText {
    pub thread_id: Seq<char>,
    pub root_path: Seq<char>,
    pub thread_path: Seq<char>,
}

impl View for WorkspacePlan {
    type V = PlanText;

    open spec fn view(&self) -> PlanText {
        PlanText {
            thread_id: self.thread_id@,
            root_path: self.root_path@,
            thread_path: self.thread_path@,
        }
    }
}

/// The plan for a thread: its identifier in normal form, the workspace root
/// below the home directory, and the thread's directory below the root. A
/// thread identifier that has no normal form is refused first, a missing home
/// directory second.
pub open spec fn planned(thread_id: Seq<char>, home: Option<Seq<char>>) -> Result<
    PlanText,
    Seq<char>,
> {
    match normalized_thread_id(thread_id) {
        None => Err(invalid_thread_id_text()),
        Some(id) => match home {
            None => Err(home_unresolved_text()),
            Some(home_directory) => Ok(
                PlanText {
                    thread_id: id,
                    root_path: workspace_root_text(home_directory),
                    thread_path: joined(workspace_root_text(home_directory), id),
                },
            ),
        },
    }
}

/// The view of a plan or of the message in its place.
pub open spec fn plan_view(outcome: Result<WorkspacePlan, String>) -> Result<PlanText, Seq<char>> {
    match outcome {
        Ok(plan) => Ok(plan@),
        Err(message) => Err(message@),
    }
}

/// Plans the workspace of thread `thread_id` for the home directory that the
/// environment names, if it names one. Nothing is read or written.
pub fn plan_thread_workspace(thread_id: &str, home: Option<String>) -> (outcome: Result<
    WorkspacePlan,
    String,
>)
    ensures
        plan_view(outcome) == planned(thread_id@, text_of(home)),
{
    let id = match normalize_thread_id(thread_id) {
        Some(id) => id,
        None => {
            return Err(
                "Thread ID is required and can only contain letters, numbers, '.', '_' or '-'.".to_owned(),
            );
        },
    };
    let home_path = match home_directory(home) {
        Ok(path) => path,
        Err(message) => {
            return Err(message);
        },
    };
    let root_path = workspace_root_path(home_path.as_str());
    let thread_path = join_path(root_path.as_str(), id.as_str());
    Ok(WorkspacePlan { thread_id: id, root_path, thread_path })
}

/// The workspace of a thread, as the host reports it.
#[derive(Debug, PartialEq, Eq)]
pub struct ThreadWorkspaceInfo {
    pub thread_id: String,
    pub root_path: String,
    pub thread_path: String,
    pub created: bool,
}

/// A `ThreadWorkspaceInfo` as plain text.
pub struct InfoText {
    pub thread_id: Seq<char>,
    pub root_path: Seq<char>,
    pub thread_path: Seq<char>,
    pub created: bool,
}

impl View for ThreadWorkspaceInfo {
    type V = InfoText;

    open spec fn view(&self) -> InfoText {
        InfoText {
            thread_id: self.thread_id@,
            root_path: self.root_path@,
            thread_path: self.thread_path@,
            created: self.created,
        }
    }
}

/// The view of a workspace report or of the message in its place.
pub open spec fn info_view(outcome: Result<ThreadWorkspaceInfo, String>) -> Result<
    InfoText,
    Seq<char>,
> {
    match outcome {
        Ok(info) => Ok(info@),
        Err(message) => Err(message@),
    }
}

/// What provisioning comes to once the file system has answered: the plan's
/// paths, created unless the directory was there before; or, where the
/// directory could not be created, the message that says so.
pub open spec fn provisioned(
    plan: PlanText,
    already_exists: bool,
    creation: Result<(), CreateFailure>,
) -> Result<InfoText, Seq<char>> {
    match creation {
        Ok(()) => Ok(
            InfoText {
                thread_id: plan.thread_id,
                root_path: plan.root_path,
                thread_path: plan.thread_path,
                created: !already_exists,
            },
        ),
        Err(failure) => Err(
            create_error_text(plan.thread_path, failure.permission_denied, failure.detail@),
        ),
    }
}

/// Ends the provisioning of `plan`. `already_exists` says whether the thread's
/// directory was there before the host tried to create it, `creation` what
/// creating it, with every missing directory above it, came to.
pub fn finish_thread_workspace(
    plan: WorkspacePlan,
    already_exists: bool,
    creation: Result<(), CreateFailure>,
) -> (outcome: Result<ThreadWorkspaceInfo, String>)
    ensures
        info_view(outcome) == provisioned(plan@, already_exists, creation),
{
    match creation {
        Ok(()) => Ok(
            ThreadWorkspaceInfo {
                thread_id: plan.thread_id,
                root_path: plan.root_path,
                thread_path: plan.thread_path,
                created: !already_exists,
            },
        ),
        Err(failure) => Err(workspace_create_error(plan.thread_path.as_str(), &failure)),
    }
}

/// Below a workspace root the thread's directory is the root, a separator
/// and the thread identifier in normal form.
pub proof fn thread_path_ends_in_thread_id(thread_id: Seq<char>, home: Option<Seq<char>>)
    ensures
        planned(thread_id, home) matches Ok(plan) ==> {
            &&& normalized_thread_id(thread_id) == Some(plan.thread_id)
            &&& plan.thread_path == plan.root_path + seq!['/'] + plan.thread_id
        },
{
    if let Ok(plan) = planned(thread_id, home) {
        reveal_strlit("Ken");
        assert(plan.root_path.last() == 'n');
    }
}

/// Below a home directory that is not empty and does not end in a separator,
/// the workspace root is the home directory followed by
/// `/Executive Assistant/Ken`.
pub proof fn workspace_root_follows_home(home_directory: Seq<char>)
    requires
        home_directory.len() > 0,
        home_directory.last() != '/',
    ensures
        workspace_root_text(home_directory) == home_directory + "/Executive Assistant/Ken"@,
{
    reveal_strlit("Executive Assistant");
    reveal_strlit("Ken");
    reveal_strlit("/Executive Assistant/Ken");
    let parent = joined(home_directory, "Executive Assistant"@);
    assert(parent.last() == 't');
    assert(workspace_root_text(home_directory) =~= home_directory + "/Executive Assistant/Ken"@);
}

/// Provisioning a thread again plans the same paths: the plan for a thread is
/// the plan for its identifier in normal form.
pub proof fn plan_is_stable(thread_id: Seq<char>, home: Option<Seq<char>>)
    ensures
        planned(thread_id, home) matches Ok(plan) ==> planned(plan.thread_id, home) == planned(
            thread_id,
            home,
        ),
{
    normalized_thread_id_is_stable(thread_id);
}

} // verus!
