//! What downloads leave behind and which files a model starts with: the
//! per-file states a multi-file download records, the messages the user
//! sees when a file fails, and the resolution of a downloaded model's files
//! when it is activated.
//!
//! The shell performs the transfers and looks at the disk; it hands each
//! outcome to these functions and acts on what they return.
use vstd::prelude::*;
use crate::models::{
    download_error_text, file_name_of, opt_seq, paths_of_roles, resolution, texts_view, FileStatus,
    ModelFile,
};
use crate::placement::{single_file_model, single_file_paths, ModelPaths, PathsView};
use crate::text::{decimal, push_char, push_decimal, push_str, starts_with, str_eq};

verus! {

// ---------------------------------------------------------------------------
// Recorded file states
// ---------------------------------------------------------------------------

/// A recorded file state as plain values: its status and its path.
pub open spec fn file_status_view(f: FileStatus) -> (Seq<char>, Seq<char>) {
    (f.status@, f.path@)
}

/// Recorded file states by role, as plain values.
pub open spec fn statuses_view(v: Seq<(String, FileStatus)>) -> Seq<(Seq<char>, (Seq<char>, Seq<char>))> {
    v.map_values(|e: (String, FileStatus)| (e.0@, file_status_view(e.1)))
}

/// The state recorded for `role`: that of the first entry with the role.
pub open spec fn status_for(s: Seq<(Seq<char>, (Seq<char>, Seq<char>))>, role: Seq<char>) -> Option<(Seq<char>, Seq<char>)>
    decreases s.len(),
{
    if s.len() == 0 {
        None
    } else if s[0].0 == role {
        Some(s[0].1)
    } else {
        status_for(s.drop_first(), role)
    }
}

proof fn lemma_status_for_first(s: Seq<(Seq<char>, (Seq<char>, Seq<char>))>, role: Seq<char>, i: int)
    requires
        0 <= i < s.len(),
        s[i].0 == role,
        forall|j: int| 0 <= j < i ==> (#[trigger] s[j]).0 != role,
    ensures
        status_for(s, role) == Some(s[i].1),
    decreases i,
{
    if i > 0 {
        let rest = s.drop_first();
        assert forall|j: int| 0 <= j < i - 1 implies (#[trigger] rest[j]).0 != role by {
            assert(rest[j] == s[j + 1]);
        }
        assert(rest[i - 1] == s[i]);
        lemma_status_for_first(rest, role, i - 1);
        assert(s[0].0 != role);
    }
}

proof fn lemma_status_for_absent(s: Seq<(Seq<char>, (Seq<char>, Seq<char>))>, role: Seq<char>)
    requires
        forall|j: int| 0 <= j < s.len() ==> (#[trigger] s[j]).0 != role,
    ensures
        status_for(s, role) is None,
    decreases s.len(),
{
    if s.len() > 0 {
        let rest = s.drop_first();
        assert forall|j: int| 0 <= j < rest.len() implies (#[trigger] rest[j]).0 != role by {
            assert(rest[j] == s[j + 1]);
        }
        assert(s[0].0 != role);
        lemma_status_for_absent(rest, role);
    }
}

/// Two lists with the same roles in the same places and the same states for
/// `role` record the same state for it.
proof fn lemma_status_for_same(
    s: Seq<(Seq<char>, (Seq<char>, Seq<char>))>,
    t: Seq<(Seq<char>, (Seq<char>, Seq<char>))>,
    role: Seq<char>,
)
    requires
        s.len() == t.len(),
        forall|j: int| 0 <= j < s.len() ==> (#[trigger] s[j]).0 == t[j].0,
        forall|j: int| 0 <= j < s.len() && (#[trigger] s[j]).0 == role ==> s[j].1 == t[j].1,
    ensures
        status_for(s, role) == status_for(t, role),
    decreases s.len(),
{
    if s.len() > 0 {
        let (rs, rt) = (s.drop_first(), t.drop_first());
        assert forall|j: int| 0 <= j < rs.len() implies (#[trigger] rs[j]).0 == rt[j].0 by {
            assert(rs[j] == s[j + 1] && rt[j] == t[j + 1]);
        }
        assert forall|j: int| 0 <= j < rs.len() && (#[trigger] rs[j]).0 == role implies rs[j].1 == rt[j].1 by {
            assert(rs[j] == s[j + 1] && rt[j] == t[j + 1]);
        }
        lemma_status_for_same(rs, rt, role);
        assert(s[0].0 == t[0].0);
    }
}

proof fn lemma_status_for_push(
    s: Seq<(Seq<char>, (Seq<char>, Seq<char>))>,
    x: (Seq<char>, (Seq<char>, Seq<char>)),
    role: Seq<char>,
)
    requires
        x.0 != role,
    ensures
        status_for(s.push(x), role) == status_for(s, role),
    decreases s.len(),
{
    let t = s.push(x);
    if s.len() > 0 {
        assert(t.drop_first() =~= s.drop_first().push(x));
        assert(t[0] == s[0]);
        lemma_status_for_push(s.drop_first(), x, role);
    } else {
        assert(t.drop_first() =~= Seq::<(Seq<char>, (Seq<char>, Seq<char>))>::empty());
        assert(t[0] == x);
        assert(status_for(t.drop_first(), role) is None);
    }
}

/// The index of the first entry for `role`, or the number of entries.
fn find_status(statuses: &Vec<(String, FileStatus)>, role: &str) -> (i: usize)
    ensures
        i <= statuses@.len(),
        forall|j: int| 0 <= j < i ==> (#[trigger] statuses_view(statuses@)[j]).0 != role@,
        i < statuses@.len() ==> statuses_view(statuses@)[i as int].0 == role@,
{
    let ghost sv = statuses_view(statuses@);
    let mut i: usize = 0;
    while i < statuses.len()
        invariant
            i <= statuses@.len(),
            sv == statuses_view(statuses@),
            forall|j: int| 0 <= j < i ==> (#[trigger] sv[j]).0 != role@,
        decreases statuses.len() - i,
    {
        if str_eq(statuses[i].0.as_str(), role) {
            return i;
        }
        i = i + 1;
    }
    i
}

/// The state recorded for a role, if any.
pub fn recorded_status(statuses: &Vec<(String, FileStatus)>, role: &str) -> (r: Option<FileStatus>)
    ensures
        match r {
            Some(f) => status_for(statuses_view(statuses@), role@) == Some(file_status_view(f)),
            None => status_for(statuses_view(statuses@), role@) is None,
        },
{
    let i = find_status(statuses, role);
    proof {
        if i < statuses@.len() {
            lemma_status_for_first(statuses_view(statuses@), role@, i as int);
        } else {
            lemma_status_for_absent(statuses_view(statuses@), role@);
        }
    }
    if i < statuses.len() {
        let f = &statuses[i].1;
        Some(FileStatus { status: f.status.clone(), path: f.path.clone() })
    } else {
        None
    }
}

/// Record `st` for `role`: the role's entry is replaced, or added when
/// there is none; every other role keeps its state.
pub fn put_status(statuses: &mut Vec<(String, FileStatus)>, role: &str, st: FileStatus)
    ensures
        forall|r: Seq<char>| #[trigger] status_for(statuses_view(final(statuses)@), r) == if r == role@ {
            Some(file_status_view(st))
        } else {
            status_for(statuses_view(old(statuses)@), r)
        },
{
    let ghost before = statuses_view(statuses@);
    let ghost sv = file_status_view(st);
    let i = find_status(statuses, role);
    if i < statuses.len() {
        statuses.set(i, (String::from_str(role), st));
        proof {
            let after = statuses_view(statuses@);
            assert(after =~= before.update(i as int, (role@, sv)));
            assert forall|j: int| 0 <= j < i implies (#[trigger] after[j]).0 != role@ by {
                assert(after[j] == before[j]);
            }
            lemma_status_for_first(after, role@, i as int);
            assert forall|r: Seq<char>| r != role@ implies #[trigger] status_for(after, r) == status_for(before, r) by {
                lemma_status_for_same(after, before, r);
            }
        }
    } else {
        statuses.push((String::from_str(role), st));
        proof {
            let after = statuses_view(statuses@);
            assert(after =~= before.push((role@, sv)));
            assert forall|j: int| 0 <= j < i implies (#[trigger] after[j]).0 != role@ by {
                assert(after[j] == before[j]);
            }
            lemma_status_for_first(after, role@, i as int);
            assert forall|r: Seq<char>| r != role@ implies #[trigger] status_for(after, r) == status_for(before, r) by {
                lemma_status_for_push(before, (role@, sv), r);
            }
        }
    }
}

/// The recorded path of a role whose file was stored, if it was.
pub fn ready_path(statuses: &Vec<(String, FileStatus)>, role: &str) -> (p: Option<String>)
    ensures
        opt_seq(p) == match status_for(statuses_view(statuses@), role@) {
            Some(st) => if st.0 == "ready"@ {
                Some(st.1)
            } else {
                None
            },
            None => None,
        },
{
    match recorded_status(statuses, role) {
        Some(f) => if str_eq(f.status.as_str(), "ready") {
            Some(f.path)
        } else {
            None
        },
        None => None,
    }
}

// ---------------------------------------------------------------------------
// Failures
// ---------------------------------------------------------------------------

/// Where fetching a file failed: copying it out of the download cache, or
/// downloading it.
#[derive(Debug, Clone, Copy, PartialEq, Eq, Structural)]
pub enum FailedStep {
    Copy,
    Fetch,
}

/// The message for a failed file of `model_id`, naming its role when the
/// model has several files.
pub open spec fn failure_text(model_id: Seq<char>, role: Option<Seq<char>>, step: FailedStep, e: Seq<char>) -> Seq<char> {
    match (step, role) {
        (FailedStep::Copy, None) => model_id + ": copy failed: "@ + e,
        (FailedStep::Copy, Some(r)) => model_id + ": copy failed for "@ + r + ": "@ + e,
        (FailedStep::Fetch, None) => model_id + ": "@ + e,
        (FailedStep::Fetch, Some(r)) => model_id + ": download failed for "@ + r + ": "@ + e,
    }
}

/// The message for a failed file.
pub fn failure_message(model_id: &str, role: Option<&str>, step: FailedStep, err: &str) -> (m: String)
    ensures
        m@ == failure_text(model_id@, match role {
            Some(r) => Some(r@),
            None => None,
        }, step, err@),
{
    let mut m = String::from_str(model_id);
    match (step, role) {
        (FailedStep::Copy, None) => push_str(&mut m, ": copy failed: "),
        (FailedStep::Copy, Some(r)) => {
            push_str(&mut m, ": copy failed for ");
            push_str(&mut m, r);
            push_str(&mut m, ": ");
        },
        (FailedStep::Fetch, None) => push_str(&mut m, ": "),
        (FailedStep::Fetch, Some(r)) => {
            push_str(&mut m, ": download failed for ");
            push_str(&mut m, r);
            push_str(&mut m, ": ");
        },
    }
    push_str(&mut m, err);
    m
}

// ---------------------------------------------------------------------------
// A catalogued model's download
// ---------------------------------------------------------------------------

/// How fetching one file of a multi-file model ended.
#[derive(Debug, Clone)]
pub enum FileOutcome {
    /// Downloaded and copied into the model directory.
    Stored,
    /// Downloaded, but the copy failed with this error.
    CopyFailed(String),
    /// The download failed with this error.
    FetchFailed(String),
}

/// The message for a failed file of a catalogued multi-file model.
pub open spec fn file_failure_text(model_id: Seq<char>, file: ModelFile, outcome: FileOutcome) -> Option<Seq<char>> {
    match outcome {
        FileOutcome::Stored => None,
        FileOutcome::CopyFailed(e) => Some(failure_text(model_id, Some(file.role@), FailedStep::Copy, e@)),
        FileOutcome::FetchFailed(e) => Some(download_error_text(model_id, file.repo@, Some(file.role@), e@)),
    }
}

/// Record how one file of a multi-file download ended. The file's role is
/// recorded as `ready` or `failed` under the architecture's directory and
/// the file's own name; a required file that failed makes the download
/// incomplete. Returns the message to show when the file failed.
pub fn record_file(
    statuses: &mut Vec<(String, FileStatus)>,
    all_required_ok: &mut bool,
    model_id: &str,
    architecture: &str,
    file: &ModelFile,
    outcome: FileOutcome,
) -> (error: Option<String>)
    ensures
        forall|r: Seq<char>| #[trigger] status_for(statuses_view(final(statuses)@), r) == if r == file.role@ {
            Some((
                if outcome is Stored {
                    "ready"@
                } else {
                    "failed"@
                },
                architecture@ + "/"@ + file_name_of(file.filename@),
            ))
        } else {
            status_for(statuses_view(old(statuses)@), r)
        },
        *final(all_required_ok) == (*old(all_required_ok) && (outcome is Stored || !file.required)),
        opt_seq(error) == file_failure_text(model_id@, *file, outcome),
{
    let path = crate::models::stored_file_path(architecture, file.filename.as_str());
    let (status, error) = match outcome {
        FileOutcome::Stored => (String::from_str("ready"), None),
        FileOutcome::CopyFailed(e) => (
            String::from_str("failed"),
            Some(failure_message(model_id, Some(file.role.as_str()), FailedStep::Copy, e.as_str())),
        ),
        FileOutcome::FetchFailed(e) => (
            String::from_str("failed"),
            Some(crate::models::download_error_message(model_id, file.repo.as_str(), Some(file.role.as_str()), e.as_str())),
        ),
    };
    let failed = error.is_some();
    put_status(statuses, file.role.as_str(), FileStatus { status, path });
    if failed && file.required {
        *all_required_ok = false;
    }
    error
}

/// How a multi-file download ends: `ready` when every required file
/// arrived, else `partial` with the message to show.
pub fn finish_download(model_id: &str, all_required_ok: bool) -> (r: (String, Option<String>))
    ensures
        all_required_ok ==> r.0@ == "ready"@ && r.1 is None,
        !all_required_ok ==> r.0@ == "partial"@ && opt_seq(r.1) == Some(
            model_id@ + ": some required files failed to download"@,
        ),
{
    if all_required_ok {
        (String::from_str("ready"), None)
    } else {
        let mut m = String::from_str(model_id);
        push_str(&mut m, ": some required files failed to download");
        (String::from_str("partial"), Some(m))
    }
}

/// Where a single-file model comes from: its repository and file name, each
/// of which the catalogue must give.
pub fn single_file_source(model_id: &str, repo: &Option<String>, filename: &Option<String>) -> (r: Result<(String, String), String>)
    ensures
        repo is None ==> (r matches Err(m) && m@ == model_id@ + ": no repo specified"@),
        repo is Some && filename is None ==> (r matches Err(m) && m@ == model_id@ + ": no filename specified"@),
        repo is Some && filename is Some ==> (r matches Ok(v) && v.0@ == repo->0@ && v.1@ == filename->0@),
{
    match (repo, filename) {
        (None, _) => {
            let mut m = String::from_str(model_id);
            push_str(&mut m, ": no repo specified");
            Err(m)
        },
        (Some(_), None) => {
            let mut m = String::from_str(model_id);
            push_str(&mut m, ": no filename specified");
            Err(m)
        },
        (Some(r), Some(f)) => Ok((r.clone(), f.clone())),
    }
}

/// Where a single-file model is recorded, relative to the model directory:
/// the architecture's directory and the catalogue's file name.
pub fn single_record_path(architecture: &str, filename: &str) -> (p: String)
    ensures
        p@ == architecture@ + "/"@ + filename@,
{
    let mut p = String::from_str(architecture);
    push_char(&mut p, '/');
    push_str(&mut p, filename);
    proof {
        reveal_strlit("/");
        assert(p@ =~= architecture@ + "/"@ + filename@);
    }
    p
}

// ---------------------------------------------------------------------------
// A custom import
// ---------------------------------------------------------------------------

/// The progress line shown when file `index` of `total` of an import starts.
pub fn import_file_start(model_id: &str, role: &str, index: u64, total: u64) -> (m: String)
    ensures
        m@ == model_id@ + ": downloading "@ + role@ + " ("@ + decimal(index as nat) + "/"@ + decimal(total as nat)
            + ")"@,
{
    let mut m = String::from_str(model_id);
    push_str(&mut m, ": downloading ");
    push_str(&mut m, role);
    push_str(&mut m, " (");
    push_decimal(&mut m, index);
    push_str(&mut m, "/");
    push_decimal(&mut m, total);
    push_str(&mut m, ")");
    m
}

/// Where a custom import is recorded, relative to the model directory: its
/// own directory when it has companion files, else the file in `custom/`.
pub fn custom_record_path(model_id: &str, safe_filename: &str, has_companions: bool) -> (p: String)
    ensures
        has_companions ==> p@ == "custom/"@ + model_id@ + "/"@,
        !has_companions ==> p@ == "custom/"@ + safe_filename@,
{
    let mut p = String::from_str("custom/");
    if has_companions {
        push_str(&mut p, model_id);
        push_str(&mut p, "/");
    } else {
        push_str(&mut p, safe_filename);
    }
    p
}

// ---------------------------------------------------------------------------
// Activation
// ---------------------------------------------------------------------------

/// A recorded file of a downloaded model as the shell finds it: its role,
/// its full path, and whether it is on disk.
#[derive(Debug, Clone)]
pub struct FileOnDisk {
    pub role: String,
    pub path: String,
    pub exists: bool,
}

/// What the metadata records of a downloaded model, with what the shell
/// finds on disk: the full path of its recorded location and whether it
/// exists, and its recorded files if it has several.
#[derive(Debug, Clone)]
pub struct StoredModel {
    pub path: String,
    pub exists: bool,
    pub files: Option<Vec<FileOnDisk>>,
}

/// What the catalogue says of a model: not listed, a single file, or these
/// files.
#[derive(Debug, Clone)]
pub enum CatalogueEntry {
    Missing,
    SingleFile,
    MultiFile(Vec<ModelFile>),
}

/// The roles of the required files, in order.
pub open spec fn required_roles(files: Seq<ModelFile>) -> Seq<Seq<char>>
    decreases files.len(),
{
    if files.len() == 0 {
        Seq::empty()
    } else {
        let sub = required_roles(files.drop_last());
        if files.last().required {
            sub.push(files.last().role@)
        } else {
            sub
        }
    }
}

/// The roles of the required files.
fn required_role_names(files: &Vec<ModelFile>) -> (v: Vec<String>)
    ensures
        texts_view(v@) == required_roles(files@),
{
    let mut v: Vec<String> = Vec::new();
    let mut i: usize = 0;
    while i < files.len()
        invariant
            i <= files@.len(),
            texts_view(v@) == required_roles(files@.take(i as int)),
        decreases files.len() - i,
    {
        let ghost before = v@;
        proof {
            assert(files@.take(i + 1).drop_last() =~= files@.take(i as int));
            assert(files@.take(i + 1).last() == files@[i as int]);
        }
        if files[i].required {
            v.push(files[i].role.clone());
            assert(texts_view(v@) =~= texts_view(before).push(files@[i as int].role@));
        }
        i = i + 1;
    }
    assert(files@.take(i as int) =~= files@);
    v
}

/// Every recorded file as a (role, path) pair.
pub open spec fn all_pairs(files: Seq<FileOnDisk>) -> Seq<(Seq<char>, Seq<char>)> {
    files.map_values(|f: FileOnDisk| (f.role@, f.path@))
}

/// The recorded files that are on disk, as (role, path) pairs, in order.
pub open spec fn existing_pairs(files: Seq<FileOnDisk>) -> Seq<(Seq<char>, Seq<char>)>
    decreases files.len(),
{
    if files.len() == 0 {
        Seq::empty()
    } else {
        let sub = existing_pairs(files.drop_last());
        if files.last().exists {
            sub.push((files.last().role@, files.last().path@))
        } else {
            sub
        }
    }
}

/// A single-file model's checkpoint, which must be on disk.
pub open spec fn single_activation(s: StoredModel) -> Result<PathsView, Seq<char>> {
    if s.exists {
        Ok(single_file_paths(s.path@))
    } else {
        Err("Model file not found: "@ + s.path@)
    }
}

/// The files a downloaded model is started with. A model the metadata does
/// not record is not downloaded. A custom import needs no catalogue entry:
/// its recorded files are used by role, or its single checkpoint when it has
/// one. A catalogued model must be listed; a single-file one starts from its
/// checkpoint, a multi-file one from the recorded files that are on disk,
/// every role the catalogue marks required present.
pub open spec fn activation(model_id: Seq<char>, stored: Option<StoredModel>, catalogue: CatalogueEntry) -> Result<PathsView, Seq<char>> {
    match stored {
        None => Err("Model '"@ + model_id + "' not downloaded"@),
        Some(s) => if starts_with(model_id, "custom-"@) {
            match s.files {
                Some(fs) => Ok(paths_of_roles(all_pairs(fs@))),
                None => single_activation(s),
            }
        } else {
            match catalogue {
                CatalogueEntry::Missing => Err("Model '"@ + model_id + "' not found in manifest"@),
                CatalogueEntry::SingleFile => single_activation(s),
                CatalogueEntry::MultiFile(files) => match s.files {
                    None => Err("Model '"@ + model_id + "' has no file status in metadata"@),
                    Some(fs) => resolution(model_id, required_roles(files@), existing_pairs(fs@)),
                },
            }
        },
    }
}

/// A custom import activates from what its download recorded, whatever the
/// catalogue says: its files by role when it has several, else its
/// checkpoint when that is on disk.
pub proof fn law_imports_activate_without_the_catalogue(millis: u64, s: StoredModel, catalogue: CatalogueEntry)
    requires
        s.files is Some || s.exists,
    ensures
        activation("custom-"@ + decimal(millis as nat), Some(s), catalogue) == match s.files {
            Some(fs) => Ok::<PathsView, Seq<char>>(paths_of_roles(all_pairs(fs@))),
            None => Ok(single_file_paths(s.path@)),
        },
{
    crate::models::law_imported_ids_are_custom(millis);
}

/// The (role, path) pairs of recorded files; only those on disk when
/// `on_disk_only`.
fn role_pairs(files: &Vec<FileOnDisk>, on_disk_only: bool) -> (v: Vec<(String, String)>)
    ensures
        on_disk_only ==> crate::models::pairs_view(v@) == existing_pairs(files@),
        !on_disk_only ==> crate::models::pairs_view(v@) == all_pairs(files@),
{
    let mut v: Vec<(String, String)> = Vec::new();
    let mut i: usize = 0;
    while i < files.len()
        invariant
            i <= files@.len(),
            on_disk_only ==> crate::models::pairs_view(v@) == existing_pairs(files@.take(i as int)),
            !on_disk_only ==> crate::models::pairs_view(v@) == all_pairs(files@.take(i as int)),
        decreases files.len() - i,
    {
        let ghost before = v@;
        let f = &files[i];
        proof {
            assert(files@.take(i + 1).drop_last() =~= files@.take(i as int));
            assert(files@.take(i + 1).last() == files@[i as int]);
        }
        if !on_disk_only || f.exists {
            v.push((f.role.clone(), f.path.clone()));
            assert(crate::models::pairs_view(v@) =~= crate::models::pairs_view(before).push((f.role@, f.path@)));
        }
        assert(all_pairs(files@.take(i + 1)) =~= all_pairs(files@.take(i as int)).push((f.role@, f.path@)));
        i = i + 1;
    }
    assert(files@.take(i as int) =~= files@);
    v
}

/// Resolve the files a downloaded model is started with.
pub fn activation_paths(model_id: &str, stored: Option<StoredModel>, catalogue: CatalogueEntry) -> (r: Result<ModelPaths, String>)
    ensures
        crate::models::paths_result(r) == activation(model_id@, stored, catalogue),
{
    let s = match stored {
        None => {
            let mut m = String::from_str("Model '");
            push_str(&mut m, model_id);
            push_str(&mut m, "' not downloaded");
            return Err(m);
        },
        Some(s) => s,
    };
    if crate::models::is_custom_model_id(model_id) {
        return match &s.files {
            Some(fs) => Ok(crate::models::model_paths_from_roles(&role_pairs(fs, false))),
            None => single_checkpoint(&s),
        };
    }
    match catalogue {
        CatalogueEntry::Missing => {
            let mut m = String::from_str("Model '");
            push_str(&mut m, model_id);
            push_str(&mut m, "' not found in manifest");
            Err(m)
        },
        CatalogueEntry::SingleFile => single_checkpoint(&s),
        CatalogueEntry::MultiFile(files) => match &s.files {
            None => {
                let mut m = String::from_str("Model '");
                push_str(&mut m, model_id);
                push_str(&mut m, "' has no file status in metadata");
                Err(m)
            },
            Some(fs) => crate::models::resolve_model_files(model_id, &required_role_names(&files), &role_pairs(fs, true)),
        },
    }
}

fn single_checkpoint(s: &StoredModel) -> (r: Result<ModelPaths, String>)
    ensures
        crate::models::paths_result(r) == single_activation(*s),
{
    if s.exists {
        Ok(single_file_model(s.path.clone()))
    } else {
        let mut m = String::from_str("Model file not found: ");
        push_str(&mut m, s.path.as_str());
        Err(m)
    }
}

} // verus!
