//! Rename orchestration. `generate` computes a pure source-to-destination
//! mapping from a file set and its rendered template names — it never
//! touches the filesystem. `plan_apply` decides, per entry, whether the
//! apply step copies, moves, or skips because the destination already
//! exists and overwriting is off; one skipped entry never aborts the
//! batch.

use vstd::prelude::*;
use vstd::string::*;

verus! {

/// The options governing one rename run.
#[derive(Clone, Debug, PartialEq)]
pub struct RenamerConfig {
    pub path: String,
    pub out_dir: String,
    pub template: String,
    pub copy: bool,
    pub subfolders: bool,
    pub overwrite: bool,
    pub separator: String,
    pub keep_subfolders: bool,
}

/// One candidate file of a rename run: its source path, its subfolder path
/// relative to the root, its extension, and the name the template renderer
/// produced for it (`None` when the template referenced a field unknown
/// for this run).
#[derive(Clone, Debug, PartialEq)]
pub struct RenameSource {
    pub path: String,
    pub subpath: String,
    pub extension: String,
    pub rendered: Option<String>,
}

/// One source-to-destination pair of a rename mapping.
#[derive(Clone, Debug, PartialEq)]
pub struct RenamePair {
    pub from: String,
    pub to: String,
}

/// The template referenced an unknown field; generation fails as a whole.
#[derive(Clone, Debug, PartialEq)]
pub enum TemplateError {
    UnknownField,
}

/// The destination path of one file: the output directory, the kept
/// subfolder path when configured and present, and the rendered name with
/// the file's extension.
pub open spec fn dest_path(
    out_dir: Seq<char>,
    keep_subfolders: bool,
    subpath: Seq<char>,
    rendered: Seq<char>,
    extension: Seq<char>,
) -> Seq<char> {
    out_dir + "/"@ + (if keep_subfolders && subpath.len() > 0 {
        subpath + "/"@
    } else {
        Seq::<char>::empty()
    }) + rendered + "."@ + extension
}

/// Computes the rename mapping: one source-to-destination pair per file,
/// in file order. Pure: no filesystem access of any kind. Fails with
/// `TemplateError` exactly when the renderer left some file without a
/// rendered name because the template referenced an unknown field.
pub fn generate(files: &Vec<RenameSource>, config: &RenamerConfig) -> (r: Result<
    Vec<RenamePair>,
    TemplateError,
>)
    ensures
        r is Ok <==> (forall|k: int| 0 <= k < files@.len() ==> files@[k].rendered is Some),
        r is Err ==> r->Err_0 == TemplateError::UnknownField,
        r is Ok ==> r->Ok_0@.len() == files@.len() && (forall|k: int|
            0 <= k < files@.len() ==> r->Ok_0@[k].from@ == files@[k].path@ && r->Ok_0@[k].to@
                == dest_path(
                config.out_dir@,
                config.keep_subfolders,
                files@[k].subpath@,
                files@[k].rendered->0@,
                files@[k].extension@,
            )),
{
    let mut pairs: Vec<RenamePair> = Vec::new();
    let mut i: usize = 0;
    while i < files.len()
        invariant
            i <= files@.len(),
            pairs@.len() == i,
            forall|k: int| 0 <= k < i ==> files@[k].rendered is Some,
            forall|k: int|
                0 <= k < i ==> pairs@[k].from@ == files@[k].path@ && pairs@[k].to@ == dest_path(
                    config.out_dir@,
                    config.keep_subfolders,
                    files@[k].subpath@,
                    files@[k].rendered->0@,
                    files@[k].extension@,
                ),
        decreases files@.len() - i,
    {
        let f = &files[i];
        match &f.rendered {
            None => {
                return Err(TemplateError::UnknownField);
            },
            Some(name) => {
                let mut d = config.out_dir.clone();
                d.append("/");
                if config.keep_subfolders && f.subpath.unicode_len() > 0 {
                    d.append(f.subpath.as_str());
                    d.append("/");
                }
                d.append(name.as_str());
                d.append(".");
                d.append(f.extension.as_str());
                proof {
                    assert(d@ =~= dest_path(
                        config.out_dir@,
                        config.keep_subfolders,
                        files@[i as int].subpath@,
                        files@[i as int].rendered->0@,
                        files@[i as int].extension@,
                    ));
                }
                pairs.push(RenamePair { from: f.path.clone(), to: d });
            },
        }
        i = i + 1;
    }
    Ok(pairs)
}

/// What the apply step does with one entry of the mapping.
#[derive(Clone, Copy, Debug, PartialEq, Eq, Structural)]
pub enum EntryAction {
    /// Copy the source to the destination, leaving the source in place.
    CopyFile,
    /// Move the source to the destination.
    MoveFile,
    /// The destination exists and overwriting is off: skip this entry,
    /// report it, and continue with the rest of the batch.
    SkipExists,
}

/// The action the apply step takes for one entry, given whether its
/// destination already exists.
pub open spec fn spec_entry_action(dest_exists: bool, copy: bool, overwrite: bool) -> EntryAction {
    if dest_exists && !overwrite {
        EntryAction::SkipExists
    } else if copy {
        EntryAction::CopyFile
    } else {
        EntryAction::MoveFile
    }
}

/// Plans the apply step: one action per entry of the mapping, in order.
/// An entry whose destination exists while overwriting is off is skipped,
/// never aborting the remaining entries; with copying configured no entry
/// ever moves (the sources all stay in place).
pub fn plan_apply(dest_exists: &Vec<bool>, copy: bool, overwrite: bool) -> (plans: Vec<
    EntryAction,
>)
    ensures
        plans@.len() == dest_exists@.len(),
        forall|k: int|
            0 <= k < dest_exists@.len() ==> plans@[k] == spec_entry_action(
                dest_exists@[k],
                copy,
                overwrite,
            ),
        copy ==> forall|k: int| 0 <= k < plans@.len() ==> plans@[k] != EntryAction::MoveFile,
{
    let mut plans: Vec<EntryAction> = Vec::new();
    let mut i: usize = 0;
    while i < dest_exists.len()
        invariant
            i <= dest_exists@.len(),
            plans@.len() == i,
            forall|k: int|
                0 <= k < i ==> plans@[k] == spec_entry_action(dest_exists@[k], copy, overwrite),
        decreases dest_exists@.len() - i,
    {
        if dest_exists[i] && !overwrite {
            plans.push(EntryAction::SkipExists);
        } else if copy {
            plans.push(EntryAction::CopyFile);
        } else {
            plans.push(EntryAction::MoveFile);
        }
        i = i + 1;
    }
    plans
}

/// How many entries of a plan are skipped as already existing.
pub open spec fn spec_skipped(plans: Seq<EntryAction>) -> nat
    decreases plans.len(),
{
    if plans.len() == 0 {
        0
    } else {
        spec_skipped(plans.drop_last()) + (if plans.last() == EntryAction::SkipExists {
            1nat
        } else {
            0nat
        })
    }
}

/// The aggregate outcome of an apply step: how many entries succeeded and
/// how many were skipped because their destination existed.
#[derive(Clone, Copy, Debug, PartialEq, Eq, Structural)]
pub struct ApplyOutcome {
    pub succeeded: usize,
    pub failed: usize,
}

/// Counts the outcome of a planned apply step: every skipped entry is one
/// isolated failure, every other entry succeeds.
pub fn apply_outcome(plans: &Vec<EntryAction>) -> (r: ApplyOutcome)
    ensures
        r.failed == spec_skipped(plans@),
        r.succeeded + r.failed == plans@.len(),
{
    let mut failed: usize = 0;
    let mut i: usize = 0;
    while i < plans.len()
        invariant
            i <= plans@.len(),
            failed == spec_skipped(plans@.subrange(0, i as int)),
            failed <= i,
        decreases plans@.len() - i,
    {
        proof {
            assert(plans@.subrange(0, i + 1).drop_last() =~= plans@.subrange(0, i as int));
            assert(plans@.subrange(0, i + 1).last() == plans@[i as int]);
        }
        if plans[i] == EntryAction::SkipExists {
            failed = failed + 1;
        }
        i = i + 1;
    }
    proof {
        assert(plans@.subrange(0, plans@.len() as int) =~= plans@);
    }
    ApplyOutcome { succeeded: plans.len() - failed, failed }
}

} // verus!
