use vstd::prelude::*;
use crate::filter::{
    contains_name, extension_of, is_eligible_file, is_excluded_folder, spec_eligible,
    spec_extension,
};
use crate::output::{Aggregate, RecordView};
use crate::tree::{join_path, spec_join, Config, Entry};

verus! {

broadcast use vstd::seq::group_seq_axioms, vstd::std_specs::vec::group_vec_axioms;

/// What went wrong with one entry; the walk skips it and goes on.
#[derive(Clone, Copy, PartialEq, Eq, Structural, Debug)]
pub enum WarningKind {
    /// A folder could not be listed: it contributes no file.
    DirectoryList,
    /// An entry could not be told to be a file or a folder: it is skipped.
    EntryType,
    /// An eligible file could not be read: it is skipped and not counted.
    FileRead,
}

/// A recoverable failure met during a walk, with the path it concerns.
pub struct Warning {
    pub kind: WarningKind,
    pub path: String,
}

/// A warning as the contracts see it.
pub type WarningView = (WarningKind, Seq<char>);

/// The views of a sequence of warnings.
pub open spec fn warnings_view(ws: Seq<Warning>) -> Seq<WarningView> {
    ws.map_values(|w: Warning| (w.kind, w.path@))
}

/// Whether a file named `name` is taken under `cfg`.
pub open spec fn file_taken(name: Seq<char>, cfg: Config) -> bool {
    spec_eligible(spec_extension(name), cfg.allowed_extensions@)
}

/// Whether a folder named `name` is skipped under `cfg`.
pub open spec fn folder_skipped(name: Seq<char>, cfg: Config) -> bool {
    contains_name(cfg.excluded_folders@, name)
}

/// The records that one entry of the folder at `dir` contributes.
pub open spec fn node_records(e: Entry, dir: Seq<char>, cfg: Config) -> Seq<RecordView>
    decreases e,
{
    match e {
        Entry::File { name, content } => {
            if file_taken(name@, cfg) && content is Some {
                seq![(spec_join(dir, name@), content->Some_0@)]
            } else {
                seq![]
            }
        },
        Entry::Dir { name, children } => {
            if folder_skipped(name@, cfg) {
                seq![]
            } else {
                match children {
                    Some(v) => list_records(v@, spec_join(dir, name@), cfg),
                    None => seq![],
                }
            }
        },
        _ => seq![],
    }
}

/// The records that a listing of the folder at `dir` contributes, entry by
/// entry in listing order.
pub open spec fn list_records(s: Seq<Entry>, dir: Seq<char>, cfg: Config) -> Seq<RecordView>
    decreases s,
{
    if s.len() == 0 {
        seq![]
    } else {
        list_records(s.drop_last(), dir, cfg) + node_records(s.last(), dir, cfg)
    }
}

/// The warnings that one entry of the folder at `dir` gives.
pub open spec fn node_warnings(e: Entry, dir: Seq<char>, cfg: Config) -> Seq<WarningView>
    decreases e,
{
    match e {
        Entry::File { name, content } => {
            if file_taken(name@, cfg) && content is None {
                seq![(WarningKind::FileRead, spec_join(dir, name@))]
            } else {
                seq![]
            }
        },
        Entry::Dir { name, children } => {
            if folder_skipped(name@, cfg) {
                seq![]
            } else {
                match children {
                    Some(v) => list_warnings(v@, spec_join(dir, name@), cfg),
                    None => seq![(WarningKind::DirectoryList, spec_join(dir, name@))],
                }
            }
        },
        Entry::Other { .. } => seq![],
        Entry::Unknown { name } => seq![(WarningKind::EntryType, spec_join(dir, name@))],
    }
}

/// The warnings that a listing of the folder at `dir` gives, in listing order.
pub open spec fn list_warnings(s: Seq<Entry>, dir: Seq<char>, cfg: Config) -> Seq<WarningView>
    decreases s,
{
    if s.len() == 0 {
        seq![]
    } else {
        list_warnings(s.drop_last(), dir, cfg) + node_warnings(s.last(), dir, cfg)
    }
}

fn push_warning(warnings: &mut Vec<Warning>, kind: WarningKind, path: String)
    ensures
        warnings_view(final(warnings)@) == warnings_view(old(warnings)@).push((kind, path@)),
{
    let ghost before = warnings@;
    warnings.push(Warning { kind, path });
    assert(warnings_view(warnings@) =~= warnings_view(before).push((kind, path@)));
}

/// Visits one entry of the folder at `dir`: takes it when it is an eligible
/// file, walks it when it is a folder that is not excluded.
fn walk_entry(
    e: &Entry,
    dir: &String,
    cfg: &Config,
    out: &mut Aggregate,
    warnings: &mut Vec<Warning>,
)
    ensures
        final(out)@ == old(out)@ + node_records(*e, dir@, *cfg),
        warnings_view(final(warnings)@) == warnings_view(old(warnings)@) + node_warnings(
            *e,
            dir@,
            *cfg,
        ),
    decreases e,
{
    match e {
        Entry::File { name, content } => {
            let ext = extension_of(name);
            if is_eligible_file(&ext, &cfg.allowed_extensions) {
                let path = join_path(dir, name);
                match content {
                    Some(c) => {
                        out.append(path, c.clone());
                    },
                    None => {
                        push_warning(warnings, WarningKind::FileRead, path);
                    },
                }
            }
        },
        Entry::Dir { name, children } => {
            if !is_excluded_folder(name, &cfg.excluded_folders) {
                let path = join_path(dir, name);
                match children {
                    Some(v) => {
                        walk_list(v, &path, cfg, out, warnings);
                    },
                    None => {
                        push_warning(warnings, WarningKind::DirectoryList, path);
                    },
                }
            }
        },
        Entry::Other { .. } => {},
        Entry::Unknown { name } => {
            let path = join_path(dir, name);
            push_warning(warnings, WarningKind::EntryType, path);
        },
    }
}

/// Visits the entries of the folder at `dir` in listing order.
fn walk_list(
    entries: &Vec<Entry>,
    dir: &String,
    cfg: &Config,
    out: &mut Aggregate,
    warnings: &mut Vec<Warning>,
)
    ensures
        final(out)@ == old(out)@ + list_records(entries@, dir@, *cfg),
        warnings_view(final(warnings)@) == warnings_view(old(warnings)@) + list_warnings(
            entries@,
            dir@,
            *cfg,
        ),
    decreases entries,
{
    let mut i: usize = 0;
    while i < entries.len()
        invariant
            i <= entries@.len(),
            out@ == old(out)@ + list_records(entries@.take(i as int), dir@, *cfg),
            warnings_view(warnings@) == warnings_view(old(warnings)@) + list_warnings(
                entries@.take(i as int),
                dir@,
                *cfg,
            ),
        decreases entries.len() - i,
    {
        walk_entry(&entries[i], dir, cfg, out, warnings);
        assert(entries@.take(i + 1).drop_last() =~= entries@.take(i as int));
        i += 1;
    }
    assert(entries@.take(i as int) =~= entries@);
}

/// Why a run produced nothing.
#[derive(Clone, Copy, PartialEq, Eq, Structural, Debug)]
pub enum RunError {
    /// The scan root does not exist or cannot be listed.
    RootInvalid,
}

/// What a completed run hands back: the aggregate, whose length is the
/// number of files taken, and the warnings met on the way.
pub struct Report {
    pub aggregate: Aggregate,
    pub warnings: Vec<Warning>,
}

/// The outcome of a run on the tree whose root is reported as `root`
/// (`None` when nothing exists at `root_path`): the records and the warnings.
/// A root that is a folder is walked; one that exists but is no folder
/// contributes no file and one warning; one that is missing or cannot be
/// listed aborts the run.
pub open spec fn spec_run(root_path: Seq<char>, root: Option<Entry>, cfg: Config) -> Result<
    (Seq<RecordView>, Seq<WarningView>),
    RunError,
> {
    match root {
        None => Err(RunError::RootInvalid),
        Some(Entry::Dir { children: None, .. }) => Err(RunError::RootInvalid),
        Some(Entry::Dir { children: Some(v), .. }) => Ok(
            (list_records(v@, root_path, cfg), list_warnings(v@, root_path, cfg)),
        ),
        Some(_) => Ok((seq![], seq![(WarningKind::DirectoryList, root_path)])),
    }
}

/// A report as the contracts see it.
pub open spec fn report_view(r: Result<Report, RunError>) -> Result<
    (Seq<RecordView>, Seq<WarningView>),
    RunError,
> {
    match r {
        Ok(rep) => Ok((rep.aggregate@, warnings_view(rep.warnings@))),
        Err(e) => Err(e),
    }
}

/// Walks the tree rooted at `root_path` and gathers every eligible file.
pub fn run(root_path: &String, root: &Option<Entry>, cfg: &Config) -> (r: Result<Report, RunError>)
    ensures
        report_view(r) == spec_run(root_path@, *root, *cfg),
{
    let mut aggregate = Aggregate::new();
    let mut warnings: Vec<Warning> = Vec::new();
    proof {
        assert(warnings_view(warnings@) =~= Seq::<WarningView>::empty());
    }
    match root {
        None => Err(RunError::RootInvalid),
        Some(Entry::Dir { children: None, .. }) => Err(RunError::RootInvalid),
        Some(Entry::Dir { children: Some(v), .. }) => {
            walk_list(v, root_path, cfg, &mut aggregate, &mut warnings);
            assert(aggregate@ =~= list_records(v@, root_path@, *cfg));
            assert(warnings_view(warnings@) =~= list_warnings(v@, root_path@, *cfg));
            Ok(Report { aggregate, warnings })
        },
        Some(_) => {
            push_warning(&mut warnings, WarningKind::DirectoryList, root_path.clone());
            assert(warnings_view(warnings@) =~= seq![(WarningKind::DirectoryList, root_path@)]);
            Ok(Report { aggregate, warnings })
        },
    }
}

} // verus!
