use vstd::prelude::*;
use crate::filter::contains_name;
use crate::output::{render, RecordView};
use crate::tree::{spec_join, Config, Entry};
use crate::walk::{
    file_taken, folder_skipped, list_records, list_warnings, node_records, node_warnings,
    report_view, spec_run, Report, RunError,
};

verus! {

broadcast use vstd::seq::group_seq_axioms, vstd::std_specs::vec::group_vec_axioms;

/// A file met by a walk: its path, its base name, and its content (`None`
/// when it could not be read).
pub type FileView = (Seq<char>, Seq<char>, Option<Seq<char>>);

/// Every file below entry `e` of the folder at `dir` that does not lie inside a
/// folder named in `excluded`, whatever its extension, in depth-first order.
pub open spec fn node_files(e: Entry, dir: Seq<char>, excluded: Seq<String>) -> Seq<FileView>
    decreases e,
{
    match e {
        Entry::File { name, content } => seq![
            (
                spec_join(dir, name@),
                name@,
                match content {
                    Some(c) => Some(c@),
                    None => None,
                },
            ),
        ],
        Entry::Dir { name, children } => {
            if contains_name(excluded, name@) {
                seq![]
            } else {
                match children {
                    Some(v) => list_files(v@, spec_join(dir, name@), excluded),
                    None => seq![],
                }
            }
        },
        _ => seq![],
    }
}

/// Every file below a listing of the folder at `dir`, as [`node_files`] says.
pub open spec fn list_files(s: Seq<Entry>, dir: Seq<char>, excluded: Seq<String>) -> Seq<FileView>
    decreases s,
{
    if s.len() == 0 {
        seq![]
    } else {
        list_files(s.drop_last(), dir, excluded) + node_files(s.last(), dir, excluded)
    }
}

/// Of the files `fs`, those with an allowed extension that could be read, as
/// records.
pub open spec fn taken_records(fs: Seq<FileView>, cfg: Config) -> Seq<RecordView> {
    fs.filter(|f: FileView| file_taken(f.1, cfg) && f.2 is Some).map_values(
        |f: FileView| (f.0, f.2->Some_0),
    )
}

proof fn lemma_taken_records_add(a: Seq<FileView>, b: Seq<FileView>, cfg: Config)
    ensures
        taken_records(a + b, cfg) == taken_records(a, cfg) + taken_records(b, cfg),
{
    let p = |f: FileView| file_taken(f.1, cfg) && f.2 is Some;
    Seq::filter_distributes_over_add(a, b, p);
    assert(taken_records(a + b, cfg) =~= taken_records(a, cfg) + taken_records(b, cfg));
}

proof fn lemma_taken_records_small(fs: Seq<FileView>, cfg: Config)
    ensures
        fs.len() == 0 ==> taken_records(fs, cfg) == Seq::<RecordView>::empty(),
        fs.len() == 1 ==> taken_records(fs, cfg) == if file_taken(fs[0].1, cfg) && fs[0].2 is Some {
            seq![(fs[0].0, fs[0].2->Some_0)]
        } else {
            Seq::<RecordView>::empty()
        },
{
    reveal(Seq::filter);
    let p = |f: FileView| file_taken(f.1, cfg) && f.2 is Some;
    if fs.len() == 0 {
        assert(fs.filter(p) =~= Seq::<FileView>::empty());
        assert(taken_records(fs, cfg) =~= Seq::<RecordView>::empty());
    } else if fs.len() == 1 {
        assert(fs.drop_last() =~= Seq::<FileView>::empty());
        assert(fs.drop_last().filter(p) =~= Seq::<FileView>::empty());
        if p(fs[0]) {
            assert(taken_records(fs, cfg) =~= seq![(fs[0].0, fs[0].2->Some_0)]);
        } else {
            assert(taken_records(fs, cfg) =~= Seq::<RecordView>::empty());
        }
    }
}

/// The records that an entry contributes are exactly its files that lie in no
/// excluded folder, have an allowed extension and could be read: one record
/// each, in walk order, and nothing else.
pub proof fn lemma_entry_records_are_taken_files(e: Entry, dir: Seq<char>, cfg: Config)
    ensures
        node_records(e, dir, cfg) == taken_records(
            node_files(e, dir, cfg.excluded_folders@),
            cfg,
        ),
    decreases e,
{
    let fs = node_files(e, dir, cfg.excluded_folders@);
    match e {
        Entry::File { .. } => {
            lemma_taken_records_small(fs, cfg);
        },
        Entry::Dir { name, children } => {
            if folder_skipped(name@, cfg) {
                lemma_taken_records_small(fs, cfg);
            } else {
                match children {
                    Some(v) => {
                        lemma_listing_records_are_taken_files(v@, spec_join(dir, name@), cfg);
                    },
                    None => {
                        lemma_taken_records_small(fs, cfg);
                    },
                }
            }
        },
        _ => {
            lemma_taken_records_small(fs, cfg);
        },
    }
}

/// For every directory tree and every configuration, the aggregate holds
/// exactly one record per file whose extension is allowed and that lies in no
/// excluded folder (and could be read), in walk order; no other file appears.
pub proof fn lemma_listing_records_are_taken_files(s: Seq<Entry>, dir: Seq<char>, cfg: Config)
    ensures
        list_records(s, dir, cfg) == taken_records(list_files(s, dir, cfg.excluded_folders@), cfg),
    decreases s,
{
    if s.len() == 0 {
        lemma_taken_records_small(list_files(s, dir, cfg.excluded_folders@), cfg);
    } else {
        lemma_listing_records_are_taken_files(s.drop_last(), dir, cfg);
        lemma_entry_records_are_taken_files(s.last(), dir, cfg);
        lemma_taken_records_add(
            list_files(s.drop_last(), dir, cfg.excluded_folders@),
            node_files(s.last(), dir, cfg.excluded_folders@),
            cfg,
        );
    }
}

/// A run over a root folder that can be listed succeeds, and its aggregate
/// holds exactly the readable files with an allowed extension that lie in no
/// excluded folder, one record each, in walk order.
pub proof fn lemma_run_takes_exactly_eligible_files(
    root_path: Seq<char>,
    name: String,
    listing: Vec<Entry>,
    cfg: Config,
    r: Result<Report, RunError>,
)
    requires
        report_view(r) == spec_run(
            root_path,
            Some(Entry::Dir { name, children: Some(listing) }),
            cfg,
        ),
    ensures
        r is Ok,
        r->Ok_0.aggregate@ == taken_records(
            list_files(listing@, root_path, cfg.excluded_folders@),
            cfg,
        ),
{
    lemma_listing_records_are_taken_files(listing@, root_path, cfg);
}

/// Running twice over the same unchanged tree with the same configuration
/// gives the same outcome: byte-identical aggregate text, the same file count
/// and the same warnings.
pub proof fn lemma_run_is_repeatable(
    root_path: Seq<char>,
    root: Option<Entry>,
    cfg: Config,
    first: Result<Report, RunError>,
    second: Result<Report, RunError>,
)
    requires
        report_view(first) == spec_run(root_path, root, cfg),
        report_view(second) == spec_run(root_path, root, cfg),
    ensures
        first is Ok <==> second is Ok,
        first is Ok ==> render(first->Ok_0.aggregate@) == render(second->Ok_0.aggregate@)
            && first->Ok_0.aggregate@.len() == second->Ok_0.aggregate@.len()
            && report_view(first) == report_view(second),
        first is Err ==> first == second,
{
}

/// A folder whose name is excluded contributes no record and no warning,
/// whatever lies below it and whatever the extensions of its files.
pub proof fn lemma_excluded_folder_contributes_nothing(
    name: String,
    children: Option<Vec<Entry>>,
    dir: Seq<char>,
    cfg: Config,
)
    requires
        contains_name(cfg.excluded_folders@, name@),
    ensures
        node_records(Entry::Dir { name, children }, dir, cfg) == Seq::<RecordView>::empty(),
        node_warnings(Entry::Dir { name, children }, dir, cfg) == Seq::<
            crate::walk::WarningView,
        >::empty(),
{
}

/// A file without an extension, or whose extension is not allowed, never
/// gives a record, whether or not it could be read.
pub proof fn lemma_untaken_file_contributes_nothing(
    name: String,
    content: Option<String>,
    dir: Seq<char>,
    cfg: Config,
)
    requires
        !file_taken(name@, cfg),
    ensures
        node_records(Entry::File { name, content }, dir, cfg) == Seq::<RecordView>::empty(),
{
}

/// Whether some file of `fs` has path `path` and a name whose extension is
/// allowed under `cfg`.
pub open spec fn taken_file_at(fs: Seq<FileView>, path: Seq<char>, cfg: Config) -> bool {
    exists|j: int| 0 <= j < fs.len() && (#[trigger] fs[j]).0 == path && file_taken(fs[j].1, cfg)
}

/// Every record of a walk comes from a file that has an extension, and an
/// allowed one: files without one, or with another, never appear.
pub proof fn lemma_every_record_has_allowed_extension(s: Seq<Entry>, dir: Seq<char>, cfg: Config)
    ensures
        forall|i: int|
            0 <= i < list_records(s, dir, cfg).len() ==> taken_file_at(
                list_files(s, dir, cfg.excluded_folders@),
                (#[trigger] list_records(s, dir, cfg)[i]).0,
                cfg,
            ),
{
    let fs = list_files(s, dir, cfg.excluded_folders@);
    let recs = list_records(s, dir, cfg);
    let p = |f: FileView| file_taken(f.1, cfg) && f.2 is Some;
    lemma_listing_records_are_taken_files(s, dir, cfg);
    assert forall|i: int| 0 <= i < recs.len() implies taken_file_at(fs, (#[trigger] recs[i]).0, cfg) by {
        let f = fs.filter(p)[i];
        assert(fs.filter(p).contains(f));
        fs.lemma_filter_contains_rev(p, f);
        fs.lemma_filter_pred(p, i);
        let j = choose|j: int| 0 <= j < fs.len() && fs[j] == f;
        assert(fs[j].0 == recs[i].0);
    }
}

} // verus!
