use vstd::prelude::*;

verus! {

/// The views of a sequence of strings.
pub open spec fn string_views(v: Seq<String>) -> Seq<Seq<char>> {
    v.map_values(|s: String| s@)
}

/// The folder names that follow the first `--exclude` flag, or none when the
/// flag is absent.
pub open spec fn exclusions_of(args: Seq<Seq<char>>) -> Seq<Seq<char>>
    decreases args.len(),
{
    if args.len() == 0 {
        seq![]
    } else if args[0] == "--exclude"@ {
        args.drop_first()
    } else {
        exclusions_of(args.drop_first())
    }
}

/// What a command line asks for: the scan root and the excluded folders.
pub struct Invocation {
    pub root: String,
    pub excluded_folders: Vec<String>,
}

/// Why a command line was refused.
#[derive(Clone, Copy, PartialEq, Eq, Structural, Debug)]
pub enum ArgsError {
    /// No scan root was given.
    MissingPath,
}

proof fn lemma_exclusions_skip(args: Seq<Seq<char>>, i: int)
    requires
        0 <= i <= args.len(),
        forall|k: int| 0 <= k < i ==> args[k] != "--exclude"@,
    ensures
        exclusions_of(args) == exclusions_of(args.subrange(i, args.len() as int)),
    decreases i,
{
    if i > 0 {
        let rest = args.drop_first();
        assert forall|k: int| 0 <= k < i - 1 implies rest[k] != "--exclude"@ by {
            assert(rest[k] == args[k + 1]);
        }
        lemma_exclusions_skip(rest, i - 1);
        assert(rest.subrange(i - 1, rest.len() as int) =~= args.subrange(i, args.len() as int));
    } else {
        assert(args.subrange(0, args.len() as int) =~= args);
    }
}

/// Reads a command line: the program name, the scan root, then optionally
/// `--exclude` followed by folder names. Every argument after the first
/// `--exclude` (wherever it stands) is an excluded folder name.
pub fn parse_args(args: &Vec<String>) -> (r: Result<Invocation, ArgsError>)
    ensures
        r is Err <==> args@.len() < 2,
        r is Err ==> r == Err::<Invocation, ArgsError>(ArgsError::MissingPath),
        r is Ok ==> r->Ok_0.root@ == args@[1]@ && string_views(r->Ok_0.excluded_folders@)
            == exclusions_of(string_views(args@)),
{
    if args.len() < 2 {
        return Err(ArgsError::MissingPath);
    }
    let ghost views = string_views(args@);
    let flag = String::from_str("--exclude");
    let mut i: usize = 0;
    let mut found = false;
    while i < args.len() && !found
        invariant
            i <= args@.len(),
            views == string_views(args@),
            flag@ == "--exclude"@,
            found ==> i < args@.len() && views[i as int] == "--exclude"@,
            forall|k: int| 0 <= k < i ==> views[k] != "--exclude"@,
        decreases args@.len() - i + if found { 0int } else { 1int },
    {
        if args[i] == flag {
            found = true;
        } else {
            i += 1;
        }
    }
    proof {
        lemma_exclusions_skip(views, i as int);
    }
    let mut excluded_folders: Vec<String> = Vec::new();
    if found {
        let mut k: usize = i + 1;
        while k < args.len()
            invariant
                i < k <= args@.len(),
                views == string_views(args@),
                string_views(excluded_folders@) =~= views.subrange(i + 1, k as int),
            decreases args@.len() - k,
        {
            let item = args[k].clone();
            let ghost before = excluded_folders@;
            excluded_folders.push(item);
            assert(string_views(excluded_folders@) =~= string_views(before).push(item@));
            assert(views[k as int] == args@[k as int]@);
            k += 1;
        }
        proof {
            let tail = views.subrange(i as int, views.len() as int);
            assert(tail.drop_first() =~= views.subrange(i + 1, views.len() as int));
        }
    } else {
        proof {
            assert(views.subrange(i as int, views.len() as int) =~= Seq::<Seq<char>>::empty());
            assert(string_views(excluded_folders@) =~= Seq::<Seq<char>>::empty());
        }
    }
    Ok(Invocation { root: args[1].clone(), excluded_folders })
}

} // verus!
