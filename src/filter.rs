use vstd::prelude::*;

verus! {

/// Whether `name` equals one of the strings in `list`.
pub open spec fn contains_name(list: Seq<String>, name: Seq<char>) -> bool {
    exists|i: int| 0 <= i < list.len() && (#[trigger] list[i])@ == name
}

/// Index of the last `.` in `name`, or -1 when there is none.
pub open spec fn last_dot(name: Seq<char>) -> int
    decreases name.len(),
{
    if name.len() == 0 {
        -1
    } else if name.last() == '.' {
        name.len() - 1
    } else {
        last_dot(name.drop_last())
    }
}

/// The extension of a file name: the text after its last `.`, where that dot
/// is not the first character (`.gitignore` and `Makefile` have none).
pub open spec fn spec_extension(name: Seq<char>) -> Option<Seq<char>> {
    if last_dot(name) > 0 {
        Some(name.subrange(last_dot(name) + 1, name.len() as int))
    } else {
        None
    }
}

/// A file is eligible when it has an extension and that extension is one of
/// the allowed ones, compared exactly and case-sensitively.
pub open spec fn spec_eligible(extension: Option<Seq<char>>, allowed: Seq<String>) -> bool {
    match extension {
        Some(e) => contains_name(allowed, e),
        None => false,
    }
}

/// The extensions taken when the caller names none of its own.
pub open spec fn default_extension_names() -> Seq<Seq<char>> {
    seq![
        "go"@, "py"@, "cs"@, "csproj"@, "axaml"@, "xaml"@,
        "rs"@, "lua"@, "js"@, "json"@, "txt"@, "ipynb"@,
    ]
}

proof fn lemma_last_dot_bounds(name: Seq<char>)
    ensures
        -1 <= last_dot(name) < name.len(),
        last_dot(name) >= 0 ==> name[last_dot(name)] == '.',
        forall|j: int| last_dot(name) < j < name.len() ==> name[j] != '.',
    decreases name.len(),
{
    if name.len() > 0 && name.last() != '.' {
        let prefix = name.drop_last();
        lemma_last_dot_bounds(prefix);
        assert forall|j: int| last_dot(name) < j < name.len() implies name[j] != '.' by {
            if j < prefix.len() {
                assert(prefix[j] == name[j]);
            }
        }
    }
}

/// Exact membership of `name` in `list`.
fn contains_string(list: &Vec<String>, name: &String) -> (r: bool)
    ensures
        r == contains_name(list@, name@),
{
    let mut i: usize = 0;
    while i < list.len()
        invariant
            i <= list@.len(),
            forall|k: int| 0 <= k < i ==> (#[trigger] list@[k])@ != name@,
        decreases list.len() - i,
    {
        if list[i] == *name {
            return true;
        }
        i += 1;
    }
    false
}

/// The extension of a file name, if it has one.
pub fn extension_of(name: &String) -> (r: Option<String>)
    ensures
        match r {
            Some(e) => spec_extension(name@) == Some(e@),
            None => spec_extension(name@) is None,
        },
{
    let s = name.as_str();
    let len = s.unicode_len();
    let mut i: usize = len;
    let mut found = false;
    while i > 0 && !found
        invariant
            i <= len,
            len == s@.len(),
            s@ == name@,
            found ==> i > 0 && s@[i - 1] == '.',
            forall|j: int| i <= j < len ==> s@[j] != '.',
        decreases i + if found { 0int } else { 1int },
    {
        if s.get_char(i - 1) == '.' {
            found = true;
        } else {
            i -= 1;
        }
    }
    proof {
        lemma_last_dot_bounds(name@);
    }
    if i > 1 {
        assert(last_dot(name@) == i - 1) by {
            lemma_last_dot_unique(name@, i - 1);
        }
        let ext = s.substring_char(i, len);
        Some(String::from_str(ext))
    } else {
        proof {
            if i == 1 {
                lemma_last_dot_unique(name@, 0);
            } else {
                lemma_no_dot(name@);
            }
        }
        None
    }
}

proof fn lemma_last_dot_unique(name: Seq<char>, k: int)
    requires
        0 <= k < name.len(),
        name[k] == '.',
        forall|j: int| k < j < name.len() ==> name[j] != '.',
    ensures
        last_dot(name) == k,
    decreases name.len(),
{
    if name.len() - 1 != k {
        lemma_last_dot_unique(name.drop_last(), k);
    }
}

proof fn lemma_no_dot(name: Seq<char>)
    requires
        forall|j: int| 0 <= j < name.len() ==> name[j] != '.',
    ensures
        last_dot(name) == -1,
    decreases name.len(),
{
    if name.len() > 0 {
        lemma_no_dot(name.drop_last());
    }
}

/// Whether a directory with base name `name` is skipped, together with
/// everything below it: exact equality with one of the excluded names.
pub fn is_excluded_folder(name: &String, excluded: &Vec<String>) -> (r: bool)
    ensures
        r == contains_name(excluded@, name@),
{
    contains_string(excluded, name)
}

/// Whether a file with the given extension is taken: never without an
/// extension, otherwise exactly when the extension is allowed.
pub fn is_eligible_file(extension: &Option<String>, allowed: &Vec<String>) -> (r: bool)
    ensures
        r == spec_eligible(
            match extension {
                Some(e) => Some(e@),
                None => None,
            },
            allowed@,
        ),
{
    match extension {
        Some(e) => contains_string(allowed, e),
        None => false,
    }
}

/// The built-in allow-list of extensions.
pub fn default_extensions() -> (r: Vec<String>)
    ensures
        r@.len() == default_extension_names().len(),
        forall|i: int| 0 <= i < r@.len() ==> (#[trigger] r@[i])@ == default_extension_names()[i],
{
    let r = vec![
        String::from_str("go"),
        String::from_str("py"),
        String::from_str("cs"),
        String::from_str("csproj"),
        String::from_str("axaml"),
        String::from_str("xaml"),
        String::from_str("rs"),
        String::from_str("lua"),
        String::from_str("js"),
        String::from_str("json"),
        String::from_str("txt"),
        String::from_str("ipynb"),
    ];
    r
}

} // verus!
