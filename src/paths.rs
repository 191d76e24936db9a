use vstd::prelude::*;

verus! {

/// The text of `base` extended by the relative path `name`, as
/// `std::path::PathBuf::push` forms it on the host.
pub uninterp spec fn pushed_path(base: Seq<char>, name: Seq<char>) -> Seq<char>;

/// The parent of the path `p` (the path without its final component), as
/// `std::path::Path::parent` gives it on the host, or `None` where it has none.
pub uninterp spec fn parent_of(p: Seq<char>) -> Option<Seq<char>>;

/// Relies on std::path::PathBuf::push to extend `base` by `name`.
#[verifier::external_body]
fn push_path(base: &str, name: &str) -> (r: String)
    ensures
        r@ == pushed_path(base@, name@),
{
    let mut path = std::path::PathBuf::from(base);
    path.push(name);
    path.to_string_lossy().into_owned()
}

/// Relies on std::path::Path::parent for the parent of `p`, as text.
#[verifier::external_body]
fn parent_path(p: &str) -> (r: Option<String>)
    ensures
        r matches Some(t) ==> parent_of(p@) == Some(t@),
        r is None ==> parent_of(p@) is None,
{
    match std::path::Path::new(p).parent() {
        Some(q) => Some(q.to_string_lossy().into_owned()),
        None => None,
    }
}

/// The directory that holds the per-user data: `home`, or the current
/// directory when there is none, extended by `.solidoak`.
pub open spec fn data_dir_of(home: Option<Seq<char>>) -> Seq<char> {
    let base = match home {
        Some(h) => h,
        None => "."@,
    };
    pushed_path(base, ".solidoak"@)
}

/// The per-user data directory, under the home directory `home` (or under
/// the current directory when the home directory is unknown).
pub fn get_data_dir(home: Option<String>) -> (r: String)
    ensures
        r@ == data_dir_of(
            match home {
                Some(h) => Some(h@),
                None => None,
            },
        ),
{
    match home {
        Some(h) => push_path(h.as_str(), ".solidoak"),
        None => push_path(".", ".solidoak"),
    }
}

/// The preferences file, `prefs.json` inside the data directory.
pub fn get_prefs_file(home: Option<String>) -> (r: String)
    ensures
        r@ == pushed_path(
            data_dir_of(
                match home {
                    Some(h) => Some(h@),
                    None => None,
                },
            ),
            "prefs.json"@,
        ),
{
    let dir = get_data_dir(home);
    push_path(dir.as_str(), "prefs.json")
}

/// Whether two parents, as `parent_path` gives them, name one directory:
/// both exist and are equal.
pub fn same_parent(parent1: &Option<String>, parent2: &Option<String>) -> (r: bool)
    ensures
        r == (parent1 is Some && parent2 is Some && parent1->0@ == parent2->0@),
{
    match (parent1, parent2) {
        (Some(a), Some(b)) => *a == *b,
        _ => false,
    }
}

/// Whether `path1` and `path2` have the same parent directory. A path
/// without a parent (a root, an empty path) is nobody's sibling.
pub fn are_siblings(path1: &String, path2: &String) -> (r: bool)
    ensures
        r == (parent_of(path1@) is Some && parent_of(path1@) == parent_of(path2@)),
{
    let parent1 = parent_path(path1.as_str());
    let parent2 = parent_path(path2.as_str());
    same_parent(&parent1, &parent2)
}

/// The path of the selected tree row. `selected_row` is `None` when no row
/// is selected, and otherwise holds the row's path column when that value
/// is text.
pub fn get_selected_path(selected_row: Option<Option<String>>) -> (r: Option<String>)
    ensures
        r == match selected_row {
            Some(column) => column,
            None => None,
        },
{
    match selected_row {
        Some(column) => column,
        None => None,
    }
}

} // verus!
