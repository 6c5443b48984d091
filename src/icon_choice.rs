//! Where icon files are looked for, and which of those found is used.

use vstd::prelude::*;
use crate::desktop_entry::views;
use crate::protocol::IconRef;

verus! {

/// The view of an optional string slice.
pub open spec fn opt_str_view(o: Option<&str>) -> Option<Seq<char>> {
    match o {
        Some(s) => Some(s@),
        None => None,
    }
}

/// The data-directory prefix under which an icon is looked for: `icons`,
/// or `icons/<theme>` for a MIME-type icon when a theme is given.
pub open spec fn icon_prefix_spec(theme: Option<Seq<char>>, source: IconRef) -> Seq<char> {
    match source {
        IconRef::Mime(_) => match theme {
            Some(t) => "icons/"@ + t,
            None => "icons"@,
        },
        IconRef::Name(_) => "icons"@,
    }
}

/// The path, by components, of a PNG icon below that prefix:
/// `apps/<name>.png` for a named icon, `<theme>/<mime>.png` or
/// `<mime>.png` for a MIME-type icon.
pub open spec fn png_path_spec(theme: Option<Seq<char>>, source: IconRef) -> Seq<Seq<char>> {
    match source {
        IconRef::Name(n) => seq!["apps"@, n@ + ".png"@],
        IconRef::Mime(m) => match theme {
            Some(t) => seq![t, m@ + ".png"@],
            None => seq![m@ + ".png"@],
        },
    }
}

/// The data-directory prefix under which the icon is looked for.
pub fn icon_prefix(theme: Option<&str>, source: &IconRef) -> (r: String)
    ensures
        r@ == icon_prefix_spec(opt_str_view(theme), *source),
{
    proof {
        reveal_strlit("icons");
        reveal_strlit("icons/");
    }
    match source {
        IconRef::Mime(_) => match theme {
            Some(t) => {
                let mut r = String::from_str("icons/");
                r.append(t);
                r
            },
            None => String::from_str("icons"),
        },
        IconRef::Name(_) => String::from_str("icons"),
    }
}

fn png_file(name: &String) -> (r: String)
    ensures
        r@ == name@ + ".png"@,
{
    let mut r = name.clone();
    r.append(".png");
    r
}

/// The path, by components, of a PNG icon below its prefix.
pub fn png_path(theme: Option<&str>, source: &IconRef) -> (r: Vec<String>)
    ensures
        views(r@) == png_path_spec(opt_str_view(theme), *source),
{
    proof {
        reveal_strlit("apps");
    }
    let r = match source {
        IconRef::Name(n) => vec![String::from_str("apps"), png_file(n)],
        IconRef::Mime(m) => match theme {
            Some(t) => vec![t.to_owned(), png_file(m)],
            None => vec![png_file(m)],
        },
    };
    assert(views(r@) =~= png_path_spec(opt_str_view(theme), *source));
    r
}

/// Path `p`, given by its components, passes through a directory named `dir`.
pub open spec fn passes_through(p: Seq<String>, dir: Seq<char>) -> bool {
    exists|j: int| 0 <= j < p.len() && #[trigger] p[j]@ == dir
}

/// Whether any of the paths passes through a directory named `dir`.
pub open spec fn any_passes_through(found: Seq<Vec<String>>, dir: Seq<char>) -> bool {
    exists|k: int| 0 <= k < found.len() && passes_through(#[trigger] found[k]@, dir)
}

fn passes_through_exec(p: &Vec<String>, dir: &String) -> (r: bool)
    ensures
        r == passes_through(p@, dir@),
{
    let mut j: usize = 0;
    while j < p.len()
        invariant
            j <= p.len(),
            forall|i: int| 0 <= i < j ==> p@[i]@ != dir@,
        decreases p.len() - j,
    {
        if p[j] == *dir {
            return true;
        }
        j = j + 1;
    }
    false
}

/// The icon file to use among those found, each given by its path
/// components: the first one inside a directory named `size_dir` (such as
/// `24x24`), else the first one found; none where nothing was found.
pub fn preferred_icon(found: &Vec<Vec<String>>, size_dir: &str) -> (r: Option<usize>)
    ensures
        r is None <==> found@.len() == 0,
        r matches Some(i) ==> i < found@.len(),
        r matches Some(i) ==> if any_passes_through(found@, size_dir@) {
            passes_through(found@[i as int]@, size_dir@)
                && forall|k: int| 0 <= k < i ==> !passes_through(#[trigger] found@[k]@, size_dir@)
        } else {
            i == 0
        },
{
    let dir = size_dir.to_owned();
    let mut k: usize = 0;
    while k < found.len()
        invariant
            k <= found.len(),
            dir@ == size_dir@,
            forall|i: int| 0 <= i < k ==> !passes_through(#[trigger] found@[i]@, size_dir@),
        decreases found.len() - k,
    {
        if passes_through_exec(&found[k], &dir) {
            return Some(k);
        }
        k = k + 1;
    }
    if found.len() == 0 {
        None
    } else {
        Some(0)
    }
}

} // verus!
