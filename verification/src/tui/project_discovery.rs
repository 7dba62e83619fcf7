//! Projects offered by the picker: the one around the working directory, then each
//! `.coherence/project.toml` that a search of the home tree printed, each directory once.
//! The caller runs the search and checks the file system; the choices are made here.
use vstd::prelude::*;

use crate::paths::{
    ancestors_spec, components, file_name, file_name_spec, first_marked_ancestor, first_marked_spec,
    parent_components, parent_spec, path_components, render, render_components, texts,
};
use crate::text::{owned, str_eq};
use crate::tui::ui::{lines_from, split_lines};

verus! {

/// Projects as texts: `(directory, display name)`.
pub open spec fn project_texts(v: Seq<(String, String)>) -> Seq<(Seq<char>, Seq<char>)> {
    v.map_values(|p: (String, String)| (p.0@, p.1@))
}

/// Some listed project has the same components as `path`.
pub open spec fn listed(v: Seq<(Seq<char>, Seq<char>)>, path: Seq<char>) -> bool {
    exists|i: int| 0 <= i < v.len() && components(#[trigger] v[i].0) == components(path)
}

/// `v` with `path` added, named by its last component, unless it is listed already.
pub open spec fn with_project(v: Seq<(Seq<char>, Seq<char>)>, path: Seq<char>) -> Seq<(Seq<char>, Seq<char>)> {
    if listed(v, path) {
        v
    } else {
        v.push(
            (
                path,
                match file_name_spec(components(path)) {
                    Some(n) => n,
                    None => Seq::empty(),
                },
            ),
        )
    }
}

/// Adds the project at `path`, named by its last component, unless a project with the same
/// path is listed already.
pub fn push_project(projects: &mut Vec<(String, String)>, path: &str)
    ensures
        project_texts(final(projects)@) == with_project(project_texts(old(projects)@), path@),
{
    let ghost v = project_texts(projects@);
    let pc = path_components(path);
    let mut i: usize = 0;
    while i < projects.len()
        invariant
            v == project_texts(projects@),
            texts(pc@) == components(path@),
            i <= projects@.len(),
            forall|k: int| 0 <= k < i ==> components(#[trigger] v[k].0) != components(path@),
        decreases projects@.len() - i,
    {
        let ec = path_components(projects[i].0.as_str());
        if same_texts(ec.as_slice(), pc.as_slice()) {
            proof {
                assert(v[i as int].0 == projects@[i as int].0@);
                assert(listed(v, path@));
            }
            return;
        }
        proof {
            assert(v[i as int].0 == projects@[i as int].0@);
        }
        i = i + 1;
    }
    proof {
        assert(!listed(v, path@));
    }
    let name = match file_name(path) {
        Some(n) => n,
        None => String::new(),
    };
    let ghost before = projects@;
    projects.push((owned(path), name));
    proof {
        assert(project_texts(projects@) =~= project_texts(before).push((path@, name@)));
    }
}

/// Whether the component lists `a` and `b` are the same.
fn same_texts(a: &[String], b: &[String]) -> (r: bool)
    ensures
        r == (texts(a@) == texts(b@)),
{
    if a.len() != b.len() {
        proof {
            assert(texts(a@).len() != texts(b@).len());
        }
        return false;
    }
    let mut i: usize = 0;
    while i < a.len()
        invariant
            a@.len() == b@.len(),
            i <= a@.len(),
            forall|k: int| 0 <= k < i ==> a@[k]@ == b@[k]@,
        decreases a@.len() - i,
    {
        if !str_eq(a[i].as_str(), b[i].as_str()) {
            proof {
                assert(texts(a@)[i as int] != texts(b@)[i as int]);
            }
            return false;
        }
        i = i + 1;
    }
    assert(texts(a@) =~= texts(b@));
    true
}

/// The project directory of a manifest path `<dir>/.coherence/project.toml`: its grandparent.
pub open spec fn manifest_project_dir(line: Seq<char>) -> Option<Seq<char>> {
    match parent_spec(components(line)) {
        Some(p) => match parent_spec(p) {
            Some(g) => Some(render(g)),
            None => None,
        },
        None => None,
    }
}

/// The directory two levels above the manifest path `line`, when there is one.
pub fn project_dir_of_manifest(line: &str) -> (r: Option<String>)
    ensures
        match r {
            Some(d) => manifest_project_dir(line@) == Some(d@),
            None => manifest_project_dir(line@) is None,
        },
{
    let c = path_components(line);
    match parent_components(c.as_slice()) {
        Some(p) => match parent_components(p.as_slice()) {
            Some(g) => Some(render_components(g.as_slice())),
            None => None,
        },
        None => None,
    }
}

/// The project around the working directory `cwd`: its nearest ancestor (itself included)
/// that holds `.coherence/project.toml`, `has_manifest[i]` telling whether the `i`-th
/// ancestor does.
pub fn current_project_root(cwd: &str, has_manifest: &[bool]) -> (r: Option<String>)
    requires
        has_manifest@.len() == ancestors_spec(cwd@).len(),
    ensures
        match r {
            Some(d) => first_marked_spec(ancestors_spec(cwd@), has_manifest@) == Some(d@),
            None => first_marked_spec(ancestors_spec(cwd@), has_manifest@) is None,
        },
{
    first_marked_ancestor(cwd, has_manifest)
}

/// The projects found in the lines of `found` after `v`, in order.
pub open spec fn with_found(v: Seq<(Seq<char>, Seq<char>)>, found: Seq<Seq<char>>) -> Seq<(Seq<char>, Seq<char>)>
    decreases found.len(),
{
    if found.len() == 0 {
        v
    } else {
        let v1 = match manifest_project_dir(found[0]) {
            Some(d) => with_project(v, d),
            None => v,
        };
        with_found(v1, found.drop_first())
    }
}

/// The projects to offer: the current one, then the directory of each manifest path listed
/// one per line in `search_output`, each directory once.
pub open spec fn discovered(current: Option<Seq<char>>, search_output: Seq<char>) -> Seq<(Seq<char>, Seq<char>)> {
    let start = match current {
        Some(c) => with_project(Seq::empty(), c),
        None => Seq::empty(),
    };
    with_found(start, lines_from(search_output, 0))
}

/// The projects to offer, from the current project root (if any) and the output of the
/// manifest search.
pub fn discover_projects(current: Option<&str>, search_output: &str) -> (r: Vec<(String, String)>)
    ensures
        project_texts(r@) == discovered(
            match current {
                Some(c) => Some(c@),
                None => None,
            },
            search_output@,
        ),
{
    let mut projects: Vec<(String, String)> = Vec::new();
    match current {
        Some(c) => {
            push_project(&mut projects, c);
        },
        None => {},
    }
    proof {
        assert(project_texts(Seq::<(String, String)>::empty()) =~= Seq::<(Seq<char>, Seq<char>)>::empty());
    }
    let ghost start = project_texts(projects@);
    let lines = split_lines(search_output);
    let ghost all = texts(lines@);
    let mut i: usize = 0;
    assert(all.subrange(0, all.len() as int) =~= all);
    while i < lines.len()
        invariant
            all == texts(lines@),
            i <= lines@.len(),
            with_found(start, all) == with_found(project_texts(projects@), all.subrange(i as int, all.len() as int)),
        decreases lines@.len() - i,
    {
        let ghost rest = all.subrange(i as int, all.len() as int);
        assert(rest.drop_first() =~= all.subrange(i + 1, all.len() as int));
        assert(rest[0] == lines@[i as int]@);
        match project_dir_of_manifest(lines[i].as_str()) {
            Some(d) => {
                push_project(&mut projects, d.as_str());
            },
            None => {},
        }
        i = i + 1;
    }
    assert(all.subrange(i as int, all.len() as int) =~= Seq::<Seq<char>>::empty());
    projects
}

} // verus!
