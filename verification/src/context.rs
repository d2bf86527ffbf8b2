//! Context collector: best-effort facts about the environment of an
//! invocation, and the path logic they rest on.
//!
//! Every fact is optional; the embedding program reads the environment and
//! hands the raw values in, and the logic here reduces them to what gets
//! attached to a transaction.

use vstd::prelude::*;

verus! {

/// Ambient facts attached to a transaction, each best-effort: the invoking
/// user's name, the invoking shell's path, and a version-control descriptor of
/// the tool's own build.  Absence of any fact is not an error.
pub struct ContextFacts {
    pub user: Option<String>,
    pub shell_path: Option<String>,
    pub commit: Option<String>,
}

/// Mathematical picture of the ambient facts.
pub struct FactsModel {
    pub user: Option<Seq<char>>,
    pub shell_path: Option<Seq<char>>,
    pub commit: Option<Seq<char>>,
}

impl View for ContextFacts {
    type V = FactsModel;

    open spec fn view(&self) -> FactsModel {
        FactsModel {
            user: match self.user {
                Option::Some(ref s) => Option::Some(s@),
                Option::None => Option::None,
            },
            shell_path: match self.shell_path {
                Option::Some(ref s) => Option::Some(s@),
                Option::None => Option::None,
            },
            commit: match self.commit {
                Option::Some(ref s) => Option::Some(s@),
                Option::None => Option::None,
            },
        }
    }
}

impl ContextFacts {
    /// Facts with nothing known.
    pub fn none() -> (facts: ContextFacts)
        ensures
            facts@.user is None,
            facts@.shell_path is None,
            facts@.commit is None,
    {
        ContextFacts { user: Option::None, shell_path: Option::None, commit: Option::None }
    }
}

/// The path with its trailing `/` separators removed.
pub open spec fn trim_slashes(s: Seq<char>) -> Seq<char>
    decreases s.len(),
{
    if s.len() > 0 && s.last() == '/' {
        trim_slashes(s.drop_last())
    } else {
        s
    }
}

/// The suffix of the path after its last `/`, or the whole path when it has
/// none.
pub open spec fn suffix_after_slash(s: Seq<char>) -> Seq<char>
    decreases s.len(),
{
    if s.len() == 0 {
        s
    } else if s.last() == '/' {
        Seq::empty()
    } else {
        suffix_after_slash(s.drop_last()).push(s.last())
    }
}

/// The file name of a `/`-separated path: its last non-empty component, unless
/// that component is `.` or `..` or there is none (an empty path, or one of
/// separators alone).
pub open spec fn file_name_spec(s: Seq<char>) -> Option<Seq<char>> {
    let c = suffix_after_slash(trim_slashes(s));
    if c.len() == 0 || c == seq!['.'] || c == seq!['.', '.'] {
        Option::None
    } else {
        Option::Some(c)
    }
}

/// The file name of a shell path, to be attached as the transaction's shell
/// tag; nothing when the path has no file-name component.
pub fn shell_file_name(path: &str) -> (name: Option<String>)
    ensures
        match name {
            Option::Some(n) => file_name_spec(path@) == Option::Some(n@),
            Option::None => file_name_spec(path@) is None,
        },
{
    let n = path.unicode_len();
    proof {
        assert(path@.take(n as int) =~= path@);
    }
    let mut end = n;
    while end > 0 && path.get_char(end - 1) == '/'
        invariant
            end <= n == path@.len(),
            trim_slashes(path@) == trim_slashes(path@.take(end as int)),
        decreases end,
    {
        proof {
            assert(path@.take(end as int).last() == '/');
            assert(path@.take(end as int).drop_last() =~= path@.take(end - 1));
        }
        end = end - 1;
    }
    proof {
        if end > 0 {
            assert(path@.take(end as int).last() != '/');
        }
        assert(trim_slashes(path@) =~= path@.take(end as int));
    }
    let ghost t = path@.take(end as int);
    let mut start = end;
    while start > 0 && path.get_char(start - 1) != '/'
        invariant
            start <= end <= n == path@.len(),
            t == path@.take(end as int),
            suffix_after_slash(t) == suffix_after_slash(path@.take(start as int)) + t.subrange(
                start as int,
                end as int,
            ),
        decreases start,
    {
        proof {
            let pre = path@.take(start as int);
            assert(pre.last() == path@[start - 1]);
            assert(pre.drop_last() =~= path@.take(start - 1));
            assert(suffix_after_slash(pre) =~= suffix_after_slash(path@.take(start - 1)).push(
                path@[start - 1],
            ));
            assert(suffix_after_slash(path@.take(start - 1)) + t.subrange(
                start - 1,
                end as int,
            ) =~= suffix_after_slash(pre) + t.subrange(start as int, end as int));
        }
        start = start - 1;
    }
    proof {
        if start > 0 {
            assert(path@.take(start as int).last() == '/');
            assert(suffix_after_slash(path@.take(start as int)) =~= Seq::<char>::empty());
        }
        assert(suffix_after_slash(t) =~= t.subrange(start as int, end as int));
        assert(t.subrange(start as int, end as int) =~= path@.subrange(start as int, end as int));
    }
    let component = path.substring_char(start, end);
    let len = end - start;
    if len == 0 {
        Option::None
    } else if len == 1 && component.get_char(0) == '.' {
        proof {
            assert(component@ =~= seq!['.']);
        }
        Option::None
    } else if len == 2 && component.get_char(0) == '.' && component.get_char(1) == '.' {
        proof {
            assert(component@ =~= seq!['.', '.']);
        }
        Option::None
    } else {
        proof {
            assert(component@ != seq!['.'] && component@ != seq!['.', '.']) by {
                if component@ == seq!['.'] {
                    assert(component@.len() == 1);
                    assert(component@[0] == '.');
                }
                if component@ == seq!['.', '.'] {
                    assert(component@.len() == 2);
                    assert(component@[0] == '.');
                    assert(component@[1] == '.');
                }
            }
        }
        Option::Some(String::from_str(component))
    }
}

/// The deepest prefix marked as holding a repository: `has_git[i]` says whether
/// the prefix with `i` components holds one, and the deepest marked prefix
/// wins.
pub open spec fn deepest_root(has_git: Seq<bool>) -> Option<int>
    decreases has_git.len(),
{
    if has_git.len() == 0 {
        Option::None
    } else if has_git.last() {
        Option::Some(has_git.len() - 1)
    } else {
        deepest_root(has_git.drop_last())
    }
}

/// Finds the repository root among the ancestors of a start path, deepest
/// ancestor first.  `start` is the path, split into its components; `has_git`
/// says, for each prefix of `start` by component count, whether that prefix
/// contains a `.git` entry (the embedding program probes the file system for
/// this).  Returns the component count of the repository root, or nothing when
/// no ancestor contains one.
pub fn repository_root(start: &Vec<String>, has_git: &Vec<bool>) -> (root: Option<usize>)
    requires
        has_git@.len() == start@.len() + 1,
    ensures
        match root {
            Option::Some(i) => deepest_root(has_git@) == Option::Some(i as int) && i <= start@.len(),
            Option::None => deepest_root(has_git@) is None,
        },
{
    let mut i = has_git.len();
    proof {
        assert(has_git@.take(i as int) =~= has_git@);
    }
    while i > 0
        invariant
            i <= has_git@.len(),
            has_git@.len() == start@.len() + 1,
            deepest_root(has_git@) == deepest_root(has_git@.take(i as int)),
        decreases i,
    {
        proof {
            assert(has_git@.take(i as int).last() == has_git@[i - 1]);
            assert(has_git@.take(i as int).drop_last() =~= has_git@.take(i - 1));
        }
        if has_git[i - 1] {
            proof {
                assert(has_git@.take(i as int).last());
                assert(deepest_root(has_git@.take(i as int)) == Option::Some(i as int - 1));
            }
            return Option::Some(i - 1);
        }
        i = i - 1;
    }
    proof {
        assert(has_git@.take(0) =~= Seq::<bool>::empty());
    }
    Option::None
}

/// The path relative to the repository root found among its ancestors: the
/// components after the root's, or nothing when no ancestor contains a
/// repository.  `has_git` is as in [`repository_root`].
pub fn path_from_repository_root(path: &Vec<String>, has_git: &Vec<bool>) -> (rel: Option<
    Vec<String>,
>)
    requires
        has_git@.len() == path@.len() + 1,
    ensures
        match rel {
            Option::Some(r) => {
                &&& deepest_root(has_git@) matches Option::Some(i)
                &&& r@ == path@.subrange(deepest_root(has_git@)->Some_0, path@.len() as int)
            },
            Option::None => deepest_root(has_git@) is None,
        },
{
    match repository_root(path, has_git) {
        Option::Some(root) => {
            let mut rel: Vec<String> = Vec::new();
            let mut j = root;
            while j < path.len()
                invariant
                    root <= j <= path@.len(),
                    rel@ =~= path@.subrange(root as int, j as int),
                decreases path@.len() - j,
            {
                rel.push(path[j].clone());
                j = j + 1;
            }
            proof {
                assert(rel@ =~= path@.subrange(root as int, path@.len() as int));
            }
            Option::Some(rel)
        },
        Option::None => Option::None,
    }
}

} // verus!
