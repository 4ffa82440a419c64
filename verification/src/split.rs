//! Splitting packages and targets between the sync repositories and the
//! AUR.

use crate::text::same;
use vstd::prelude::*;

verus! {

/// Where targets are taken to come from: always the AUR, always the sync
/// repositories, or either.
#[derive(Debug, Eq, PartialEq, Copy, Clone, Structural)]
pub enum Mode {
    /// Aur only
    Aur,
    /// Repo only
    Repo,
    /// From anywhere
    Any,
}

impl Mode {
    /// Returns true if the mode is `Mode::Any`.
    pub fn is_any(self) -> (r: bool)
        ensures
            r == (self == Mode::Any),
    {
        self == Mode::Any
    }

    /// Returns true if the mode is `Mode::Aur`.
    pub fn is_aur(self) -> (r: bool)
        ensures
            r == (self == Mode::Aur),
    {
        self == Mode::Aur
    }

    /// Returns true if the mode is `Mode::Repo`.
    pub fn is_repo(self) -> (r: bool)
        ensures
            r == (self == Mode::Repo),
    {
        self == Mode::Repo
    }
}

/// Whether the answer at place `i` says that the sync databases hold what
/// was asked for. A missing answer says that they do not.
pub open spec fn in_sync(answers: Seq<bool>, i: int) -> bool {
    0 <= i < answers.len() && answers[i]
}

/// The items of `items` for whose place `answers` says `wanted`, in order.
pub open spec fn chosen<S>(items: Seq<S>, answers: Seq<bool>, wanted: bool) -> Seq<S>
    decreases items.len(),
{
    if items.len() == 0 {
        Seq::empty()
    } else if in_sync(answers, items.len() - 1) == wanted {
        chosen(items.drop_last(), answers, wanted).push(items.last())
    } else {
        chosen(items.drop_last(), answers, wanted)
    }
}

/// `copies` holds a clone of each item of `items` and nothing else, in the
/// same order.
pub open spec fn clones_of<S: Clone>(copies: Seq<S>, items: Seq<S>) -> bool {
    &&& copies.len() == items.len()
    &&& forall|i: int| 0 <= i < items.len() ==> cloned::<S>(#[trigger] items[i], copies[i])
}

/// A clone of each item of `items`, in order.
fn clone_all<S: Clone>(items: &[S]) -> (copies: Vec<S>)
    ensures
        clones_of(copies@, items@),
{
    let mut copies: Vec<S> = Vec::new();
    let mut i: usize = 0;
    while i < items.len()
        invariant
            i <= items.len(),
            clones_of(copies@, items@.take(i as int)),
        decreases items.len() - i,
    {
        copies.push(items[i].clone());
        i = i + 1;
    }
    proof {
        assert(items@.take(items.len() as int) =~= items@);
    }
    copies
}

/// Split a list of packages, based on whether they appear in the sync
/// databases.
///
/// `in_repo` holds, for each package of `pkgs` and in the same order,
/// whether a sync database holds a package of that name; a package without
/// an answer is taken not to be held. A package that is held is added to
/// the repo list. Otherwise it is assumed to be from the AUR.
///
/// The return is (repo_pkgs, aur_pkgs).
pub fn split_repo_aur_pkgs<S: Clone>(in_repo: &[bool], pkgs: &[S]) -> (split: (Vec<S>, Vec<S>))
    ensures
        clones_of(split.0@, chosen(pkgs@, in_repo@, true)),
        clones_of(split.1@, chosen(pkgs@, in_repo@, false)),
{
    let mut local: Vec<S> = Vec::new();
    let mut aur: Vec<S> = Vec::new();
    let mut i: usize = 0;
    while i < pkgs.len()
        invariant
            i <= pkgs.len(),
            clones_of(local@, chosen(pkgs@.take(i as int), in_repo@, true)),
            clones_of(aur@, chosen(pkgs@.take(i as int), in_repo@, false)),
        decreases pkgs.len() - i,
    {
        proof {
            assert(pkgs@.take(i + 1).drop_last() =~= pkgs@.take(i as int));
        }
        if i < in_repo.len() && in_repo[i] {
            local.push(pkgs[i].clone());
        } else {
            aur.push(pkgs[i].clone());
        }
        i = i + 1;
    }
    proof {
        assert(pkgs@.take(pkgs.len() as int) =~= pkgs@);
    }
    (local, aur)
}

/// The same as `split_repo_aur_pkgs` but takes mode into account: with
/// `Mode::Aur` every package is taken to be from the AUR, with `Mode::Repo`
/// every package is taken to be from the repos, and `in_repo` is read with
/// `Mode::Any` only.
pub fn split_repo_aur_mode<S: Clone>(mode: Mode, in_repo: &[bool], pkgs: &[S]) -> (split: (
    Vec<S>,
    Vec<S>,
))
    ensures
        match mode {
            Mode::Aur => split.0@.len() == 0 && clones_of(split.1@, pkgs@),
            Mode::Repo => clones_of(split.0@, pkgs@) && split.1@.len() == 0,
            Mode::Any => clones_of(split.0@, chosen(pkgs@, in_repo@, true)) && clones_of(
                split.1@,
                chosen(pkgs@, in_repo@, false),
            ),
        },
{
    match mode {
        Mode::Aur => (Vec::new(), clone_all(pkgs)),
        Mode::Repo => (clone_all(pkgs), Vec::new()),
        Mode::Any => split_repo_aur_pkgs(in_repo, pkgs),
    }
}

/// A target: a package, and the repository that it is asked from where one
/// was named, as in `extra/linux` or `aur/paru`.
#[derive(Debug, Clone, Copy, PartialEq, Eq)]
pub struct Targ<'a> {
    /// The repository that the package is asked from, if one was named.
    pub repo: Option<&'a str>,
    /// The name of the package.
    pub pkg: &'a str,
}

/// The name of the repository that stands for the AUR.
pub open spec fn aur_repo() -> Seq<char> {
    "aur"@
}

/// Whether a target is one for the repos: by the repository that it names,
/// where it names one, and else by whether the sync databases can provide
/// it, which `found` tells.
pub open spec fn for_repos(target: Targ, found: bool) -> bool {
    match target.repo {
        Some(repo) => repo@ != aur_repo(),
        None => found,
    }
}

/// For each target, whether it is one for the repos.
pub open spec fn sides(targets: Seq<Targ>, found: Seq<bool>) -> Seq<bool> {
    Seq::new(targets.len(), |i: int| for_repos(targets[i], in_sync(found, i)))
}

/// The same as `split_repo_aur_mode` but uses targets instead of strings.
///
/// `found` holds, for each target of `targets` and in the same order,
/// whether the sync databases hold a package that satisfies it or a group
/// of its name; it is read only with `Mode::Any`, and only for a target
/// that names no repository. A target that names one is for the AUR where
/// the name is `aur`, and for the repos otherwise.
pub fn split_repo_aur_targets<'a>(mode: Mode, found: &[bool], targets: &[Targ<'a>]) -> (split: (
    Vec<Targ<'a>>,
    Vec<Targ<'a>>,
))
    ensures
        match mode {
            Mode::Aur => split.0@.len() == 0 && split.1@ == targets@,
            Mode::Repo => split.0@ == targets@ && split.1@.len() == 0,
            Mode::Any => split.0@ == chosen(targets@, sides(targets@, found@), true) && split.1@
                == chosen(targets@, sides(targets@, found@), false),
        },
{
    let mut local: Vec<Targ<'a>> = Vec::new();
    let mut aur: Vec<Targ<'a>> = Vec::new();
    let ghost flags = sides(targets@, found@);
    let mut i: usize = 0;
    while i < targets.len()
        invariant
            i <= targets.len(),
            flags == sides(targets@, found@),
            match mode {
                Mode::Aur => local@.len() == 0 && aur@ == targets@.take(i as int),
                Mode::Repo => local@ == targets@.take(i as int) && aur@.len() == 0,
                Mode::Any => local@ == chosen(targets@.take(i as int), flags, true) && aur@
                    == chosen(targets@.take(i as int), flags, false),
            },
        decreases targets.len() - i,
    {
        let targ = targets[i];
        let to_repos = match mode {
            Mode::Aur => false,
            Mode::Repo => true,
            Mode::Any => match targ.repo {
                Some(repo) => !same(repo, "aur"),
                None => i < found.len() && found[i],
            },
        };
        proof {
            assert(targets@.take(i + 1).drop_last() =~= targets@.take(i as int));
            assert(targets@.take(i + 1) =~= targets@.take(i as int).push(targ));
            assert(mode == Mode::Any ==> to_repos == in_sync(flags, i as int));
        }
        if to_repos {
            local.push(targ);
        } else {
            aur.push(targ);
        }
        i = i + 1;
    }
    proof {
        assert(targets@.take(targets.len() as int) =~= targets@);
    }
    (local, aur)
}

} // verus!
