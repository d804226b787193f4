//! The local filesystem cursor: the current working directory, tracked as the
//! sequence of path components under the filesystem root, mutated only by
//! navigation that was probed to lead to an existing directory. A navigation
//! target is validated before it is used: one plain component name, or `..`
//! for the parent; anything else is rejected with a typed error and no
//! change, so the rendered path and its breadcrumbs always name exactly
//! where the cursor stands.
use vstd::prelude::*;

use crate::breadcrumb::{is_path_segment, joined_path, lemma_joined_path_round_trip, segments_of};
use crate::OpError;

verus! {

/// Whether every component is a usable path segment: non-empty and free of
/// separators.
pub open spec fn segments_wf(m: Seq<Seq<char>>) -> bool {
    forall|i: int| 0 <= i < m.len() ==> is_path_segment(#[trigger] m[i])
}

/// A usable navigation target: the parent marker `..`, or one plain
/// component name to descend into.
pub open spec fn is_navigation_target(t: Seq<char>) -> bool {
    t == ".."@ || is_path_segment(t)
}

/// The components after moving to the parent: the last one is dropped, and at
/// the filesystem root there is nothing to drop.
pub open spec fn parent_model(m: Seq<Seq<char>>) -> Seq<Seq<char>> {
    if m.len() == 0 {
        m
    } else {
        m.drop_last()
    }
}

/// The components a navigation target asks for: `..` asks for the parent,
/// any other target names one child component to descend into.
pub open spec fn candidate_model(m: Seq<Seq<char>>, target: Seq<char>) -> Seq<Seq<char>> {
    if target == ".."@ {
        parent_model(m)
    } else {
        m.push(target)
    }
}

/// Where the cursor stands after a probed navigation: on the candidate when
/// the probe found an existing directory there, unmoved otherwise.
pub open spec fn apply_model(m: Seq<Seq<char>>, c: Seq<Seq<char>>, is_dir: bool) -> Seq<Seq<char>> {
    if is_dir {
        c
    } else {
        m
    }
}

/// Whether a string is a usable navigation target: `..`, or a non-empty
/// name holding no separator.
pub fn valid_navigation_target(target: &String) -> (b: bool)
    ensures
        b == is_navigation_target(target@),
{
    let parent = String::from_str("..");
    if *target == parent {
        return true;
    }
    let n = target.as_str().unicode_len();
    if n == 0 {
        return false;
    }
    let mut i: usize = 0;
    while i < n
        invariant
            n == target@.len(),
            i <= n,
            target@ != ".."@,
            forall|j: int| 0 <= j < i ==> target@[j] != '/',
        decreases n - i,
    {
        if target.as_str().get_char(i) == '/' {
            proof {
                assert(target@[i as int] == '/');
                assert(!is_path_segment(target@));
            }
            return false;
        }
        i = i + 1;
    }
    true
}

/// The current local working directory. The caller computes a navigation
/// candidate, probes the filesystem for it, and applies the outcome; the
/// cursor itself never touches the filesystem.
pub struct LocalDirectoryCursor {
    parts: Vec<String>,
}

impl LocalDirectoryCursor {
    /// The path components under the filesystem root, in order.
    pub closed spec fn model(&self) -> Seq<Seq<char>> {
        self.parts.deep_view()
    }

    /// Well-formed: every component is a usable path segment, so the
    /// rendered path parses back to exactly these components.
    pub open spec fn wf(&self) -> bool {
        segments_wf(self.model())
    }

    /// A cursor standing at the filesystem root.
    pub fn new() -> (c: Self)
        ensures
            c.model() == Seq::<Seq<char>>::empty(),
            c.wf(),
    {
        LocalDirectoryCursor { parts: Vec::new() }
    }

    /// A cursor standing at the directory with the given components.
    pub fn from_parts(parts: Vec<String>) -> (c: Self)
        requires
            forall|i: int| 0 <= i < parts@.len() ==> is_path_segment(#[trigger] parts@[i]@),
        ensures
            c.model() == parts.deep_view(),
            c.wf(),
    {
        let c = LocalDirectoryCursor { parts };
        proof {
            assert forall|i: int| 0 <= i < c.model().len() implies is_path_segment(
                #[trigger] c.model()[i],
            ) by {
                assert(c.model()[i] == c.parts@[i]@);
            }
        }
        c
    }

    /// The components of the current directory, for rendering and for
    /// handing to the filesystem.
    pub fn parts(&self) -> (r: &Vec<String>)
        ensures
            r.deep_view() == self.model(),
    {
        &self.parts
    }

    /// The components the navigation target asks for: the parent for `..`
    /// (unchanged at the root), one component deeper for a plain name. A
    /// target that is neither — empty, or holding a separator — is rejected
    /// as a local error, and the cursor itself never moves here.
    pub fn candidate(&self, target: &String) -> (c: Result<Vec<String>, OpError>)
        ensures
            c is Ok <==> is_navigation_target(target@),
            c matches Ok(v) ==> v.deep_view() == candidate_model(self.model(), target@),
            self.wf() ==> (c matches Ok(v) ==> segments_wf(v.deep_view())),
            c is Err ==> c == Result::<Vec<String>, OpError>::Err(OpError::Io),
    {
        if !valid_navigation_target(target) {
            return Err(OpError::Io);
        }
        let mut v = self.parts.clone();
        proof {
            assert(v.deep_view() =~= self.model());
        }
        let parent = String::from_str("..");
        if *target == parent {
            let ghost before = v.deep_view();
            if v.len() > 0 {
                v.pop();
                proof {
                    assert(v.deep_view() =~= before.drop_last());
                }
            }
        } else {
            let ghost before = v.deep_view();
            v.push(target.clone());
            proof {
                assert(v.deep_view() =~= before.push(target@));
            }
        }
        proof {
            if self.wf() {
                assert forall|i: int| 0 <= i < v.deep_view().len() implies is_path_segment(
                    #[trigger] v.deep_view()[i],
                ) by {
                    if target@ == ".."@ && i < self.model().len() {
                        assert(v.deep_view()[i] == self.model()[i]);
                    } else if target@ != ".."@ && i < self.model().len() {
                        assert(v.deep_view()[i] == self.model()[i]);
                    }
                }
            }
        }
        Ok(v)
    }

    /// Applies the outcome of probing a candidate: the cursor moves there
    /// exactly when the probe found an existing directory, and otherwise
    /// stays where it was. For every input the cursor ends on a probed
    /// directory or unchanged; it never moves anywhere unprobed, and a
    /// well-formed candidate keeps the cursor well-formed.
    pub fn apply(&mut self, candidate: Vec<String>, candidate_is_dir: bool)
        ensures
            final(self).model() == apply_model(
                old(self).model(),
                candidate.deep_view(),
                candidate_is_dir,
            ),
            old(self).wf() && segments_wf(candidate.deep_view()) ==> final(self).wf(),
    {
        if candidate_is_dir {
            self.parts = candidate;
        }
    }

    /// The absolute path the cursor stands on, slash-delimited: empty at the
    /// filesystem root, and otherwise one `/` before each component.
    pub fn path_string(&self) -> (r: String)
        ensures
            r@ == joined_path(self.model()),
    {
        let mut s = String::new();
        let mut i: usize = 0;
        proof {
            assert(self.model().take(0) =~= Seq::<Seq<char>>::empty());
        }
        while i < self.parts.len()
            invariant
                i <= self.parts.len(),
                s@ == joined_path(self.model().take(i as int)),
            decreases self.parts.len() - i,
        {
            s.append("/");
            s.append(self.parts[i].as_str());
            proof {
                assert(self.model().take(i + 1).drop_last() =~= self.model().take(i as int));
                assert(self.model().take(i + 1).last() == self.model()[i as int]);
            }
            i = i + 1;
        }
        proof {
            assert(self.model().take(self.parts.len() as int) =~= self.model());
        }
        s
    }
}

/// Asking for the parent while standing at the filesystem root leaves the
/// navigation candidate exactly where the cursor already stands: parent
/// navigation at the root is a no-op.
pub proof fn lemma_parent_at_root_noop(m: Seq<Seq<char>>, target: Seq<char>)
    requires
        m.len() == 0,
        target == ".."@,
    ensures
        candidate_model(m, target) == m,
{
}

/// For every starting point, candidate and probe outcome, the cursor after a
/// navigation stands either on the probed candidate or exactly where it was:
/// it never moves to a path the probe did not confirm as a directory.
pub proof fn lemma_navigation_probed_or_unmoved(m: Seq<Seq<char>>, c: Seq<Seq<char>>, is_dir: bool)
    ensures
        apply_model(m, c, is_dir) == c || apply_model(m, c, is_dir) == m,
        !is_dir ==> apply_model(m, c, is_dir) == m,
        is_dir ==> apply_model(m, c, is_dir) == c,
{
}

/// The rendered path of a well-formed cursor names exactly where the cursor
/// stands: splitting the path back into breadcrumb segments recovers the
/// cursor's components, one for one, in order.
pub proof fn lemma_path_string_names_components(m: Seq<Seq<char>>)
    requires
        segments_wf(m),
    ensures
        segments_of(joined_path(m)) == m,
{
    lemma_joined_path_round_trip(m);
}

} // verus!
