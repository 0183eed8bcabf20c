//! A plain model of filesystem paths.
//!
//! A path is its ordered sequence of component names; an absolute path has an
//! implicit leading root. The host hands paths to the library in this form
//! and turns them back into its native path type at the boundary.

use vstd::prelude::*;
use vstd::string::StringExecFns;

verus! {

/// An absolute filesystem path, as its ordered component names.
pub struct AbsPath {
    pub components: Vec<String>,
}

/// A path relative to some directory, as its ordered component names.
pub struct RelPath {
    pub components: Vec<String>,
}

/// The abstract form of a component list: the components' texts, in order.
pub open spec fn component_texts(components: Seq<String>) -> Seq<Seq<char>> {
    components.map(|i: int, s: String| s@)
}

/// Appending a component appends its text.
pub proof fn lemma_component_texts_last(components: Seq<String>)
    requires
        components.len() > 0,
    ensures
        component_texts(components) =~= component_texts(components.drop_last()).push(
            components.last()@,
        ),
{
    assert forall|i: int| 0 <= i < components.len() implies #[trigger] component_texts(
        components,
    )[i] == component_texts(components.drop_last()).push(components.last()@)[i] by {
        if i < components.len() - 1 {
            assert(components.drop_last()[i] == components[i]);
        }
    }
}

impl View for AbsPath {
    type V = Seq<Seq<char>>;

    open spec fn view(&self) -> Seq<Seq<char>> {
        component_texts(self.components@)
    }
}

impl View for RelPath {
    type V = Seq<Seq<char>>;

    open spec fn view(&self) -> Seq<Seq<char>> {
        component_texts(self.components@)
    }
}

/// The text of an absolute path: each component preceded by a separator.
pub open spec fn spec_render_abs(components: Seq<Seq<char>>) -> Seq<char>
    decreases components.len(),
{
    if components.len() == 0 {
        Seq::<char>::empty()
    } else {
        spec_render_abs(components.drop_last()).push('/') + components.last()
    }
}

/// The text of a relative path: components joined by separators.
pub open spec fn spec_render_rel(components: Seq<Seq<char>>) -> Seq<char>
    decreases components.len(),
{
    if components.len() == 0 {
        Seq::<char>::empty()
    } else if components.len() == 1 {
        components[0]
    } else {
        spec_render_rel(components.drop_last()).push('/') + components.last()
    }
}

impl AbsPath {
    /// The path extended by the components of `rel`, in order.
    pub fn join(&self, rel: &RelPath) -> (r: AbsPath)
        ensures
            r@ == self@ + rel@,
    {
        let mut components: Vec<String> = Vec::new();
        let mut i: usize = 0;
        while i < self.components.len()
            invariant
                i <= self.components.len(),
                component_texts(components@) =~= self@.subrange(0, i as int),
            decreases self.components.len() - i,
        {
            let ghost prev = components@;
            components.push(self.components[i].clone());
            proof {
                assert(components@.drop_last() =~= prev);
                lemma_component_texts_last(components@);
            }
            i += 1;
        }
        let mut j: usize = 0;
        while j < rel.components.len()
            invariant
                j <= rel.components.len(),
                component_texts(components@) =~= self@ + rel@.subrange(0, j as int),
            decreases rel.components.len() - j,
        {
            let ghost prev = components@;
            components.push(rel.components[j].clone());
            proof {
                assert(components@.drop_last() =~= prev);
                lemma_component_texts_last(components@);
            }
            j += 1;
        }
        let r = AbsPath { components };
        proof {
            assert(r@ =~= self@ + rel@);
        }
        r
    }

    /// The path's text, for use in an argument vector.
    pub fn render(&self) -> (r: String)
        ensures
            r@ == spec_render_abs(self@),
    {
        let mut out = String::new();
        let mut i: usize = 0;
        while i < self.components.len()
            invariant
                i <= self.components.len(),
                out@ == spec_render_abs(self@.subrange(0, i as int)),
            decreases self.components.len() - i,
        {
            out.append("/");
            out.append(self.components[i].as_str());
            proof {
                reveal_strlit("/");
                let prefix = self@.subrange(0, i + 1);
                assert(prefix.drop_last() =~= self@.subrange(0, i as int));
                assert(prefix.last() == self@[i as int]);
                assert(out@ =~= spec_render_abs(prefix));
            }
            i += 1;
        }
        proof {
            assert(self@.subrange(0, self@.len() as int) =~= self@);
        }
        out
    }
}

impl RelPath {
    /// The path's text, for use as a file-match pattern.
    pub fn render(&self) -> (r: String)
        ensures
            r@ == spec_render_rel(self@),
    {
        let mut out = String::new();
        let mut i: usize = 0;
        while i < self.components.len()
            invariant
                i <= self.components.len(),
                out@ == spec_render_rel(self@.subrange(0, i as int)),
            decreases self.components.len() - i,
        {
            if i > 0 {
                out.append("/");
            }
            out.append(self.components[i].as_str());
            proof {
                reveal_strlit("/");
                let prefix = self@.subrange(0, i + 1);
                assert(prefix.drop_last() =~= self@.subrange(0, i as int));
                assert(prefix.last() == self@[i as int]);
                assert(out@ =~= spec_render_rel(prefix));
            }
            i += 1;
        }
        proof {
            assert(self@.subrange(0, self@.len() as int) =~= self@);
        }
        out
    }
}

/// The file-match form of a well-known configuration file path: the path
/// relative to its grandparent directory, so that the consuming tool can
/// match the file regardless of where the host's configuration root lives.
///
/// A path with fewer than two ancestor components is a programming error on
/// the host's side, so it is excluded rather than handled.
pub fn schema_file_match(path: &AbsPath) -> (r: RelPath)
    requires
        path@.len() >= 2,
    ensures
        r@ == path@.subrange(path@.len() - 2, path@.len() as int),
{
    let n = path.components.len();
    let mut components: Vec<String> = Vec::new();
    components.push(path.components[n - 2].clone());
    components.push(path.components[n - 1].clone());
    let r = RelPath { components };
    proof {
        assert(r@ =~= path@.subrange(path@.len() - 2, path@.len() as int));
    }
    r
}

} // verus!
