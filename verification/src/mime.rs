//! The catalog entry type and the matching algorithm: a `Mime` node binds a
//! label, aliases, an extension and a matcher to an ordered list of more
//! specific child entries; classification walks from a node to the deepest
//! child whose matcher accepts the content, first match winning among
//! siblings.

use vstd::prelude::*;

use crate::detector::{detector_matches, spec_detector_matches, Detector};
use vstd::slice::slice_subrange;
use vstd::string::StringExecFns;

verus! {

/// A catalog entry: a file format with its canonical label, alias labels,
/// conventional extension, bound matcher, and ordered sub-formats.
#[derive(Debug)]
pub struct Mime {
    /// The canonical content-type label.
    pub mime: String,
    /// Alternate labels considered equivalent; used for reporting only.
    pub aliases: Vec<String>,
    /// The conventional file extension, possibly empty.
    pub extension: String,
    /// The matcher bound at construction.
    pub detector: Detector,
    /// More specific sub-formats, in match order: first match wins.
    pub children: Vec<Mime>,
}

/// The node that classification starting at entry `i` of `m`'s child list
/// returns: the first child from `i` on whose matcher accepts `c` is entered
/// and walked from its own first child; when none accepts, `m` itself is the
/// result.
pub open spec fn spec_classify_from(m: Mime, i: int, c: Seq<u8>) -> Mime
    decreases m, m.children@.len() - i,
{
    if i < 0 || i >= m.children@.len() {
        m
    } else if spec_detector_matches(m.children@[i].detector, c) {
        spec_classify_from(m.children@[i], 0, c)
    } else {
        spec_classify_from(m, i + 1, c)
    }
}

/// The most specific catalog node under `m` whose chain of matchers accepts
/// `c`; `m` itself when no child matcher does.
pub open spec fn spec_classify(m: Mime, c: Seq<u8>) -> Mime {
    spec_classify_from(m, 0, c)
}

/// `r` is a detached value snapshot of the catalog node `node`: same label,
/// aliases and extension, with no matcher and no children of its own.
pub open spec fn is_snapshot_of(r: Mime, node: Mime) -> bool {
    &&& r.mime@ == node.mime@
    &&& r.aliases@.len() == node.aliases@.len()
    &&& (forall|i: int| 0 <= i < r.aliases@.len() ==> r.aliases@[i]@ == node.aliases@[i]@)
    &&& r.extension@ == node.extension@
    &&& r.children@.len() == 0
    &&& r.detector is Empty
}

fn clone_strings(v: &Vec<String>) -> (r: Vec<String>)
    ensures
        r@.len() == v@.len(),
        forall|i: int| 0 <= i < v@.len() ==> r@[i]@ == v@[i]@,
{
    let mut r: Vec<String> = Vec::new();
    let mut i: usize = 0;
    while i < v.len()
        invariant
            i <= v@.len(),
            r@.len() == i,
            forall|j: int| 0 <= j < i ==> r@[j]@ == v@[j]@,
        decreases v@.len() - i,
    {
        r.push(v[i].clone());
        i += 1;
    }
    r
}

impl Mime {
    /// Builds an entry with the given label, extension and matcher, no
    /// aliases and no children yet.
    pub fn new(mime: String, extension: String, detector: Detector) -> (r: Mime)
        ensures
            r.mime@ == mime@,
            r.extension@ == extension@,
            r.detector == detector,
            r.aliases@.len() == 0,
            r.children@.len() == 0,
    {
        Mime { mime, aliases: Vec::new(), extension, detector, children: Vec::new() }
    }

    /// Replaces the alias list with the given labels.
    pub fn aliases(self, aliases: Vec<&str>) -> (r: Mime)
        ensures
            r.mime == self.mime,
            r.extension == self.extension,
            r.detector == self.detector,
            r.children == self.children,
            r.aliases@.len() == aliases@.len(),
            forall|i: int| 0 <= i < aliases@.len() ==> r.aliases@[i]@ == aliases@[i]@,
    {
        let mut owned: Vec<String> = Vec::new();
        let mut i: usize = 0;
        while i < aliases.len()
            invariant
                i <= aliases@.len(),
                owned@.len() == i,
                forall|j: int| 0 <= j < i ==> owned@[j]@ == aliases@[j]@,
            decreases aliases@.len() - i,
        {
            owned.push(String::from_str(aliases[i]));
            i += 1;
        }
        Mime {
            mime: self.mime,
            aliases: owned,
            extension: self.extension,
            detector: self.detector,
            children: self.children,
        }
    }

    /// Replaces the child list with the given sub-formats, in match order.
    pub fn children(self, children: Vec<Mime>) -> (r: Mime)
        ensures
            r.mime == self.mime,
            r.extension == self.extension,
            r.detector == self.detector,
            r.aliases == self.aliases,
            r.children == children,
    {
        Mime {
            mime: self.mime,
            aliases: self.aliases,
            extension: self.extension,
            detector: self.detector,
            children,
        }
    }

    /// A detached snapshot of this node's public fields.
    fn snapshot(&self) -> (r: Mime)
        ensures
            is_snapshot_of(r, *self),
    {
        Mime {
            mime: self.mime.clone(),
            aliases: clone_strings(&self.aliases),
            extension: self.extension.clone(),
            detector: Detector::Empty,
            children: Vec::new(),
        }
    }

    /// Classifies `content` under this node: walks to the deepest descendant
    /// whose matcher chain accepts the bytes and returns its snapshot; this
    /// node's own snapshot when no child matcher accepts.  Total: every
    /// byte slice, the empty one included, yields exactly one result.
    pub fn match_mime(&self, content: &[u8], limit: usize) -> (r: Mime)
        ensures
            is_snapshot_of(r, spec_classify(*self, content@)),
        decreases *self,
    {
        let mut i: usize = 0;
        while i < self.children.len()
            invariant
                i <= self.children@.len(),
                spec_classify(*self, content@) == spec_classify_from(*self, i as int, content@),
        decreases self.children@.len() - i,
        {
            let c = &self.children[i];
            if detector_matches(&c.detector, content, limit) {
                proof {
                    assert(spec_classify_from(*self, i as int, content@) == spec_classify_from(
                        self.children@[i as int],
                        0,
                        content@,
                    ));
                }
                return c.match_mime(content, limit);
            }
            i += 1;
        }
        self.snapshot()
    }
}

/// The prefix of `c` that classification may read: the first `limit` bytes
/// when a positive limit cuts the buffer, the whole buffer otherwise.
pub open spec fn spec_truncated(c: Seq<u8>, limit: usize) -> Seq<u8> {
    if limit > 0 && c.len() > limit {
        c.take(limit as int)
    } else {
        c
    }
}

/// What `detect` returns: the root snapshot for an empty buffer, else the
/// most specific node of `tree` accepting the truncated buffer.
pub open spec fn spec_detect(tree: Mime, c: Seq<u8>, limit: usize) -> Mime {
    if c.len() == 0 {
        tree
    } else {
        spec_classify(tree, spec_truncated(c, limit))
    }
}

/// Classifies `content` against the catalog rooted at `tree`, reading at
/// most the first `limit` bytes (0 means the whole buffer).  An empty buffer
/// classifies as the root entry, the generic binary stream.  The result is a
/// detached snapshot: label, aliases and extension of the deepest matching
/// node.
pub fn detect(tree: &Mime, content: &[u8], limit: usize) -> (r: Mime)
    ensures
        is_snapshot_of(r, spec_detect(*tree, content@, limit)),
{
    if content.len() == 0 {
        return tree.snapshot();
    }
    let sampled: &[u8] = if limit > 0 && content.len() > limit {
        slice_subrange(content, 0, limit)
    } else {
        content
    };
    tree.match_mime(sampled, limit)
}

/// Stores a new sampling limit into the caller-owned configuration value.
/// A limit of 0 means the whole buffer is used; the conventional default is
/// 3072 bytes.
pub fn set_rate_limit(limit: &mut usize, new_limit: usize)
    ensures
        *final(limit) == new_limit,
{
    *limit = new_limit;
}

/// The node `node` occurs in the catalog tree rooted at `m`.
pub open spec fn in_tree(node: Mime, m: Mime) -> bool
    decreases m,
{
    node == m || exists|i: int|
        0 <= i < m.children@.len() && in_tree(node, #[trigger] m.children@[i])
}

/// Classification is closed over the catalog: the node it picks is the root
/// itself or one of its descendants, so every call returns exactly one
/// catalog entry and never an absent result.
pub proof fn lemma_classify_in_tree(m: Mime, i: int, c: Seq<u8>)
    ensures
        in_tree(spec_classify_from(m, i, c), m),
    decreases m, m.children@.len() - i,
{
    if i < 0 || i >= m.children@.len() {
    } else if spec_detector_matches(m.children@[i].detector, c) {
        lemma_classify_in_tree(m.children@[i], 0, c);
    } else {
        lemma_classify_in_tree(m, i + 1, c);
    }
}

/// The node classification settles on is itself accepted by its matcher,
/// unless it is the very node classification started from — the fallback
/// returned when no child matcher accepts.
pub proof fn lemma_classify_result_accepts(m: Mime, i: int, c: Seq<u8>)
    ensures
        spec_classify_from(m, i, c) == m || spec_detector_matches(
            spec_classify_from(m, i, c).detector,
            c,
        ),
    decreases m, m.children@.len() - i,
{
    if i < 0 || i >= m.children@.len() {
    } else if spec_detector_matches(m.children@[i].detector, c) {
        lemma_classify_result_accepts(m.children@[i], 0, c);
    } else {
        lemma_classify_result_accepts(m, i + 1, c);
    }
}

/// No child of the node classification settles on accepts the content: the
/// result closes a maximal chain of accepting matchers, the earliest
/// accepting sibling preferred at each step.  Under the catalog precondition
/// that each format's matcher accepts whatever its sub-formats' matchers
/// accept (`lemma_offset_refinement` establishes it for nested offset
/// signatures), this is exactly the most specific match.
pub proof fn lemma_classify_result_is_deepest(m: Mime, i: int, c: Seq<u8>)
    requires
        0 <= i,
        forall|j: int|
            0 <= j < i ==> !(#[trigger] spec_detector_matches(m.children@[j].detector, c)),
    ensures
        forall|k: int|
            0 <= k < spec_classify_from(m, i, c).children@.len() ==> !(
            #[trigger] spec_detector_matches(spec_classify_from(m, i, c).children@[k].detector, c)),
    decreases m, m.children@.len() - i,
{
    if i >= m.children@.len() {
    } else if spec_detector_matches(m.children@[i].detector, c) {
        lemma_classify_result_is_deepest(m.children@[i], 0, c);
    } else {
        lemma_classify_result_is_deepest(m, i + 1, c);
    }
}

/// Classification is deterministic: two results of classifying the same
/// bytes under the same limit against the same catalog carry identical
/// labels, aliases and extensions.
pub proof fn lemma_detect_deterministic(
    tree: Mime,
    c: Seq<u8>,
    limit: usize,
    r1: Mime,
    r2: Mime,
)
    requires
        is_snapshot_of(r1, spec_detect(tree, c, limit)),
        is_snapshot_of(r2, spec_detect(tree, c, limit)),
    ensures
        r1.mime@ == r2.mime@,
        r1.extension@ == r2.extension@,
        r1.aliases@.len() == r2.aliases@.len(),
        forall|i: int| 0 <= i < r1.aliases@.len() ==> r1.aliases@[i]@ == r2.aliases@[i]@,
{
}

/// With a positive limit, classification reads no byte past the limit: two
/// buffers that agree on their first `limit` bytes classify identically.
pub proof fn lemma_truncation_bound(tree: Mime, c1: Seq<u8>, c2: Seq<u8>, limit: usize)
    requires
        limit > 0,
        c1.len() >= limit,
        c2.len() >= limit,
        c1.take(limit as int) == c2.take(limit as int),
    ensures
        spec_detect(tree, c1, limit) == spec_detect(tree, c2, limit),
{
    if c1.len() == limit {
        assert(c1.take(limit as int) =~= c1);
    }
    if c2.len() == limit {
        assert(c2.take(limit as int) =~= c2);
    }
    assert(spec_truncated(c1, limit) == spec_truncated(c2, limit));
}

} // verus!
