//! The document model and the selector path resolver.
//!
//! A document is a tree whose inner nodes are tables keyed by text. The model
//! of a document is the map from every path of keys that leads to a node to
//! what that node is: a table with its keys in order, a string with its text
//! and the layout around it, or another value with the text that stands for
//! it. The empty path leads to the root. A value that stands for nothing at
//! all has the empty map as its model. The resolver and the read and write
//! operations are written once, against the capabilities in [`Node`], and
//! proved against that model.

use crate::error::{BumpError, ErrorView};
use crate::text::{split_dots, split_selector, views};
use crate::version::{bump_semver, bump_text_outcome, BumpView, VersionBump};
use vstd::prelude::*;

verus! {

/// What stands around a string in the text of a document without being
/// part of it: white space and comments before and after. `None` where the
/// format has no such thing or none was set.
pub struct Layout {
    pub before: Option<Seq<char>>,
    pub after: Option<Seq<char>>,
}

/// What a node is.
pub enum NodeKind {
    /// A table, whose entries can be looked up by key, with its keys in the
    /// order in which it holds them.
    Table(Seq<Seq<char>>),
    /// A string, with its text and the layout around it.
    Text(Seq<char>, Layout),
    /// Anything else (a number, a list, ...), with the text that stands for
    /// it.
    Other(Seq<char>),
}

/// No layout at all.
pub open spec fn no_layout() -> Layout {
    Layout { before: None, after: None }
}

/// The layout around a string node; none for any other node.
pub open spec fn text_layout(kind: NodeKind) -> Layout {
    match kind {
        NodeKind::Text(_, layout) => layout,
        _ => no_layout(),
    }
}

/// A path: the keys to follow from a node, outermost first.
pub type KeyPath = Seq<Seq<char>>;

/// The model of a document or of a node with all below it.
pub type Nodes = Map<Seq<Seq<char>>, NodeKind>;

/// What the node is that `m` is the model of; `Other` with no text for the
/// model with no node at all.
pub open spec fn root_kind(m: Nodes) -> NodeKind {
    if m.contains_key(Seq::empty()) {
        m[Seq::empty()]
    } else {
        NodeKind::Other(Seq::empty())
    }
}

/// The model of a node of the given kind with nothing below it.
pub open spec fn leaf(kind: NodeKind) -> Nodes {
    Map::empty().insert(Seq::empty(), kind)
}

/// The model of the node that `p` leads to in `m`, with all below it.
pub open spec fn subtree(m: Nodes, p: KeyPath) -> Nodes {
    Map::new(|q: KeyPath| m.contains_key(p + q), |q: KeyPath| m[p + q])
}

/// `m` with the node that `p` leads to, and all below it, replaced by `s`.
pub open spec fn graft(m: Nodes, p: KeyPath, s: Nodes) -> Nodes {
    Map::new(
        |q: KeyPath|
            if p.is_prefix_of(q) {
                s.contains_key(q.skip(p.len() as int))
            } else {
                m.contains_key(q)
            },
        |q: KeyPath|
            if p.is_prefix_of(q) {
                s[q.skip(p.len() as int)]
            } else {
                m[q]
            },
    )
}

/// Where following `path` from the root of `m` ends: at the model of the
/// node reached, or at the first key that is absent (`MissingKey`), or at the
/// first key that is present, is not the last, and leads to no table
/// (`NotATable`). Nothing is asked of the node that the last key leads to.
pub open spec fn resolved(m: Nodes, path: KeyPath) -> Result<Nodes, ErrorView>
    decreases path.len(),
{
    if path.len() == 0 {
        Ok(m)
    } else if !m.contains_key(seq![path[0]]) {
        Err(ErrorView::MissingKey(path[0]))
    } else if path.len() > 1 && !(m[seq![path[0]]] is Table) {
        Err(ErrorView::NotATable(path[0]))
    } else {
        resolved(subtree(m, seq![path[0]]), path.skip(1))
    }
}

/// What reading the string at `selector` gives.
pub open spec fn read_outcome(m: Nodes, selector: Seq<char>) -> Result<Seq<char>, ErrorView> {
    match resolved(m, split_dots(selector)) {
        Err(e) => Err(e),
        Ok(node) => match root_kind(node) {
            NodeKind::Text(text, _) => Ok(text),
            _ => Err(ErrorView::NotAString(selector)),
        },
    }
}

/// What a bump of the version at `selector` would write there.
pub open spec fn preview_outcome(m: Nodes, selector: Seq<char>, level: BumpView) -> Result<
    Seq<char>,
    ErrorView,
> {
    match read_outcome(m, selector) {
        Err(e) => Err(e),
        Ok(current) => bump_text_outcome(current, level),
    }
}

/// The string node that a bump leaves at `selector`: the new version, with
/// the layout of the string that stood there.
pub open spec fn written_leaf(m: Nodes, selector: Seq<char>, next: Seq<char>) -> Nodes {
    leaf(
        NodeKind::Text(
            next,
            text_layout(root_kind(subtree(m, split_dots(selector)))),
        ),
    )
}

/// The document after a bump of the version at `selector`: the same but for
/// that one node, which holds the new version as a string within the old
/// layout. Every table keeps its keys and their order, every other node is
/// what it was.
pub open spec fn write_outcome(m: Nodes, selector: Seq<char>, level: BumpView) -> Result<
    Nodes,
    ErrorView,
> {
    match preview_outcome(m, selector, level) {
        Err(e) => Err(e),
        Ok(next) => Ok(graft(m, split_dots(selector), written_leaf(m, selector, next))),
    }
}

/// What the resolver needs of a document node, whatever the format.
pub trait Node: Sized {
    /// The model of this node with all below it.
    spec fn nodes(&self) -> Nodes;

    /// Whether the node is a table.
    fn is_table(&self) -> (r: bool)
        ensures
            r == (root_kind(self.nodes()) is Table),
    ;

    /// The entry under `key`, if the node is a table that has one.
    fn child(&self, key: &str) -> (r: Option<&Self>)
        ensures
            r is Some <==> self.nodes().contains_key(seq![key@]),
            r matches Some(c) ==> c.nodes() == subtree(self.nodes(), seq![key@]),
    ;

    /// The entry under `key`, for writing. Whatever is written through it
    /// changes this node at that entry and nowhere else; where nothing is
    /// written, or what was there is written again, the node is as it was.
    fn child_mut(&mut self, key: &str) -> (r: Option<&mut Self>)
        ensures
            r is Some <==> old(self).nodes().contains_key(seq![key@]),
            r is None ==> *final(self) == *old(self),
            r matches Some(c) ==> c.nodes() == subtree(old(self).nodes(), seq![key@])
                && final(self).nodes() == graft(
                old(self).nodes(),
                seq![key@],
                final(c).nodes(),
            ),
            r matches Some(c) ==> (*final(c) == *c ==> *final(self) == *old(self)),
    ;

    /// The text of the node, if it is a string.
    fn as_text(&self) -> (r: Option<&str>)
        ensures
            match root_kind(self.nodes()) {
                NodeKind::Text(text, _) => r matches Some(t) && t@ == text,
                _ => r is None,
            },
    ;

    /// Makes the node a string with the given text. Where it was a string
    /// before, the layout around it stays.
    fn set_text(&mut self, text: String)
        ensures
            final(self).nodes() == leaf(
                NodeKind::Text(text@, text_layout(root_kind(old(self).nodes()))),
            ),
    ;
}

/// A path begins with `p + q` exactly when it begins with `p` and goes on
/// with `q`.
pub proof fn lemma_prefix_concat(p: KeyPath, q: KeyPath, x: KeyPath)
    ensures
        (p + q).is_prefix_of(x) <==> p.is_prefix_of(x) && q.is_prefix_of(x.skip(p.len() as int)),
        p.is_prefix_of(x) ==> p + x.skip(p.len() as int) == x,
        (p + q).is_prefix_of(x) ==> x.skip((p + q).len() as int) == x.skip(p.len() as int).skip(
            q.len() as int,
        ),
{
    let pq = p + q;
    if p.is_prefix_of(x) {
        assert(p == x.subrange(0, p.len() as int));
        assert(p + x.skip(p.len() as int) =~= x);
        let y = x.skip(p.len() as int);
        if q.is_prefix_of(y) {
            assert(q == y.subrange(0, q.len() as int));
            assert(pq =~= x.subrange(0, pq.len() as int));
        }
    }
    if pq.is_prefix_of(x) {
        assert(pq == x.subrange(0, pq.len() as int));
        assert(p =~= x.subrange(0, p.len() as int)) by {
            assert forall|i: int| 0 <= i < p.len() implies p[i] == x[i] by {
                assert(pq[i] == x.subrange(0, pq.len() as int)[i]);
            }
        }
        let y = x.skip(p.len() as int);
        assert(q =~= y.subrange(0, q.len() as int)) by {
            assert forall|i: int| 0 <= i < q.len() implies q[i] == y[i] by {
                assert(pq[p.len() + i] == x.subrange(0, pq.len() as int)[p.len() + i]);
            }
        }
        assert(x.skip(pq.len() as int) =~= y.skip(q.len() as int));
    }
}

/// Grafting below a grafted node is grafting at the longer path.
pub proof fn lemma_graft_graft(m: Nodes, p: KeyPath, q: KeyPath, s: Nodes)
    ensures
        graft(m, p, graft(subtree(m, p), q, s)) == graft(m, p + q, s),
{
    let inner = graft(subtree(m, p), q, s);
    let a = graft(m, p, inner);
    let b = graft(m, p + q, s);
    assert forall|x: KeyPath| #[trigger] a.dom().contains(x) == b.dom().contains(x) by {
        lemma_prefix_concat(p, q, x);
    }
    assert forall|x: KeyPath| #[trigger] a.dom().contains(x) implies a[x] == b[x] by {
        lemma_prefix_concat(p, q, x);
    }
    assert(a =~= b);
}

/// Grafting at the root replaces everything.
pub proof fn lemma_graft_at_root(m: Nodes, s: Nodes)
    ensures
        graft(m, Seq::empty(), s) == s,
{
    let a = graft(m, Seq::empty(), s);
    assert forall|x: KeyPath| #[trigger] a.dom().contains(x) == s.dom().contains(x) by {
        assert(x.skip(0) =~= x);
    }
    assert forall|x: KeyPath| #[trigger] a.dom().contains(x) implies a[x] == s[x] by {
        assert(x.skip(0) =~= x);
    }
    assert(a =~= s);
}

/// Putting a node back where it was taken from changes nothing.
pub proof fn lemma_graft_subtree(m: Nodes, p: KeyPath)
    ensures
        graft(m, p, subtree(m, p)) == m,
{
    let a = graft(m, p, subtree(m, p));
    assert forall|x: KeyPath| #[trigger] a.dom().contains(x) == m.dom().contains(x) by {
        lemma_prefix_concat(p, Seq::empty(), x);
    }
    assert forall|x: KeyPath| #[trigger] a.dom().contains(x) implies a[x] == m[x] by {
        lemma_prefix_concat(p, Seq::empty(), x);
    }
    assert(a =~= m);
}

/// The node found where one was grafted is the grafted one.
pub proof fn lemma_subtree_graft(m: Nodes, p: KeyPath, s: Nodes)
    ensures
        subtree(graft(m, p, s), p) == s,
{
    let a = subtree(graft(m, p, s), p);
    assert forall|x: KeyPath| #[trigger] a.dom().contains(x) == s.dom().contains(x) by {
        lemma_prefix_concat(p, x, p + x);
        assert(x.is_prefix_of(x));
        assert((p + x).skip(p.len() as int) =~= x);
    }
    assert forall|x: KeyPath| #[trigger] a.dom().contains(x) implies a[x] == s[x] by {
        lemma_prefix_concat(p, x, p + x);
        assert(x.is_prefix_of(x));
        assert((p + x).skip(p.len() as int) =~= x);
    }
    assert(a =~= s);
}

/// Below the first key of the path grafted at, a graft is the graft at the
/// rest of the path.
pub proof fn lemma_subtree_of_graft(m: Nodes, key: Seq<char>, rest: KeyPath, s: Nodes)
    ensures
        subtree(graft(m, seq![key] + rest, s), seq![key]) == graft(
            subtree(m, seq![key]),
            rest,
            s,
        ),
{
    let k = seq![key];
    let a = subtree(graft(m, k + rest, s), k);
    let b = graft(subtree(m, k), rest, s);
    assert forall|x: KeyPath| #[trigger] a.dom().contains(x) == b.dom().contains(x) by {
        lemma_prefix_concat(k, rest, k + x);
        lemma_prefix_concat(k, x, k + x);
        assert(x.is_prefix_of(x));
        assert((k + x).skip(k.len() as int) =~= x);
    }
    assert forall|x: KeyPath| #[trigger] a.dom().contains(x) implies a[x] == b[x] by {
        lemma_prefix_concat(k, rest, k + x);
        lemma_prefix_concat(k, x, k + x);
        assert(x.is_prefix_of(x));
        assert((k + x).skip(k.len() as int) =~= x);
    }
    assert(a =~= b);
}

/// Resolving a path ends at its first missing key: where every key before
/// position `i` is present and leads to a table, and the key at `i` is
/// absent, the outcome is `MissingKey` with the key at `i`, whatever follows
/// it.
pub proof fn lemma_first_missing_key(m: Nodes, path: KeyPath, i: int)
    requires
        0 <= i < path.len(),
        forall|j: int|
            0 <= j < i ==> m.contains_key(#[trigger] path.take(j + 1)) && m[path.take(j + 1)]
                is Table,
        !m.contains_key(path.take(i + 1)),
    ensures
        resolved(m, path) == Err::<Nodes, ErrorView>(ErrorView::MissingKey(path[i])),
    decreases i,
{
    assert(path.take(1) =~= seq![path[0]]);
    if i > 0 {
        let sub = subtree(m, seq![path[0]]);
        let rest = path.skip(1);
        assert(m.contains_key(path.take(0int + 1)));
        assert forall|j: int| 0 <= j < i - 1 implies sub.contains_key(#[trigger] rest.take(j + 1))
            && sub[rest.take(j + 1)] is Table by {
            let k = j + 1;
            assert(seq![path[0]] + rest.take(j + 1) =~= path.take(k + 1));
            assert(m.contains_key(path.take(k + 1)));
        }
        assert(seq![path[0]] + rest.take(i) =~= path.take(i + 1));
        lemma_first_missing_key(sub, rest, i - 1);
    }
}

/// After a node is grafted where `path` resolves, `path` resolves to that
/// node.
pub proof fn lemma_resolved_after_graft(m: Nodes, path: KeyPath, s: Nodes)
    requires
        resolved(m, path) is Ok,
        s.contains_key(Seq::empty()),
    ensures
        resolved(graft(m, path, s), path) == Ok::<Nodes, ErrorView>(s),
    decreases path.len(),
{
    let g = graft(m, path, s);
    if path.len() == 0 {
        lemma_graft_at_root(m, s);
        assert(path =~= Seq::<Seq<char>>::empty());
    } else {
        let key = path[0];
        let rest = path.skip(1);
        assert(seq![key] + rest =~= path);
        if rest.len() == 0 {
            assert(path =~= seq![key]);
            assert(path.is_prefix_of(seq![key]));
            assert(seq![key].skip(path.len() as int) =~= Seq::<Seq<char>>::empty());
            lemma_subtree_graft(m, path, s);
            assert(resolved(subtree(g, seq![key]), rest) == Ok::<Nodes, ErrorView>(
                subtree(g, seq![key]),
            ));
        } else {
            assert(!path.is_prefix_of(seq![key]));
            assert(g.contains_key(seq![key]) && g[seq![key]] == m[seq![key]]);
            lemma_subtree_of_graft(m, key, rest, s);
            lemma_resolved_after_graft(subtree(m, seq![key]), rest, s);
        }
    }
}

/// The node that a path resolves to is the one that the path leads to.
pub proof fn lemma_resolved_is_subtree(m: Nodes, path: KeyPath)
    requires
        resolved(m, path) is Ok,
    ensures
        resolved(m, path) == Ok::<Nodes, ErrorView>(subtree(m, path)),
    decreases path.len(),
{
    if path.len() == 0 {
        assert(subtree(m, path) =~= m) by {
            assert forall|x: KeyPath| path + x == x by {
                assert(path + x =~= x);
            }
        }
    } else {
        let key = seq![path[0]];
        let rest = path.skip(1);
        lemma_resolved_is_subtree(subtree(m, key), rest);
        assert(key + Seq::<Seq<char>>::empty() =~= key);
        assert(subtree(subtree(m, key), rest) =~= subtree(m, path)) by {
            assert forall|x: KeyPath| key + (rest + x) == path + x by {
                assert(key + (rest + x) =~= path + x);
            }
        }
    }
}

/// Reading back what a bump wrote gives the version that the bump computed:
/// where the write succeeds, a read of the same selector in the new document
/// gives exactly what a preview gave in the old one.
pub proof fn lemma_read_after_write(m: Nodes, selector: Seq<char>, level: BumpView)
    requires
        write_outcome(m, selector, level) is Ok,
    ensures
        preview_outcome(m, selector, level) is Ok,
        read_outcome(write_outcome(m, selector, level)->Ok_0, selector) == preview_outcome(
            m,
            selector,
            level,
        ),
{
    let next = preview_outcome(m, selector, level)->Ok_0;
    lemma_resolved_after_graft(m, split_dots(selector), written_leaf(m, selector, next));
}

/// A bump keeps the layout around the string that it rewrites: the node at
/// the selector was a string, and is afterwards the new version within the
/// layout that stood around the old one.
pub proof fn lemma_write_keeps_the_layout(m: Nodes, selector: Seq<char>, level: BumpView)
    requires
        write_outcome(m, selector, level) is Ok,
    ensures
        root_kind(subtree(m, split_dots(selector))) is Text,
        subtree(write_outcome(m, selector, level)->Ok_0, split_dots(selector)) == leaf(
            NodeKind::Text(
                preview_outcome(m, selector, level)->Ok_0,
                text_layout(root_kind(subtree(m, split_dots(selector)))),
            ),
        ),
{
    let path = split_dots(selector);
    let next = preview_outcome(m, selector, level)->Ok_0;
    lemma_resolved_is_subtree(m, path);
    lemma_subtree_graft(m, path, written_leaf(m, selector, next));
}

/// A bump changes nothing but the node at the selector: every path that does
/// not pass through that node leads to what it led to before, be it a table
/// with its keys in their order, a string or any other value.
pub proof fn lemma_write_keeps_the_rest(m: Nodes, selector: Seq<char>, level: BumpView, other: KeyPath)
    requires
        write_outcome(m, selector, level) is Ok,
        !split_dots(selector).is_prefix_of(other),
    ensures
        write_outcome(m, selector, level)->Ok_0.contains_key(other) == m.contains_key(other),
        m.contains_key(other) ==> write_outcome(m, selector, level)->Ok_0[other] == m[other],
{
}

/// Follows `path` from `root` and gives the node it leads to, without
/// looking at what that node is.
pub fn resolve<'a, T: Node>(root: &'a T, path: &[&str]) -> (r: Result<&'a T, BumpError>)
    ensures
        match resolved(root.nodes(), views(path@)) {
            Ok(m) => r matches Ok(node) && node.nodes() == m,
            Err(e) => r matches Err(x) && x@ == e,
        },
{
    let mut current = root;
    let mut i: usize = 0;
    proof {
        assert(views(path@).skip(0) == views(path@));
    }
    while i < path.len()
        invariant
            i <= path.len(),
            resolved(root.nodes(), views(path@)) == resolved(
                current.nodes(),
                views(path@).skip(i as int),
            ),
        decreases path.len() - i,
    {
        let key = path[i];
        proof {
            let rest = views(path@).skip(i as int);
            assert(rest[0] == key@);
            assert(rest.skip(1) == views(path@).skip(i + 1));
            assert(seq![key@] + Seq::<Seq<char>>::empty() == seq![key@]);
        }
        match current.child(key) {
            None => {
                return Err(BumpError::MissingKey(key.to_owned()));
            },
            Some(next) => {
                if i + 1 < path.len() && !next.is_table() {
                    return Err(BumpError::NotATable(key.to_owned()));
                }
                current = next;
            },
        }
        i += 1;
    }
    Ok(current)
}

/// Follows `path` from `root` and gives the node it leads to, for writing.
/// Whatever is written through the result changes the document at that node
/// and nowhere else; no node is created on the way. On failure, and where
/// nothing is written, the document is exactly as it was.
pub fn resolve_mut<'a, T: Node>(root: &'a mut T, path: &[&str]) -> (r: Result<
    &'a mut T,
    BumpError,
>)
    ensures
        match resolved(old(root).nodes(), views(path@)) {
            Ok(m) => r matches Ok(node) && node.nodes() == m && final(root).nodes() == graft(
                old(root).nodes(),
                views(path@),
                final(node).nodes(),
            ) && (*final(node) == *node ==> *final(root) == *old(root)),
            Err(e) => r matches Err(x) && x@ == e && *final(root) == *old(root),
        },
{
    proof {
        assert(views(path@).skip(0) == views(path@));
    }
    resolve_mut_from(root, path, 0)
}

fn resolve_mut_from<'a, T: Node>(root: &'a mut T, path: &[&str], from: usize) -> (r: Result<
    &'a mut T,
    BumpError,
>)
    requires
        from <= path.len(),
    ensures
        match resolved(old(root).nodes(), views(path@).skip(from as int)) {
            Ok(m) => r matches Ok(node) && node.nodes() == m && final(root).nodes() == graft(
                old(root).nodes(),
                views(path@).skip(from as int),
                final(node).nodes(),
            ) && (*final(node) == *node ==> *final(root) == *old(root)),
            Err(e) => r matches Err(x) && x@ == e && *final(root) == *old(root),
        },
    decreases path.len() - from,
{
    let ghost before = root.nodes();
    let ghost rest = views(path@).skip(from as int);
    if from == path.len() {
        proof {
            assert(rest =~= Seq::<Seq<char>>::empty());
            assert forall|s: Nodes| #[trigger] graft(before, rest, s) == s by {
                lemma_graft_at_root(before, s);
            }
        }
        Ok(root)
    } else {
        let key = path[from];
        proof {
            assert(rest[0] == key@);
            assert(rest.skip(1) =~= views(path@).skip(from + 1));
            assert(seq![key@] + rest.skip(1) =~= rest);
            assert(seq![key@] + Seq::<Seq<char>>::empty() =~= seq![key@]);
            lemma_graft_subtree(before, seq![key@]);
            assert forall|s: Nodes| #[trigger]
                graft(before, seq![key@], graft(subtree(before, seq![key@]), rest.skip(1), s))
                    == graft(before, rest, s) by {
                lemma_graft_graft(before, seq![key@], rest.skip(1), s);
            }
        }
        match root.child_mut(key) {
            None => Err(BumpError::MissingKey(key.to_owned())),
            Some(next) => {
                if from + 1 < path.len() && !next.is_table() {
                    Err(BumpError::NotATable(key.to_owned()))
                } else {
                    resolve_mut_from(next, path, from + 1)
                }
            },
        }
    }
}

/// Reads the string at `selector`.
pub fn read_version<T: Node>(root: &T, selector: &str) -> (r: Result<String, BumpError>)
    ensures
        match read_outcome(root.nodes(), selector@) {
            Ok(text) => r matches Ok(s) && s@ == text,
            Err(e) => r matches Err(x) && x@ == e,
        },
{
    let parts = split_selector(selector);
    match resolve(root, parts.as_slice()) {
        Err(e) => Err(e),
        Ok(node) => match node.as_text() {
            Some(text) => Ok(text.to_owned()),
            None => Err(BumpError::NotAString(selector.to_owned())),
        },
    }
}

/// Computes what a bump of the version at `selector` would write, and
/// writes nothing.
pub fn preview_version<T: Node>(root: &T, selector: &str, level: &VersionBump) -> (r: Result<
    String,
    BumpError,
>)
    ensures
        match preview_outcome(root.nodes(), selector@, level@) {
            Ok(text) => r matches Ok(s) && s@ == text,
            Err(e) => r matches Err(x) && x@ == e,
        },
{
    match read_version(root, selector) {
        Err(e) => Err(e),
        Ok(current) => bump_semver(current.as_str(), level),
    }
}

/// Bumps the version at `selector` in place. On failure the document is
/// exactly as it was. The root is never the node written, so it stays what
/// it is.
pub fn bump_version<T: Node>(root: &mut T, selector: &str, level: &VersionBump) -> (r: Result<
    (),
    BumpError,
>)
    ensures
        match write_outcome(old(root).nodes(), selector@, level@) {
            Ok(m) => r is Ok && final(root).nodes() == m,
            Err(e) => r matches Err(x) && x@ == e && *final(root) == *old(root),
        },
        root_kind(final(root).nodes()) == root_kind(old(root).nodes()),
{
    let ghost before = root.nodes();
    let parts = split_selector(selector);
    proof {
        lemma_graft_subtree(before, split_dots(selector@));
        if resolved(before, split_dots(selector@)) is Ok {
            lemma_resolved_is_subtree(before, split_dots(selector@));
        }
        assert(!split_dots(selector@).is_prefix_of(Seq::<Seq<char>>::empty()));
    }
    match resolve_mut(root, parts.as_slice()) {
        Err(e) => Err(e),
        Ok(node) => {
            let next = match node.as_text() {
                Some(text) => bump_semver(text, level),
                None => Err(BumpError::NotAString(selector.to_owned())),
            };
            match next {
                Err(e) => Err(e),
                Ok(text) => {
                    node.set_text(text);
                    Ok(())
                },
            }
        },
    }
}

} // verus!
