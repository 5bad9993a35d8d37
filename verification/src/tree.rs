//! The catalog as a tree for display: categories, media items with their
//! episodes, and the entries that failed, each with the line that shows it.
use vstd::prelude::*;
use std::sync::Arc;

use crate::api_client::{ApiSpecificMediaId, QueryResponse, QueryStatus};
use crate::api_error::{error_debug_frame, query_error_name, wraps_outside_error};
use crate::catalog::share;
use crate::media_item::{Episode, MediaCreateError, MediaItem, Movie, Show};
use crate::text::{decimal_digits, extend_chars, extend_str, push_decimal, string_from_chars, strings_equal};

verus! {

/// A node of the catalog tree.
#[derive(Debug)]
pub enum TreeNode {
    Category { name: String, children: Vec<TreeNode> },
    Item { inner: MediaItem, children: Vec<TreeNode> },
    Fail { err: MediaCreateError, buf: String },
}

/// `node` shows `item` and has no children.
pub open spec fn is_leaf_of(node: TreeNode, item: MediaItem) -> bool {
    node matches TreeNode::Item { inner, children } && inner == item && children@.len() == 0
}

/// `nodes` show the episodes `eps`, one each, in order.
pub open spec fn episode_nodes(nodes: Seq<TreeNode>, eps: Seq<Arc<Episode>>) -> bool {
    &&& nodes.len() == eps.len()
    &&& forall|i: int| 0 <= i < eps.len() ==> is_leaf_of(#[trigger] nodes[i], MediaItem::Episode(eps[i]))
}

/// The children of a node: `None` for a failure, which has none.
pub open spec fn children_of(node: TreeNode) -> Option<Seq<TreeNode>> {
    match node {
        TreeNode::Category { children, .. } => Some(children@),
        TreeNode::Item { children, .. } => Some(children@),
        TreeNode::Fail { .. } => None,
    }
}

/// `Debug` of a path, as `{:?}` writes it: quoted, with escapes. A function of
/// the path's text alone.
pub uninterp spec fn path_debug_text(path: Seq<char>) -> Seq<char>;

/// `<std::path::Path as Debug>::fmt`, through `format!("{:?}", ..)`.
#[verifier::external_body]
fn path_debug(path: &str) -> (res: String)
    ensures
        res@ == path_debug_text(path@),
{
    format!("{:?}", std::path::Path::new(path))
}

/// The id string that an API gave.
pub open spec fn media_id_text(id: ApiSpecificMediaId) -> Seq<char> {
    match id {
        ApiSpecificMediaId::TMDB(s) => s@,
        ApiSpecificMediaId::OMDB(s) => s@,
    }
}

/// How an answered query is shown: `{title} ({year}) [imdbid-{imdb}]`, or with
/// `[tmdbid-{id}]` when there is no IMDB id.
pub open spec fn response_text(r: QueryResponse) -> Seq<char> {
    r.title@ + " ("@ + decimal_digits(r.year as nat) + ") "@ + match r.imdb {
        Some(imdb) => "[imdbid-"@ + imdb@ + "]"@,
        None => "[tmdbid-"@ + media_id_text(r.tmdb) + "]"@,
    }
}

/// How `{:?}` writes a status without an answer, with `error_text` as the
/// text of a failure's error.
pub open spec fn pending_status_with(s: QueryStatus, error_text: Seq<char>) -> Seq<char> {
    match s {
        QueryStatus::NotStarted => "NotStarted"@,
        QueryStatus::InProgress => "InProgress"@,
        QueryStatus::Failed(_) => "Failed("@ + error_text + ")"@,
        QueryStatus::Success(_) => Seq::empty(),
    }
}

/// The name of a failed status's error (nothing for other statuses).
pub open spec fn failed_error_name(s: QueryStatus) -> Seq<char> {
    match s {
        QueryStatus::Failed(e) => query_error_name(e),
        _ => Seq::empty(),
    }
}

/// How `{:?}` writes a status without an answer whose error carries nothing
/// of another crate.
pub open spec fn pending_status_text(s: QueryStatus) -> Seq<char> {
    pending_status_with(s, failed_error_name(s))
}

/// The line that shows a node, given the status of the item's query, for an
/// episode the status of its show's query, and the text of a failed item
/// query's error.
pub open spec fn node_label_with(node: TreeNode, status: QueryStatus, parent: QueryStatus, error_text: Seq<char>) -> Seq<char> {
    match node {
        TreeNode::Category { name, .. } => name@,
        TreeNode::Fail { buf, .. } => "Parse Failure: "@ + path_debug_text(buf@),
        TreeNode::Item { inner, .. } => match inner {
            MediaItem::Episode(ep) => match parent {
                QueryStatus::Success(r) => response_text(r),
                _ => "Parent query Failed: "@ + ep.src@,
            },
            MediaItem::Movie(m) => match status {
                QueryStatus::Success(r) => response_text(r),
                _ => "["@ + pending_status_with(status, error_text) + "] "@ + m.src@,
            },
            MediaItem::Show(s) => match status {
                QueryStatus::Success(r) => response_text(r),
                _ => "["@ + pending_status_with(status, error_text) + "] "@ + s.src@,
            },
        },
    }
}

/// A text that frames a failed status's error, for the nodes whose line does
/// not show it.
spec fn unshown_error_text(s: QueryStatus) -> Seq<char> {
    match s {
        QueryStatus::Failed(e) => if wraps_outside_error(e) {
            query_error_name(e) + "("@ + Seq::<char>::empty() + ")"@
        } else {
            query_error_name(e)
        },
        _ => Seq::empty(),
    }
}

/// The line that shows a node when a failed item query's error carries
/// nothing of another crate.
pub open spec fn node_label(node: TreeNode, status: QueryStatus, parent: QueryStatus) -> Seq<char> {
    node_label_with(node, status, parent, failed_error_name(status))
}

fn push_response(out: &mut Vec<char>, r: &QueryResponse)
    ensures
        final(out)@ == old(out)@ + response_text(*r),
{
    proof {
        reveal_strlit(" (");
        reveal_strlit(") ");
        reveal_strlit("[imdbid-");
        reveal_strlit("[tmdbid-");
        reveal_strlit("]");
    }
    extend_str(out, r.title.as_str());
    extend_str(out, " (");
    push_decimal(r.year, out);
    extend_str(out, ") ");
    match &r.imdb {
        Some(imdb) => {
            extend_str(out, "[imdbid-");
            extend_str(out, imdb.as_str());
            extend_str(out, "]");
        },
        None => {
            extend_str(out, "[tmdbid-");
            match &r.tmdb {
                ApiSpecificMediaId::TMDB(s) => extend_str(out, s.as_str()),
                ApiSpecificMediaId::OMDB(s) => extend_str(out, s.as_str()),
            }
            extend_str(out, "]");
        },
    }
}

fn push_pending_status(out: &mut Vec<char>, s: &QueryStatus) -> (error_text: Ghost<Seq<char>>)
    requires
        !(*s is Success),
    ensures
        final(out)@ == old(out)@ + pending_status_with(*s, error_text@),
        *s matches QueryStatus::Failed(e) ==> error_debug_frame(e, error_text@),
        !(*s matches QueryStatus::Failed(e) && wraps_outside_error(e)) ==> error_text@ == failed_error_name(*s),
{
    proof {
        reveal_strlit("NotStarted");
        reveal_strlit("InProgress");
        reveal_strlit("Failed(");
        reveal_strlit(")");
    }
    match s {
        QueryStatus::NotStarted => {
            extend_str(out, "NotStarted");
            Ghost(Seq::empty())
        },
        QueryStatus::InProgress => {
            extend_str(out, "InProgress");
            Ghost(Seq::empty())
        },
        QueryStatus::Failed(e) => {
            extend_str(out, "Failed(");
            let inner = e.debug_text();
            extend_str(out, inner.as_str());
            out.push(')');
            Ghost(inner@)
        },
        QueryStatus::Success(_) => Ghost(Seq::empty()),
    }
}

impl TreeNode {
    /// The node of a movie.
    pub fn movie_node(movie: Arc<Movie>) -> (res: TreeNode)
        ensures
            is_leaf_of(res, MediaItem::Movie(movie)),
    {
        TreeNode::Item { inner: MediaItem::Movie(movie), children: Vec::new() }
    }

    /// The node of an episode.
    pub fn episode_node(ep: Arc<Episode>) -> (res: TreeNode)
        ensures
            is_leaf_of(res, MediaItem::Episode(ep)),
    {
        TreeNode::Item { inner: MediaItem::Episode(ep), children: Vec::new() }
    }

    /// The node of a show, with a node for each of its episodes, in order.
    pub fn show_node(show: Arc<Show>) -> (res: TreeNode)
        ensures
            res matches TreeNode::Item { inner, children } && inner == MediaItem::Show(show)
                && episode_nodes(children@, show.episodes@),
    {
        let mut children: Vec<TreeNode> = Vec::new();
        let mut i: usize = 0;
        while i < show.episodes.len()
            invariant
                i <= show.episodes@.len(),
                episode_nodes(children@, show.episodes@.subrange(0, i as int)),
            decreases show.episodes.len() - i,
        {
            children.push(TreeNode::episode_node(share(&show.episodes[i])));
            i = i + 1;
        }
        assert(show.episodes@.subrange(0, i as int) =~= show.episodes@);
        TreeNode::Item { inner: MediaItem::Show(show), children }
    }

    /// The children of the node; a failure has none.
    pub fn children(&self) -> (res: Option<&Vec<TreeNode>>)
        ensures
            match children_of(*self) {
                Some(c) => res matches Some(v) && v@ == c,
                None => res is None,
            },
    {
        match self {
            TreeNode::Category { children, .. } => Some(children),
            TreeNode::Item { children, .. } => Some(children),
            TreeNode::Fail { .. } => None,
        }
    }

    /// The children of the node, to change in place; a failure has none.
    pub fn children_mut(&mut self) -> (res: Option<&mut Vec<TreeNode>>)
        ensures
            match *old(self) {
                TreeNode::Category { name, children } => {
                    &&& res is Some
                    &&& *res.unwrap() == children
                    &&& *final(self) == TreeNode::Category { name, children: *final(res.unwrap()) }
                },
                TreeNode::Item { inner, children } => {
                    &&& res is Some
                    &&& *res.unwrap() == children
                    &&& *final(self) == TreeNode::Item { inner, children: *final(res.unwrap()) }
                },
                TreeNode::Fail { .. } => res is None && *final(self) == *old(self),
            },
    {
        match self {
            TreeNode::Category { children, .. } => Some(children),
            TreeNode::Item { children, .. } => Some(children),
            TreeNode::Fail { .. } => None,
        }
    }

    /// Adds a child after the others. A failure takes no children.
    pub fn push_child(&mut self, child: TreeNode)
        requires
            !(*old(self) is Fail),
        ensures
            children_of(*final(self)) == Some(children_of(*old(self)).unwrap().push(child)),
            *old(self) matches TreeNode::Category { name, .. } ==> (*final(self) matches TreeNode::Category { name: n, .. } && n == name),
            *old(self) matches TreeNode::Item { inner, .. } ==> (*final(self) matches TreeNode::Item { inner: i, .. } && i == inner),
    {
        match self {
            TreeNode::Category { children, .. } => {
                children.push(child);
            },
            TreeNode::Item { children, .. } => {
                children.push(child);
            },
            TreeNode::Fail { .. } => {},
        }
    }

    /// Whether the item's query counts as made: never, in the current scheme,
    /// whatever its status. Only items have queries.
    pub fn is_queried(&self, status: &QueryStatus) -> (res: bool)
        requires
            *self is Item,
        ensures
            !res,
    {
        match status {
            QueryStatus::NotStarted => false,
            _ => false,
        }
    }

    /// The line that shows the node. `status` is the status of the item's
    /// query; `parent` that of the show's, for an episode. A failed status
    /// whose error carries another crate's error shows that error's own text
    /// inside the error's name; nothing is stated of that inner text.
    pub fn label(&self, status: &QueryStatus, parent: &QueryStatus) -> (res: String)
        ensures
            exists|error_text: Seq<char>|
                res@ == node_label_with(*self, *status, *parent, error_text) && (*status matches QueryStatus::Failed(
                    e,
                ) ==> error_debug_frame(e, error_text)),
            !(*status matches QueryStatus::Failed(e) && wraps_outside_error(e)) ==> res@
                == node_label(*self, *status, *parent),
    {
        let ghost mut error_text: Seq<char> = unshown_error_text(*status);
        let mut out: Vec<char> = Vec::new();
        proof {
            reveal_strlit("Parse Failure: ");
            reveal_strlit("Parent query Failed: ");
            reveal_strlit("[");
            reveal_strlit("] ");
        }
        match self {
            TreeNode::Category { name, .. } => {
                extend_str(&mut out, name.as_str());
            },
            TreeNode::Fail { buf, .. } => {
                extend_str(&mut out, "Parse Failure: ");
                let text = path_debug(buf.as_str());
                extend_str(&mut out, text.as_str());
            },
            TreeNode::Item { inner, .. } => match inner {
                MediaItem::Episode(ep) => match parent {
                    QueryStatus::Success(r) => push_response(&mut out, r),
                    _ => {
                        extend_str(&mut out, "Parent query Failed: ");
                        extend_str(&mut out, ep.src.as_str());
                    },
                },
                MediaItem::Movie(m) => match status {
                    QueryStatus::Success(r) => push_response(&mut out, r),
                    _ => {
                        extend_str(&mut out, "[");
                        let t = push_pending_status(&mut out, status);
                        proof {
                            error_text = t@;
                        }
                        extend_str(&mut out, "] ");
                        extend_str(&mut out, m.src.as_str());
                    },
                },
                MediaItem::Show(s) => match status {
                    QueryStatus::Success(r) => push_response(&mut out, r),
                    _ => {
                        extend_str(&mut out, "[");
                        let t = push_pending_status(&mut out, status);
                        proof {
                            error_text = t@;
                        }
                        extend_str(&mut out, "] ");
                        extend_str(&mut out, s.src.as_str());
                    },
                },
            },
        }
        let res = string_from_chars(&out);
        assert(res@ == node_label_with(*self, *status, *parent, error_text));
        res
    }
}


/// The piece that joins a node to its parent's line: `├── ` for a node with
/// siblings after it, `└── ` for the last one, nothing for the root.
pub open spec fn branch_piece(last: Option<bool>) -> Seq<char> {
    match last {
        None => Seq::empty(),
        Some(false) => "├── "@,
        Some(true) => "└── "@,
    }
}

/// What a node's descendants carry in their lines in the node's column: `│   `
/// below a node with siblings after it, blanks below the last one, nothing
/// below the root.
pub open spec fn carry_piece(last: Option<bool>) -> Seq<char> {
    match last {
        None => Seq::empty(),
        Some(false) => "│   "@,
        Some(true) => "    "@,
    }
}

/// Whether the drawing stops at this node: the failures' category, when
/// failures are not shown.
pub open spec fn hides_children(node: TreeNode, print_failures: bool) -> bool {
    node matches TreeNode::Category { name, .. } && name@ == "Failures"@ && !print_failures
}

/// The indents of a node and its descendants in drawing order, the node's
/// first: `carry` is what its ancestors put before it, `last` says where it
/// stands among its siblings.
pub open spec fn node_indents(node: TreeNode, carry: Seq<char>, last: Option<bool>, print_failures: bool) -> Seq<Seq<char>>
    decreases node, 0int,
{
    let own = seq![carry + branch_piece(last)];
    if hides_children(node, print_failures) {
        own
    } else {
        match node {
            TreeNode::Category { children, .. } => own + list_indents(children@, 0, carry + carry_piece(last), print_failures),
            TreeNode::Item { children, .. } => own + list_indents(children@, 0, carry + carry_piece(last), print_failures),
            TreeNode::Fail { .. } => own,
        }
    }
}

/// The indents of the siblings `nodes[i..]` and their descendants, in order.
pub open spec fn list_indents(nodes: Seq<TreeNode>, i: int, carry: Seq<char>, print_failures: bool) -> Seq<Seq<char>>
    decreases nodes, nodes.len() - i,
{
    if 0 <= i < nodes.len() {
        node_indents(nodes[i], carry, Some(i == nodes.len() - 1), print_failures)
            + list_indents(nodes, i + 1, carry, print_failures)
    } else {
        Seq::empty()
    }
}

/// The text of each string in `v`.
pub open spec fn texts(v: Seq<String>) -> Seq<Seq<char>> {
    v.map_values(|s: String| s@)
}

fn push_piece(out: &mut Vec<char>, piece: Option<bool>, carry: bool)
    ensures
        final(out)@ == old(out)@ + if carry { carry_piece(piece) } else { branch_piece(piece) },
{
    proof {
        reveal_strlit("├── ");
        reveal_strlit("└── ");
        reveal_strlit("│   ");
        reveal_strlit("    ");
    }
    match piece {
        None => {},
        Some(false) => if carry { extend_str(out, "│   ") } else { extend_str(out, "├── ") },
        Some(true) => if carry { extend_str(out, "    ") } else { extend_str(out, "└── ") },
    }
}

fn collect_indents(node: &TreeNode, carry: &Vec<char>, last: Option<bool>, print_failures: bool, out: &mut Vec<String>)
    ensures
        texts(final(out)@) == texts(old(out)@) + node_indents(*node, carry@, last, print_failures),
    decreases node, 0int,
{
    let mut own: Vec<char> = Vec::new();
    extend_chars(&mut own, carry);
    push_piece(&mut own, last, false);
    let line = string_from_chars(&own);
    let ghost before = out@;
    out.push(line);
    assert(texts(out@) =~= texts(before) + seq![carry@ + branch_piece(last)]);
    if node.hides_children_when(print_failures) {
        return;
    }
    let mut next: Vec<char> = Vec::new();
    extend_chars(&mut next, carry);
    push_piece(&mut next, last, true);
    match node {
        TreeNode::Category { children, .. } => {
            collect_list(children, &next, print_failures, out);
        },
        TreeNode::Item { children, .. } => {
            collect_list(children, &next, print_failures, out);
        },
        TreeNode::Fail { .. } => {},
    }
}

fn collect_list(nodes: &Vec<TreeNode>, carry: &Vec<char>, print_failures: bool, out: &mut Vec<String>)
    ensures
        texts(final(out)@) == texts(old(out)@) + list_indents(nodes@, 0, carry@, print_failures),
    decreases nodes, 1int,
{
    let mut i: usize = 0;
    while i < nodes.len()
        invariant
            i <= nodes@.len(),
            texts(out@) + list_indents(nodes@, i as int, carry@, print_failures) == texts(old(out)@)
                + list_indents(nodes@, 0, carry@, print_failures),
        decreases nodes.len() - i,
    {
        let ghost before = out@;
        let last = i + 1 == nodes.len();
        collect_indents(&nodes[i], carry, Some(last), print_failures, out);
        assert(texts(out@) + list_indents(nodes@, i + 1, carry@, print_failures) =~= texts(before)
            + list_indents(nodes@, i as int, carry@, print_failures));
        i = i + 1;
    }
}

impl TreeNode {
    /// Whether the drawing shows this node without its children: the
    /// failures' category, when failures are not shown.
    pub fn hides_children_when(&self, print_failures: bool) -> (res: bool)
        ensures
            res == hides_children(*self, print_failures),
    {
        match self {
            TreeNode::Category { name, .. } => {
                let failures = String::from_str("Failures");
                proof {
                    reveal_strlit("Failures");
                }
                !print_failures && strings_equal(name, &failures)
            },
            _ => false,
        }
    }

    /// The indent that each line of the tree's drawing starts with, in drawing
    /// order: the root's empty, then each child's below its parent, joined by
    /// `├── ` or, for the last child, `└── `, under `│   ` or blanks for the
    /// ancestors' columns. The failures' category is drawn without its
    /// entries unless `print_failures`.
    pub fn tree_indents(&self, print_failures: bool) -> (res: Vec<String>)
        ensures
            texts(res@) == node_indents(*self, Seq::empty(), None, print_failures),
    {
        let mut out: Vec<String> = Vec::new();
        let carry: Vec<char> = Vec::new();
        collect_indents(self, &carry, None, print_failures, &mut out);
        assert(texts(Seq::<String>::empty()) =~= Seq::<Seq<char>>::empty());
        out
    }
}

} // verus!
