//! Miller columns over the catalog tree: the column of the current level with
//! its selection, the columns left behind on the way in, and the column the
//! selection would open.
use vstd::prelude::*;

use crate::tree::{children_of, TreeNode};

verus! {

/// The node reached from `root` by following the child positions of `path`.
pub open spec fn node_at(root: TreeNode, path: Seq<usize>) -> Option<TreeNode>
    decreases path.len(),
{
    if path.len() == 0 {
        Some(root)
    } else {
        match node_at(root, path.drop_last()) {
            Some(n) => match children_of(n) {
                Some(c) => if path.last() < c.len() {
                    Some(c[path.last() as int])
                } else {
                    None
                },
                None => None,
            },
            None => None,
        }
    }
}

/// The node reached from `root` by following `path`.
pub fn follow<'a>(root: &'a TreeNode, path: &Vec<usize>) -> (res: Option<&'a TreeNode>)
    ensures
        match res {
            Some(n) => node_at(*root, path@) == Some(*n),
            None => node_at(*root, path@) is None,
        },
{
    let mut node = root;
    let mut i: usize = 0;
    while i < path.len()
        invariant
            i <= path@.len(),
            node_at(*root, path@.subrange(0, i as int)) == Some(*node),
        decreases path.len() - i,
    {
        assert(path@.subrange(0, i + 1).drop_last() =~= path@.subrange(0, i as int));
        let k = path[i];
        match node.children() {
            Some(children) => {
                if k < children.len() {
                    node = &children[k];
                } else {
                    proof {
                        lemma_dead_path(*root, path@, i as int + 1);
                    }
                    return None;
                }
            },
            None => {
                proof {
                    lemma_dead_path(*root, path@, i as int + 1);
                }
                return None;
            },
        }
        i = i + 1;
    }
    assert(path@.subrange(0, i as int) =~= path@);
    Some(node)
}

/// Once a path leads nowhere, any longer path does too.
proof fn lemma_dead_path(root: TreeNode, path: Seq<usize>, k: int)
    requires
        0 <= k <= path.len(),
        node_at(root, path.subrange(0, k)) is None,
    ensures
        node_at(root, path) is None,
    decreases path.len() - k,
{
    if k < path.len() {
        assert(path.subrange(0, k + 1).drop_last() =~= path.subrange(0, k));
        lemma_dead_path(root, path, k + 1);
    } else {
        assert(path.subrange(0, k) =~= path);
    }
}

/// A column: the children of the node at `parent`, how many there are, and
/// the selected one.
#[derive(Debug, Clone)]
pub struct MillerColumn {
    pub parent: Vec<usize>,
    pub len: usize,
    pub selected: Option<usize>,
}

/// The column shows the children of a node of `root`, and its selection,
/// when there is one, points at one of them.
pub open spec fn column_wf(c: MillerColumn, root: TreeNode) -> bool {
    &&& node_at(root, c.parent@) matches Some(n) && children_of(n) matches Some(ch) && ch.len()
        == c.len
    &&& c.selected matches Some(i) ==> i < c.len
    &&& c.len > 0 ==> c.selected is Some
}

/// The path of the selected node of a column.
pub open spec fn selected_path(c: MillerColumn) -> Seq<usize> {
    c.parent@.push(c.selected.unwrap())
}

impl MillerColumn {
    /// A column of `len` children of the node at `parent`; the first is
    /// selected when there is one.
    pub fn new(parent: Vec<usize>, len: usize) -> (res: MillerColumn)
        ensures
            res.parent@ == parent@,
            res.len == len,
            res.selected == if len > 0 {
                Some(0usize)
            } else {
                None
            },
    {
        let selected = if len > 0 {
            Some(0)
        } else {
            None
        };
        MillerColumn { parent, len, selected }
    }

    /// The position of the selected child.
    pub fn get_selected_index(&self) -> (res: usize)
        requires
            self.selected is Some,
        ensures
            res == self.selected.unwrap(),
    {
        match self.selected {
            Some(i) => i,
            None => 0,
        }
    }

    /// The selected node.
    pub fn get_selected<'a>(&self, root: &'a TreeNode) -> (res: &'a TreeNode)
        requires
            column_wf(*self, *root),
            self.selected is Some,
        ensures
            node_at(*root, selected_path(*self)) == Some(*res),
    {
        let mut path = self.parent.clone();
        path.push(self.get_selected_index());
        assert(path@.drop_last() =~= self.parent@);
        match follow(root, &path) {
            Some(n) => n,
            None => {
                assert(false);
                root
            },
        }
    }

    /// The next child, unless the last is selected.
    pub fn select_next(&mut self)
        requires
            old(self).selected is Some,
            old(self).selected.unwrap() < old(self).len,
        ensures
            final(self).parent@ == old(self).parent@,
            final(self).len == old(self).len,
            final(self).selected == Some(
                if old(self).selected.unwrap() < old(self).len - 1 {
                    (old(self).selected.unwrap() + 1) as usize
                } else {
                    old(self).selected.unwrap()
                },
            ),
    {
        let i = self.get_selected_index();
        if i < self.len - 1 {
            self.selected = Some(i + 1);
        }
    }

    /// The previous child, unless the first is selected.
    pub fn select_prev(&mut self)
        requires
            old(self).selected is Some,
        ensures
            final(self).parent@ == old(self).parent@,
            final(self).len == old(self).len,
            final(self).selected == Some(
                if old(self).selected.unwrap() > 0 {
                    (old(self).selected.unwrap() - 1) as usize
                } else {
                    old(self).selected.unwrap()
                },
            ),
    {
        let i = self.get_selected_index();
        if i > 0 {
            self.selected = Some(i - 1);
        }
    }
}

/// The columns of a walk through the tree: those left behind, the current
/// one, and the one its selection would open.
#[derive(Debug)]
pub struct MillerColumns {
    pub prev: Vec<MillerColumn>,
    pub curr: MillerColumn,
    pub next: Option<MillerColumn>,
}

/// The column that the selection of `c` opens: the children of the selected
/// node, when it has some.
pub open spec fn opened(c: MillerColumn, root: TreeNode) -> Option<(Seq<usize>, nat)> {
    match c.selected {
        Some(i) => match node_at(root, c.parent@.push(i)) {
            Some(n) => match children_of(n) {
                Some(ch) => if ch.len() > 0 {
                    Some((c.parent@.push(i), ch.len()))
                } else {
                    None
                },
                None => None,
            },
            None => None,
        },
        None => None,
    }
}

/// The next column is the one the current selection opens.
pub open spec fn next_matches(cols: MillerColumns, root: TreeNode) -> bool {
    match opened(cols.curr, root) {
        Some((p, n)) => cols.next matches Some(c) && c.parent@ == p && c.len == n && c.selected
            == Some(0usize),
        None => cols.next is None,
    }
}

/// `after` is `before` stepped into the column its selection opens (or
/// `before` itself when it opens none).
pub open spec fn stepped_into(before: MillerColumns, after: MillerColumns, root: TreeNode) -> bool {
    match before.next {
        None => after == before,
        Some(n) => {
            &&& after.prev@ == before.prev@.push(before.curr)
            &&& after.curr == n
            &&& next_matches(after, root)
        },
    }
}

/// `after` is `before` stepped back to the column left behind last (or
/// `before` itself at the first column).
pub open spec fn stepped_out(before: MillerColumns, after: MillerColumns) -> bool {
    if before.prev@.len() == 0 {
        after == before
    } else {
        &&& after.prev@ == before.prev@.drop_last()
        &&& after.curr == before.prev@.last()
        &&& after.next == Some(before.curr)
    }
}

/// Stepping into the opened column and back out leaves the columns as they
/// were.
pub proof fn lemma_step_in_then_out(
    c0: MillerColumns,
    c1: MillerColumns,
    c2: MillerColumns,
    root: TreeNode,
)
    requires
        c0.next is Some,
        stepped_into(c0, c1, root),
        stepped_out(c1, c2),
    ensures
        c2.prev@ == c0.prev@,
        c2.curr == c0.curr,
        c2.next == c0.next,
{
    assert(c1.prev@.drop_last() =~= c0.prev@);
}

/// Stepping back out and into the column just left returns to the same
/// columns: the same ones behind, the same current one, and again the column
/// its selection opens.
pub proof fn lemma_step_out_then_in(
    c0: MillerColumns,
    c1: MillerColumns,
    c2: MillerColumns,
    root: TreeNode,
)
    requires
        c0.prev@.len() > 0,
        stepped_out(c0, c1),
        stepped_into(c1, c2, root),
    ensures
        c2.prev@ == c0.prev@,
        c2.curr == c0.curr,
        next_matches(c2, root),
{
    assert(c1.prev@.push(c1.curr) =~= c0.prev@);
}

impl MillerColumns {
    /// The column the current selection opens, if any.
    pub fn generate_next(&self, root: &TreeNode) -> (res: Option<MillerColumn>)
        requires
            column_wf(self.curr, *root),
        ensures
            match opened(self.curr, *root) {
                Some((p, n)) => res matches Some(c) && c.parent@ == p && c.len == n && c.selected
                    == Some(0usize),
                None => res is None,
            },
    {
        match self.curr.selected {
            None => None,
            Some(i) => {
                let node = self.curr.get_selected(root);
                match node.children() {
                    None => None,
                    Some(children) => {
                        if children.len() == 0 {
                            None
                        } else {
                            let mut path = self.curr.parent.clone();
                            path.push(i);
                            Some(MillerColumn::new(path, children.len()))
                        }
                    },
                }
            },
        }
    }

    /// Sets the next column to the one the current selection opens.
    pub fn post_update(&mut self, root: &TreeNode)
        requires
            column_wf(old(self).curr, *root),
        ensures
            final(self).prev@ == old(self).prev@,
            final(self).curr == old(self).curr,
            next_matches(*final(self), *root),
    {
        self.next = self.generate_next(root);
    }

    /// The columns that start with `starting_column`.
    pub fn new(starting_column: MillerColumn, root: &TreeNode) -> (res: MillerColumns)
        requires
            column_wf(starting_column, *root),
        ensures
            res.prev@.len() == 0,
            res.curr == starting_column,
            next_matches(res, *root),
    {
        let mut out = MillerColumns { prev: Vec::new(), curr: starting_column, next: None };
        out.post_update(root);
        out
    }

    /// The next node of the current column.
    pub fn select_next(&mut self, root: &TreeNode)
        requires
            column_wf(old(self).curr, *root),
            old(self).curr.selected is Some,
        ensures
            final(self).prev@ == old(self).prev@,
            final(self).curr.parent@ == old(self).curr.parent@,
            final(self).curr.len == old(self).curr.len,
            final(self).curr.selected == Some(
                if old(self).curr.selected.unwrap() < old(self).curr.len - 1 {
                    (old(self).curr.selected.unwrap() + 1) as usize
                } else {
                    old(self).curr.selected.unwrap()
                },
            ),
            column_wf(final(self).curr, *root),
            next_matches(*final(self), *root),
    {
        self.curr.select_next();
        self.post_update(root);
    }

    /// The previous node of the current column.
    pub fn select_prev(&mut self, root: &TreeNode)
        requires
            column_wf(old(self).curr, *root),
            old(self).curr.selected is Some,
        ensures
            final(self).prev@ == old(self).prev@,
            final(self).curr.parent@ == old(self).curr.parent@,
            final(self).curr.len == old(self).curr.len,
            final(self).curr.selected == Some(
                if old(self).curr.selected.unwrap() > 0 {
                    (old(self).curr.selected.unwrap() - 1) as usize
                } else {
                    old(self).curr.selected.unwrap()
                },
            ),
            column_wf(final(self).curr, *root),
            next_matches(*final(self), *root),
    {
        self.curr.select_prev();
        self.post_update(root);
    }

    /// How many columns there are.
    pub fn count(&self) -> (res: usize)
        requires
            self.prev@.len() < usize::MAX - 1,
        ensures
            res == self.prev@.len() + 1 + if self.next is Some {
                1int
            } else {
                0int
            },
    {
        let extra: usize = if self.next.is_some() {
            1
        } else {
            0
        };
        self.prev.len() + 1 + extra
    }

    /// Steps into the opened column, leaving the current one behind; nothing
    /// happens when the selection opens none.
    pub fn step_into(&mut self, root: &TreeNode)
        requires
            next_matches(*old(self), *root),
            column_wf(old(self).curr, *root),
        ensures
            stepped_into(*old(self), *final(self), *root),
            column_wf(final(self).curr, *root),
    {
        match self.next.take() {
            Some(next) => {
                proof {
                    lemma_opened_wf(old(self).curr, *root);
                }
                let mut moved = next;
                std::mem::swap(&mut self.curr, &mut moved);
                self.prev.push(moved);
                self.post_update(root);
            },
            None => {},
        }
    }

    /// Steps back to the column left behind last; the current one becomes
    /// the next. Nothing happens at the first column.
    pub fn step_out(&mut self)
        ensures
            stepped_out(*old(self), *final(self)),
    {
        if self.prev.len() == 0 {
            return ;
        }
        match self.prev.pop() {
            Some(prev) => {
                let mut moved = prev;
                std::mem::swap(&mut self.curr, &mut moved);
                self.next = Some(moved);
            },
            None => {},
        }
    }
}

/// The column a selection opens shows the children of a node of the tree.
proof fn lemma_opened_wf(c: MillerColumn, root: TreeNode)
    requires
        opened(c, root) is Some,
    ensures
        ({
            let (p, n) = opened(c, root).unwrap();
            node_at(root, p) matches Some(node) && children_of(node) matches Some(ch) && ch.len()
                == n && n > 0
        }),
{
    let i = c.selected.unwrap();
    let p = c.parent@.push(i);
    assert(p.drop_last() =~= c.parent@);
}


/// What a key does in the columns view.
#[derive(Debug, Clone, Copy, PartialEq, Eq, Structural)]
pub enum ColumnKey {
    SelectNext,
    SelectPrev,
    StepInto,
    StepOut,
    MakeApiCalls,
    Nothing,
}

/// `j` and `k` move the selection down and up, `l` steps into the column the
/// selection opens, `h` steps back out, `p` sends the queries.
pub open spec fn column_key(key: char) -> ColumnKey {
    if key == 'j' {
        ColumnKey::SelectNext
    } else if key == 'k' {
        ColumnKey::SelectPrev
    } else if key == 'l' {
        ColumnKey::StepInto
    } else if key == 'h' {
        ColumnKey::StepOut
    } else if key == 'p' {
        ColumnKey::MakeApiCalls
    } else {
        ColumnKey::Nothing
    }
}

pub fn decide_column_key(key: char) -> (res: ColumnKey)
    ensures
        res == column_key(key),
{
    if key == 'j' {
        ColumnKey::SelectNext
    } else if key == 'k' {
        ColumnKey::SelectPrev
    } else if key == 'l' {
        ColumnKey::StepInto
    } else if key == 'h' {
        ColumnKey::StepOut
    } else if key == 'p' {
        ColumnKey::MakeApiCalls
    } else {
        ColumnKey::Nothing
    }
}

impl MillerColumns {
    /// Carries out what a key does to the columns; sending the queries is
    /// left to the caller and, like other keys, leaves the columns as they
    /// are.
    pub fn apply(&mut self, action: ColumnKey, root: &TreeNode)
        requires
            column_wf(old(self).curr, *root),
            next_matches(*old(self), *root),
            action is SelectNext || action is SelectPrev ==> old(self).curr.selected is Some,
        ensures
            action is SelectNext ==> {
                &&& final(self).prev@ == old(self).prev@
                &&& final(self).curr.parent@ == old(self).curr.parent@
                &&& final(self).curr.len == old(self).curr.len
                &&& final(self).curr.selected == Some(
                    if old(self).curr.selected.unwrap() < old(self).curr.len - 1 {
                        (old(self).curr.selected.unwrap() + 1) as usize
                    } else {
                        old(self).curr.selected.unwrap()
                    },
                )
                &&& next_matches(*final(self), *root)
            },
            action is SelectPrev ==> {
                &&& final(self).prev@ == old(self).prev@
                &&& final(self).curr.parent@ == old(self).curr.parent@
                &&& final(self).curr.len == old(self).curr.len
                &&& final(self).curr.selected == Some(
                    if old(self).curr.selected.unwrap() > 0 {
                        (old(self).curr.selected.unwrap() - 1) as usize
                    } else {
                        old(self).curr.selected.unwrap()
                    },
                )
                &&& next_matches(*final(self), *root)
            },
            action is StepInto ==> stepped_into(*old(self), *final(self), *root),
            action is StepOut ==> stepped_out(*old(self), *final(self)),
            action is MakeApiCalls || action is Nothing ==> *final(self) == *old(self),
    {
        match action {
            ColumnKey::SelectNext => self.select_next(root),
            ColumnKey::SelectPrev => self.select_prev(root),
            ColumnKey::StepInto => self.step_into(root),
            ColumnKey::StepOut => self.step_out(),
            _ => {},
        }
    }
}

} // verus!
