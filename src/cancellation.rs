//! Cooperative cancellation signals, linked in a tree: a token counts as
//! cancelled once it or any of its ancestors is cancelled.
use vstd::prelude::*;

verus! {

/// One token of the tree: its own flag and its parent, if it is linked.
#[derive(Clone, Copy, Debug, PartialEq, Eq, Structural)]
pub struct TokenNode {
    pub parent: Option<usize>,
    pub cancelled: bool,
}

/// Whether token `i` counts as cancelled: its own flag or an ancestor's.
pub open spec fn requested(nodes: Seq<TokenNode>, i: int) -> bool
    decreases i,
{
    if 0 <= i < nodes.len() {
        nodes[i].cancelled || match nodes[i].parent {
            Some(p) => if 0 <= p < i { requested(nodes, p as int) } else { false },
            None => false,
        }
    } else {
        false
    }
}

/// Whether token `i` is `a` or descends from it.
pub open spec fn descends(nodes: Seq<TokenNode>, i: int, a: int) -> bool
    decreases i,
{
    if 0 <= i < nodes.len() {
        i == a || match nodes[i].parent {
            Some(p) => if 0 <= p < i { descends(nodes, p as int, a) } else { false },
            None => false,
        }
    } else {
        false
    }
}

/// A tree of tokens, each named by its index.
pub struct CancellationTokens {
    nodes: Vec<TokenNode>,
}

impl CancellationTokens {
    pub closed spec fn view(&self) -> Seq<TokenNode> {
        self.nodes@
    }

    /// Every parent comes before its child.
    pub open spec fn wf(&self) -> bool {
        forall|i: int| 0 <= i < self@.len() ==> match (#[trigger] self@[i]).parent {
            Some(p) => p < i,
            None => true,
        }
    }

    pub fn new() -> (r: Self)
        ensures
            r.wf(),
            r@.len() == 0,
    {
        CancellationTokens { nodes: Vec::new() }
    }

    /// A new token that nothing else cancels.
    pub fn create_token(&mut self) -> (r: usize)
        requires
            old(self).wf(),
            old(self)@.len() < usize::MAX,
        ensures
            final(self).wf(),
            r == old(self)@.len(),
            final(self)@ == old(self)@.push(TokenNode { parent: None, cancelled: false }),
    {
        let r = self.nodes.len();
        self.nodes.push(TokenNode { parent: None, cancelled: false });
        r
    }

    /// A new token that is cancelled when `parent` is, or when it is cancelled itself.
    pub fn create_linked_token(&mut self, parent: usize) -> (r: usize)
        requires
            old(self).wf(),
            parent < old(self)@.len(),
            old(self)@.len() < usize::MAX,
        ensures
            final(self).wf(),
            r == old(self)@.len(),
            final(self)@ == old(self)@.push(TokenNode { parent: Some(parent), cancelled: false }),
    {
        let r = self.nodes.len();
        self.nodes.push(TokenNode { parent: Some(parent), cancelled: false });
        r
    }

    /// How many tokens the tree holds.
    pub fn len(&self) -> (r: usize)
        ensures
            r == self@.len(),
    {
        self.nodes.len()
    }

    pub fn is_cancellation_requested(&self, token: usize) -> (r: bool)
        requires
            self.wf(),
            token < self@.len(),
        ensures
            r == requested(self@, token as int),
    {
        let mut i: usize = token;
        loop
            invariant
                self.wf(),
                i < self@.len(),
                requested(self@, token as int) == requested(self@, i as int),
            decreases i,
        {
            let node = self.nodes[i];
            if node.cancelled {
                return true;
            }
            match node.parent {
                Some(p) => {
                    i = p;
                },
                None => {
                    return false;
                },
            }
        }
    }

    /// Cancels `token` and with it every token that descends from it; the
    /// others, its ancestors among them, are left as they were.
    pub fn cancel(&mut self, token: usize)
        requires
            old(self).wf(),
            token < old(self)@.len(),
        ensures
            final(self).wf(),
            final(self)@.len() == old(self)@.len(),
            forall|i: int| 0 <= i < final(self)@.len() ==> #[trigger] requested(final(self)@, i)
                == (requested(old(self)@, i) || descends(old(self)@, i, token as int)),
    {
        let ghost before = self.nodes@;
        let node = self.nodes[token];
        self.nodes[token] = TokenNode { parent: node.parent, cancelled: true };
        assert forall|i: int| 0 <= i < self@.len() implies #[trigger] requested(self@, i)
            == (requested(before, i) || descends(before, i, token as int)) by {
            lemma_cancel_one(before, self@, token as int, i);
        }
    }
}

proof fn lemma_cancel_one(before: Seq<TokenNode>, after: Seq<TokenNode>, t: int, i: int)
    requires
        0 <= t < before.len(),
        after == before.update(t, TokenNode { parent: before[t].parent, cancelled: true }),
        0 <= i < before.len(),
    ensures
        requested(after, i) == (requested(before, i) || descends(before, i, t)),
    decreases i,
{
    match before[i].parent {
        Some(p) => {
            if 0 <= p < i {
                lemma_cancel_one(before, after, t, p as int);
            }
        },
        None => {},
    }
}

/// Cancelling a linked token leaves its parent as it was.
pub proof fn lemma_child_cancel_leaves_parent(nodes: Seq<TokenNode>, child: int, parent: int)
    requires
        0 <= parent < child < nodes.len(),
        nodes[child].parent == Some(parent as usize),
    ensures
        !descends(nodes, parent, child),
    decreases parent,
{
    lemma_descends_not_later(nodes, parent, child);
}

proof fn lemma_descends_not_later(nodes: Seq<TokenNode>, i: int, a: int)
    requires
        0 <= i < a,
    ensures
        !descends(nodes, i, a),
    decreases i,
{
    if 0 <= i < nodes.len() {
        match nodes[i].parent {
            Some(p) => {
                if 0 <= p < i {
                    lemma_descends_not_later(nodes, p as int, a);
                }
            },
            None => {},
        }
    }
}

} // verus!
