use vstd::prelude::*;

verus! {

/// What a node is and what it holds.
#[derive(PartialEq, Debug)]
pub enum NodeData {
    Document,
    Doctype { name: String, public_identifier: String, private_identifier: String },
    Element { tag_name: String },
    Text(String),
    Comment(String),
}

/// A node of a document tree. The nodes of one tree stand in a `Dom`, and a node names its
/// document, its parent and its children by their places there.
#[derive(PartialEq, Debug)]
pub struct Node {
    pub(crate) data: NodeData,
    pub(crate) document: Option<usize>,
    pub(crate) parent: Option<usize>,
    pub(crate) children: Vec<usize>,
}

/// A document tree: its nodes in the order in which they were created. The node at place 0
/// is the document itself.
#[derive(PartialEq, Debug)]
pub struct Dom {
    nodes: Vec<Node>,
}

/// What a node holds, with every text as a sequence of characters.
pub enum NodeDataView {
    Document,
    Doctype { name: Seq<char>, public_identifier: Seq<char>, private_identifier: Seq<char> },
    Element { tag_name: Seq<char> },
    Text(Seq<char>),
    Comment(Seq<char>),
}

/// A node as plain values.
pub struct NodeView {
    pub data: NodeDataView,
    pub document: Option<usize>,
    pub parent: Option<usize>,
    pub children: Seq<usize>,
}

impl View for NodeData {
    type V = NodeDataView;

    open spec fn view(&self) -> NodeDataView {
        match *self {
            NodeData::Document => NodeDataView::Document,
            NodeData::Doctype { name, public_identifier, private_identifier } => {
                NodeDataView::Doctype {
                    name: name@,
                    public_identifier: public_identifier@,
                    private_identifier: private_identifier@,
                }
            },
            NodeData::Element { tag_name } => NodeDataView::Element { tag_name: tag_name@ },
            NodeData::Text(text) => NodeDataView::Text(text@),
            NodeData::Comment(text) => NodeDataView::Comment(text@),
        }
    }
}

impl View for Node {
    type V = NodeView;

    closed spec fn view(&self) -> NodeView {
        NodeView {
            data: self.data@,
            document: self.document,
            parent: self.parent,
            children: self.children@,
        }
    }
}

impl View for Dom {
    type V = Seq<NodeView>;

    closed spec fn view(&self) -> Seq<NodeView> {
        self.nodes@.map_values(|node: Node| node@)
    }
}

/// A tree that holds only its document node.
pub open spec fn empty_document() -> Seq<NodeView> {
    seq![
        NodeView {
            data: NodeDataView::Document,
            document: None,
            parent: None,
            children: Seq::empty(),
        },
    ]
}

/// The tree `nodes` with one more node, which holds `data`, belongs to `document` and is
/// the last child of `parent`.
pub open spec fn with_child(
    nodes: Seq<NodeView>,
    data: NodeDataView,
    document: usize,
    parent: usize,
) -> Seq<NodeView> {
    let old_parent = nodes[parent as int];
    nodes.update(
        parent as int,
        NodeView { children: old_parent.children.push(nodes.len() as usize), ..old_parent },
    ).push(
        NodeView { data, document: Some(document), parent: Some(parent), children: Seq::empty() },
    )
}

/// Whether `nodes` is a tree: the first node is the document and has no parent; every other
/// node was created after its document and after its parent; a node is a child of exactly
/// the node that it names as its parent, once; and the children of a node stand in the
/// order of their creation.
pub open spec fn is_tree(nodes: Seq<NodeView>) -> bool {
    &&& nodes.len() > 0
    &&& nodes[0].data is Document
    &&& nodes[0].parent is None
    &&& nodes[0].document is None
    &&& forall|i: int|
        1 <= i < nodes.len() ==> (#[trigger] nodes[i]).parent is Some && nodes[i].parent->0 < i
            && nodes[i].document is Some && nodes[i].document->0 < i
    &&& forall|i: int, k: int|
        0 <= i < nodes.len() && 0 <= k < nodes[i].children.len() ==> i
            < #[trigger] nodes[i].children[k] < nodes.len()
            && nodes[nodes[i].children[k] as int].parent == Some(i as usize)
    &&& forall|i: int, j: int, k: int|
        0 <= i < nodes.len() && 0 <= j < k < nodes[i].children.len()
            ==> #[trigger] nodes[i].children[j] < #[trigger] nodes[i].children[k]
    &&& forall|c: int|
        1 <= c < nodes.len() ==> (#[trigger] nodes[nodes[c].parent->0 as int]).children.contains(
            c as usize,
        )
}

impl Node {
    /// A new tree that holds only its document node.
    pub fn create_document() -> (dom: Dom)
        ensures
            dom@ == empty_document(),
            is_tree(dom@),
    {
        let mut nodes: Vec<Node> = Vec::new();
        nodes.push(
            Node { data: NodeData::Document, document: None, parent: None, children: Vec::new() },
        );
        let dom = Dom { nodes };
        dom
    }

    /// Creates an element named `tag_name` in `dom`, as a node of `document` and as the last
    /// child of `parent`, and returns its place. Where `document` or `parent` is no node of
    /// `dom`, or `dom` cannot hold another node, nothing changes and the result is `None`.
    pub fn create_element(tag_name: String, dom: &mut Dom, document: usize, parent: usize) -> (r:
        Option<usize>)
        ensures
            is_tree(old(dom)@) ==> is_tree(final(dom)@),
            dom_appended(
                old(dom)@,
                final(dom)@,
                (NodeDataView::Element { tag_name: tag_name@ }),
                document,
                parent,
                r,
            ),
    {
        dom.append(NodeData::Element { tag_name }, document, parent)
    }

    /// Creates a comment with the text `data` in `dom`, as a node of `document` and as the
    /// last child of `parent`, and returns its place, or `None` as `create_element` does.
    pub fn create_comment(data: String, dom: &mut Dom, document: usize, parent: usize) -> (r:
        Option<usize>)
        ensures
            is_tree(old(dom)@) ==> is_tree(final(dom)@),
            dom_appended(old(dom)@, final(dom)@, NodeDataView::Comment(data@), document, parent, r),
    {
        dom.append(NodeData::Comment(data), document, parent)
    }

    /// Creates a doctype node in `dom`, as a node of `document` and as the last child of
    /// `parent`, and returns its place, or `None` as `create_element` does.
    pub fn create_doctype(
        name: String,
        public_identifier: String,
        private_identifier: String,
        dom: &mut Dom,
        document: usize,
        parent: usize,
    ) -> (r: Option<usize>)
        ensures
            is_tree(old(dom)@) ==> is_tree(final(dom)@),
            dom_appended(
                old(dom)@,
                final(dom)@,
                (NodeDataView::Doctype {
                    name: name@,
                    public_identifier: public_identifier@,
                    private_identifier: private_identifier@,
                }),
                document,
                parent,
                r,
            ),
    {
        dom.append(
            NodeData::Doctype { name, public_identifier, private_identifier },
            document,
            parent,
        )
    }

    /// What the node is and what it holds.
    pub fn data(&self) -> (r: &NodeData)
        ensures
            r@ == self@.data,
    {
        &self.data
    }

    /// The place of the document that the node belongs to; `None` for the document itself.
    pub fn document(&self) -> (r: Option<usize>)
        ensures
            r == self@.document,
    {
        self.document
    }

    /// The place of the node's parent; `None` for the document.
    pub fn parent(&self) -> (r: Option<usize>)
        ensures
            r == self@.parent,
    {
        self.parent
    }

    /// The places of the node's children, in the order in which they were created.
    pub fn children(&self) -> (r: &Vec<usize>)
        ensures
            r@ == self@.children,
    {
        &self.children
    }
}

/// What creating a node does: with `Some(place)` the tree `after` is `before` with the new
/// node at `place`, its end; with `None` the tree is unchanged, which happens exactly when
/// `document` or `parent` is no node of `before` or when no further place can be named.
pub open spec fn dom_appended(
    before: Seq<NodeView>,
    after: Seq<NodeView>,
    data: NodeDataView,
    document: usize,
    parent: usize,
    r: Option<usize>,
) -> bool {
    if document < before.len() && parent < before.len() && before.len() < usize::MAX {
        r == Some(before.len() as usize) && after == with_child(before, data, document, parent)
    } else {
        r is None && after == before
    }
}

impl Dom {
    /// The number of nodes.
    pub fn len(&self) -> (r: usize)
        ensures
            r == self@.len(),
    {
        self.nodes.len()
    }

    /// The node at `place`, if there is one.
    pub fn node(&self, place: usize) -> (r: Option<&Node>)
        ensures
            place < self@.len() ==> r is Some && r->0@ == self@[place as int],
            place >= self@.len() ==> r is None,
    {
        if place < self.nodes.len() {
            Some(&self.nodes[place])
        } else {
            None
        }
    }

    fn append(&mut self, data: NodeData, document: usize, parent: usize) -> (r: Option<usize>)
        ensures
            is_tree(old(self)@) ==> is_tree(final(self)@),
            dom_appended(old(self)@, final(self)@, data@, document, parent, r),
    {
        let place = self.nodes.len();
        if document >= place || parent >= place || place == usize::MAX {
            return None;
        }
        self.nodes[parent].children.push(place);
        self.nodes.push(
            Node { data, document: Some(document), parent: Some(parent), children: Vec::new() },
        );
        proof {
            if is_tree(old(self)@) {
                lemma_with_child_is_tree(old(self)@, data@, document, parent);
            }
            assert(self@ =~= with_child(old(self)@, data@, document, parent));
        }
        Some(place)
    }
}

/// A tree with one more node, made a child of one of its nodes, is a tree.
pub proof fn lemma_with_child_is_tree(
    before: Seq<NodeView>,
    data: NodeDataView,
    document: usize,
    parent: usize,
)
    requires
        is_tree(before),
        document < before.len(),
        parent < before.len(),
        before.len() < usize::MAX,
    ensures
        is_tree(with_child(before, data, document, parent)),
{
    let after = with_child(before, data, document, parent);
    assert forall|c: int| 1 <= c < after.len() implies (#[trigger] after[after[c].parent->0
        as int]).children.contains(c as usize) by {
        if c < before.len() {
            let p = before[c].parent->0 as int;
            let k = choose|k: int|
                0 <= k < before[p].children.len() && before[p].children[k] == c as usize;
            assert(after[p].children[k] == c as usize);
        } else {
            let last = before[parent as int].children.len() as int;
            assert(after[parent as int].children[last] == c as usize);
        }
    }
}

} // verus!
