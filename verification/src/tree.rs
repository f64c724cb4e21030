//! The document tree: elements, text and comments, with their mathematical views.

use vstd::prelude::*;

verus! {

/// One attribute of an element: a name and, where the markup gave one, a value.
#[derive(Clone, Debug, PartialEq, Eq)]
pub struct Attribute {
    pub name: String,
    pub value: Option<String>,
}

/// An element of the document.
///
/// `attributes` is read as a mapping from name to value: where a name occurs
/// more than once, the last entry is the one that counts.
#[derive(Debug, PartialEq, Eq)]
pub struct Element {
    pub name: String,
    pub attributes: Vec<Attribute>,
    pub classes: Vec<String>,
    pub children: Vec<TreeNode>,
}

/// A node of the document tree. Only elements have children.
#[derive(Debug, PartialEq, Eq)]
pub enum TreeNode {
    Element(Element),
    /// Literal text.
    Text(String),
    /// A comment. It is kept so that a parsed document loses no node; no
    /// search finds anything in it.
    Comment(String),
}

/// A parsed document: its top-level nodes, and what the parser remarked
/// without giving up.
#[derive(Debug, PartialEq, Eq)]
pub struct DocumentTree {
    pub children: Vec<TreeNode>,
    pub diagnostics: Vec<String>,
}

/// What an element is, mathematically.
pub struct ElementView {
    pub name: Seq<char>,
    pub attributes: Map<Seq<char>, Option<Seq<char>>>,
    pub classes: Seq<Seq<char>>,
    pub children: Seq<TreeNodeView>,
}

/// What a node is, mathematically.
pub enum TreeNodeView {
    Element(ElementView),
    Text(Seq<char>),
    Comment(Seq<char>),
}

/// What a document is, mathematically.
pub struct DocumentTreeView {
    pub children: Seq<TreeNodeView>,
    pub diagnostics: Seq<Seq<char>>,
}

/// The mapping that a list of attributes denotes: later entries override earlier ones.
pub open spec fn attributes_view(attrs: Seq<Attribute>) -> Map<Seq<char>, Option<Seq<char>>>
    decreases attrs.len(),
{
    if attrs.len() == 0 {
        Map::empty()
    } else {
        attributes_view(attrs.drop_last()).insert(
            attrs.last().name@,
            attrs.last().value.deep_view(),
        )
    }
}

/// The view of an element.
pub open spec fn element_view(element: Element) -> ElementView
    decreases element,
{
    ElementView {
        name: element.name@,
        attributes: attributes_view(element.attributes@),
        classes: element.classes.deep_view(),
        children: nodes_view(element.children@),
    }
}

/// The view of a node.
pub open spec fn node_view(node: TreeNode) -> TreeNodeView
    decreases node,
{
    match node {
        TreeNode::Element(e) => TreeNodeView::Element(element_view(e)),
        TreeNode::Text(t) => TreeNodeView::Text(t@),
        TreeNode::Comment(c) => TreeNodeView::Comment(c@),
    }
}

/// The views of a list of nodes, in their order.
pub open spec fn nodes_view(nodes: Seq<TreeNode>) -> Seq<TreeNodeView>
    decreases nodes,
{
    if nodes.len() == 0 {
        Seq::empty()
    } else {
        nodes_view(nodes.drop_last()).push(node_view(nodes.last()))
    }
}

impl View for Element {
    type V = ElementView;

    open spec fn view(&self) -> ElementView {
        element_view(*self)
    }
}

impl View for TreeNode {
    type V = TreeNodeView;

    open spec fn view(&self) -> TreeNodeView {
        node_view(*self)
    }
}

impl View for DocumentTree {
    type V = DocumentTreeView;

    open spec fn view(&self) -> DocumentTreeView {
        DocumentTreeView {
            children: nodes_view(self.children@),
            diagnostics: self.diagnostics.deep_view(),
        }
    }
}

/// The view of a list of nodes is the list of their views.
pub proof fn lemma_nodes_view(nodes: Seq<TreeNode>)
    ensures
        nodes_view(nodes).len() == nodes.len(),
        forall|i: int| 0 <= i < nodes.len() ==> #[trigger] nodes_view(nodes)[i] == node_view(nodes[i]),
    decreases nodes.len(),
{
    if nodes.len() > 0 {
        lemma_nodes_view(nodes.drop_last());
    }
}

/// Why a document has no root: it is not one tree.
#[derive(Clone, Copy, Debug, PartialEq, Eq)]
pub enum TreeError {
    /// The document has no top-level node.
    NoRoot,
    /// The document has more than one top-level node.
    SeveralRoots,
}

impl DocumentTreeView {
    /// The document has exactly one top-level node.
    pub open spec fn has_single_root(self) -> bool {
        self.children.len() == 1
    }

    /// The top-level node of a document that has exactly one.
    pub open spec fn root(self) -> TreeNodeView
        recommends
            self.has_single_root(),
    {
        self.children[0]
    }
}

impl DocumentTree {
    /// The top-level node, where the document has exactly one.
    pub fn single_root(&self) -> (r: Result<&TreeNode, TreeError>)
        ensures
            match r {
                Ok(root) => self@.has_single_root() && root@ == self@.root(),
                Err(TreeError::NoRoot) => self@.children.len() == 0,
                Err(TreeError::SeveralRoots) => self@.children.len() > 1,
            },
    {
        proof {
            lemma_nodes_view(self.children@);
        }
        if self.children.len() == 0 {
            Err(TreeError::NoRoot)
        } else if self.children.len() > 1 {
            Err(TreeError::SeveralRoots)
        } else {
            Ok(&self.children[0])
        }
    }
}

/// The elements of a subtree in document order: the node itself, where it is
/// an element, and then the elements below it, child by child from the left.
pub open spec fn elements_in_order(node: TreeNodeView) -> Seq<ElementView>
    decreases node,
{
    match node {
        TreeNodeView::Element(e) => seq![e] + elements_of_all(e.children),
        _ => Seq::empty(),
    }
}

/// The elements of several subtrees in document order, the subtrees taken
/// from the left.
pub open spec fn elements_of_all(nodes: Seq<TreeNodeView>) -> Seq<ElementView>
    decreases nodes,
{
    if nodes.len() == 0 {
        Seq::empty()
    } else {
        elements_of_all(nodes.drop_last()) + elements_in_order(nodes.last())
    }
}

/// The text of the first text node in a list of nodes, if there is one.
pub open spec fn first_text(nodes: Seq<TreeNodeView>) -> Option<Seq<char>>
    decreases nodes.len(),
{
    if nodes.len() == 0 {
        None
    } else {
        match nodes.first() {
            TreeNodeView::Text(t) => Some(t),
            _ => first_text(nodes.drop_first()),
        }
    }
}

} // verus!
