//! Reading markup into a document tree, by the `html_parser` crate.
//!
//! The parser keeps an element's `id` and `class` out of its attributes: the
//! classes are the element's own list, and the identifier is not carried over.

use vstd::prelude::*;
use crate::tree::{Attribute, DocumentTree, DocumentTreeView, Element, TreeNode};

verus! {

#[verifier::external_type_specification]
#[verifier::external_body]
pub struct ExParsedNode(html_parser::Node);

/// The document that `html_parser::Dom::parse` makes of a text, where it
/// makes one.
pub uninterp spec fn markup_tree(text: Seq<char>) -> DocumentTreeView;

/// The markup could not be read as a document.
#[derive(Clone, Debug, PartialEq, Eq)]
pub struct ParseError {
    /// The parser's own words.
    pub message: String,
}

/// Copies a node of `html_parser` and all below it. An element's identifier,
/// its variant and its place in the source are left behind; the attributes
/// come in the order in which the parser's map hands them out, which the view
/// of an element does not depend on, since the map holds each name once.
#[verifier::external_body]
fn node_from_parsed(node: &html_parser::Node) -> TreeNode {
    match node {
        html_parser::Node::Text(text) => TreeNode::Text(text.clone()),
        html_parser::Node::Comment(text) => TreeNode::Comment(text.clone()),
        html_parser::Node::Element(element) => TreeNode::Element(
            Element {
                name: element.name.clone(),
                attributes: element.attributes.iter().map(
                    |(name, value)| Attribute { name: name.clone(), value: value.clone() },
                ).collect(),
                classes: element.classes.clone(),
                children: element.children.iter().map(node_from_parsed).collect(),
            },
        ),
    }
}

/// Calls `html_parser::Dom::parse` and copies what it returns: the top-level
/// nodes and the remarks of the parser, or the text of its error.
///
/// Taken on trust: where the parser succeeds, the document is a function of
/// `text` alone. Whether it succeeds, and with which words it gives up, also
/// depends on the stack that is left to it and on limits set for the whole
/// process: nothing is said of either.
#[verifier::external_body]
fn parse_markup(text: &str) -> (r: Result<DocumentTree, String>)
    ensures
        r matches Ok(tree) ==> tree@ == markup_tree(text@),
{
    match html_parser::Dom::parse(text) {
        Ok(dom) => Ok(
            DocumentTree {
                children: dom.children.iter().map(node_from_parsed).collect(),
                diagnostics: dom.errors,
            },
        ),
        Err(error) => Err(error.to_string()),
    }
}

/// Reads markup into a document tree.
///
/// Whether the parser accepts a text is for the parser to say: it may give
/// up on markup that nests deeper than its stack allows. What it makes of a
/// text that it accepts is always the same document.
pub fn parse_document(text: &str) -> (r: Result<DocumentTree, ParseError>)
    ensures
        r matches Ok(tree) ==> tree@ == markup_tree(text@),
{
    match parse_markup(text) {
        Ok(tree) => Ok(tree),
        Err(message) => Err(ParseError { message }),
    }
}

} // verus!
