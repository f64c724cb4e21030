//! Searching a document tree in document order.
//!
//! A search visits a node before its children and the children from the left.
//! The first element that meets the criterion decides the result, whether or
//! not it holds what the criterion reads from it.

use vstd::prelude::*;
use crate::tree::{
    attributes_view, elements_in_order, elements_of_all, first_text, lemma_nodes_view, nodes_view,
    Attribute, Element, ElementView, TreeNode, TreeNodeView,
};

verus! {

/// What identifies the element that a search is after, and what is read from it.
#[derive(Clone, Debug, PartialEq, Eq)]
pub enum MatchCriterion {
    /// The element carries `attr_name` with the value `attr_value`; the
    /// result is the value of its attribute `result_attr_name`.
    AttributeEquals { attr_name: String, attr_value: String, result_attr_name: String },
    /// The element carries the class `class_name`; the result is the text of
    /// the first text node among its direct children.
    HasClass { class_name: String },
}

/// What a criterion is, mathematically.
pub enum MatchCriterionView {
    AttributeEquals { attr_name: Seq<char>, attr_value: Seq<char>, result_attr_name: Seq<char> },
    HasClass { class_name: Seq<char> },
}

impl View for MatchCriterion {
    type V = MatchCriterionView;

    open spec fn view(&self) -> MatchCriterionView {
        match self {
            MatchCriterion::AttributeEquals { attr_name, attr_value, result_attr_name } => {
                MatchCriterionView::AttributeEquals {
                    attr_name: attr_name@,
                    attr_value: attr_value@,
                    result_attr_name: result_attr_name@,
                }
            },
            MatchCriterion::HasClass { class_name } => MatchCriterionView::HasClass {
                class_name: class_name@,
            },
        }
    }
}

/// The value that an element records for an attribute; `None` both where the
/// attribute is missing and where it stands without a value.
pub open spec fn attribute_value(element: ElementView, name: Seq<char>) -> Option<Seq<char>> {
    if element.attributes.contains_key(name) {
        element.attributes[name]
    } else {
        None
    }
}

impl MatchCriterionView {
    /// Whether the element is one that the criterion is after.
    pub open spec fn accepts(self, element: ElementView) -> bool {
        match self {
            MatchCriterionView::AttributeEquals { attr_name, attr_value, .. } => attribute_value(
                element,
                attr_name,
            ) == Some(attr_value),
            MatchCriterionView::HasClass { class_name } => element.classes.contains(class_name),
        }
    }

    /// What the criterion reads from an element that it accepts.
    pub open spec fn payload(self, element: ElementView) -> Option<Seq<char>> {
        match self {
            MatchCriterionView::AttributeEquals { result_attr_name, .. } => attribute_value(
                element,
                result_attr_name,
            ),
            MatchCriterionView::HasClass { .. } => first_text(element.children),
        }
    }
}

/// The first element of a sequence that the criterion accepts.
pub open spec fn first_match(elements: Seq<ElementView>, criterion: MatchCriterionView) -> Option<
    ElementView,
>
    decreases elements.len(),
{
    if elements.len() == 0 {
        None
    } else if criterion.accepts(elements.first()) {
        Some(elements.first())
    } else {
        first_match(elements.drop_first(), criterion)
    }
}

/// The result of a search below `root`: what the criterion reads from the
/// first element in document order that it accepts, and `None` where it
/// accepts no element.
pub open spec fn search(root: TreeNodeView, criterion: MatchCriterionView) -> Option<Seq<char>> {
    match first_match(elements_in_order(root), criterion) {
        Some(element) => criterion.payload(element),
        None => None,
    }
}

/// The search for an attribute's value, as a function of the tree and the three names.
pub open spec fn attribute_search(
    root: TreeNodeView,
    attr_name: Seq<char>,
    attr_value: Seq<char>,
    result_attr: Seq<char>,
) -> Option<Seq<char>> {
    search(
        root,
        MatchCriterionView::AttributeEquals { attr_name, attr_value, result_attr_name: result_attr },
    )
}

/// The search for the text under a class, as a function of the tree and the class.
pub open spec fn class_text_search(root: TreeNodeView, class_name: Seq<char>) -> Option<Seq<char>> {
    search(root, MatchCriterionView::HasClass { class_name })
}

/// In a concatenation the first match is that of the left part, and that of
/// the right part only where the left part has none.
pub proof fn lemma_first_match_concat(
    left: Seq<ElementView>,
    right: Seq<ElementView>,
    criterion: MatchCriterionView,
)
    ensures
        first_match(left + right, criterion) == match first_match(left, criterion) {
            Some(element) => Some(element),
            None => first_match(right, criterion),
        },
    decreases left.len(),
{
    if left.len() == 0 {
        assert(left + right =~= right);
    } else {
        assert((left + right).first() == left.first());
        assert((left + right).drop_first() =~= left.drop_first() + right);
        if !criterion.accepts(left.first()) {
            lemma_first_match_concat(left.drop_first(), right, criterion);
        }
    }
}

/// The first match is `None` exactly where no element is accepted; otherwise
/// it is the accepted element before which none is accepted.
pub proof fn lemma_first_match_index(elements: Seq<ElementView>, criterion: MatchCriterionView)
    ensures
        first_match(elements, criterion) is None <==> forall|i: int|
            0 <= i < elements.len() ==> !criterion.accepts(#[trigger] elements[i]),
        forall|i: int|
            #![trigger elements[i]]
            0 <= i < elements.len() && criterion.accepts(elements[i]) && (forall|j: int|
                0 <= j < i ==> !criterion.accepts(#[trigger] elements[j])) ==> first_match(
                elements,
                criterion,
            ) == Some(elements[i]),
    decreases elements.len(),
{
    if elements.len() > 0 {
        let rest = elements.drop_first();
        lemma_first_match_index(rest, criterion);
        if !criterion.accepts(elements.first()) {
            if first_match(rest, criterion) is None {
                assert forall|i: int| 0 <= i < elements.len() implies !criterion.accepts(
                    #[trigger] elements[i],
                ) by {
                    if i > 0 {
                        assert(elements[i] == rest[i - 1]);
                    }
                }
            } else {
                let k = choose|k: int| 0 <= k < rest.len() && criterion.accepts(#[trigger] rest[k]);
                assert(elements[k + 1] == rest[k]);
            }
            assert forall|i: int|
                #![trigger elements[i]]
                0 <= i < elements.len() && criterion.accepts(elements[i]) && (forall|j: int|
                    0 <= j < i ==> !criterion.accepts(#[trigger] elements[j])) implies first_match(
                elements,
                criterion,
            ) == Some(elements[i]) by {
                assert(elements[i] == rest[i - 1]);
                assert forall|j: int| 0 <= j < i - 1 implies !criterion.accepts(
                    #[trigger] rest[j],
                ) by {
                    assert(rest[j] == elements[j + 1]);
                }
            }
        }
    }
}

/// An entry for `name` after which no entry has that name gives the mapping's value.
proof fn lemma_attribute_found(attrs: Seq<Attribute>, i: int, name: Seq<char>)
    requires
        0 <= i < attrs.len(),
        attrs[i].name@ == name,
        forall|j: int| i < j < attrs.len() ==> attrs[j].name@ != name,
    ensures
        attributes_view(attrs).contains_key(name),
        attributes_view(attrs)[name] == attrs[i].value.deep_view(),
    decreases attrs.len(),
{
    if i < attrs.len() - 1 {
        lemma_attribute_found(attrs.drop_last(), i, name);
    }
}

/// A name that no entry has is not in the mapping.
proof fn lemma_attribute_absent(attrs: Seq<Attribute>, name: Seq<char>)
    requires
        forall|j: int| 0 <= j < attrs.len() ==> attrs[j].name@ != name,
    ensures
        !attributes_view(attrs).contains_key(name),
    decreases attrs.len(),
{
    if attrs.len() > 0 {
        lemma_attribute_absent(attrs.drop_last(), name);
    }
}

/// Where the first node is no text node, the first text is that of the rest.
proof fn lemma_first_text_skip(nodes: Seq<TreeNodeView>, i: int)
    requires
        0 <= i < nodes.len(),
        !(nodes[i] is Text),
    ensures
        first_text(nodes.skip(i)) == first_text(nodes.skip(i + 1)),
{
    assert(nodes.skip(i).first() == nodes[i]);
    assert(nodes.skip(i).drop_first() =~= nodes.skip(i + 1));
}

impl Element {
    /// Whether the element carries the class.
    pub fn has_class(&self, class_name: &String) -> (r: bool)
        ensures
            r == self@.classes.contains(class_name@),
    {
        let mut i: usize = 0;
        while i < self.classes.len()
            invariant
                i <= self.classes.len(),
                forall|j: int| 0 <= j < i ==> self@.classes[j] != class_name@,
            decreases self.classes.len() - i,
        {
            if self.classes[i] == *class_name {
                assert(self@.classes[i as int] == class_name@);
                return true;
            }
            i += 1;
        }
        false
    }

    /// The entry that decides the value of the attribute `name`, if the
    /// element has that attribute.
    pub fn attribute(&self, name: &String) -> (r: Option<&Attribute>)
        ensures
            match r {
                Some(entry) => entry.name@ == name@ && self@.attributes.contains_key(name@)
                    && self@.attributes[name@] == entry.value.deep_view(),
                None => !self@.attributes.contains_key(name@),
            },
    {
        let mut i: usize = self.attributes.len();
        while i > 0
            invariant
                i <= self.attributes.len(),
                forall|j: int| i <= j < self.attributes.len() ==> self.attributes[j].name@ != name@,
            decreases i,
        {
            i -= 1;
            if self.attributes[i].name == *name {
                proof {
                    lemma_attribute_found(self.attributes@, i as int, name@);
                }
                return Some(&self.attributes[i]);
            }
        }
        proof {
            lemma_attribute_absent(self.attributes@, name@);
        }
        None
    }

    /// The value of the attribute `name`; `None` both where the element lacks
    /// the attribute and where the attribute stands without a value.
    pub fn attribute_value(&self, name: &String) -> (r: Option<&String>)
        ensures
            r.deep_view() == attribute_value(self@, name@),
    {
        match self.attribute(name) {
            Some(entry) => match &entry.value {
                Some(value) => Some(value),
                None => None,
            },
            None => None,
        }
    }

    /// The text of the first text node among the element's direct children.
    pub fn first_text_child(&self) -> (r: Option<&String>)
        ensures
            r.deep_view() == first_text(self@.children),
    {
        let ghost views = self@.children;
        proof {
            lemma_nodes_view(self.children@);
            assert(views.skip(0) =~= views);
        }
        let mut i: usize = 0;
        while i < self.children.len()
            invariant
                i <= self.children.len(),
                views == nodes_view(self.children@),
                views.len() == self.children.len(),
                first_text(views) == first_text(views.skip(i as int)),
            decreases self.children.len() - i,
        {
            proof {
                lemma_nodes_view(self.children@);
            }
            match &self.children[i] {
                TreeNode::Text(text) => {
                    assert(views.skip(i as int).first() == TreeNodeView::Text(text@));
                    return Some(text);
                },
                _ => {
                    proof {
                        lemma_first_text_skip(views, i as int);
                    }
                },
            }
            i += 1;
        }
        None
    }
}

impl MatchCriterion {
    /// Whether the element is one that this criterion is after.
    pub fn accepts(&self, element: &Element) -> (r: bool)
        ensures
            r == self@.accepts(element@),
    {
        match self {
            MatchCriterion::AttributeEquals { attr_name, attr_value, .. } => {
                match element.attribute_value(attr_name) {
                    Some(value) => *value == *attr_value,
                    None => false,
                }
            },
            MatchCriterion::HasClass { class_name } => element.has_class(class_name),
        }
    }

    /// What this criterion reads from an element.
    pub fn payload(&self, element: &Element) -> (r: Option<String>)
        ensures
            r.deep_view() == self@.payload(element@),
    {
        let found = match self {
            MatchCriterion::AttributeEquals { result_attr_name, .. } => element.attribute_value(
                result_attr_name,
            ),
            MatchCriterion::HasClass { .. } => element.first_text_child(),
        };
        match found {
            Some(text) => Some(text.clone()),
            None => None,
        }
    }
}

/// The elements of a list of subtrees are those of any front part of the
/// list followed by those of the rest.
proof fn lemma_elements_split(nodes: Seq<TreeNodeView>, k: int)
    requires
        0 <= k <= nodes.len(),
    ensures
        elements_of_all(nodes) == elements_of_all(nodes.take(k)) + elements_of_all(nodes.skip(k)),
    decreases nodes.len(),
{
    if k == nodes.len() {
        assert(nodes.take(k) =~= nodes);
        assert(nodes.skip(k) =~= Seq::<TreeNodeView>::empty());
    } else {
        let front = nodes.drop_last();
        lemma_elements_split(front, k);
        assert(front.take(k) =~= nodes.take(k));
        assert(nodes.skip(k).drop_last() =~= front.skip(k));
        assert(elements_of_all(nodes) =~= elements_of_all(nodes.take(k)) + elements_of_all(
            nodes.skip(k),
        ));
    }
}

/// The first element in document order, from `root` downwards, that the
/// criterion accepts.
pub fn find_first_element<'a>(root: &'a TreeNode, criterion: &MatchCriterion) -> (r: Option<
    &'a Element,
>)
    ensures
        match r {
            Some(element) => first_match(elements_in_order(root@), criterion@) == Some(element@),
            None => first_match(elements_in_order(root@), criterion@) is None,
        },
    decreases root,
{
    match root {
        TreeNode::Element(element) => {
            if criterion.accepts(element) {
                return Some(element);
            }
            let ghost views = nodes_view(element.children@);
            proof {
                lemma_nodes_view(element.children@);
                assert(views.take(0) =~= Seq::<TreeNodeView>::empty());
                let own = seq![element@];
                assert(first_match(own, criterion@) is None) by {
                    reveal_with_fuel(first_match, 2);
                }
                lemma_first_match_concat(own, elements_of_all(views), criterion@);
                assert(elements_in_order(root@) == own + elements_of_all(views));
            }
            let mut i: usize = 0;
            while i < element.children.len()
                invariant
                    i <= element.children.len(),
                    *root == TreeNode::Element(*element),
                    views.len() == element.children.len(),
                    forall|j: int|
                        0 <= j < views.len() ==> #[trigger] views[j] == element.children[j]@,
                    first_match(elements_in_order(root@), criterion@) == first_match(
                        elements_of_all(views),
                        criterion@,
                    ),
                    first_match(elements_of_all(views.take(i as int)), criterion@) is None,
                decreases element.children.len() - i,
            {
                let below = find_first_element(&element.children[i], criterion);
                proof {
                    let next = views.take(i + 1);
                    assert(next.drop_last() =~= views.take(i as int));
                    assert(next.last() == element.children[i as int]@);
                    lemma_first_match_concat(
                        elements_of_all(views.take(i as int)),
                        elements_in_order(views[i as int]),
                        criterion@,
                    );
                }
                match below {
                    Some(found) => {
                        proof {
                            lemma_elements_split(views, i + 1);
                            lemma_first_match_concat(
                                elements_of_all(views.take(i + 1)),
                                elements_of_all(views.skip(i + 1)),
                                criterion@,
                            );
                        }
                        return Some(found);
                    },
                    None => {},
                }
                i += 1;
            }
            proof {
                assert(views.take(views.len() as int) =~= views);
            }
            None
        },
        _ => None,
    }
}

/// The result of a search below `root`: what the criterion reads from the
/// first element in document order that it accepts. The search ends at that
/// element, also where the element does not hold what is read from it.
pub fn find(root: &TreeNode, criterion: &MatchCriterion) -> (r: Option<String>)
    ensures
        r.deep_view() == search(root@, criterion@),
{
    match find_first_element(root, criterion) {
        Some(element) => criterion.payload(element),
        None => None,
    }
}

/// The value of the attribute `result_attr` on the first element in document
/// order that carries the attribute `attr_name` with the value `attr_value`.
///
/// `None` where no element carries the pair, and where the first that does
/// has no value for `result_attr`.
pub fn find_attribute_value(root: &TreeNode, attr_name: &str, attr_value: &str, result_attr: &str) -> (r:
    Option<String>)
    ensures
        r.deep_view() == attribute_search(root@, attr_name@, attr_value@, result_attr@),
{
    let criterion = MatchCriterion::AttributeEquals {
        attr_name: attr_name.to_owned(),
        attr_value: attr_value.to_owned(),
        result_attr_name: result_attr.to_owned(),
    };
    find(root, &criterion)
}

/// The text of the first text node among the direct children of the first
/// element in document order that carries the class `class_name`.
///
/// `None` where no element carries the class, and where the first that does
/// has no text node among its direct children.
pub fn find_text_under_class(root: &TreeNode, class_name: &str) -> (r: Option<String>)
    ensures
        r.deep_view() == class_text_search(root@, class_name@),
{
    let criterion = MatchCriterion::HasClass { class_name: class_name.to_owned() };
    find(root, &criterion)
}

/// A list of nodes has a first text exactly where one of the nodes is a text node.
pub proof fn lemma_first_text_none(nodes: Seq<TreeNodeView>)
    ensures
        first_text(nodes) is None <==> forall|k: int|
            0 <= k < nodes.len() ==> !(#[trigger] nodes[k] is Text),
    decreases nodes.len(),
{
    if nodes.len() > 0 {
        let rest = nodes.drop_first();
        lemma_first_text_none(rest);
        if nodes.first() is Text {
            // the first node itself is a text node
        } else if first_text(rest) is None {
            assert forall|k: int| 0 <= k < nodes.len() implies !(#[trigger] nodes[k] is Text) by {
                if k > 0 {
                    assert(nodes[k] == rest[k - 1]);
                }
            }
        } else {
            let k = choose|k: int| 0 <= k < rest.len() && #[trigger] rest[k] is Text;
            assert(nodes[k + 1] == rest[k]);
        }
    }
}

/// A search below a tree in which the criterion accepts no element yields
/// nothing, whatever the criterion reads.
pub proof fn lemma_search_without_match(root: TreeNodeView, criterion: MatchCriterionView)
    requires
        forall|i: int|
            0 <= i < elements_in_order(root).len() ==> !criterion.accepts(
                #[trigger] elements_in_order(root)[i],
            ),
    ensures
        search(root, criterion) is None,
{
    lemma_first_match_index(elements_in_order(root), criterion);
}

/// The first accepted element in document order decides the search: the
/// result is what the criterion reads from it, also where that is nothing, and
/// whatever elements follow it.
pub proof fn lemma_search_first_match_decides(
    root: TreeNodeView,
    criterion: MatchCriterionView,
    i: int,
)
    requires
        0 <= i < elements_in_order(root).len(),
        criterion.accepts(elements_in_order(root)[i]),
        forall|j: int| 0 <= j < i ==> !criterion.accepts(#[trigger] elements_in_order(root)[j]),
    ensures
        search(root, criterion) == criterion.payload(elements_in_order(root)[i]),
{
    lemma_first_match_index(elements_in_order(root), criterion);
}

/// The text under a class is looked for among the direct children only:
/// where the first element that carries the class has no text node among
/// them, the search yields nothing, whatever lies deeper or later.
pub proof fn lemma_class_text_is_direct(root: TreeNodeView, class_name: Seq<char>, i: int)
    requires
        0 <= i < elements_in_order(root).len(),
        elements_in_order(root)[i].classes.contains(class_name),
        forall|j: int|
            0 <= j < i ==> !(#[trigger] elements_in_order(root)[j]).classes.contains(class_name),
        forall|k: int|
            0 <= k < elements_in_order(root)[i].children.len() ==> !(
            #[trigger] elements_in_order(root)[i].children[k] is Text),
    ensures
        class_text_search(root, class_name) is None,
{
    let criterion = MatchCriterionView::HasClass { class_name };
    lemma_search_first_match_decides(root, criterion, i);
    lemma_first_text_none(elements_in_order(root)[i].children);
}

} // verus!
