//! The three things that are read from a wallpaper page: its title, its
//! copyright line and the reference to the image that can be downloaded.

use vstd::prelude::*;
use crate::matcher::{
    attribute_search, class_text_search, find_attribute_value, find_text_under_class,
    lemma_search_without_match, MatchCriterionView,
};
use crate::tree::{elements_in_order, lemma_nodes_view, DocumentTree, DocumentTreeView, TreeError};

verus! {

/// The class of the element that holds the title.
pub const TITLE_CLASS: &'static str = "title";

/// The class of the element that holds the copyright line.
pub const COPYRIGHT_CLASS: &'static str = "copyright";

/// The attribute that marks a link as a download.
pub const DOWNLOAD_ATTRIBUTE: &'static str = "download";

/// The file name under which the page offers the wallpaper.
pub const DOWNLOAD_FILE_NAME: &'static str = "BingWallpaper.jpg";

/// The attribute that holds a link's target.
pub const LINK_ATTRIBUTE: &'static str = "href";

/// What a page told about its wallpaper. Each part may be missing.
#[derive(Clone, Debug, PartialEq, Eq)]
pub struct Features {
    pub title: Option<String>,
    pub copyright: Option<String>,
    pub image_reference: Option<String>,
}

/// What the features are, mathematically.
pub struct FeaturesView {
    pub title: Option<Seq<char>>,
    pub copyright: Option<Seq<char>>,
    pub image_reference: Option<Seq<char>>,
}

impl View for Features {
    type V = FeaturesView;

    open spec fn view(&self) -> FeaturesView {
        FeaturesView {
            title: self.title.deep_view(),
            copyright: self.copyright.deep_view(),
            image_reference: self.image_reference.deep_view(),
        }
    }
}

/// The title that a document shows.
pub open spec fn title_of(tree: DocumentTreeView) -> Option<Seq<char>> {
    class_text_search(tree.root(), TITLE_CLASS@)
}

/// The copyright line that a document shows.
pub open spec fn copyright_of(tree: DocumentTreeView) -> Option<Seq<char>> {
    class_text_search(tree.root(), COPYRIGHT_CLASS@)
}

/// The target of the link by which a document offers the wallpaper.
pub open spec fn image_reference_of(tree: DocumentTreeView) -> Option<Seq<char>> {
    attribute_search(tree.root(), DOWNLOAD_ATTRIBUTE@, DOWNLOAD_FILE_NAME@, LINK_ATTRIBUTE@)
}

/// All that a document tells about its wallpaper.
pub open spec fn features_of(tree: DocumentTreeView) -> FeaturesView {
    FeaturesView {
        title: title_of(tree),
        copyright: copyright_of(tree),
        image_reference: image_reference_of(tree),
    }
}

/// The text under the first element of class `title`.
pub fn extract_title(tree: &DocumentTree) -> (r: Option<String>)
    requires
        tree@.has_single_root(),
    ensures
        r.deep_view() == title_of(tree@),
{
    proof {
        lemma_nodes_view(tree.children@);
    }
    find_text_under_class(&tree.children[0], TITLE_CLASS)
}

/// The text under the first element of class `copyright`.
pub fn extract_copyright(tree: &DocumentTree) -> (r: Option<String>)
    requires
        tree@.has_single_root(),
    ensures
        r.deep_view() == copyright_of(tree@),
{
    proof {
        lemma_nodes_view(tree.children@);
    }
    find_text_under_class(&tree.children[0], COPYRIGHT_CLASS)
}

/// The link target of the first element that offers the wallpaper for download.
pub fn extract_image_reference(tree: &DocumentTree) -> (r: Option<String>)
    requires
        tree@.has_single_root(),
    ensures
        r.deep_view() == image_reference_of(tree@),
{
    proof {
        lemma_nodes_view(tree.children@);
    }
    find_attribute_value(&tree.children[0], DOWNLOAD_ATTRIBUTE, DOWNLOAD_FILE_NAME, LINK_ATTRIBUTE)
}

/// Reads all three features, after checking that the document is one tree.
pub fn extract_features(tree: &DocumentTree) -> (r: Result<Features, TreeError>)
    ensures
        match r {
            Ok(features) => tree@.has_single_root() && features@ == features_of(tree@),
            Err(TreeError::NoRoot) => tree@.children.len() == 0,
            Err(TreeError::SeveralRoots) => tree@.children.len() > 1,
        },
{
    match tree.single_root() {
        Ok(_) => Ok(
            Features {
                title: extract_title(tree),
                copyright: extract_copyright(tree),
                image_reference: extract_image_reference(tree),
            },
        ),
        Err(e) => Err(e),
    }
}

/// A document in which no element carries the title class, the copyright
/// class or the download marker has none of the three features.
pub proof fn lemma_features_without_match(tree: DocumentTreeView)
    requires
        tree.has_single_root(),
        forall|i: int|
            #![trigger elements_in_order(tree.root())[i]]
            0 <= i < elements_in_order(tree.root()).len() ==> {
                let element = elements_in_order(tree.root())[i];
                &&& !element.classes.contains(TITLE_CLASS@)
                &&& !element.classes.contains(COPYRIGHT_CLASS@)
                &&& crate::matcher::attribute_value(element, DOWNLOAD_ATTRIBUTE@) != Some(
                    DOWNLOAD_FILE_NAME@,
                )
            },
    ensures
        features_of(tree) == (FeaturesView { title: None, copyright: None, image_reference: None }),
{
    let root = tree.root();
    lemma_search_without_match(root, MatchCriterionView::HasClass { class_name: TITLE_CLASS@ });
    lemma_search_without_match(root, MatchCriterionView::HasClass { class_name: COPYRIGHT_CLASS@ });
    lemma_search_without_match(
        root,
        MatchCriterionView::AttributeEquals {
            attr_name: DOWNLOAD_ATTRIBUTE@,
            attr_value: DOWNLOAD_FILE_NAME@,
            result_attr_name: LINK_ATTRIBUTE@,
        },
    );
}

} // verus!
