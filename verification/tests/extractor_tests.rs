use bing_wallpaper::extractor::{
    extract_copyright, extract_features, extract_image_reference, extract_title, Features,
    COPYRIGHT_CLASS, DOWNLOAD_ATTRIBUTE, DOWNLOAD_FILE_NAME, LINK_ATTRIBUTE, TITLE_CLASS,
};
use bing_wallpaper::tree::{Attribute, DocumentTree, Element, TreeError, TreeNode};
use bing_wallpaper::url_base::{derive_site_root, resolve, AbsoluteUrl};

fn leaf(content: &str) -> TreeNode {
    TreeNode::Text(content.to_string())
}

fn branch(
    name: &str,
    attributes: Vec<(&str, &str)>,
    classes: Vec<&str>,
    children: Vec<TreeNode>,
) -> TreeNode {
    TreeNode::Element(Element {
        name: name.to_string(),
        attributes: attributes
            .into_iter()
            .map(|(name, value)| Attribute {
                name: name.to_string(),
                value: Some(value.to_string()),
            })
            .collect(),
        classes: classes.into_iter().map(|c| c.to_string()).collect(),
        children,
    })
}

fn document(children: Vec<TreeNode>) -> DocumentTree {
    DocumentTree { children, diagnostics: vec![] }
}

fn wallpaper_page() -> DocumentTree {
    document(vec![branch(
        "body",
        vec![],
        vec![],
        vec![
            branch("h1", vec![], vec!["title"], vec![leaf("Mountain View")]),
            branch("p", vec![], vec!["copyright"], vec![leaf("© 2024 Acme")]),
            branch(
                "a",
                vec![("download", "BingWallpaper.jpg"), ("href", "/th?id=abc.jpg")],
                vec![],
                vec![leaf("Download")],
            ),
        ],
    )])
}

#[test]
fn recipe_names() {
    assert_eq!(TITLE_CLASS, "title");
    assert_eq!(COPYRIGHT_CLASS, "copyright");
    assert_eq!(DOWNLOAD_ATTRIBUTE, "download");
    assert_eq!(DOWNLOAD_FILE_NAME, "BingWallpaper.jpg");
    assert_eq!(LINK_ATTRIBUTE, "href");
}

#[test]
fn end_to_end_features_of_a_wallpaper_page() {
    let page = wallpaper_page();
    assert_eq!(extract_title(&page), Some("Mountain View".to_string()));
    assert_eq!(extract_copyright(&page), Some("© 2024 Acme".to_string()));
    let reference = extract_image_reference(&page);
    assert_eq!(reference, Some("/th?id=abc.jpg".to_string()));

    let site = AbsoluteUrl::parse("https://www.bing.com").expect("a URL");
    let base = derive_site_root(&site).expect("a site root");
    let image = resolve(&base, &reference.unwrap()).expect("a resolvable reference");
    assert_eq!(image.as_str(), "https://www.bing.com/th?id=abc.jpg");
}

#[test]
fn features_are_read_together() {
    assert_eq!(
        extract_features(&wallpaper_page()),
        Ok(Features {
            title: Some("Mountain View".to_string()),
            copyright: Some("© 2024 Acme".to_string()),
            image_reference: Some("/th?id=abc.jpg".to_string()),
        })
    );
}

#[test]
fn page_without_matches_has_no_features() {
    let page = document(vec![branch(
        "body",
        vec![("download", "Other.jpg"), ("href", "/x")],
        vec!["headline"],
        vec![leaf("title"), branch("p", vec![("href", "/y")], vec!["copy"], vec![leaf("copyright")])],
    )]);
    assert_eq!(extract_title(&page), None);
    assert_eq!(extract_copyright(&page), None);
    assert_eq!(extract_image_reference(&page), None);
    assert_eq!(
        extract_features(&page),
        Ok(Features { title: None, copyright: None, image_reference: None })
    );
}

#[test]
fn each_feature_is_optional_on_its_own() {
    let page = document(vec![branch(
        "body",
        vec![],
        vec![],
        vec![branch("p", vec![], vec!["copyright"], vec![leaf("© 2024 Acme")])],
    )]);
    assert_eq!(
        extract_features(&page),
        Ok(Features {
            title: None,
            copyright: Some("© 2024 Acme".to_string()),
            image_reference: None,
        })
    );
}

#[test]
fn download_of_another_file_is_not_the_image() {
    let page = document(vec![branch(
        "a",
        vec![("download", "bingwallpaper.jpg"), ("href", "/lower")],
        vec![],
        vec![],
    )]);
    assert_eq!(extract_image_reference(&page), None);
}

#[test]
fn document_without_root_is_rejected() {
    assert_eq!(extract_features(&document(vec![])), Err(TreeError::NoRoot));
    assert_eq!(document(vec![]).single_root(), Err(TreeError::NoRoot));
}

#[test]
fn document_with_several_roots_is_rejected() {
    let page = document(vec![
        branch("h1", vec![], vec!["title"], vec![leaf("Mountain View")]),
        leaf("tail"),
    ]);
    assert_eq!(extract_features(&page), Err(TreeError::SeveralRoots));
    assert_eq!(page.single_root(), Err(TreeError::SeveralRoots));
}

#[test]
fn single_root_is_handed_out() {
    let page = document(vec![leaf("only")]);
    assert_eq!(page.single_root(), Ok(&leaf("only")));
}
