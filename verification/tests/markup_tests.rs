use bing_wallpaper::extractor::{extract_features, Features};
use bing_wallpaper::markup::parse_document;
use bing_wallpaper::matcher::{find_attribute_value, find_text_under_class};
use bing_wallpaper::tree::{Attribute, DocumentTree, Element, TreeError, TreeNode};

fn parsed(markup: &str) -> DocumentTree {
    parse_document(markup).expect("markup that the parser accepts")
}

#[test]
fn parse_builds_the_tree() {
    let tree = parsed("<div data-kind=\"card\"><p class=\"a b\">Hello</p><!-- note --><br></div>");
    assert_eq!(
        tree,
        DocumentTree {
            children: vec![TreeNode::Element(Element {
                name: "div".to_string(),
                attributes: vec![Attribute {
                    name: "data-kind".to_string(),
                    value: Some("card".to_string()),
                }],
                classes: vec![],
                children: vec![
                    TreeNode::Element(Element {
                        name: "p".to_string(),
                        attributes: vec![],
                        classes: vec!["a".to_string(), "b".to_string()],
                        children: vec![TreeNode::Text("Hello".to_string())],
                    }),
                    TreeNode::Comment("note".to_string()),
                    TreeNode::Element(Element {
                        name: "br".to_string(),
                        attributes: vec![],
                        classes: vec![],
                        children: vec![],
                    }),
                ],
            })],
            diagnostics: vec![],
        }
    );
}

#[test]
fn parse_of_empty_text_is_an_empty_document() {
    assert_eq!(parsed(""), DocumentTree { children: vec![], diagnostics: vec![] });
    assert_eq!(extract_features(&parsed("")), Err(TreeError::NoRoot));
}

#[test]
fn parse_keeps_attributes_with_and_without_value() {
    let tree = parsed("<a download=\"BingWallpaper.jpg\" href=\"/th?id=abc.jpg\" hidden rel=\"\">x</a>");
    let root = tree.single_root().expect("one root");
    assert_eq!(
        find_attribute_value(root, "download", "BingWallpaper.jpg", "href"),
        Some("/th?id=abc.jpg".to_string())
    );
    assert_eq!(find_attribute_value(root, "download", "BingWallpaper.jpg", "hidden"), None);
    assert_eq!(find_attribute_value(root, "download", "BingWallpaper.jpg", "rel"), Some(String::new()));
    assert_eq!(find_attribute_value(root, "download", "BingWallpaper.jpg", "missing"), None);
    assert_eq!(find_attribute_value(root, "hidden", "", "href"), None);
}

#[test]
fn parse_then_extract_features() {
    let tree = parsed(
        "<!doctype html><html><head><title>Daily</title></head><body>\
         <div class=\"musCardCont\"><h2 class=\"title\">Mountain View</h2>\
         <div class=\"copyright\">© 2024 Acme</div>\
         <a href=\"/other\">Other</a>\
         <a download=\"BingWallpaper.jpg\" href=\"/th?id=abc.jpg\">Download</a></div>\
         </body></html>",
    );
    assert_eq!(
        extract_features(&tree),
        Ok(Features {
            title: Some("Mountain View".to_string()),
            copyright: Some("© 2024 Acme".to_string()),
            image_reference: Some("/th?id=abc.jpg".to_string()),
        })
    );
}

#[test]
fn parse_of_several_top_level_nodes() {
    let tree = parsed("<p class=\"title\">One</p><p>Two</p>");
    assert_eq!(tree.children.len(), 2);
    assert_eq!(extract_features(&tree), Err(TreeError::SeveralRoots));
    assert_eq!(find_text_under_class(&tree.children[0], "title"), Some("One".to_string()));
}

#[test]
fn parse_rejects_a_second_html_element() {
    let error = parse_document("<!doctype html><html></html><html></html>").expect_err("two html elements");
    assert_eq!(error.message, "Document with multiple HTML tags");
}

#[test]
fn parse_rejects_a_stray_declaration() {
    let error = parse_document("<p>before</p><!bogus").expect_err("a declaration that is none");
    assert!(!error.message.is_empty());
}

#[test]
fn parse_reads_an_unfinished_tag_as_text() {
    assert_eq!(
        parse_document("<div"),
        Ok(DocumentTree { children: vec![TreeNode::Text("<div".to_string())], diagnostics: vec![] })
    );
}

#[test]
fn parse_remarks_on_what_it_skips() {
    let tree = parsed("<?xml version=\"1.0\"?><p class=\"title\">Kept</p>");
    assert_eq!(tree.diagnostics.len(), 1);
    assert!(tree.diagnostics[0].contains("el_process_instruct"));
    assert_eq!(tree.children.len(), 1);
    assert_eq!(
        extract_features(&tree),
        Ok(Features { title: Some("Kept".to_string()), copyright: None, image_reference: None })
    );
}
