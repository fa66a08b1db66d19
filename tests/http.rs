use rcli::http::{render_listing, ListingEntry};

#[test]
fn empty_listing() {
    assert_eq!(
        render_listing(&Vec::new()),
        "<html><body><ul></ul></body></html>"
    );
}

#[test]
fn listing_links_each_entry() {
    let entries = vec![
        ListingEntry {
            path: "a.txt".to_string(),
            name: "a.txt".to_string(),
        },
        ListingEntry {
            path: "dir/say \"hi\"".to_string(),
            name: "say \"hi\"".to_string(),
        },
    ];
    assert_eq!(
        render_listing(&entries),
        "<html><body><ul><li><a href=\"a.txt\">a.txt</a></li>\
         <li><a href=\"dir/say \\\"hi\\\"\">say \"hi\"</a></li></ul></body></html>"
    );
}
