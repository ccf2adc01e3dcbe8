use article_scraper::{decode_page, discover_links, extract_content, page_links, page_text, Link};

#[test]
fn url_for_main_identifier() {
    let link = Link::new(String::from("87537.html"));
    assert_eq!(link.url(), "https://m.qqaiqin.com/article/87537.html");
}

#[test]
fn base_is_fixed_prefix() {
    let link = Link::new(String::from("anything"));
    assert_eq!(link.base, "https://m.qqaiqin.com/article/");
    assert_eq!(link.html_name, "anything");
}

#[test]
fn extract_drops_last_two() {
    let html = "<html><body><p>one</p><p>two</p><p>three</p><p>four</p></body></html>";
    assert_eq!(page_text(html), "one\ntwo\n");
}

#[test]
fn extract_two_paragraphs_empty() {
    let html = "<html><body><p>one</p><p>two</p></body></html>";
    assert_eq!(page_text(html), "");
}

#[test]
fn extract_one_paragraph_empty() {
    let html = "<html><body><p>only</p></body></html>";
    assert_eq!(page_text(html), "");
}

#[test]
fn extract_no_paragraphs_empty() {
    let html = "<html><body><div>nothing here</div></body></html>";
    assert_eq!(page_text(html), "");
}

#[test]
fn extract_keeps_document_order() {
    let html = "<html><body><p>c</p><p>a</p><p>b</p><p>x</p><p>y</p></body></html>";
    assert_eq!(page_text(html), "c\na\nb\n");
}

#[test]
fn extract_content_direct() {
    let paragraphs = vec![
        String::from("one"),
        String::from("two"),
        String::from("three"),
    ];
    assert_eq!(extract_content(&paragraphs), "one\n");
}

#[test]
fn extract_content_direct_short() {
    let paragraphs = vec![String::from("only")];
    assert_eq!(extract_content(&paragraphs), "");
    let empty: Vec<String> = Vec::new();
    assert_eq!(extract_content(&empty), "");
}

#[test]
fn pagination_drops_last() {
    let html = "<html><body><div class=\"m_pages\"><ul>\
                <li><a href=\"a.html\">1</a></li>\
                <li><a href=\"b.html\">2</a></li>\
                <li><a href=\"c.html\">3</a></li>\
                </ul></div></body></html>";
    let links = page_links(html);
    assert_eq!(links.len(), 2);
    assert_eq!(links[0].html_name, "a.html");
    assert_eq!(links[1].html_name, "b.html");
    assert_eq!(links[0].url(), "https://m.qqaiqin.com/article/a.html");
}

#[test]
fn pagination_filters_non_html_targets() {
    let html = "<html><body><div class=\"m_pages\"><ul>\
                <li><a href=\"x.html\">1</a></li>\
                <li><a href=\"y.jpg\">2</a></li>\
                <li><a href=\"z.html\">3</a></li>\
                <li><a href=\"w.html\">4</a></li>\
                </ul></div></body></html>";
    let links = page_links(html);
    assert_eq!(links.len(), 2);
    assert_eq!(links[0].html_name, "x.html");
    assert_eq!(links[1].html_name, "z.html");
}

#[test]
fn pagination_skips_items_without_target() {
    let html = "<html><body><div class=\"m_pages\"><ul>\
                <li><a>no target</a></li>\
                <li><a href=\"p.html\">1</a></li>\
                <li>plain item</li>\
                <li><a href=\"q.html\">2</a></li>\
                </ul></div></body></html>";
    let links = page_links(html);
    assert_eq!(links.len(), 1);
    assert_eq!(links[0].html_name, "p.html");
}

#[test]
fn pagination_absent_yields_empty() {
    let html = "<html><body><p>just an article</p><p>no pager</p></body></html>";
    let links = page_links(html);
    assert!(links.is_empty());
}

#[test]
fn pagination_single_entry_yields_empty() {
    let html = "<html><body><div class=\"m_pages\"><ul>\
                <li><a href=\"only.html\">1</a></li>\
                </ul></div></body></html>";
    let links = page_links(html);
    assert!(links.is_empty());
}

#[test]
fn discover_links_direct() {
    let hrefs = vec![
        Some(String::from("a.html")),
        None,
        Some(String::from("b.txt")),
        Some(String::from("c.html")),
    ];
    let links = discover_links(&hrefs);
    assert_eq!(links.len(), 1);
    assert_eq!(links[0].html_name, "a.html");
    assert_eq!(links[0].base, "https://m.qqaiqin.com/article/");
}

#[test]
fn append_ordering_over_three_pages() {
    let main_html = "<html><body><p>main</p><p>tail1</p><p>tail2</p></body></html>";
    let page1 = "<html><body><p>first</p><p>tail1</p><p>tail2</p></body></html>";
    let page2 = "<html><body><p>second</p><p>tail1</p><p>tail2</p></body></html>";
    let mut file = String::new();
    file.push_str(&page_text(main_html));
    file.push_str(&page_text(page1));
    file.push_str(&page_text(page2));
    assert_eq!(file, "main\nfirst\nsecond\n");
}

#[test]
fn decode_gbk_bytes() {
    let bytes: Vec<u8> = vec![0xc4, 0xe3, 0xba, 0xc3];
    assert_eq!(decode_page(&bytes), "\u{4f60}\u{597d}");
}

#[test]
fn decode_ascii_passthrough() {
    let bytes: Vec<u8> = b"<p>hello</p>".to_vec();
    assert_eq!(decode_page(&bytes), "<p>hello</p>");
}

#[test]
fn decode_malformed_bytes_replaced() {
    let bytes: Vec<u8> = vec![0x81];
    assert_eq!(decode_page(&bytes), "\u{fffd}");
}
