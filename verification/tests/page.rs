use rutmf::api::{next_link, paginate, Page, PageRequest, Query, Step};

fn page(items: Vec<u8>, total: Option<usize>, offset: usize) -> Page<u8> {
    let page = Page::new(items).with_offset(offset);
    match total {
        Some(total) => page.with_total_count(total),
        None => page,
    }
}

#[test]
fn has_more_prefers_the_total_count_header() {
    assert!(page(vec![1, 2], Some(5), 0).has_more(2));
    assert!(!page(vec![1, 2], Some(2), 0).has_more(2));
}

#[test]
fn has_more_uses_a_next_link_when_there_is_no_total() {
    let mut short = page(vec![1], None, 0);
    assert!(!short.has_more(2), "no link, short page: done");
    short.next_link = Some("https://host/productOffering?offset=1".into());
    assert!(short.has_more(2), "the server said there is a next page");
}

#[test]
fn a_206_says_there_is_more_when_no_count_does() {
    let capped = page(vec![1, 2], None, 0).with_partial(true);
    assert!(
        capped.has_more(50),
        "a short page marked 206 is not the end of the collection"
    );
    assert!(!page(vec![1, 2], None, 0).has_more(50));
    let mut counted = page(vec![1, 2], Some(2), 0);
    counted.partial = true;
    assert!(
        !counted.has_more(50),
        "the count is exact; the status is not"
    );
}

#[test]
fn has_more_falls_back_to_a_full_page() {
    assert!(page(vec![1, 2], None, 0).has_more(2));
    assert!(!page(vec![1], None, 0).has_more(2));
    assert!(!page(vec![], None, 0).has_more(2));
}

#[test]
fn an_empty_page_ends_the_sequence_whatever_the_headers_say() {
    let mut empty = page(vec![], Some(1000), 0);
    empty.next_link = Some("https://host/next".into());
    assert!(!empty.has_more(20));
}

#[test]
fn next_offset_advances_by_page_length() {
    assert_eq!(page(vec![1, 2, 3], None, 10).next_offset(), 13);
}

#[test]
fn parses_the_next_relation_from_a_link_header() {
    let header =
        r#"<https://host/a?offset=0>; rel="prev", <https://host/a?offset=40>; rel="next""#;
    assert_eq!(
        next_link(header).as_deref(),
        Some("https://host/a?offset=40")
    );
    assert_eq!(next_link(r#"<https://host/a>; rel="prev""#), None);
    assert_eq!(next_link("nonsense"), None);
}

#[test]
fn link_relation_matching_is_case_insensitive_and_quote_tolerant() {
    assert!(next_link("<https://host/a>; REL=next").is_some());
}

#[test]
fn a_comma_inside_the_url_does_not_end_the_link() {
    let header = r#"<https://host/productOffering?state=held,pending&offset=40>; rel="next""#;
    assert_eq!(
        next_link(header).as_deref(),
        Some("https://host/productOffering?state=held,pending&offset=40")
    );
}

#[test]
fn a_semicolon_inside_the_url_is_not_a_parameter_separator() {
    let header = r#"<https://host/a?cursor=x;y>; rel="next""#;
    assert_eq!(
        next_link(header).as_deref(),
        Some("https://host/a?cursor=x;y")
    );
}

#[test]
fn rel_may_name_several_relation_types() {
    assert_eq!(
        next_link(r#"<https://host/a?offset=40>; rel="next last""#).as_deref(),
        Some("https://host/a?offset=40")
    );
    assert_eq!(
        next_link(r#"<https://host/a>; rel="prev first""#),
        None,
        "a list that does not contain `next` is not a next link"
    );
}

#[test]
fn a_comma_inside_a_quoted_parameter_does_not_end_the_link() {
    let header =
        r#"<https://host/a>; title="one, two"; rel="prev", <https://host/b>; rel="next""#;
    assert_eq!(next_link(header).as_deref(), Some("https://host/b"));
}

#[test]
fn the_next_relation_is_found_among_several_links() {
    let header = [
        r#"<https://host/a?offset=0>; rel="first", "#,
        r#"<https://host/a?offset=20>; rel="prev", "#,
        r#"<https://host/a?offset=60>; rel="next", "#,
        r#"<https://host/a?offset=99>; rel="last""#,
    ]
    .concat();
    assert_eq!(
        next_link(&header).as_deref(),
        Some("https://host/a?offset=60")
    );
}

#[test]
fn a_malformed_header_yields_no_link_rather_than_panicking() {
    for header in [
        "",
        "nonsense",
        "<unterminated; rel=\"next\"",
        "<>; rel=\"next\"",
        ">;<",
        "<a>; rel=\"next",
    ] {
        let _ = next_link(header);
    }
    assert_eq!(
        next_link("<>; rel=\"next\""),
        None,
        "a link naming nowhere is no link: following it would fail as a \
         cross-origin refusal rather than ending the collection"
    );
}

#[test]
fn a_backslash_in_a_quoted_parameter_escapes_the_quote() {
    let header = r#"<https://host/a>; title="a \", b"; rel="prev", <https://host/b>; rel="next""#;
    assert_eq!(next_link(header).as_deref(), Some("https://host/b"));
}

#[test]
fn next_must_be_a_whole_relation_token() {
    assert_eq!(next_link("<https://host/a>; rel=\"nextpage\""), None);
    assert_eq!(next_link("<https://host/a>; rel=\"prev\tnext\""), Some("https://host/a".to_owned()));
}

fn drain(stream: &mut rutmf::api::PageStream<u8>) -> (Vec<u8>, Option<PageRequest>) {
    let mut out = Vec::new();
    loop {
        match stream.step() {
            Step::Item(x) => out.push(x),
            Step::Fetch(request) => return (out, Some(request)),
            Step::Done => return (out, None),
        }
    }
}

#[test]
fn the_walk_asks_for_an_explicit_limit_from_the_query_offset() {
    let mut stream = paginate::<u8>(Query::new().offset(40));
    match stream.step() {
        Step::Fetch(PageRequest::Query(q)) => {
            assert_eq!(q.to_query_string(), "limit=20&offset=40");
        }
        other => panic!("expected an offset request, got {other:?}"),
    }
}

#[test]
fn the_walk_advances_by_offset_until_a_short_page() {
    let mut stream = paginate::<u8>(Query::new().limit(2));
    stream.receive(Page::new(vec![1, 2]).with_offset(0));
    let (items, next) = drain(&mut stream);
    assert_eq!(items, [1, 2]);
    match next {
        Some(PageRequest::Query(q)) => assert_eq!(q.to_query_string(), "limit=2&offset=2"),
        other => panic!("expected the next offset, got {other:?}"),
    }
    stream.receive(Page::new(vec![3]).with_offset(2));
    let (items, next) = drain(&mut stream);
    assert_eq!(items, [3]);
    assert!(next.is_none(), "a short page is the last one");
}

#[test]
fn the_walk_follows_links_and_never_the_same_one_twice() {
    let mut stream = paginate::<u8>(Query::new().limit(2));
    stream.receive(Page::new(vec![1, 2]).with_next_link("https://host/a?cursor=1"));
    let (items, next) = drain(&mut stream);
    assert_eq!(items, [1, 2]);
    match next {
        Some(PageRequest::Follow(url)) => assert_eq!(url, "https://host/a?cursor=1"),
        other => panic!("expected to follow the link, got {other:?}"),
    }
    stream.receive(Page::new(vec![3, 4]).with_next_link("https://host/a?cursor=1"));
    let (items, next) = drain(&mut stream);
    assert_eq!(items, [3, 4]);
    assert!(next.is_none(), "a link already followed ends the walk");
}

#[test]
fn a_link_after_an_empty_page_does_not_stream_forever() {
    let mut stream = paginate::<u8>(Query::new().limit(2));
    stream.receive(Page::new(vec![1, 2]).with_next_link("https://host/a?cursor=1"));
    let (items, next) = drain(&mut stream);
    assert_eq!(items, [1, 2]);
    assert!(matches!(next, Some(PageRequest::Follow(_))));
    stream.receive(Page::new(Vec::new()).with_next_link("https://host/a?cursor=2"));
    let (items, next) = drain(&mut stream);
    assert!(items.is_empty());
    assert!(next.is_none(), "the empty page ended it");
}

#[test]
fn once_the_server_leads_with_links_a_page_without_one_ends_the_walk() {
    let mut stream = paginate::<u8>(Query::new().limit(2));
    stream.receive(Page::new(vec![1, 2]).with_next_link("https://host/a?cursor=1"));
    let _ = drain(&mut stream);
    stream.receive(Page::new(vec![3, 4]));
    let (items, next) = drain(&mut stream);
    assert_eq!(items, [3, 4]);
    assert!(next.is_none(), "no link from a leading server means no next page");
}

#[test]
fn a_failed_fetch_ends_the_walk() {
    let mut stream = paginate::<u8>(Query::new());
    assert!(matches!(stream.step(), Step::Fetch(_)));
    stream.fail();
    assert!(matches!(stream.step(), Step::Done));
}
