use yamc::markdown::create_comrak_options;

#[test]
fn gfm_options_are_set() {
    let o = create_comrak_options();
    assert!(o.strikethrough && o.tagfilter && o.table && o.autolink && o.tasklist);
    assert!(o.superscript && o.footnotes && o.description_lists);
    assert_eq!(o.header_ids, Some(String::new()));
    assert_eq!(o.front_matter_delimiter, Some("---".to_string()));
}
