use jj::catalog::{cache_file_name, catalog_url, selection, size_name_of, Selection};

#[test]
fn cache_file_is_named_after_the_region() {
    assert_eq!(cache_file_name("us-west-2"), "us-west-2-instances-table.txt");
}

#[test]
fn catalog_url_is_built_from_the_region() {
    assert_eq!(
        catalog_url("eu-central-1"),
        "https://raw.githubusercontent.com/samuela/jj/main/scraping/data/eu-central-1-instances-table.txt"
    );
}

#[test]
fn size_name_is_what_stands_before_the_first_space() {
    assert_eq!(size_name_of("m5.large  2 vCPU 8 GiB").unwrap(), "m5.large");
    assert_eq!(size_name_of(" leading").unwrap(), "");
    assert_eq!(size_name_of("t3.micro"), None);
    assert_eq!(size_name_of(""), None);
}

#[test]
fn aborted_pick_is_aborted() {
    let lines = vec!["m5.large 2 vCPU".to_string()];
    assert!(matches!(selection(true, &lines), Selection::Aborted));
}

#[test]
fn pick_of_zero_or_two_lines_is_no_selection() {
    assert!(matches!(selection(false, &vec![]), Selection::NoSelection));
    let two = vec!["a b".to_string(), "c d".to_string()];
    assert!(matches!(selection(false, &two), Selection::NoSelection));
}

#[test]
fn pick_without_space_is_malformed() {
    let lines = vec!["m5.large".to_string()];
    assert!(matches!(selection(false, &lines), Selection::MalformedLine));
}

#[test]
fn pick_of_one_line_gives_its_size() {
    let lines = vec!["c5.xlarge 4 vCPU 8 GiB".to_string()];
    match selection(false, &lines) {
        Selection::Chosen(t) => assert_eq!(t, "c5.xlarge"),
        other => panic!("unexpected {:?}", other),
    }
}
