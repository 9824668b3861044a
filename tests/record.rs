use mt_samples::crawl::{process_sample, SampleOutcome};
use mt_samples::record::{convert_to_header, finish_header, Header};

fn strings(items: &[&str]) -> Vec<String> {
    items.iter().map(|s| s.to_string()).collect()
}

fn empty_header() -> Header {
    convert_to_header(strings(&["a", "b", "c", "d", "e", "f"])).unwrap()
}

#[test]
fn field_mapping_is_positional() {
    let h = convert_to_header(strings(&["L0", "Specialty", "L2", "Name", "L4", "Description"]))
        .unwrap();
    assert_eq!(h.specialty, "Specialty");
    assert_eq!(h.name, "Name");
    assert_eq!(h.description, "Description");
    assert_eq!(h.text, "");
    assert_eq!(h.keywords, "");
    assert_eq!(h.url, "");
}

#[test]
fn builder_rejects_other_lengths() {
    let short = convert_to_header(strings(&["a", "b", "c", "d", "e"]));
    assert_eq!(short.unwrap_err().len, 5);
    let long = convert_to_header(strings(&["a", "b", "c", "d", "e", "f", "g"]));
    assert_eq!(long.unwrap_err().len, 7);
    let none = convert_to_header(Vec::new());
    assert_eq!(none.unwrap_err().len, 0);
}

#[test]
fn finisher_splits_body_and_keywords() {
    let h = finish_header(
        empty_header(),
        &strings(&["Body part one.", "Body part two. /", "kw1, kw2"]),
        "https://example.org/s",
    );
    assert_eq!(h.text, "Body part one. Body part two. ");
    assert_eq!(h.keywords, "kw1, kw2");
    assert_eq!(h.url, "https://example.org/s");
    assert_eq!(h.specialty, "b");
    assert_eq!(h.name, "d");
    assert_eq!(h.description, "f");
}

#[test]
fn finisher_without_delimiter_uses_whole_block() {
    let h = finish_header(empty_header(), &strings(&["Just body text"]), "u");
    assert_eq!(h.text, "Just body text");
    assert_eq!(h.keywords, "Just body text");
}

#[test]
fn finisher_without_delimiter_trims_keywords_only() {
    let h = finish_header(empty_header(), &strings(&[" Just", "body text\u{3000}"]), "u");
    assert_eq!(h.text, " Just body text\u{3000}");
    assert_eq!(h.keywords, "Just body text");
}

#[test]
fn finisher_uses_first_and_last_delimiter() {
    let h = finish_header(empty_header(), &strings(&["a / b", "/ c \t"]), "u");
    assert_eq!(h.text, "a ");
    assert_eq!(h.keywords, "c");
}

#[test]
fn finisher_on_empty_block() {
    let h = finish_header(empty_header(), &Vec::new(), "u");
    assert_eq!(h.text, "");
    assert_eq!(h.keywords, "");
    assert_eq!(h.url, "u");
}

#[test]
fn seven_headings_give_a_record() {
    let headings = strings(&["L0", "Allergy", "L2", "Rhinitis", "L4", "A description.", "Boilerplate"]);
    let highlighted = strings(&["Repeat", "Body. /", "allergy, rhinitis"]);
    match process_sample(headings, highlighted, "https://example.org/p") {
        SampleOutcome::Record(h) => {
            assert_eq!(h.specialty, "Allergy");
            assert_eq!(h.name, "Rhinitis");
            assert_eq!(h.description, "A description.");
            assert_eq!(h.text, "Body. ");
            assert_eq!(h.keywords, "allergy, rhinitis");
            assert_eq!(h.url, "https://example.org/p");
        }
        SampleOutcome::Skipped { .. } => panic!("expected a record"),
    }
}

#[test]
fn other_heading_counts_are_skipped() {
    for n in [0usize, 1, 6, 8] {
        let headings: Vec<String> = (0..n).map(|i| format!("h{}", i)).collect();
        match process_sample(headings, strings(&["x", "y"]), "u") {
            SampleOutcome::Skipped { heading_count } => assert_eq!(heading_count, n),
            SampleOutcome::Record(_) => panic!("expected a skip"),
        }
    }
}

#[test]
fn empty_highlighted_block_gives_empty_text() {
    let headings = strings(&["a", "b", "c", "d", "e", "f", "g"]);
    match process_sample(headings, Vec::new(), "u") {
        SampleOutcome::Record(h) => {
            assert_eq!(h.text, "");
            assert_eq!(h.keywords, "");
            assert_eq!(h.specialty, "b");
        }
        SampleOutcome::Skipped { .. } => panic!("expected a record"),
    }
}
