use scrapper::fields::extract;
use scrapper::Block;

fn block(
    terms: &[&str],
    values: &[&str],
    images: &[Option<&str>],
    constituents: &[&str],
) -> Block {
    Block {
        terms: terms.iter().map(|s| s.to_string()).collect(),
        values: values.iter().map(|s| vec![s.to_string()]).collect(),
        images: images.iter().map(|o| o.map(|s| s.to_string())).collect(),
        constituents: constituents.iter().map(|s| s.to_string()).collect(),
    }
}

#[test]
fn mismatched_counts_drop_unmatched_term() {
    let b = block(&["A:", "B:", "C:"], &["x", "y"], &[], &[]);
    let fields = extract(&b);
    assert_eq!(fields.entries.len(), 2);
    assert_eq!(fields.get("A"), Some("x".to_string()));
    assert_eq!(fields.get("B"), Some("y".to_string()));
    assert_eq!(fields.get("C"), None);
}

#[test]
fn mismatched_counts_drop_unmatched_value() {
    let b = block(&["A:"], &["x", "y", "z"], &[], &[]);
    let fields = extract(&b);
    assert_eq!(fields.entries.len(), 1);
    assert_eq!(fields.get("A"), Some("x".to_string()));
}

#[test]
fn constituent_last_marker_wins() {
    let b = block(&[], &[], &[], &["Constituent 1", "Constituent 2"]);
    let fields = extract(&b);
    assert_eq!(fields.entries.len(), 2);
    assert_eq!(fields.get("Constituent"), Some("Constituent 2".to_string()));
}

#[test]
fn term_trailing_colon_stripped_and_value_cleaned() {
    let b = block(&["EC Number:"], &["  201-000-0 \n"], &[], &[]);
    let fields = extract(&b);
    assert_eq!(fields.get("EC Number"), Some("201-000-0".to_string()));
}

#[test]
fn value_concatenates_text_nodes_and_strips_embedded_breaks() {
    let b = Block {
        terms: vec!["Molecular formula".to_string()],
        values: vec![vec!["  H2".to_string(), "\nO\t".to_string()]],
        images: vec![],
        constituents: vec![],
    };
    let fields = extract(&b);
    assert_eq!(fields.get("Molecular formula"), Some("H2O".to_string()));
}

#[test]
fn image_entry_holds_src_or_empty() {
    let with_src = block(&[], &[], &[Some("img/structure.png")], &[]);
    assert_eq!(
        extract(&with_src).get("Image link"),
        Some("img/structure.png".to_string())
    );
    let without_src = block(&[], &[], &[None], &[]);
    assert_eq!(extract(&without_src).get("Image link"), Some("".to_string()));
}

#[test]
fn insertion_overwrites_on_read() {
    let b = block(&["Name:"], &["from the block"], &[], &[]);
    let mut fields = extract(&b);
    assert_eq!(fields.get("Name"), Some("from the block".to_string()));
    fields.insert("Name".to_string(), "panel title".to_string());
    assert_eq!(fields.get("Name"), Some("panel title".to_string()));
}

#[test]
fn duplicate_terms_resolve_to_latest_pair() {
    let b = block(&["K:", "K:"], &["first", "second"], &[], &[]);
    let fields = extract(&b);
    assert_eq!(fields.entries.len(), 2);
    assert_eq!(fields.get("K"), Some("second".to_string()));
}
