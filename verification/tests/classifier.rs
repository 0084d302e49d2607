use scrapper::engine::{classify, data_from};
use scrapper::{Block, Document, EchaError, Node, Section, Subsection};

fn empty_block() -> Block {
    Block { terms: vec![], values: vec![], images: vec![], constituents: vec![] }
}

fn header(text: &str) -> Node {
    Node::Header { texts: vec![text.to_string()] }
}

fn panel() -> Node {
    Node::Panel { titles: vec![], blocks: vec![empty_block()] }
}

#[test]
fn classify_selects_panels_of_the_announced_subsection() {
    let nodes = vec![
        header("Boundary Composition(s)"),
        panel(),
        header("Legal Entity Composition(s)"),
        panel(),
        panel(),
    ];
    assert_eq!(classify(&nodes, Subsection::Boundary), vec![1]);
    assert_eq!(classify(&nodes, Subsection::LegalEntity), vec![3, 4]);
    assert_eq!(classify(&nodes, Subsection::Other), Vec::<usize>::new());
    assert_eq!(classify(&nodes, Subsection::Generated), Vec::<usize>::new());
}

#[test]
fn classify_never_emits_header_nodes() {
    let nodes = vec![header("Boundary Composition(s)"), header("Boundary Composition(s)")];
    assert_eq!(classify(&nodes, Subsection::Boundary), Vec::<usize>::new());
}

#[test]
fn data_from_reports_missing_anchor() {
    let document = Document { identification: None, nodes: vec![] };
    assert_eq!(
        data_from(&document, Section::Identification).unwrap_err(),
        EchaError::StructuralAnchorMissing
    );
}

#[test]
fn data_from_generated_section_succeeds_on_empty_document() {
    let document = Document { identification: None, nodes: vec![] };
    let records = data_from(&document, Section::Composition(Subsection::Generated)).unwrap();
    assert!(records.is_empty());
}
