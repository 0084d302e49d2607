use scrapper::{Block, Document, EchaSite, Node, Section, Subsection};

const NA: &str = "N/A";

fn simple_block(pairs: &[(&str, &str)]) -> Block {
    Block {
        terms: pairs.iter().map(|(k, _)| format!("{k}:")).collect(),
        values: pairs.iter().map(|(_, v)| vec![v.to_string()]).collect(),
        images: vec![],
        constituents: vec![],
    }
}

fn header(text: &str) -> Node {
    Node::Header { texts: vec![text.to_string()] }
}

fn panel(title: &str, blocks: Vec<Block>) -> Node {
    Node::Panel { titles: vec![title.to_string()], blocks }
}

fn site(document: Document) -> EchaSite {
    EchaSite::from_document("https://example.invalid/dossier/1", Some(document))
}

#[test]
fn identification_record_fields() {
    let document = Document {
        identification: Some(simple_block(&[
            ("EC Number", "201-000-0"),
            ("CAS Number", "1-2-3"),
            ("Molecular formula", "H2O"),
        ])),
        nodes: vec![],
    };
    let mut echa = site(document);
    let records = echa.get_constituents(Section::Identification).unwrap();
    assert_eq!(records.len(), 1);
    let r = &records[0];
    assert_eq!(r.ec, "201-000-0");
    assert_eq!(r.cas, "1-2-3");
    assert_eq!(r.formula, "H2O");
    assert_eq!(r.image, NA);
    assert_eq!(r.constitute, NA);
    assert_eq!(r.name, NA);
    assert_eq!(r.substance, NA);
    assert_eq!(r.section, "Identification");
    assert_eq!(r.subsection, NA);
    assert_eq!(r.weblink, NA);
    assert_eq!(r.pubchem_cas, "");
}

#[test]
fn identification_display_name_copied_to_name_and_substance() {
    let document = Document {
        identification: Some(simple_block(&[("Display Name", "water")])),
        nodes: vec![],
    };
    let mut echa = site(document);
    let records = echa.get_constituents(Section::Identification).unwrap();
    assert_eq!(records[0].name, "water");
    assert_eq!(records[0].substance, "water");
}

#[test]
fn boundary_header_with_two_panels_yields_two_records_in_order() {
    let document = Document {
        identification: None,
        nodes: vec![
            header("Boundary Composition(s)"),
            panel("First panel", vec![simple_block(&[("EC Number", "1")])]),
            panel("Second panel", vec![simple_block(&[("EC Number", "2")])]),
        ],
    };
    let mut echa = site(document);
    let records = echa
        .get_constituents(Section::Composition(Subsection::Boundary))
        .unwrap();
    assert_eq!(records.len(), 2);
    assert_eq!(records[0].subsection, "Boundary Composition(s)");
    assert_eq!(records[1].subsection, "Boundary Composition(s)");
    assert_eq!(records[0].name, "First panel");
    assert_eq!(records[1].name, "Second panel");
    assert_eq!(records[0].ec, "1");
    assert_eq!(records[1].ec, "2");
    assert_eq!(records[0].section, "Composition(s)");
}

#[test]
fn unknown_header_does_not_lose_later_valid_subsection() {
    let document = Document {
        identification: None,
        nodes: vec![
            header("Some Unrecognized Heading"),
            header("Legal Entity Composition(s)"),
            panel("Legal panel", vec![simple_block(&[("CAS Number", "7")])]),
        ],
    };
    let mut echa = site(document);
    let records = echa
        .get_constituents(Section::Composition(Subsection::LegalEntity))
        .unwrap();
    assert_eq!(records.len(), 1);
    assert_eq!(records[0].subsection, "Legal Entity Composition(s)");
    assert_eq!(records[0].cas, "7");
}

#[test]
fn unknown_header_keeps_previous_state() {
    let document = Document {
        identification: None,
        nodes: vec![
            header("Boundary Composition(s)"),
            panel("P1", vec![simple_block(&[])]),
            header("Mystery"),
            panel("P2", vec![simple_block(&[])]),
        ],
    };
    let mut echa = site(document);
    let records = echa
        .get_constituents(Section::Composition(Subsection::Boundary))
        .unwrap();
    assert_eq!(records.len(), 2);
    assert_eq!(records[0].name, "P1");
    assert_eq!(records[1].name, "P2");
}

#[test]
fn panels_before_any_header_belong_to_other() {
    let document = Document {
        identification: None,
        nodes: vec![
            panel("Untagged", vec![simple_block(&[])]),
            header("Boundary Composition(s)"),
            panel("Tagged", vec![simple_block(&[])]),
        ],
    };
    let mut echa = site(document);
    let other = echa
        .get_constituents(Section::Composition(Subsection::Other))
        .unwrap();
    assert_eq!(other.len(), 1);
    assert_eq!(other[0].name, "Untagged");
    assert_eq!(other[0].subsection, "Other types of composition(s)");
}

#[test]
fn decorated_header_text_is_recognized() {
    let document = Document {
        identification: None,
        nodes: vec![
            Node::Header {
                texts: vec![
                    "  Boundary Composition(s)".to_string(),
                    "open allclose all\n".to_string(),
                ],
            },
            panel("Decorated", vec![simple_block(&[])]),
        ],
    };
    let mut echa = site(document);
    let records = echa
        .get_constituents(Section::Composition(Subsection::Boundary))
        .unwrap();
    assert_eq!(records.len(), 1);
}

#[test]
fn panel_title_overrides_extracted_name() {
    let document = Document {
        identification: None,
        nodes: vec![
            header("Boundary Composition(s)"),
            panel("Outer title", vec![simple_block(&[("Name", "inner name")])]),
        ],
    };
    let mut echa = site(document);
    let records = echa
        .get_constituents(Section::Composition(Subsection::Boundary))
        .unwrap();
    assert_eq!(records[0].name, "Outer title");
}

#[test]
fn reference_substance_and_constituent_fields() {
    let b = Block {
        terms: vec!["Reference substance name:".to_string()],
        values: vec![vec!["oxidane".to_string()]],
        images: vec![Some("img/x.png".to_string())],
        constituents: vec!["Constituent 1".to_string()],
    };
    let document = Document {
        identification: None,
        nodes: vec![header("Boundary Composition(s)"), panel("T", vec![b])],
    };
    let mut echa = site(document);
    let records = echa
        .get_constituents(Section::Composition(Subsection::Boundary))
        .unwrap();
    assert_eq!(records[0].substance, "oxidane");
    assert_eq!(records[0].constitute, "Constituent 1");
    assert_eq!(records[0].image, "img/x.png");
}

#[test]
fn empty_title_anchor_gives_empty_name() {
    let document = Document {
        identification: None,
        nodes: vec![
            header("Boundary Composition(s)"),
            Node::Panel { titles: vec![], blocks: vec![simple_block(&[])] },
        ],
    };
    let mut echa = site(document);
    let records = echa
        .get_constituents(Section::Composition(Subsection::Boundary))
        .unwrap();
    assert_eq!(records[0].name, "");
}

#[test]
fn subsection_labels_parse_exactly() {
    assert_eq!(
        Subsection::from_str("Boundary Composition(s)"),
        Ok(Subsection::Boundary)
    );
    assert_eq!(
        Subsection::from_str("Legal Entity Composition(s)"),
        Ok(Subsection::LegalEntity)
    );
    assert_eq!(
        Subsection::from_str("Composition(s) generated upon use"),
        Ok(Subsection::Generated)
    );
    assert_eq!(
        Subsection::from_str("Other types of composition(s)"),
        Ok(Subsection::Other)
    );
    assert!(Subsection::from_str("Boundary Composition").is_err());
    assert!(Subsection::from_str(" Boundary Composition(s)").is_err());
    assert!(Subsection::from_str("").is_err());
}

#[test]
fn subsection_parse_error_names_the_input() {
    assert_eq!(
        Subsection::from_str("Mystery").unwrap_err(),
        "Couldn't parse Mystery to Subsection Enum"
    );
}

#[test]
fn unrecognized_headers_are_flagged() {
    let document = Document {
        identification: None,
        nodes: vec![
            header("Boundary Composition(s)"),
            panel("P", vec![simple_block(&[])]),
            header(" Mystery heading \t"),
            header("Legal Entity Composition(s)"),
        ],
    };
    let echa = site(document);
    assert_eq!(echa.unrecognized_headers(), vec!["Mystery heading"]);
    let empty = EchaSite::from_document("u", None);
    assert_eq!(empty.unrecognized_headers(), Vec::<String>::new());
}

#[test]
fn section_labels_render() {
    assert_eq!(Section::Identification.label(), "Identification");
    assert_eq!(
        Section::Composition(Subsection::Generated).label(),
        "Composition(s) generated upon use"
    );
}
