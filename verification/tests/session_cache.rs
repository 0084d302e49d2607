use scrapper::{Block, Document, EchaError, EchaSite, Node, Section, Subsection};

fn one_panel_document() -> Document {
    Document {
        identification: Some(Block {
            terms: vec!["EC Number:".to_string()],
            values: vec![vec!["200-001-8".to_string()]],
            images: vec![],
            constituents: vec![],
        }),
        nodes: vec![
            Node::Header { texts: vec!["Boundary Composition(s)".to_string()] },
            Node::Panel {
                titles: vec!["Panel".to_string()],
                blocks: vec![Block {
                    terms: vec![],
                    values: vec![],
                    images: vec![],
                    constituents: vec![],
                }],
            },
        ],
    }
}

#[test]
fn repeated_get_is_identical_and_scans_once() {
    let mut echa = EchaSite::from_document("u", Some(one_panel_document()));
    assert_eq!(echa.scans(), 0);
    let first = echa.get_constituents(Section::Identification).unwrap();
    assert_eq!(echa.scans(), 1);
    let second = echa.get_constituents(Section::Identification).unwrap();
    assert_eq!(echa.scans(), 1);
    assert_eq!(first, second);
    let third = echa.get_constituents(Section::Identification).unwrap();
    assert_eq!(echa.scans(), 1);
    assert_eq!(first, third);
}

#[test]
fn distinct_sections_are_scanned_separately() {
    let mut echa = EchaSite::from_document("u", Some(one_panel_document()));
    echa.get_constituents(Section::Identification).unwrap();
    assert_eq!(echa.scans(), 1);
    echa.get_constituents(Section::Composition(Subsection::Boundary))
        .unwrap();
    assert_eq!(echa.scans(), 2);
    echa.get_constituents(Section::Composition(Subsection::Boundary))
        .unwrap();
    assert_eq!(echa.scans(), 2);
}

#[test]
fn missing_document_is_a_deferred_fatal_error() {
    let mut echa = EchaSite::new("https://example.invalid/x/42", None);
    let err = echa
        .get_constituents(Section::Identification)
        .unwrap_err();
    assert_eq!(err, EchaError::DocumentUnavailable);
    assert_eq!(err.message(), "couldn't obtain html body");
    assert_eq!(echa.scans(), 0);
}

#[test]
fn missing_identification_anchor_is_a_structural_error() {
    let document = Document { identification: None, nodes: vec![] };
    let mut echa = EchaSite::from_document("u", Some(document));
    let err = echa
        .get_constituents(Section::Identification)
        .unwrap_err();
    assert_eq!(err, EchaError::StructuralAnchorMissing);
    assert_eq!(err.message(), "problem obtaining identification html");
    let boundary = echa
        .get_constituents(Section::Composition(Subsection::Boundary))
        .unwrap();
    assert_eq!(boundary.len(), 0);
}

#[test]
fn url_is_kept() {
    let echa = EchaSite::from_document("https://example.invalid/dossier/24529", None);
    assert_eq!(echa.url(), "https://example.invalid/dossier/24529");
}
