use scrapper::{EchaSite, Section, Subsection};

fn page() -> String {
    [
        "<html><body>",
        "<div id=\"sIdentification\"></div>",
        "<div class=\"sBlock\">",
        "<dl>",
        "<dt>Display Name:</dt><dd>water</dd>",
        "<dt>EC Number:</dt><dd> 231-791-2 </dd>",
        "<dt>CAS Number:</dt><dd>7732-18-5</dd>",
        "<dt>Molecular formula:</dt><dd>H2O</dd>",
        "</dl>",
        "<img src=\"img/structure.png\">",
        "</div>",
        "<div class=\"panel-group\">",
        "<h4>Boundary Composition(s)open allclose all</h4>",
        "<div class=\"panel panel-default\">",
        "<h4 class=\"panel-title\"> Boundary panel </h4>",
        "<div class=\"sBlock\">",
        "<h5>Constituent 1</h5>",
        "<dl><dt>Reference substance name:</dt><dd>oxidane</dd>",
        "<dt>EC Number:</dt><dd>231-791-2</dd></dl>",
        "</div>",
        "<div class=\"sBlock\">",
        "<h5>Constituent 2</h5>",
        "<dl><dt>Reference substance name:</dt><dd>heavy water</dd></dl>",
        "</div>",
        "</div>",
        "<h4>Legal Entity Composition(s)</h4>",
        "<div class=\"panel panel-default\">",
        "<h4 class=\"panel-title\">Legal panel</h4>",
        "<div class=\"sBlock\">",
        "<dl><dt>CAS Number:</dt><dd>7732-18-5</dd></dl>",
        "</div>",
        "</div>",
        "</div>",
        "</body></html>",
    ]
    .concat()
}

#[test]
fn html_identification_is_extracted() {
    let html = page();
    let mut echa = EchaSite::new("https://example.invalid/dossier/24529", Some(&html));
    let records = echa.get_constituents(Section::Identification).unwrap();
    assert_eq!(records.len(), 1);
    let r = &records[0];
    assert_eq!(r.name, "water");
    assert_eq!(r.substance, "water");
    assert_eq!(r.ec, "231-791-2");
    assert_eq!(r.cas, "7732-18-5");
    assert_eq!(r.formula, "H2O");
    assert_eq!(r.image, "img/structure.png");
}

#[test]
fn html_boundary_panel_records() {
    let html = page();
    let mut echa = EchaSite::new("u", Some(&html));
    let records = echa
        .get_constituents(Section::Composition(Subsection::Boundary))
        .unwrap();
    assert_eq!(records.len(), 2);
    assert_eq!(records[0].name, "Boundary panel");
    assert_eq!(records[0].subsection, "Boundary Composition(s)");
    assert_eq!(records[0].substance, "oxidane");
    assert_eq!(records[0].constitute, "Constituent 1");
    assert_eq!(records[1].substance, "heavy water");
    assert_eq!(records[1].constitute, "Constituent 2");
}

#[test]
fn html_legal_entity_panel_records() {
    let html = page();
    let mut echa = EchaSite::new("u", Some(&html));
    let records = echa
        .get_constituents(Section::Composition(Subsection::LegalEntity))
        .unwrap();
    assert_eq!(records.len(), 1);
    assert_eq!(records[0].name, "Legal panel");
    assert_eq!(records[0].cas, "7732-18-5");
    assert_eq!(records[0].substance, "N/A");
}

#[test]
fn one_body_parses_to_one_document() {
    let html = page();
    let mut first = EchaSite::new("u", Some(&html));
    let mut second = EchaSite::new("u", Some(&html));
    for section in [
        Section::Identification,
        Section::Composition(Subsection::Boundary),
        Section::Composition(Subsection::LegalEntity),
        Section::Composition(Subsection::Generated),
        Section::Composition(Subsection::Other),
    ] {
        assert_eq!(
            first.get_constituents(section).unwrap(),
            second.get_constituents(section).unwrap()
        );
    }
}

#[test]
fn html_without_identification_anchor_errors() {
    let html = "<html><body><p>nothing here</p></body></html>";
    let mut echa = EchaSite::new("u", Some(html));
    assert!(echa.get_constituents(Section::Identification).is_err());
}
