use scrapper::{record_to_tsv, split_tsv, Record};

fn sample_record() -> Record {
    Record {
        idcoordinates2D: "N/A".to_string(),
        FragFp: "N/A".to_string(),
        id: "N/A".to_string(),
        weblink: "N/A".to_string(),
        structure: "N/A".to_string(),
        section: "Composition(s)".to_string(),
        image: "img/x.png".to_string(),
        subsection: "Boundary Composition(s)".to_string(),
        name: "Panel".to_string(),
        substance: "oxidane".to_string(),
        constitute: "Constituent 1".to_string(),
        ec: "200-001-8".to_string(),
        cas: "7732-18-5".to_string(),
        formula: "H2O".to_string(),
        pubchem_cas: "".to_string(),
    }
}

#[test]
fn tsv_line_has_expected_columns() {
    let line = record_to_tsv(&sample_record());
    assert_eq!(
        line,
        "N/A\tN/A\tN/A\tN/A\tComposition(s)\timg/x.png\tBoundary Composition(s)\tPanel\toxidane\tConstituent 1\t200-001-8\t7732-18-5\t"
    );
}

#[test]
fn tsv_round_trip_restores_fields() {
    let r = sample_record();
    let line = record_to_tsv(&r);
    let fields = split_tsv(&line);
    assert_eq!(fields.len(), 13);
    assert_eq!(fields[0], r.idcoordinates2D);
    assert_eq!(fields[1], r.FragFp);
    assert_eq!(fields[2], r.id);
    assert_eq!(fields[3], r.weblink);
    assert_eq!(fields[4], r.section);
    assert_eq!(fields[5], r.image);
    assert_eq!(fields[6], r.subsection);
    assert_eq!(fields[7], r.name);
    assert_eq!(fields[8], r.substance);
    assert_eq!(fields[9], r.constitute);
    assert_eq!(fields[10], r.ec);
    assert_eq!(fields[11], r.cas);
    assert_eq!(fields[12], r.pubchem_cas);
}

#[test]
fn split_keeps_empty_fields() {
    let fields = split_tsv("a\tb\t\tc");
    assert_eq!(fields, vec!["a", "b", "", "c"]);
    assert_eq!(split_tsv(""), vec![""]);
}
