//! The extraction engine: a stateful single pass that classifies the
//! composition area's nodes under the most recently announced subsection, and
//! the record builders that turn a block's fields into canonical [`Record`]s.
//!
//! An unrecognized header label keeps the previous running state and the scan
//! continues; it never ends the scan early.

use vstd::prelude::*;
use vstd::string::StringExecFns;
use crate::fields::{extract, lookup, raw_fields_spec, RawFields};
use crate::model::{Block, BlockV, Document, Node, NodeV};
use crate::record::{
    na, na_string, spec_subsection_of, subsection_label, Record, RecordV, Section, Subsection,
};
use crate::text::{
    chars_of, concat_all, eq_chars, remove_ch, remove_pat, remove_pattern, string_from_chars,
    strip_char, trim_chars, trim_spec, append_all,
};

verus! {

/// The failures that abort extraction: the document was never obtained, or
/// the fixed identification anchor is missing from the page.
#[derive(Debug, Copy, Clone, PartialEq, Eq, Structural)]
pub enum EchaError {
    DocumentUnavailable,
    StructuralAnchorMissing,
}

impl EchaError {
    /// A diagnostic naming the failing step.
    pub fn message(&self) -> (r: String)
        ensures
            self is DocumentUnavailable ==> r@ == "couldn't obtain html body"@,
            self is StructuralAnchorMissing ==> r@ == "problem obtaining identification html"@,
    {
        match self {
            EchaError::DocumentUnavailable => String::from_str("couldn't obtain html body"),
            EchaError::StructuralAnchorMissing => String::from_str(
                "problem obtaining identification html",
            ),
        }
    }
}

/// One text node of a header, cleaned: trimmed, then newlines and tabs removed.
pub open spec fn clean_text(s: Seq<char>) -> Seq<char> {
    remove_ch(remove_ch(trim_spec(s), '\n'), '\t')
}

/// A header's label: its text nodes cleaned and concatenated, with the
/// decorative substring `"open allclose all"` removed.
pub open spec fn header_label(texts: Seq<Seq<char>>) -> Seq<char> {
    remove_pat(concat_all(texts.map_values(|s: Seq<char>| clean_text(s))), "open allclose all"@)
}

/// The running state after a header: the parsed subsection on success, the
/// previous state when the label is unrecognized.
pub open spec fn next_state(state: Subsection, texts: Seq<Seq<char>>) -> Subsection {
    match spec_subsection_of(header_label(texts)) {
        Some(s) => s,
        None => state,
    }
}

/// A panel's title: its title text nodes trimmed and concatenated.
pub open spec fn panel_title(titles: Seq<Seq<char>>) -> Seq<char> {
    concat_all(titles.map_values(|s: Seq<char>| trim_spec(s)))
}

/// The indices, in document order, of the panels that the single
/// left-to-right scan starting at node `i` in running state `state` assigns
/// to `target`.
pub open spec fn selected_panels(
    nodes: Seq<NodeV>,
    i: int,
    state: Subsection,
    target: Subsection,
) -> Seq<int>
    decreases nodes.len() - i,
{
    if i < 0 || i >= nodes.len() {
        Seq::empty()
    } else {
        match nodes[i] {
            NodeV::Header { texts } => selected_panels(nodes, i + 1, next_state(state, texts), target),
            NodeV::Panel { .. } => {
                if state == target {
                    seq![i] + selected_panels(nodes, i + 1, state, target)
                } else {
                    selected_panels(nodes, i + 1, state, target)
                }
            },
        }
    }
}

/// A present value, or the `"N/A"` sentinel.
pub open spec fn or_na(o: Option<Seq<char>>) -> Seq<char> {
    match o {
        Some(s) => s,
        None => na(),
    }
}

/// The identification record built from a block's field list: name and
/// substance both copy the `"Display Name"` field, and every absent field
/// becomes the sentinel.
pub open spec fn identification_record_of(f: Seq<(Seq<char>, Seq<char>)>) -> RecordV {
    RecordV {
        idcoordinates2D: na(),
        FragFp: na(),
        id: na(),
        weblink: na(),
        structure: na(),
        section: "Identification"@,
        image: or_na(lookup(f, "Image link"@)),
        subsection: na(),
        name: or_na(lookup(f, "Display Name"@)),
        substance: or_na(lookup(f, "Display Name"@)),
        constitute: or_na(lookup(f, "Constituent"@)),
        ec: or_na(lookup(f, "EC Number"@)),
        cas: or_na(lookup(f, "CAS Number"@)),
        formula: or_na(lookup(f, "Molecular formula"@)),
        pubchem_cas: Seq::empty(),
    }
}

/// A composition record built from a block's field list (with the panel
/// title already inserted under `"Name"`), for the given subsection.
pub open spec fn composition_record_of(sub: Subsection, f: Seq<(Seq<char>, Seq<char>)>) -> RecordV {
    RecordV {
        idcoordinates2D: na(),
        FragFp: na(),
        id: na(),
        weblink: na(),
        structure: na(),
        section: "Composition(s)"@,
        image: or_na(lookup(f, "Image link"@)),
        subsection: subsection_label(sub),
        name: or_na(lookup(f, "Name"@)),
        substance: or_na(lookup(f, "Reference substance name"@)),
        constitute: or_na(lookup(f, "Constituent"@)),
        ec: or_na(lookup(f, "EC Number"@)),
        cas: or_na(lookup(f, "CAS Number"@)),
        formula: or_na(lookup(f, "Molecular formula"@)),
        pubchem_cas: Seq::empty(),
    }
}

/// The records of one panel: one composition record per block, in document
/// order, each with the panel's title inserted under `"Name"` after
/// extraction, overriding any extracted `"Name"` field.
pub open spec fn panel_records(sub: Subsection, titles: Seq<Seq<char>>, blocks: Seq<BlockV>) -> Seq<
    RecordV,
> {
    blocks.map_values(
        |b: BlockV| composition_record_of(sub, raw_fields_spec(b).push(("Name"@, panel_title(titles)))),
    )
}

/// The composition records emitted by the scan from node `i` in running
/// state `state`, filtered to `target`, in document order.
pub open spec fn comp_records(
    nodes: Seq<NodeV>,
    i: int,
    state: Subsection,
    target: Subsection,
) -> Seq<RecordV>
    decreases nodes.len() - i,
{
    if i < 0 || i >= nodes.len() {
        Seq::empty()
    } else {
        match nodes[i] {
            NodeV::Header { texts } => comp_records(nodes, i + 1, next_state(state, texts), target),
            NodeV::Panel { titles, blocks } => {
                if state == target {
                    panel_records(target, titles, blocks) + comp_records(nodes, i + 1, state, target)
                } else {
                    comp_records(nodes, i + 1, state, target)
                }
            },
        }
    }
}

/// The full record sequence of a section: exactly one identification record,
/// or the composition records of the panels assigned to the subsection.
pub open spec fn records_of(doc: crate::model::DocumentV, section: Section) -> Seq<RecordV>
    recommends
        section is Identification ==> doc.identification is Some,
{
    match section {
        Section::Identification => {
            match doc.identification {
                Some(b) => seq![identification_record_of(raw_fields_spec(b))],
                None => Seq::empty(),
            }
        },
        Section::Composition(sub) => comp_records(doc.nodes, 0, Subsection::Other, sub),
    }
}

/// A header's label, computed from its raw text nodes.
pub fn header_label_of(texts: &Vec<String>) -> (r: Vec<char>)
    ensures
        r@ == header_label(texts.deep_view()),
{
    let mut parts: Vec<Vec<char>> = Vec::new();
    let mut i: usize = 0;
    while i < texts.len()
        invariant
            i <= texts@.len(),
            parts@.len() == i,
            forall|j: int| 0 <= j < i ==> parts@[j]@ == clean_text(texts@[j]@),
        decreases texts@.len() - i,
    {
        let cs = chars_of(texts[i].as_str());
        let t = trim_chars(&cs);
        let no_nl = strip_char(&t, '\n');
        let cleaned = strip_char(&no_nl, '\t');
        parts.push(cleaned);
        i = i + 1;
    }
    proof {
        assert(parts.deep_view() =~~= texts.deep_view().map_values(
            |s: Seq<char>| clean_text(s),
        ));
    }
    let mut acc: Vec<char> = Vec::new();
    append_all(&mut acc, &parts);
    let pat = chars_of("open allclose all");
    proof {
        reveal_strlit("open allclose all");
    }
    remove_pattern(&acc, &pat)
}

/// A panel's title, computed from its raw title text nodes.
pub fn panel_title_of(titles: &Vec<String>) -> (r: String)
    ensures
        r@ == panel_title(titles.deep_view()),
{
    let mut parts: Vec<Vec<char>> = Vec::new();
    let mut i: usize = 0;
    while i < titles.len()
        invariant
            i <= titles@.len(),
            parts@.len() == i,
            forall|j: int| 0 <= j < i ==> parts@[j]@ == trim_spec(titles@[j]@),
        decreases titles@.len() - i,
    {
        let cs = chars_of(titles[i].as_str());
        parts.push(trim_chars(&cs));
        i = i + 1;
    }
    proof {
        assert(parts.deep_view() =~~= titles.deep_view().map_values(
            |s: Seq<char>| trim_spec(s),
        ));
    }
    let mut acc: Vec<char> = Vec::new();
    append_all(&mut acc, &parts);
    string_from_chars(&acc)
}

/// Parses a cleaned header label into a subsection.
pub fn subsection_of_chars(cs: &Vec<char>) -> (r: Option<Subsection>)
    ensures
        r == spec_subsection_of(cs@),
{
    if eq_chars(cs, &chars_of("Boundary Composition(s)")) {
        Some(Subsection::Boundary)
    } else if eq_chars(cs, &chars_of("Legal Entity Composition(s)")) {
        Some(Subsection::LegalEntity)
    } else if eq_chars(cs, &chars_of("Composition(s) generated upon use")) {
        Some(Subsection::Generated)
    } else if eq_chars(cs, &chars_of("Other types of composition(s)")) {
        Some(Subsection::Other)
    } else {
        None
    }
}

/// A present field value, or the `"N/A"` sentinel string.
fn unwrap_or_na(o: Option<String>) -> (r: String)
    ensures
        r@ == or_na(o.deep_view()),
{
    match o {
        Some(s) => s,
        None => na_string(),
    }
}

/// Builds the identification record from an extracted field mapping.
pub fn build_identification(fields: &RawFields) -> (r: Record)
    ensures
        r@ == identification_record_of(fields@),
{
    Record {
        idcoordinates2D: na_string(),
        FragFp: na_string(),
        id: na_string(),
        weblink: na_string(),
        structure: na_string(),
        section: String::from_str("Identification"),
        image: unwrap_or_na(fields.get("Image link")),
        subsection: na_string(),
        name: unwrap_or_na(fields.get("Display Name")),
        substance: unwrap_or_na(fields.get("Display Name")),
        constitute: unwrap_or_na(fields.get("Constituent")),
        ec: unwrap_or_na(fields.get("EC Number")),
        cas: unwrap_or_na(fields.get("CAS Number")),
        formula: unwrap_or_na(fields.get("Molecular formula")),
        pubchem_cas: String::new(),
    }
}

/// Builds one composition record from a field mapping that already holds the
/// panel title under `"Name"`.
pub fn build_composition(sub: Subsection, fields: &RawFields) -> (r: Record)
    ensures
        r@ == composition_record_of(sub, fields@),
{
    Record {
        idcoordinates2D: na_string(),
        FragFp: na_string(),
        id: na_string(),
        weblink: na_string(),
        structure: na_string(),
        section: String::from_str("Composition(s)"),
        image: unwrap_or_na(fields.get("Image link")),
        subsection: sub.label(),
        name: unwrap_or_na(fields.get("Name")),
        substance: unwrap_or_na(fields.get("Reference substance name")),
        constitute: unwrap_or_na(fields.get("Constituent")),
        ec: unwrap_or_na(fields.get("EC Number")),
        cas: unwrap_or_na(fields.get("CAS Number")),
        formula: unwrap_or_na(fields.get("Molecular formula")),
        pubchem_cas: String::new(),
    }
}

/// Classifies the composition area: one left-to-right scan, starting in the
/// `Other` state, that assigns each panel to the most recently announced
/// subsection; returns the indices of the panels assigned to `target`, in
/// document order. Header nodes are never emitted.
pub fn classify(nodes: &Vec<Node>, target: Subsection) -> (r: Vec<usize>)
    ensures
        r@.map_values(|u: usize| u as int) == selected_panels(
            nodes.deep_view(),
            0,
            Subsection::Other,
            target,
        ),
        forall|k: int|
            0 <= k < r@.len() ==> r@[k] < nodes.deep_view().len() && nodes.deep_view()[r@[k] as int]
                is Panel,
{
    let ghost ndv = nodes.deep_view();
    let ghost full = selected_panels(ndv, 0, Subsection::Other, target);
    let mut out: Vec<usize> = Vec::new();
    let mut state = Subsection::Other;
    let mut i: usize = 0;
    proof {
        assert(out@.map_values(|u: usize| u as int) =~= Seq::<int>::empty());
        assert(Seq::<int>::empty() + full =~= full);
    }
    while i < nodes.len()
        invariant
            ndv == nodes.deep_view(),
            full == selected_panels(ndv, 0, Subsection::Other, target),
            i <= ndv.len(),
            out@.map_values(|u: usize| u as int) + selected_panels(ndv, i as int, state, target)
                == full,
            forall|k: int| 0 <= k < out@.len() ==> out@[k] < ndv.len() && ndv[out@[k] as int] is Panel,
        decreases ndv.len() - i,
    {
        let ghost i0 = i as int;
        let ghost st0 = state;
        let ghost om0 = out@.map_values(|u: usize| u as int);
        proof {
            assert(ndv[i0] == nodes@[i0]@);
        }
        match &nodes[i] {
            Node::Header { texts } => {
                let label = header_label_of(texts);
                match subsection_of_chars(&label) {
                    Some(s) => {
                        state = s;
                    },
                    None => {},
                }
                proof {
                    assert(state == next_state(st0, texts.deep_view()));
                    assert(selected_panels(ndv, i0, st0, target) == selected_panels(
                        ndv,
                        i0 + 1,
                        state,
                        target,
                    ));
                }
            },
            Node::Panel { .. } => {
                if state == target {
                    out.push(i);
                    proof {
                        assert(out@.map_values(|u: usize| u as int) =~= om0.push(i0));
                        assert(om0 + (seq![i0] + selected_panels(ndv, i0 + 1, st0, target))
                            =~= om0.push(i0) + selected_panels(ndv, i0 + 1, st0, target));
                    }
                }
            },
        }
        i = i + 1;
    }
    proof {
        assert(out@.map_values(|u: usize| u as int) + Seq::<int>::empty() =~= out@.map_values(
            |u: usize| u as int,
        ));
    }
    out
}

/// The records of the panels at the given indices, in order: each panel's
/// blocks become one record each; a non-panel index contributes nothing.
pub open spec fn records_of_panels(nodes: Seq<NodeV>, idxs: Seq<int>, target: Subsection) -> Seq<
    RecordV,
>
    decreases idxs.len(),
{
    if idxs.len() == 0 {
        Seq::empty()
    } else {
        let rest = records_of_panels(nodes, idxs.drop_first(), target);
        match nodes[idxs[0]] {
            NodeV::Panel { titles, blocks } => panel_records(target, titles, blocks) + rest,
            NodeV::Header { .. } => rest,
        }
    }
}

/// The classifier and the record builder agree: building records for
/// exactly the panels that the scan assigns to `target`, in the order the
/// classifier emits them, yields the same sequence as the single combined
/// pass.
pub proof fn lemma_classifier_builder_agree(
    nodes: Seq<NodeV>,
    i: int,
    state: Subsection,
    target: Subsection,
)
    ensures
        comp_records(nodes, i, state, target) == records_of_panels(
            nodes,
            selected_panels(nodes, i, state, target),
            target,
        ),
    decreases nodes.len() - i,
{
    if i < 0 || i >= nodes.len() {
    } else {
        match nodes[i] {
            NodeV::Header { texts } => {
                lemma_classifier_builder_agree(nodes, i + 1, next_state(state, texts), target);
            },
            NodeV::Panel { titles, blocks } => {
                lemma_classifier_builder_agree(nodes, i + 1, state, target);
                if state == target {
                    let sel = selected_panels(nodes, i + 1, state, target);
                    assert((seq![i] + sel).drop_first() =~= sel);
                    assert((seq![i] + sel)[0] == i);
                }
            },
        }
    }
}

/// An unrecognized header label keeps the previous running state and the
/// scan continues: the panels and records that follow it — among them those
/// of a later, valid subsection header — are classified exactly as if the
/// unrecognized header were not there.
pub proof fn lemma_unknown_header_continues(
    nodes: Seq<NodeV>,
    i: int,
    state: Subsection,
    target: Subsection,
)
    requires
        0 <= i < nodes.len(),
        nodes[i] is Header,
        spec_subsection_of(header_label(nodes[i]->Header_texts)) is None,
    ensures
        selected_panels(nodes, i, state, target) == selected_panels(nodes, i + 1, state, target),
        comp_records(nodes, i, state, target) == comp_records(nodes, i + 1, state, target),
{
    assert(next_state(state, nodes[i]->Header_texts) == state);
}

/// The labels, from node `i` on and in document order, of the headers that
/// parse to no subsection: the anomalies that the scan flags while it keeps
/// its running state and continues.
pub open spec fn unknown_labels(nodes: Seq<NodeV>, i: int) -> Seq<Seq<char>>
    decreases nodes.len() - i,
{
    if i < 0 || i >= nodes.len() {
        Seq::empty()
    } else {
        match nodes[i] {
            NodeV::Header { texts } => {
                if spec_subsection_of(header_label(texts)) is None {
                    seq![header_label(texts)] + unknown_labels(nodes, i + 1)
                } else {
                    unknown_labels(nodes, i + 1)
                }
            },
            NodeV::Panel { .. } => unknown_labels(nodes, i + 1),
        }
    }
}

/// Flags the anomalies of one scan: the cleaned labels of the headers that
/// name no known subsection, in document order. The scan itself keeps its
/// running state at such a header and continues.
pub fn unrecognized_headers(nodes: &Vec<Node>) -> (r: Vec<String>)
    ensures
        r.deep_view() == unknown_labels(nodes.deep_view(), 0),
{
    let ghost ndv = nodes.deep_view();
    let ghost full = unknown_labels(ndv, 0);
    let mut out: Vec<String> = Vec::new();
    let mut i: usize = 0;
    proof {
        assert(out.deep_view() =~= Seq::<Seq<char>>::empty());
        assert(Seq::<Seq<char>>::empty() + full =~= full);
    }
    while i < nodes.len()
        invariant
            ndv == nodes.deep_view(),
            full == unknown_labels(ndv, 0),
            i <= ndv.len(),
            out.deep_view() + unknown_labels(ndv, i as int) == full,
        decreases ndv.len() - i,
    {
        let ghost i0 = i as int;
        proof {
            assert(ndv[i0] == nodes@[i0]@);
        }
        match &nodes[i] {
            Node::Header { texts } => {
                let label = header_label_of(texts);
                if subsection_of_chars(&label).is_none() {
                    let ghost pre = out.deep_view();
                    let s = string_from_chars(&label);
                    out.push(s);
                    proof {
                        assert(out.deep_view() =~= pre.push(header_label(texts.deep_view())));
                        assert(pre + (seq![header_label(texts.deep_view())] + unknown_labels(
                            ndv,
                            i0 + 1,
                        )) =~= pre.push(header_label(texts.deep_view())) + unknown_labels(
                            ndv,
                            i0 + 1,
                        ));
                    }
                }
            },
            Node::Panel { .. } => {},
        }
        i = i + 1;
    }
    proof {
        assert(out.deep_view() + Seq::<Seq<char>>::empty() =~= out.deep_view());
    }
    out
}

/// Builds the composition records of one subsection: the stateful single
/// pass of [`classify`], with one record per block of each selected panel.
pub fn compositions_data(nodes: &Vec<Node>, target: Subsection) -> (r: Vec<Record>)
    ensures
        r.deep_view() == comp_records(nodes.deep_view(), 0, Subsection::Other, target),
{
    let ghost ndv = nodes.deep_view();
    let ghost full = comp_records(ndv, 0, Subsection::Other, target);
    let mut out: Vec<Record> = Vec::new();
    let mut state = Subsection::Other;
    let mut i: usize = 0;
    proof {
        assert(out.deep_view() =~= Seq::<RecordV>::empty());
        assert(Seq::<RecordV>::empty() + full =~= full);
    }
    while i < nodes.len()
        invariant
            ndv == nodes.deep_view(),
            full == comp_records(ndv, 0, Subsection::Other, target),
            i <= ndv.len(),
            out.deep_view() + comp_records(ndv, i as int, state, target) == full,
        decreases ndv.len() - i,
    {
        let ghost i0 = i as int;
        let ghost st0 = state;
        let ghost before = out.deep_view();
        proof {
            assert(ndv[i0] == nodes@[i0]@);
        }
        match &nodes[i] {
            Node::Header { texts } => {
                let label = header_label_of(texts);
                match subsection_of_chars(&label) {
                    Some(s) => {
                        state = s;
                    },
                    None => {},
                }
                proof {
                    assert(state == next_state(st0, texts.deep_view()));
                    assert(comp_records(ndv, i0, st0, target) == comp_records(
                        ndv,
                        i0 + 1,
                        state,
                        target,
                    ));
                }
            },
            Node::Panel { titles, blocks } => {
                if state == target {
                    let ghost prs = panel_records(target, titles.deep_view(), blocks.deep_view());
                    let title = panel_title_of(titles);
                    let mut bi: usize = 0;
                    proof {
                        assert(prs.subrange(0, 0) =~= Seq::<RecordV>::empty());
                        assert(before + Seq::<RecordV>::empty() =~= before);
                    }
                    while bi < blocks.len()
                        invariant
                            bi <= blocks@.len(),
                            blocks@.len() == blocks.deep_view().len(),
                            prs == panel_records(target, titles.deep_view(), blocks.deep_view()),
                            title@ == panel_title(titles.deep_view()),
                            out.deep_view() == before + prs.subrange(0, bi as int),
                        decreases blocks@.len() - bi,
                    {
                        let mut f = extract(&blocks[bi]);
                        f.insert(String::from_str("Name"), title.clone());
                        let rec = build_composition(target, &f);
                        proof {
                            assert(blocks.deep_view()[bi as int] == blocks@[bi as int]@);
                            assert(rec@ == prs[bi as int]);
                        }
                        let ghost pre = out.deep_view();
                        let ghost recv = rec@;
                        out.push(rec);
                        bi = bi + 1;
                        proof {
                            assert(out.deep_view() =~= pre.push(recv));
                            assert(pre.push(recv) =~= before + prs.subrange(0, bi as int));
                        }
                    }
                    proof {
                        assert(prs.subrange(0, blocks.deep_view().len() as int) =~= prs);
                        assert(comp_records(ndv, i0, st0, target) == prs + comp_records(
                            ndv,
                            i0 + 1,
                            st0,
                            target,
                        ));
                        assert((before + prs) + comp_records(ndv, i0 + 1, st0, target) =~= before
                            + (prs + comp_records(ndv, i0 + 1, st0, target)));
                    }
                }
            },
        }
        i = i + 1;
    }
    proof {
        assert(out.deep_view() + Seq::<RecordV>::empty() =~= out.deep_view());
    }
    out
}

/// Builds the single identification record from the block anchored to the
/// identification marker.
pub fn identification_data(block: &Block) -> (r: Vec<Record>)
    ensures
        r.deep_view() == seq![identification_record_of(raw_fields_spec(block@))],
{
    let fields = extract(block);
    let rec = build_identification(&fields);
    let mut out: Vec<Record> = Vec::new();
    out.push(rec);
    proof {
        assert(out.deep_view() =~= seq![identification_record_of(raw_fields_spec(block@))]);
    }
    out
}

/// Extracts the records of one section from a parsed document.
///
/// For the identification section this locates the fixed structural anchor
/// block; its absence is the fatal `StructuralAnchorMissing` error. A
/// composition section always succeeds, with one record per block of each
/// panel assigned to the subsection, in document order.
pub fn data_from(document: &Document, section: Section) -> (r: Result<Vec<Record>, EchaError>)
    ensures
        match section {
            Section::Identification => match document@.identification {
                Some(b) => r is Ok && r->Ok_0.deep_view() == records_of(document@, section),
                None => r == Result::<Vec<Record>, EchaError>::Err(
                    EchaError::StructuralAnchorMissing,
                ),
            },
            Section::Composition(sub) => r is Ok && r->Ok_0.deep_view() == records_of(
                document@,
                section,
            ),
        },
{
    match section {
        Section::Identification => {
            match &document.identification {
                Some(block) => Ok(identification_data(block)),
                None => Err(EchaError::StructuralAnchorMissing),
            }
        },
        Section::Composition(sub) => Ok(compositions_data(&document.nodes, sub)),
    }
}

} // verus!
