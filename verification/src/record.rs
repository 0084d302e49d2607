//! The canonical output entity [`Record`] and the section taxonomy
//! ([`Section`], [`Subsection`]) with their label parsing and rendering.

use vstd::prelude::*;
use vstd::string::StringExecFns;
use crate::text::{chars_of, eq_chars};

verus! {

/// The subsections of the composition section.
#[derive(Debug, Copy, Clone, PartialOrd, PartialEq, Eq, Hash, Structural)]
pub enum Subsection {
    Boundary,
    LegalEntity,
    Generated,
    Other,
}

/// The sections of a dossier page.
#[derive(Debug, Copy, Clone, PartialOrd, PartialEq, Eq, Hash, Structural)]
pub enum Section {
    Identification,
    Composition(Subsection),
}

/// The exact header label of each subsection.
pub open spec fn subsection_label(s: Subsection) -> Seq<char> {
    match s {
        Subsection::Boundary => "Boundary Composition(s)"@,
        Subsection::LegalEntity => "Legal Entity Composition(s)"@,
        Subsection::Generated => "Composition(s) generated upon use"@,
        Subsection::Other => "Other types of composition(s)"@,
    }
}

/// Which subsection, if any, a header label names.
pub open spec fn spec_subsection_of(s: Seq<char>) -> Option<Subsection> {
    if s == subsection_label(Subsection::Boundary) {
        Some(Subsection::Boundary)
    } else if s == subsection_label(Subsection::LegalEntity) {
        Some(Subsection::LegalEntity)
    } else if s == subsection_label(Subsection::Generated) {
        Some(Subsection::Generated)
    } else if s == subsection_label(Subsection::Other) {
        Some(Subsection::Other)
    } else {
        None
    }
}

impl Subsection {
    /// Parses an exact subsection header label — comparison is case- and
    /// whitespace-sensitive, with no trimming. Any other text is rejected
    /// with a diagnostic naming the offending input.
    pub fn from_str(input: &str) -> (r: Result<Subsection, String>)
        ensures
            match spec_subsection_of(input@) {
                Some(s) => r == Result::<Subsection, String>::Ok(s),
                None => r is Err && r->Err_0@ == "Couldn't parse "@ + input@
                    + " to Subsection Enum"@,
            },
    {
        let cs = chars_of(input);
        if eq_chars(&cs, &chars_of("Boundary Composition(s)")) {
            Ok(Subsection::Boundary)
        } else if eq_chars(&cs, &chars_of("Legal Entity Composition(s)")) {
            Ok(Subsection::LegalEntity)
        } else if eq_chars(&cs, &chars_of("Composition(s) generated upon use")) {
            Ok(Subsection::Generated)
        } else if eq_chars(&cs, &chars_of("Other types of composition(s)")) {
            Ok(Subsection::Other)
        } else {
            let mut message = String::from_str("Couldn't parse ");
            message.append(input);
            message.append(" to Subsection Enum");
            Err(message)
        }
    }

    /// The header label of this subsection, as a string.
    pub fn label(&self) -> (r: String)
        ensures
            r@ == subsection_label(*self),
    {
        match self {
            Subsection::Boundary => String::from_str("Boundary Composition(s)"),
            Subsection::LegalEntity => String::from_str("Legal Entity Composition(s)"),
            Subsection::Generated => String::from_str("Composition(s) generated upon use"),
            Subsection::Other => String::from_str("Other types of composition(s)"),
        }
    }
}

/// The display label of a section: the subsection's header label for a
/// composition section, or the literal section name for identification.
pub open spec fn section_label(s: Section) -> Seq<char> {
    match s {
        Section::Identification => "Identification"@,
        Section::Composition(sub) => subsection_label(sub),
    }
}

impl Section {
    /// The display label of this section, as a string.
    pub fn label(&self) -> (r: String)
        ensures
            r@ == section_label(*self),
    {
        match self {
            Section::Identification => String::from_str("Identification"),
            Section::Composition(sub) => sub.label(),
        }
    }
}

/// The sentinel substituted for any field absent at build time.
pub open spec fn na() -> Seq<char> {
    "N/A"@
}

/// The sentinel `"N/A"`, as a string.
pub fn na_string() -> (r: String)
    ensures
        r@ == na(),
{
    String::from_str("N/A")
}

/// One constituent/material entry within one panel of one section.
#[allow(non_snake_case)]
#[derive(Debug, PartialEq)]
pub struct Record {
    pub idcoordinates2D: String,
    pub FragFp: String,
    pub id: String,
    pub weblink: String,
    pub structure: String,
    pub section: String,
    pub image: String,
    pub subsection: String,
    pub name: String,
    pub substance: String,
    pub constitute: String,
    pub ec: String,
    pub cas: String,
    pub formula: String,
    pub pubchem_cas: String,
}

/// The mathematical content of a [`Record`]: each field as a character sequence.
#[allow(non_snake_case)]
pub ghost struct RecordV {
    pub idcoordinates2D: Seq<char>,
    pub FragFp: Seq<char>,
    pub id: Seq<char>,
    pub weblink: Seq<char>,
    pub structure: Seq<char>,
    pub section: Seq<char>,
    pub image: Seq<char>,
    pub subsection: Seq<char>,
    pub name: Seq<char>,
    pub substance: Seq<char>,
    pub constitute: Seq<char>,
    pub ec: Seq<char>,
    pub cas: Seq<char>,
    pub formula: Seq<char>,
    pub pubchem_cas: Seq<char>,
}

impl View for Record {
    type V = RecordV;

    open spec fn view(&self) -> RecordV {
        RecordV {
            idcoordinates2D: self.idcoordinates2D@,
            FragFp: self.FragFp@,
            id: self.id@,
            weblink: self.weblink@,
            structure: self.structure@,
            section: self.section@,
            image: self.image@,
            subsection: self.subsection@,
            name: self.name@,
            substance: self.substance@,
            constitute: self.constitute@,
            ec: self.ec@,
            cas: self.cas@,
            formula: self.formula@,
            pubchem_cas: self.pubchem_cas@,
        }
    }
}

impl DeepView for Record {
    type V = RecordV;

    open spec fn deep_view(&self) -> RecordV {
        self.view()
    }
}

impl Clone for Record {
    fn clone(&self) -> (r: Self)
        ensures
            r@ == self@,
    {
        Record {
            idcoordinates2D: self.idcoordinates2D.clone(),
            FragFp: self.FragFp.clone(),
            id: self.id.clone(),
            weblink: self.weblink.clone(),
            structure: self.structure.clone(),
            section: self.section.clone(),
            image: self.image.clone(),
            subsection: self.subsection.clone(),
            name: self.name.clone(),
            substance: self.substance.clone(),
            constitute: self.constitute.clone(),
            ec: self.ec.clone(),
            cas: self.cas.clone(),
            formula: self.formula.clone(),
            pubchem_cas: self.pubchem_cas.clone(),
        }
    }
}

/// Copies a record list; the views are unchanged.
pub fn clone_records(v: &Vec<Record>) -> (r: Vec<Record>)
    ensures
        r.deep_view() == v.deep_view(),
{
    let mut r: Vec<Record> = Vec::new();
    let mut i: usize = 0;
    while i < v.len()
        invariant
            i <= v@.len(),
            r@.len() == i,
            forall|j: int| 0 <= j < i ==> r@[j]@ == v@[j]@,
        decreases v@.len() - i,
    {
        r.push(v[i].clone());
        i = i + 1;
    }
    proof {
        assert(r.deep_view() =~= v.deep_view());
    }
    r
}

} // verus!
