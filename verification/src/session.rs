//! The site session: owns one parsed document and memoizes the fully-built
//! record set per section, so repeated queries against the same section are
//! answered from the cache without another scan.

use vstd::prelude::*;
use vstd::string::StringExecFns;
use crate::dom::page_doc;
use crate::engine::{data_from, records_of, unknown_labels, EchaError};
use crate::model::{Document, DocumentV};
use crate::record::{clone_records, Record, RecordV, Section, Subsection};

verus! {

/// Represents and manages the data for each section and subsection of one
/// dossier page. The document is obtained once; a fetch failure is stored and
/// only surfaces when a section is first computed.
#[derive(Debug)]
pub struct EchaSite {
    url: String,
    document: Option<Document>,
    cached_identification: Option<Vec<Record>>,
    cached_boundary: Option<Vec<Record>>,
    cached_legal_entity: Option<Vec<Record>>,
    cached_generated: Option<Vec<Record>>,
    cached_other: Option<Vec<Record>>,
    scans: u64,
}

impl EchaSite {
    /// The cached record views of a section, `None` while never computed.
    pub closed spec fn cached(&self, section: Section) -> Option<Seq<RecordV>> {
        match section {
            Section::Identification => self.cached_identification.deep_view(),
            Section::Composition(Subsection::Boundary) => self.cached_boundary.deep_view(),
            Section::Composition(Subsection::LegalEntity) => self.cached_legal_entity.deep_view(),
            Section::Composition(Subsection::Generated) => self.cached_generated.deep_view(),
            Section::Composition(Subsection::Other) => self.cached_other.deep_view(),
        }
    }

    /// The stored document, `None` when it could not be obtained.
    pub closed spec fn document_view(&self) -> Option<DocumentV> {
        self.document.deep_view()
    }

    /// The stored url.
    pub closed spec fn url_view(&self) -> Seq<char> {
        self.url@
    }

    /// How many sections have been computed by a scan of the document; a
    /// cache hit never raises it.
    pub closed spec fn scan_count(&self) -> u64 {
        self.scans
    }

    /// Every populated cache entry holds exactly the records that one scan
    /// of the stored document yields for its section.
    pub closed spec fn wf(&self) -> bool {
        forall|s: Section|
            (#[trigger] self.cached(s)) is Some ==> self.document_view() is Some && (s
                is Identification ==> self.document_view()->Some_0.identification is Some)
                && self.cached(s) == Some(records_of(self.document_view()->Some_0, s))
    }

    /// Creates a session over an already-parsed document; `None` stands for
    /// a page that could not be obtained. The cache starts empty.
    pub fn from_document(url: &str, document: Option<Document>) -> (r: EchaSite)
        ensures
            r.wf(),
            r.url_view() == url@,
            r.document_view() == document.deep_view(),
            forall|s: Section| (#[trigger] r.cached(s)) is None,
            r.scan_count() == 0,
    {
        EchaSite {
            url: String::from_str(url),
            document,
            cached_identification: None,
            cached_boundary: None,
            cached_legal_entity: None,
            cached_generated: None,
            cached_other: None,
            scans: 0,
        }
    }

    /// A populated cache entry holds exactly what one scan of the stored
    /// document yields for its section. So a repeated `get_constituents`,
    /// answered from the cache without touching the document, returns a
    /// sequence structurally identical to a fresh scan's — and to the first
    /// call's result, which populated the entry.
    pub proof fn lemma_cached_matches_rescan(self, section: Section)
        requires
            self.wf(),
            self.cached(section) is Some,
        ensures
            self.document_view() is Some,
            self.cached(section)->Some_0 == records_of(self.document_view()->Some_0, section),
    {
    }

    /// Creates a session over the body fetched from the url, parsing it once
    /// into the document model; `None` stands for a fetch that failed, and is
    /// stored as the deferred error. The cache starts empty.
    ///
    /// The stored document is exactly [`page_doc`] of the supplied body, a
    /// function of the body alone: two sessions over one body hold equal
    /// documents.
    pub fn new(url: &str, body: Option<&str>) -> (r: EchaSite)
        ensures
            r.wf(),
            r.url_view() == url@,
            match body {
                Some(b) => r.document_view() == page_doc(b@),
                None => r.document_view() is None,
            },
            forall|s: Section| (#[trigger] r.cached(s)) is None,
            r.scan_count() == 0,
    {
        let document = match body {
            Some(b) => crate::dom::document_from_html(b),
            None => None,
        };
        EchaSite::from_document(url, document)
    }

    /// The url this session was created over.
    pub fn url(&self) -> (r: &String)
        ensures
            r@ == self.url_view(),
    {
        &self.url
    }

    /// The anomalies a scan of the stored document flags: the cleaned labels
    /// of the composition-area headers that name no known subsection, in
    /// document order; empty when the document is missing. Classification
    /// keeps its running state at such a header and continues.
    pub fn unrecognized_headers(&self) -> (r: Vec<String>)
        ensures
            match self.document_view() {
                Some(doc) => r.deep_view() == unknown_labels(doc.nodes, 0),
                None => r.deep_view() == Seq::<Seq<char>>::empty(),
            },
    {
        match &self.document {
            Some(d) => crate::engine::unrecognized_headers(&d.nodes),
            None => {
                let r: Vec<String> = Vec::new();
                proof {
                    assert(r.deep_view() =~= Seq::<Seq<char>>::empty());
                }
                r
            },
        }
    }

    /// The scan-count probe: how many sections have been computed from the
    /// document so far. A repeated query is answered from the cache and
    /// leaves it unchanged.
    pub fn scans(&self) -> (r: u64)
        ensures
            r == self.scan_count(),
    {
        self.scans
    }

    /// Returns the records of each constituent of the provided section.
    ///
    /// A populated cache entry is returned as it stands, without touching the
    /// document. Otherwise the section is computed by one scan, cached, and
    /// returned; a missing document or a missing identification anchor is an
    /// error, and nothing is cached for that section.
    pub fn get_constituents(&mut self, section: Section) -> (r: Result<Vec<Record>, EchaError>)
        requires
            old(self).wf(),
        ensures
            final(self).wf(),
            old(self).cached(section) is Some ==> *final(self) == *old(self) && r is Ok
                && r->Ok_0.deep_view() == old(self).cached(section)->Some_0,
            old(self).cached(section) is None ==> match old(self).document_view() {
                None => r == Result::<Vec<Record>, EchaError>::Err(EchaError::DocumentUnavailable)
                    && *final(self) == *old(self),
                Some(doc) => {
                    if section is Identification && doc.identification is None {
                        r == Result::<Vec<Record>, EchaError>::Err(
                            EchaError::StructuralAnchorMissing,
                        ) && *final(self) == *old(self)
                    } else {
                        &&& r is Ok
                        &&& r->Ok_0.deep_view() == records_of(doc, section)
                        &&& final(self).cached(section) == Some(records_of(doc, section))
                        &&& forall|s2: Section|
                            s2 != section ==> #[trigger] final(self).cached(s2) == old(self).cached(
                                s2,
                            )
                        &&& final(self).document_view() == old(self).document_view()
                        &&& final(self).url_view() == old(self).url_view()
                        &&& final(self).scan_count() == (if old(self).scan_count() < u64::MAX {
                            old(self).scan_count() + 1
                        } else {
                            old(self).scan_count() as int
                        })
                    }
                },
            },
    {
        let hit = match section {
            Section::Identification => self.cached_identification.is_some(),
            Section::Composition(Subsection::Boundary) => self.cached_boundary.is_some(),
            Section::Composition(Subsection::LegalEntity) => self.cached_legal_entity.is_some(),
            Section::Composition(Subsection::Generated) => self.cached_generated.is_some(),
            Section::Composition(Subsection::Other) => self.cached_other.is_some(),
        };
        if hit {
            let data = match section {
                Section::Identification => self.cached_identification.as_ref().unwrap(),
                Section::Composition(Subsection::Boundary) => self.cached_boundary.as_ref().unwrap(),
                Section::Composition(Subsection::LegalEntity) => self.cached_legal_entity.as_ref().unwrap(),
                Section::Composition(Subsection::Generated) => self.cached_generated.as_ref().unwrap(),
                Section::Composition(Subsection::Other) => self.cached_other.as_ref().unwrap(),
            };
            return Ok(clone_records(data));
        }
        let computed = match &self.document {
            None => {
                return Err(EchaError::DocumentUnavailable);
            },
            Some(doc) => data_from(doc, section),
        };
        match computed {
            Err(e) => Err(e),
            Ok(data) => {
                self.scans = if self.scans < u64::MAX {
                    self.scans + 1
                } else {
                    self.scans
                };
                let copy = clone_records(&data);
                match section {
                    Section::Identification => {
                        self.cached_identification = Some(copy);
                    },
                    Section::Composition(Subsection::Boundary) => {
                        self.cached_boundary = Some(copy);
                    },
                    Section::Composition(Subsection::LegalEntity) => {
                        self.cached_legal_entity = Some(copy);
                    },
                    Section::Composition(Subsection::Generated) => {
                        self.cached_generated = Some(copy);
                    },
                    Section::Composition(Subsection::Other) => {
                        self.cached_other = Some(copy);
                    },
                }
                proof {
                    assert forall|s: Section| (#[trigger] self.cached(s)) is Some implies self
                        .document_view() is Some && (s is Identification ==> self.document_view()
                        ->Some_0.identification is Some) && self.cached(s) == Some(
                        records_of(self.document_view()->Some_0, s),
                    ) by {
                        if s != section {
                            assert(self.cached(s) == old(self).cached(s));
                        }
                    }
                    assert(self.wf());
                }
                Ok(data)
            },
        }
    }
}

} // verus!
