//! The bridge from a fetched HTML body to the plain-value [`Document`]
//! model: the fixed selectors of the known page layout, and thin trusted
//! wrappers around the `scraper` crate's parsing and selection.
//!
//! Parsing and selection are deterministic: what a document or an element
//! yields is a function of the source text and the selector text alone. The
//! wrappers state this through named results — [`doc_els`] for what the
//! document yields per selector, [`el_v`] for what one element handle holds —
//! and the verified assembly below them proves that the whole parse equals
//! [`page_doc`] of the body.

use vstd::prelude::*;
use crate::model::{Block, BlockV, Document, DocumentV, Node, NodeV};
use crate::text::{chars_of, eq_chars};

verus! {

#[verifier::external_type_specification]
#[verifier::external_body]
pub struct ExHtml(scraper::Html);

#[verifier::external_type_specification]
#[verifier::external_body]
pub struct ExSelector(scraper::Selector);

#[verifier::external_type_specification]
#[verifier::external_body]
pub struct ExElementRef<'a>(scraper::ElementRef<'a>);

/// What a DOM query can read from one element handle: its tag name, its
/// descendant text nodes in order, each attribute's value (`None` when the
/// attribute is absent), and, per selector text, the matched descendant
/// elements in the order the element yields them.
pub ghost struct ElemV {
    pub tag: Seq<char>,
    pub texts: Seq<Seq<char>>,
    pub attrs: Map<Seq<char>, Option<Seq<char>>>,
    pub sub: Map<Seq<char>, Seq<ElemV>>,
}

/// The source text a parsed document was built from.
pub uninterp spec fn doc_text(doc: scraper::Html) -> Seq<char>;

/// The selector text a compiled selector was built from.
pub uninterp spec fn sel_text(sel: scraper::Selector) -> Seq<char>;

/// Whether a selector text compiles.
pub uninterp spec fn sel_ok(css: Seq<char>) -> bool;

/// The content of one element handle.
pub uninterp spec fn el_v(el: scraper::ElementRef<'_>) -> ElemV;

/// The contents of the elements that the document parsed from `body` yields
/// for a selector, in the order the document yields them.
pub uninterp spec fn doc_els(body: Seq<char>, sel: Seq<char>) -> Seq<ElemV>;

/// Relies on `scraper::Html::parse_document`: parses an HTML string into a
/// document tree; the tree is a function of the string alone.
#[verifier::external_body]
fn parse_html(body: &str) -> (r: scraper::Html)
    ensures
        doc_text(r) == body@,
{
    scraper::Html::parse_document(body)
}

/// Relies on `scraper::Selector::parse`: compiles a CSS selector group,
/// deterministically in the selector text; a parse error becomes `None`.
#[verifier::external_body]
fn parse_selector(css: &str) -> (r: Option<scraper::Selector>)
    ensures
        r is Some <==> sel_ok(css@),
        r is Some ==> sel_text(r->Some_0) == css@,
{
    scraper::Selector::parse(css).ok()
}

/// Relies on `scraper::Html::select`: the elements of the document matching
/// the selector, in the order the document's node list yields them.
#[verifier::external_body]
fn select_document<'a>(doc: &'a scraper::Html, sel: &scraper::Selector) -> (r: Vec<
    scraper::ElementRef<'a>,
>)
    ensures
        r@.len() == doc_els(doc_text(*doc), sel_text(*sel)).len(),
        forall|i: int|
            0 <= i < r@.len() ==> el_v(#[trigger] r@[i]) == doc_els(
                doc_text(*doc),
                sel_text(*sel),
            )[i],
{
    doc.select(sel).collect()
}

/// Relies on `scraper::ElementRef::select`: the descendant elements of this
/// element matching the selector, in the order the subtree yields them.
#[verifier::external_body]
fn select_element<'a>(el: &scraper::ElementRef<'a>, sel: &scraper::Selector) -> (r: Vec<
    scraper::ElementRef<'a>,
>)
    ensures
        r@.len() == el_v(*el).sub[sel_text(*sel)].len(),
        forall|i: int|
            0 <= i < r@.len() ==> el_v(#[trigger] r@[i]) == el_v(*el).sub[sel_text(*sel)][i],
{
    el.select(sel).collect()
}

/// Relies on `scraper::ElementRef::value` and `scraper::node::Element::name`:
/// this element's tag name.
#[verifier::external_body]
fn element_name(el: &scraper::ElementRef<'_>) -> (r: String)
    ensures
        r@ == el_v(*el).tag,
{
    el.value().name().to_string()
}

/// Relies on `scraper::ElementRef::text`: the element's descendant text
/// nodes, in order.
#[verifier::external_body]
fn element_texts(el: &scraper::ElementRef<'_>) -> (r: Vec<String>)
    ensures
        r.deep_view() == el_v(*el).texts,
{
    el.text().map(|t| t.to_string()).collect()
}

/// Relies on `scraper::ElementRef::attr`: the value of the named attribute,
/// `None` when the attribute is absent.
#[verifier::external_body]
fn element_attr(el: &scraper::ElementRef<'_>, name: &str) -> (r: Option<String>)
    ensures
        r.deep_view() == el_v(*el).attrs[name@],
{
    el.attr(name).map(|v| v.to_string())
}

/// The flattened text nodes of a run of elements, in order.
pub open spec fn all_texts(els: Seq<ElemV>) -> Seq<Seq<char>>
    decreases els.len(),
{
    if els.len() == 0 {
        Seq::empty()
    } else {
        all_texts(els.drop_last()) + els.last().texts
    }
}

/// The block one element holds: its term texts flattened, its value texts
/// grouped per definition element, one `src` attribute per image, its
/// constituent marker texts flattened.
pub open spec fn block_v(e: ElemV) -> BlockV {
    BlockV {
        terms: all_texts(e.sub["dt"@]),
        values: e.sub["dd"@].map_values(|d: ElemV| d.texts),
        images: e.sub["img"@].map_values(|m: ElemV| m.attrs["src"@]),
        constituents: all_texts(e.sub["h5"@]),
    }
}

/// The composition-area node one element holds: a header with its text
/// nodes, or a panel with its title anchor's texts and its blocks.
pub open spec fn node_v(e: ElemV) -> NodeV {
    if e.tag == "h4"@ {
        NodeV::Header { texts: e.texts }
    } else {
        NodeV::Panel {
            titles: all_texts(e.sub["h4.panel-title"@]),
            blocks: e.sub["div.sBlock"@].map_values(|b: ElemV| block_v(b)),
        }
    }
}

/// Whether every fixed selector of the known layout compiles.
pub open spec fn selectors_ok() -> bool {
    &&& sel_ok("#sIdentification + div.sBlock"@)
    &&& sel_ok("div.panel-group > h4 ,div.panel.panel-default"@)
    &&& sel_ok("dt"@)
    &&& sel_ok("dd"@)
    &&& sel_ok("img"@)
    &&& sel_ok("h5"@)
    &&& sel_ok("h4.panel-title"@)
    &&& sel_ok("div.sBlock"@)
}

/// The document model that one parse of `body` yields: the first block the
/// identification selector matches, and one node per match of the panel
/// selector. `None` only when a fixed selector of the layout fails to
/// compile.
pub open spec fn page_doc(body: Seq<char>) -> Option<DocumentV> {
    if selectors_ok() {
        let ids = doc_els(body, "#sIdentification + div.sBlock"@);
        Some(
            DocumentV {
                identification: if ids.len() > 0 {
                    Some(block_v(ids[0]))
                } else {
                    None
                },
                nodes: doc_els(body, "div.panel-group > h4 ,div.panel.panel-default"@).map_values(
                    |e: ElemV| node_v(e),
                ),
            },
        )
    } else {
        None
    }
}

/// The compiled selectors of the known page layout.
struct Selectors {
    term: scraper::Selector,
    value: scraper::Selector,
    image: scraper::Selector,
    constituent: scraper::Selector,
    title: scraper::Selector,
    block: scraper::Selector,
}

impl Selectors {
    /// Each field was compiled from its fixed selector text.
    spec fn wf(&self) -> bool {
        &&& sel_text(self.term) == "dt"@
        &&& sel_text(self.value) == "dd"@
        &&& sel_text(self.image) == "img"@
        &&& sel_text(self.constituent) == "h5"@
        &&& sel_text(self.title) == "h4.panel-title"@
        &&& sel_text(self.block) == "div.sBlock"@
    }
}

/// Flattens the text nodes of a run of elements into `out`.
fn append_texts(
    out: &mut Vec<String>,
    els: &Vec<scraper::ElementRef<'_>>,
    Ghost(evs): Ghost<Seq<ElemV>>,
)
    requires
        els@.len() == evs.len(),
        forall|i: int| 0 <= i < els@.len() ==> el_v(#[trigger] els@[i]) == evs[i],
    ensures
        final(out).deep_view() == old(out).deep_view() + all_texts(evs),
{
    let mut i: usize = 0;
    proof {
        assert(all_texts(evs.subrange(0, 0)) =~= Seq::<Seq<char>>::empty());
        assert(old(out).deep_view() + Seq::<Seq<char>>::empty() =~= old(out).deep_view());
    }
    while i < els.len()
        invariant
            els@.len() == evs.len(),
            forall|k: int| 0 <= k < els@.len() ==> el_v(#[trigger] els@[k]) == evs[k],
            i <= els@.len(),
            out.deep_view() == old(out).deep_view() + all_texts(evs.subrange(0, i as int)),
        decreases els@.len() - i,
    {
        let mut texts = element_texts(&els[i]);
        let ghost pre = out.deep_view();
        let ghost tv = texts.deep_view();
        out.append(&mut texts);
        i = i + 1;
        proof {
            assert(out.deep_view() =~= pre + tv);
            assert(evs.subrange(0, i as int).drop_last() =~= evs.subrange(0, i - 1));
            assert(evs.subrange(0, i as int).last() == evs[i - 1]);
            assert(old(out).deep_view() + all_texts(evs.subrange(0, i - 1)) + evs[i - 1].texts
                =~= old(out).deep_view() + all_texts(evs.subrange(0, i as int)));
        }
    }
    proof {
        assert(evs.subrange(0, evs.len() as int) =~= evs);
    }
}

/// Reads one block from one element: term texts flattened, value texts
/// grouped per definition element, one `src` attribute per image,
/// constituent marker texts flattened.
fn block_from(el: &scraper::ElementRef<'_>, sels: &Selectors) -> (r: Block)
    requires
        sels.wf(),
    ensures
        r@ == block_v(el_v(*el)),
{
    let ghost ev = el_v(*el);
    let mut terms: Vec<String> = Vec::new();
    let term_els = select_element(el, &sels.term);
    append_texts(&mut terms, &term_els, Ghost(ev.sub["dt"@]));
    proof {
        assert(terms.deep_view() =~= all_texts(ev.sub["dt"@]));
    }
    let mut values: Vec<Vec<String>> = Vec::new();
    let value_els = select_element(el, &sels.value);
    let ghost dd_texts = ev.sub["dd"@].map_values(|d: ElemV| d.texts);
    let mut j: usize = 0;
    proof {
        assert(values.deep_view() =~= dd_texts.subrange(0, 0));
    }
    while j < value_els.len()
        invariant
            value_els@.len() == ev.sub["dd"@].len(),
            forall|k: int|
                0 <= k < value_els@.len() ==> el_v(#[trigger] value_els@[k]) == ev.sub["dd"@][k],
            dd_texts == ev.sub["dd"@].map_values(|d: ElemV| d.texts),
            j <= value_els@.len(),
            values.deep_view() == dd_texts.subrange(0, j as int),
        decreases value_els@.len() - j,
    {
        let ghost pre = values.deep_view();
        let t = element_texts(&value_els[j]);
        let ghost tv = t.deep_view();
        values.push(t);
        j = j + 1;
        proof {
            assert(values.deep_view() =~= pre.push(tv));
            assert(pre.push(tv) =~= dd_texts.subrange(0, j as int));
        }
    }
    proof {
        assert(dd_texts.subrange(0, dd_texts.len() as int) =~= dd_texts);
    }
    let mut images: Vec<Option<String>> = Vec::new();
    let image_els = select_element(el, &sels.image);
    let ghost img_srcs = ev.sub["img"@].map_values(|m: ElemV| m.attrs["src"@]);
    let mut k: usize = 0;
    proof {
        assert(images.deep_view() =~= img_srcs.subrange(0, 0));
    }
    while k < image_els.len()
        invariant
            image_els@.len() == ev.sub["img"@].len(),
            forall|n: int|
                0 <= n < image_els@.len() ==> el_v(#[trigger] image_els@[n]) == ev.sub["img"@][n],
            img_srcs == ev.sub["img"@].map_values(|m: ElemV| m.attrs["src"@]),
            k <= image_els@.len(),
            images.deep_view() == img_srcs.subrange(0, k as int),
        decreases image_els@.len() - k,
    {
        let ghost pre = images.deep_view();
        let a = element_attr(&image_els[k], "src");
        let ghost av = a.deep_view();
        images.push(a);
        k = k + 1;
        proof {
            assert(images.deep_view() =~= pre.push(av));
            assert(pre.push(av) =~= img_srcs.subrange(0, k as int));
        }
    }
    proof {
        assert(img_srcs.subrange(0, img_srcs.len() as int) =~= img_srcs);
    }
    let mut constituents: Vec<String> = Vec::new();
    let consti_els = select_element(el, &sels.constituent);
    append_texts(&mut constituents, &consti_els, Ghost(ev.sub["h5"@]));
    proof {
        assert(constituents.deep_view() =~= all_texts(ev.sub["h5"@]));
    }
    let r = Block { terms, values, images, constituents };
    proof {
        assert(r@ == block_v(ev));
    }
    r
}

/// Parses an HTML body into the document model; the result is exactly
/// [`page_doc`] of the body, so one body always parses to one model.
/// `None` only when a fixed selector of the layout fails to compile.
pub fn document_from_html(body: &str) -> (r: Option<Document>)
    ensures
        r.deep_view() == page_doc(body@),
{
    let id_sel = match parse_selector("#sIdentification + div.sBlock") {
        Some(s) => s,
        None => {
            return None;
        },
    };
    let panels_sel = match parse_selector("div.panel-group > h4 ,div.panel.panel-default") {
        Some(s) => s,
        None => {
            return None;
        },
    };
    let sels = Selectors {
        term: match parse_selector("dt") {
            Some(s) => s,
            None => {
                return None;
            },
        },
        value: match parse_selector("dd") {
            Some(s) => s,
            None => {
                return None;
            },
        },
        image: match parse_selector("img") {
            Some(s) => s,
            None => {
                return None;
            },
        },
        constituent: match parse_selector("h5") {
            Some(s) => s,
            None => {
                return None;
            },
        },
        title: match parse_selector("h4.panel-title") {
            Some(s) => s,
            None => {
                return None;
            },
        },
        block: match parse_selector("div.sBlock") {
            Some(s) => s,
            None => {
                return None;
            },
        },
    };
    let doc = parse_html(body);
    let id_els = select_document(&doc, &id_sel);
    let ghost ids_v = doc_els(body@, "#sIdentification + div.sBlock"@);
    let identification = if id_els.len() > 0 {
        Some(block_from(&id_els[0], &sels))
    } else {
        None
    };
    let mut nodes: Vec<Node> = Vec::new();
    let els = select_document(&doc, &panels_sel);
    let ghost els_v = doc_els(body@, "div.panel-group > h4 ,div.panel.panel-default"@);
    let ghost node_vs = els_v.map_values(|e: ElemV| node_v(e));
    let h4 = chars_of("h4");
    let mut i: usize = 0;
    proof {
        assert(nodes.deep_view() =~= node_vs.subrange(0, 0));
    }
    while i < els.len()
        invariant
            sels.wf(),
            els@.len() == els_v.len(),
            forall|k: int| 0 <= k < els@.len() ==> el_v(#[trigger] els@[k]) == els_v[k],
            node_vs == els_v.map_values(|e: ElemV| node_v(e)),
            i <= els@.len(),
            h4@ == "h4"@,
            nodes.deep_view() == node_vs.subrange(0, i as int),
        decreases els@.len() - i,
    {
        let el = &els[i];
        let ghost pre = nodes.deep_view();
        let name = element_name(el);
        if eq_chars(&chars_of(name.as_str()), &h4) {
            let node = Node::Header { texts: element_texts(el) };
            proof {
                assert(node@ == node_v(els_v[i as int]));
            }
            let ghost nv = node@;
            nodes.push(node);
            proof {
                assert(nodes.deep_view() =~= pre.push(nv));
                assert(pre.push(nv) =~= node_vs.subrange(0, i + 1));
            }
        } else {
            let mut titles: Vec<String> = Vec::new();
            let title_els = select_element(el, &sels.title);
            append_texts(&mut titles, &title_els, Ghost(el_v(*el).sub["h4.panel-title"@]));
            proof {
                assert(titles.deep_view() =~= all_texts(els_v[i as int].sub["h4.panel-title"@]));
            }
            let mut blocks: Vec<Block> = Vec::new();
            let block_els = select_element(el, &sels.block);
            let ghost blk_vs = els_v[i as int].sub["div.sBlock"@].map_values(
                |bv: ElemV| block_v(bv),
            );
            let mut b: usize = 0;
            proof {
                assert(blocks.deep_view() =~= blk_vs.subrange(0, 0));
            }
            while b < block_els.len()
                invariant
                    sels.wf(),
                    i < els_v.len(),
                    el_v(*el) == els_v[i as int],
                    block_els@.len() == el_v(*el).sub["div.sBlock"@].len(),
                    forall|n: int|
                        0 <= n < block_els@.len() ==> el_v(#[trigger] block_els@[n]) == el_v(
                            *el,
                        ).sub["div.sBlock"@][n],
                    blk_vs == els_v[i as int].sub["div.sBlock"@].map_values(
                        |bv: ElemV| block_v(bv),
                    ),
                    b <= block_els@.len(),
                    blocks.deep_view() == blk_vs.subrange(0, b as int),
                decreases block_els@.len() - b,
            {
                let ghost bpre = blocks.deep_view();
                let blk = block_from(&block_els[b], &sels);
                let ghost bv = blk@;
                blocks.push(blk);
                b = b + 1;
                proof {
                    assert(blocks.deep_view() =~= bpre.push(bv));
                    assert(bpre.push(bv) =~= blk_vs.subrange(0, b as int));
                }
            }
            proof {
                assert(blk_vs.subrange(0, blk_vs.len() as int) =~= blk_vs);
            }
            let node = Node::Panel { titles, blocks };
            proof {
                assert(node@ == node_v(els_v[i as int]));
            }
            let ghost nv = node@;
            nodes.push(node);
            proof {
                assert(nodes.deep_view() =~= pre.push(nv));
                assert(pre.push(nv) =~= node_vs.subrange(0, i + 1));
            }
        }
        i = i + 1;
    }
    proof {
        assert(node_vs.subrange(0, node_vs.len() as int) =~= node_vs);
    }
    let r = Some(Document { identification, nodes });
    proof {
        if id_els@.len() > 0 {
            assert(identification.deep_view() == Some(block_v(ids_v[0])));
        }
        assert(r.deep_view() =~~= page_doc(body@));
    }
    r
}

} // verus!
