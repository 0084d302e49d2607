//! The plain-value model of a dossier page: the one identification block and
//! the ordered header/panel node list of the composition area. Every string in
//! the model is a raw text node as the page holds it; all cleaning is done by
//! the extraction engine.

use vstd::prelude::*;

verus! {

/// The smallest document unit holding one constituent's fields: the text
/// nodes of its term (`dt`) elements, flattened in document order; the text
/// nodes of each definition (`dd`) element, one list per element; the `src`
/// attribute of each image element (`None` when the attribute is absent); and
/// the text nodes of its constituent markers (`h5`), flattened.
#[derive(Debug)]
pub struct Block {
    pub terms: Vec<String>,
    pub values: Vec<Vec<String>>,
    pub images: Vec<Option<String>>,
    pub constituents: Vec<String>,
}

/// The mathematical content of a [`Block`].
pub ghost struct BlockV {
    pub terms: Seq<Seq<char>>,
    pub values: Seq<Seq<Seq<char>>>,
    pub images: Seq<Option<Seq<char>>>,
    pub constituents: Seq<Seq<char>>,
}

impl View for Block {
    type V = BlockV;

    open spec fn view(&self) -> BlockV {
        BlockV {
            terms: self.terms.deep_view(),
            values: self.values.deep_view(),
            images: self.images.deep_view(),
            constituents: self.constituents.deep_view(),
        }
    }
}

impl DeepView for Block {
    type V = BlockV;

    open spec fn deep_view(&self) -> BlockV {
        self.view()
    }
}

/// One node of the composition area, in document order: either a subsection
/// header (its text nodes) or a panel (the text nodes under its title anchor,
/// and its blocks).
#[derive(Debug)]
pub enum Node {
    Header { texts: Vec<String> },
    Panel { titles: Vec<String>, blocks: Vec<Block> },
}

/// The mathematical content of a [`Node`].
pub ghost enum NodeV {
    Header { texts: Seq<Seq<char>> },
    Panel { titles: Seq<Seq<char>>, blocks: Seq<BlockV> },
}

impl View for Node {
    type V = NodeV;

    open spec fn view(&self) -> NodeV {
        match self {
            Node::Header { texts } => NodeV::Header { texts: texts.deep_view() },
            Node::Panel { titles, blocks } => NodeV::Panel {
                titles: titles.deep_view(),
                blocks: blocks.deep_view(),
            },
        }
    }
}

impl DeepView for Node {
    type V = NodeV;

    open spec fn deep_view(&self) -> NodeV {
        self.view()
    }
}

/// A parsed dossier page: the block anchored to the identification marker
/// (`None` when the structural anchor is missing) and the composition area's
/// node list.
#[derive(Debug)]
pub struct Document {
    pub identification: Option<Block>,
    pub nodes: Vec<Node>,
}

/// The mathematical content of a [`Document`].
pub ghost struct DocumentV {
    pub identification: Option<BlockV>,
    pub nodes: Seq<NodeV>,
}

impl View for Document {
    type V = DocumentV;

    open spec fn view(&self) -> DocumentV {
        DocumentV {
            identification: self.identification.deep_view(),
            nodes: self.nodes.deep_view(),
        }
    }
}

impl DeepView for Document {
    type V = DocumentV;

    open spec fn deep_view(&self) -> DocumentV {
        self.view()
    }
}

} // verus!
