//! The field extractor: turns one [`Block`] into a flat key/value mapping.
//!
//! The mapping is kept as an association list in insertion order — term/value
//! pairs, then image entries, then constituent entries — and reads resolve a
//! duplicate key to its latest insertion, so a later entry silently overwrites
//! an earlier one.

use vstd::prelude::*;
use vstd::string::StringExecFns;
use crate::model::{Block, BlockV};
use crate::text::{
    chars_of, concat_all, eq_chars, remove_ch, string_from_chars, strip_char, trim_chars,
    trim_spec, append_all,
};

verus! {

/// A term label as a field key: the trailing colon, if any, stripped.
pub open spec fn clean_key(s: Seq<char>) -> Seq<char> {
    if s.len() > 0 && s.last() == ':' {
        s.drop_last()
    } else {
        s
    }
}

/// A definition element's text nodes as a field value: concatenated, trimmed,
/// then embedded newlines and tabs removed.
pub open spec fn clean_value(texts: Seq<Seq<char>>) -> Seq<char> {
    remove_ch(remove_ch(trim_spec(concat_all(texts)), '\n'), '\t')
}

/// The term/value pairs of a block, zipped up to the shorter count; the
/// unmatched remainder of the longer side is dropped.
pub open spec fn zip_fields(terms: Seq<Seq<char>>, values: Seq<Seq<Seq<char>>>) -> Seq<
    (Seq<char>, Seq<char>),
> {
    let n = if terms.len() <= values.len() {
        terms.len()
    } else {
        values.len()
    };
    Seq::new(n, |i: int| (clean_key(terms[i]), clean_value(values[i])))
}

/// One `"Image link"` entry per image element, holding its `src` attribute,
/// or the empty string when the attribute is absent.
pub open spec fn image_entries(images: Seq<Option<Seq<char>>>) -> Seq<(Seq<char>, Seq<char>)> {
    Seq::new(
        images.len(),
        |i: int|
            (
                "Image link"@,
                match images[i] {
                    Some(s) => s,
                    None => Seq::<char>::empty(),
                },
            ),
    )
}

/// One `"Constituent"` entry per constituent marker text node, holding its
/// raw text.
pub open spec fn constituent_entries(cs: Seq<Seq<char>>) -> Seq<(Seq<char>, Seq<char>)> {
    Seq::new(cs.len(), |i: int| ("Constituent"@, cs[i]))
}

/// The full field list of a block, in insertion order: term/value pairs,
/// then image entries, then constituent entries.
pub open spec fn raw_fields_spec(b: BlockV) -> Seq<(Seq<char>, Seq<char>)> {
    zip_fields(b.terms, b.values) + image_entries(b.images) + constituent_entries(b.constituents)
}

/// The value of `key` in a field list, the latest insertion winning.
pub open spec fn lookup(fields: Seq<(Seq<char>, Seq<char>)>, key: Seq<char>) -> Option<Seq<char>>
    decreases fields.len(),
{
    if fields.len() == 0 {
        None
    } else if fields.last().0 == key {
        Some(fields.last().1)
    } else {
        lookup(fields.drop_last(), key)
    }
}

/// A flat key/value mapping in insertion order, read with
/// last-insertion-wins resolution of duplicate keys.
#[derive(Debug)]
pub struct RawFields {
    pub entries: Vec<(String, String)>,
}

impl View for RawFields {
    type V = Seq<(Seq<char>, Seq<char>)>;

    open spec fn view(&self) -> Seq<(Seq<char>, Seq<char>)> {
        Seq::new(self.entries@.len(), |i: int| (self.entries@[i].0@, self.entries@[i].1@))
    }
}

impl RawFields {
    /// The value at `key`, the latest insertion winning; `None` when the key
    /// was never inserted.
    pub fn get(&self, key: &str) -> (r: Option<String>)
        ensures
            r.deep_view() == lookup(self@, key@),
    {
        let kc = chars_of(key);
        let mut i: usize = self.entries.len();
        proof {
            assert(self@.subrange(0, i as int) =~= self@);
        }
        while i > 0
            invariant
                i <= self.entries@.len(),
                kc@ == key@,
                lookup(self@, key@) == lookup(self@.subrange(0, i as int), key@),
            decreases i,
        {
            let j = i - 1;
            let ec = chars_of(self.entries[j].0.as_str());
            proof {
                let sub = self@.subrange(0, i as int);
                assert(sub.last() == self@[j as int]);
                assert(sub.drop_last() =~= self@.subrange(0, j as int));
            }
            if eq_chars(&ec, &kc) {
                return Some(self.entries[j].1.clone());
            }
            i = j;
        }
        None
    }

    /// Appends an entry; a later read of its key returns this value.
    pub fn insert(&mut self, key: String, value: String)
        ensures
            final(self)@ == old(self)@.push((key@, value@)),
    {
        self.entries.push((key, value));
        proof {
            assert(self@ =~= old(self)@.push((key@, value@)));
        }
    }
}

/// A term label as a field key string.
fn clean_key_of(term: &str) -> (r: String)
    ensures
        r@ == clean_key(term@),
{
    let mut cs = chars_of(term);
    if cs.len() > 0 && cs[cs.len() - 1] == ':' {
        cs.pop();
    }
    string_from_chars(&cs)
}

/// A definition element's text nodes as a field value string.
fn clean_value_of(texts: &Vec<String>) -> (r: String)
    ensures
        r@ == clean_value(texts.deep_view()),
{
    let mut parts: Vec<Vec<char>> = Vec::new();
    let mut i: usize = 0;
    while i < texts.len()
        invariant
            i <= texts@.len(),
            parts@.len() == i,
            forall|j: int| 0 <= j < i ==> parts@[j]@ == texts@[j]@,
        decreases texts@.len() - i,
    {
        parts.push(chars_of(texts[i].as_str()));
        i = i + 1;
    }
    proof {
        assert(parts.deep_view() =~~= texts.deep_view());
    }
    let mut acc: Vec<char> = Vec::new();
    append_all(&mut acc, &parts);
    let trimmed = trim_chars(&acc);
    let no_nl = strip_char(&trimmed, '\n');
    let cleaned = strip_char(&no_nl, '\t');
    string_from_chars(&cleaned)
}

/// Extracts the flat field mapping of one block: term/value pairs zipped up
/// to the shorter count, then the image entries, then the constituent
/// entries, in that insertion order.
pub fn extract(block: &Block) -> (r: RawFields)
    ensures
        r@ == raw_fields_spec(block@),
{
    let mut entries: Vec<(String, String)> = Vec::new();
    let m = if block.terms.len() <= block.values.len() {
        block.terms.len()
    } else {
        block.values.len()
    };
    let mut i: usize = 0;
    while i < m
        invariant
            m <= block.terms@.len(),
            m <= block.values@.len(),
            i <= m,
            entries@.len() == i,
            forall|j: int|
                0 <= j < i ==> (#[trigger] entries@[j]).0@ == clean_key(block@.terms[j])
                    && entries@[j].1@ == clean_value(block@.values[j]),
        decreases m - i,
    {
        let k = clean_key_of(block.terms[i].as_str());
        let v = clean_value_of(&block.values[i]);
        entries.push((k, v));
        i = i + 1;
    }
    let mut i2: usize = 0;
    while i2 < block.images.len()
        invariant
            m <= block.terms@.len(),
            m <= block.values@.len(),
            entries@.len() == m + i2,
            i2 <= block.images@.len(),
            forall|j: int|
                0 <= j < m ==> (#[trigger] entries@[j]).0@ == clean_key(block@.terms[j])
                    && entries@[j].1@ == clean_value(block@.values[j]),
            forall|j: int|
                m <= j < m + i2 ==> (#[trigger] entries@[j]).0@ == "Image link"@ && entries@[j].1@
                    == (match block@.images[j - m] {
                    Some(s) => s,
                    None => Seq::<char>::empty(),
                }),
        decreases block.images@.len() - i2,
    {
        let v = match &block.images[i2] {
            Some(s) => s.clone(),
            None => String::new(),
        };
        entries.push((String::from_str("Image link"), v));
        i2 = i2 + 1;
    }
    let ghost off = m + block.images@.len();
    let mut i3: usize = 0;
    while i3 < block.constituents.len()
        invariant
            m <= block.terms@.len(),
            m <= block.values@.len(),
            off == m + block.images@.len(),
            entries@.len() == off + i3,
            i3 <= block.constituents@.len(),
            forall|j: int|
                0 <= j < m ==> (#[trigger] entries@[j]).0@ == clean_key(block@.terms[j])
                    && entries@[j].1@ == clean_value(block@.values[j]),
            forall|j: int|
                m <= j < off ==> (#[trigger] entries@[j]).0@ == "Image link"@ && entries@[j].1@
                    == (match block@.images[j - m] {
                    Some(s) => s,
                    None => Seq::<char>::empty(),
                }),
            forall|j: int|
                off <= j < off + i3 ==> (#[trigger] entries@[j]).0@ == "Constituent"@
                    && entries@[j].1@ == block@.constituents[j - off],
        decreases block.constituents@.len() - i3,
    {
        entries.push((String::from_str("Constituent"), block.constituents[i3].clone()));
        i3 = i3 + 1;
    }
    let r = RawFields { entries };
    proof {
        assert(r@ =~= raw_fields_spec(block@));
    }
    r
}

} // verus!
