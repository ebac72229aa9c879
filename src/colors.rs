//! The COLOUR attribute of chart features.

use vstd::prelude::*;
use crate::attrs::{AttrValue, AttrValueView, Attrs, attrs_get, texts_view};
use crate::numtext::{parse_i64, parse_i64_spec};

verus! {

/// Standard colours used by lights, buoys and beacons; `code` gives the
/// attribute value of each.
#[derive(Debug, Clone, Copy, PartialEq, Eq, Structural)]
pub enum Colour {
    White,
    Black,
    Red,
    Green,
    Blue,
    Yellow,
    Grey,
    Brown,
    Amber,
    Violet,
    Orange,
    Magenta,
    Pink,
}

/// The attribute value that stands for a colour.
pub open spec fn colour_code(c: Colour) -> int {
    match c {
        Colour::White => 1,
        Colour::Black => 2,
        Colour::Red => 3,
        Colour::Green => 4,
        Colour::Blue => 5,
        Colour::Yellow => 6,
        Colour::Grey => 7,
        Colour::Brown => 8,
        Colour::Amber => 9,
        Colour::Violet => 10,
        Colour::Orange => 11,
        Colour::Magenta => 12,
        Colour::Pink => 13,
    }
}

/// The colour with attribute value `v`, if there is one.
pub open spec fn colour_of_code(v: int) -> Option<Colour> {
    if v == 1 {
        Some(Colour::White)
    } else if v == 2 {
        Some(Colour::Black)
    } else if v == 3 {
        Some(Colour::Red)
    } else if v == 4 {
        Some(Colour::Green)
    } else if v == 5 {
        Some(Colour::Blue)
    } else if v == 6 {
        Some(Colour::Yellow)
    } else if v == 7 {
        Some(Colour::Grey)
    } else if v == 8 {
        Some(Colour::Brown)
    } else if v == 9 {
        Some(Colour::Amber)
    } else if v == 10 {
        Some(Colour::Violet)
    } else if v == 11 {
        Some(Colour::Orange)
    } else if v == 12 {
        Some(Colour::Magenta)
    } else if v == 13 {
        Some(Colour::Pink)
    } else {
        None
    }
}

impl Colour {
    /// Parse a COLOUR value from its integer code (1 to 13).
    pub fn from_i64(val: i64) -> (r: Option<Colour>)
        ensures
            r == colour_of_code(val as int),
            r matches Some(c) ==> colour_code(c) == val,
    {
        match val {
            1 => Some(Colour::White),
            2 => Some(Colour::Black),
            3 => Some(Colour::Red),
            4 => Some(Colour::Green),
            5 => Some(Colour::Blue),
            6 => Some(Colour::Yellow),
            7 => Some(Colour::Grey),
            8 => Some(Colour::Brown),
            9 => Some(Colour::Amber),
            10 => Some(Colour::Violet),
            11 => Some(Colour::Orange),
            12 => Some(Colour::Magenta),
            13 => Some(Colour::Pink),
            _ => None,
        }
    }
}

/// The colour that a decimal text names, if it parses to a code.
pub open spec fn colour_of_text(t: Seq<char>) -> Option<Colour> {
    match parse_i64_spec(t) {
        Some(v) => colour_of_code(v as int),
        None => None,
    }
}

/// The colours named by a list of codes, in order, unknown codes left out.
pub open spec fn colours_of_codes(codes: Seq<i64>) -> Seq<Colour>
    decreases codes.len(),
{
    if codes.len() == 0 {
        Seq::empty()
    } else {
        let rest = colours_of_codes(codes.drop_last());
        match colour_of_code(codes.last() as int) {
            Some(c) => rest.push(c),
            None => rest,
        }
    }
}

/// The colours named by a list of decimal texts, in order, others left out.
pub open spec fn colours_of_texts(texts: Seq<Seq<char>>) -> Seq<Colour>
    decreases texts.len(),
{
    if texts.len() == 0 {
        Seq::empty()
    } else {
        let rest = colours_of_texts(texts.drop_last());
        match colour_of_text(texts.last()) {
            Some(c) => rest.push(c),
            None => rest,
        }
    }
}

/// One colour as a list, or an empty list.
pub open spec fn single(c: Option<Colour>) -> Seq<Colour> {
    match c {
        Some(x) => seq![x],
        None => Seq::empty(),
    }
}

/// The colours that a COLOUR attribute value names: each element of a list
/// that is an integer code or a decimal text of one, or a single such value.
pub open spec fn colours_of(v: Option<AttrValueView>) -> Seq<Colour> {
    match v {
        Some(AttrValueView::IntList(codes)) => colours_of_codes(codes),
        Some(AttrValueView::TextList(texts)) => colours_of_texts(texts),
        Some(AttrValueView::Int(i)) => single(colour_of_code(i as int)),
        Some(AttrValueView::Text(t)) => single(colour_of_text(t)),
        _ => Seq::empty(),
    }
}

/// Parse the COLOUR attribute of a feature into colours. A list (the usual
/// form) gives one colour per recognised element; a single integer or
/// decimal text gives at most one. Anything else gives none.
pub fn parse_colours(attrs: &Attrs) -> (r: Vec<Colour>)
    requires
        attrs.wf(),
    ensures
        r@ == colours_of(attrs_get(attrs@, "COLOUR"@)),
{
    let mut out: Vec<Colour> = Vec::new();
    match attrs.get("COLOUR") {
        Some(AttrValue::IntList(codes)) => {
            let mut i: usize = 0;
            while i < codes.len()
                invariant
                    i <= codes@.len(),
                    out@ == colours_of_codes(codes@.subrange(0, i as int)),
                decreases codes@.len() - i,
            {
                assert(codes@.subrange(0, i + 1).drop_last() =~= codes@.subrange(0, i as int));
                if let Some(c) = Colour::from_i64(codes[i]) {
                    out.push(c);
                }
                i = i + 1;
            }
            assert(codes@.subrange(0, codes@.len() as int) =~= codes@);
        },
        Some(AttrValue::TextList(texts)) => {
            let mut i: usize = 0;
            while i < texts.len()
                invariant
                    i <= texts@.len(),
                    out@ == colours_of_texts(texts_view(texts@.subrange(0, i as int))),
                decreases texts@.len() - i,
            {
                assert(texts_view(texts@.subrange(0, i + 1)).drop_last()
                    =~= texts_view(texts@.subrange(0, i as int)));
                if let Some(v) = parse_i64(texts[i].as_str()) {
                    if let Some(c) = Colour::from_i64(v) {
                        out.push(c);
                    }
                }
                i = i + 1;
            }
            assert(texts@.subrange(0, texts@.len() as int) =~= texts@);
        },
        Some(AttrValue::Int(v)) => {
            if let Some(c) = Colour::from_i64(*v) {
                out.push(c);
            }
            assert(out@ =~= single(colour_of_code(*v as int)));
        },
        Some(AttrValue::Text(t)) => {
            if let Some(v) = parse_i64(t.as_str()) {
                if let Some(c) = Colour::from_i64(v) {
                    out.push(c);
                }
            }
            assert(out@ =~= single(colour_of_text(t@)));
        },
        _ => {
            assert(out@ =~= Seq::<Colour>::empty());
        },
    }
    out
}

} // verus!
