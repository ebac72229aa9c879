//! Kinds of map style layers, and the colour sheet of a theme for symbol
//! sprites.

use vstd::prelude::*;
use vstd::string::*;
use crate::attrs::same_text;

verus! {

/// The kind of a map style layer.
#[derive(Debug, Clone, Copy, PartialEq, Eq, Structural)]
pub enum StyleLayerType {
    Fill,
    Line,
    Icon,
    Text,
}

/// One colour of a theme: its token and its hex value.
#[derive(Debug)]
pub struct ColorToken {
    pub token: String,
    pub hex: String,
}

/// The hex value of the first colour with token `t`, or black.
pub open spec fn color_or_black(colors: Seq<ColorToken>, t: Seq<char>) -> Seq<char>
    decreases colors.len(),
{
    if colors.len() == 0 {
        "#000000"@
    } else if colors[0].token@ == t {
        colors[0].hex@
    } else {
        color_or_black(colors.drop_first(), t)
    }
}

/// Start of a sheet, before the background colour.
pub const CSS_HEAD: &'static str = "svg {\n    background-color: ";

/// Between the background and the foreground colour.
pub const CSS_FOREGROUND: &'static str = ";\n    color: ";

/// The fixed classes of a sheet.
pub const CSS_FIXED: &'static str = ";\n}\n.layout {display:none}\n.symbolBox {stroke:black;stroke-width:0.32;}\n.svgBox {stroke:blue;stroke-width:0.32;}\n.pivotPoint {stroke:red;stroke-width:0.64;}\n.sl {stroke-linecap:round;stroke-linejoin:round}\n.f0 {fill:none}\n";

/// The stroke and fill classes of each colour, in order.
pub open spec fn color_classes(colors: Seq<ColorToken>) -> Seq<char>
    decreases colors.len(),
{
    if colors.len() == 0 {
        Seq::empty()
    } else {
        let c = colors.last();
        color_classes(colors.drop_last()) + ".s"@ + c.token@ + " {stroke:"@ + c.hex@ + "}\n"@ + ".f"@
            + c.token@ + " {fill:"@ + c.hex@ + "}\n"@
    }
}

/// The colour sheet of a theme: background `NODTA`, foreground `CURSR`
/// (black where absent), the fixed classes, then a stroke and a fill class
/// per colour.
pub open spec fn css_of(colors: Seq<ColorToken>) -> Seq<char> {
    CSS_HEAD@ + color_or_black(colors, "NODTA"@) + CSS_FOREGROUND@ + color_or_black(colors, "CURSR"@)
        + CSS_FIXED@ + color_classes(colors)
}

fn lookup_color(colors: &Vec<ColorToken>, t: &str) -> (r: String)
    ensures
        r@ == color_or_black(colors@, t@),
{
    let mut i: usize = 0;
    assert(colors@.subrange(0, colors@.len() as int) =~= colors@);
    while i < colors.len()
        invariant
            i <= colors@.len(),
            color_or_black(colors@, t@) == color_or_black(colors@.subrange(i as int, colors@.len() as int), t@),
        decreases colors@.len() - i,
    {
        let ghost rest = colors@.subrange(i as int, colors@.len() as int);
        assert(rest.drop_first() =~= colors@.subrange(i + 1, colors@.len() as int));
        assert(rest[0] == colors@[i as int]);
        if same_text(colors[i].token.as_str(), t) {
            return colors[i].hex.clone();
        }
        i = i + 1;
    }
    String::from_str("#000000")
}

/// Generate the colour sheet of a theme from its colours, in the order given
/// (sorted by token).
pub fn generate_css(colors: &Vec<ColorToken>) -> (r: String)
    ensures
        r@ == css_of(colors@),
{
    let nodta = lookup_color(colors, "NODTA");
    let cursr = lookup_color(colors, "CURSR");
    let mut css = String::from_str(CSS_HEAD);
    css.append(nodta.as_str());
    css.append(CSS_FOREGROUND);
    css.append(cursr.as_str());
    css.append(CSS_FIXED);
    let ghost head = css@;
    let mut i: usize = 0;
    while i < colors.len()
        invariant
            i <= colors@.len(),
            css@ == head + color_classes(colors@.subrange(0, i as int)),
        decreases colors@.len() - i,
    {
        let c = &colors[i];
        css.append(".s");
        css.append(c.token.as_str());
        css.append(" {stroke:");
        css.append(c.hex.as_str());
        css.append("}\n");
        css.append(".f");
        css.append(c.token.as_str());
        css.append(" {fill:");
        css.append(c.hex.as_str());
        css.append("}\n");
        assert(colors@.subrange(0, i + 1).drop_last() =~= colors@.subrange(0, i as int));
        assert(css@ =~= head + color_classes(colors@.subrange(0, i + 1)));
        i = i + 1;
    }
    assert(colors@.subrange(0, colors@.len() as int) =~= colors@);
    assert(css@ =~= css_of(colors@));
    css
}

} // verus!
