//! The registered feature layers, their style rules, and the unified tile
//! function over all of them.

use vstd::prelude::*;
use vstd::string::*;
use crate::attrs::{AttrValue, Attrs, attrs_get, real_of, int_of};
use crate::colors::{Colour, parse_colours, colours_of};
use crate::depth::Real;
use crate::feature::{ColType, ColumnDef, LayerDef, StyleRule, select_lines, push_select_lines};
use crate::attrs::same_text;
use crate::sqltext::{
    UNIFIED_PART_HEAD,
    UNIFIED_PART_AFTER_LAYER,
    UNIFIED_PART_AFTER_COLS,
    SOUNDING_DEPTH_COLUMNS,
    UNIFIED_PART_FROM,
    UNIFIED_PART_TAIL,
    UNIFIED_FN_HEAD,
    UNIFIED_FN_TAIL,
};

verus! {

/// Style tokens computed for one feature: area colour, line colour and point
/// symbol.
#[derive(Debug)]
pub struct StyleProps {
    pub ac: Option<String>,
    pub lc: Option<String>,
    pub sy: Option<String>,
}

/// The characters of an optional string.
pub open spec fn opt_text(o: Option<String>) -> Option<Seq<char>> {
    match o {
        Some(s) => Some(s@),
        None => None,
    }
}

impl View for StyleProps {
    type V = (Option<Seq<char>>, Option<Seq<char>>, Option<Seq<char>>);

    open spec fn view(&self) -> (Option<Seq<char>>, Option<Seq<char>>, Option<Seq<char>>) {
        (opt_text(self.ac), opt_text(self.lc), opt_text(self.sy))
    }
}

/// Style tokens with no value.
pub open spec fn no_style() -> (Option<Seq<char>>, Option<Seq<char>>, Option<Seq<char>>) {
    (None, None, None)
}

/// The number a typed attribute reads as.
pub open spec fn real_attr(typed: Seq<(Seq<char>, crate::attrs::AttrValueView)>, key: Seq<char>) -> Option<Real> {
    match attrs_get(typed, key) {
        Some(v) => real_of(v),
        None => None,
    }
}

/// The integer a typed attribute reads as.
pub open spec fn int_attr(typed: Seq<(Seq<char>, crate::attrs::AttrValueView)>, key: Seq<char>) -> Option<i64> {
    match attrs_get(typed, key) {
        Some(v) => int_of(v),
        None => None,
    }
}

/// Area colour of a depth area from its two depth bounds: intertidal when
/// both are at or above the datum, then very shallow (to 3 m), medium
/// shallow (to 6 m), medium deep (to 9 m) and deep water. Deep water when
/// the shallow bound is unknown.
pub open spec fn depth_area_token(d1: Option<Real>, d2: Option<Real>) -> Seq<char> {
    match d1 {
        Some(a) => if a.lt_spec(0) && (d2 matches Some(b) && b.le_spec(0)) {
            "DEPIT"@
        } else if a.le_spec(3) {
            "DEPVS"@
        } else if a.le_spec(6) {
            "DEPMS"@
        } else if a.le_spec(9) {
            "DEPMD"@
        } else {
            "DEPDW"@
        },
        None => "DEPDW"@,
    }
}

/// Symbol of a light from its category and first colour: aero lights (8)
/// red or other, then red, green and yellow lights, and the general light
/// symbol for every other light.
pub open spec fn light_symbol(catlit: Option<i64>, first: Option<Colour>) -> Seq<char> {
    if catlit == Some(8i64) && first == Some(Colour::Red) {
        "LIGHTS81"@
    } else if catlit == Some(8i64) {
        "LIGHTS82"@
    } else if first == Some(Colour::Red) {
        "LIGHTS11"@
    } else if first == Some(Colour::Green) {
        "LIGHTS12"@
    } else if first == Some(Colour::Yellow) {
        "LIGHTS13"@
    } else {
        "LITDEF11"@
    }
}

/// Text colour of a sounding: dark for depths under 9 m, grey otherwise.
pub open spec fn sounding_token(depth: Option<Real>) -> Option<Seq<char>> {
    match depth {
        Some(d) => if d.lt_spec(9) {
            Some("SNDG2"@)
        } else {
            Some("SNDG1"@)
        },
        None => None,
    }
}

/// The first element of a sequence, if any.
pub open spec fn first_of<T>(s: Seq<T>) -> Option<T> {
    if s.len() > 0 {
        Some(s[0])
    } else {
        None
    }
}

/// The style tokens that a style rule gives a feature with typed attributes
/// `typed`; no rule gives none.
pub open spec fn style_of(
    rule: Option<StyleRule>,
    typed: Seq<(Seq<char>, crate::attrs::AttrValueView)>,
) -> (Option<Seq<char>>, Option<Seq<char>>, Option<Seq<char>>) {
    match rule {
        Some(StyleRule::DepthArea) => (
            Some(depth_area_token(real_attr(typed, "DRVAL1"@), real_attr(typed, "DRVAL2"@))),
            Some("CHGRD"@),
            None,
        ),
        Some(StyleRule::LandArea) => (Some("LANDA"@), Some("CSTLN"@), Some("LNDARE01"@)),
        Some(StyleRule::Light) => (
            None,
            None,
            Some(light_symbol(int_attr(typed, "CATLIT"@), first_of(colours_of(attrs_get(typed, "COLOUR"@))))),
        ),
        Some(StyleRule::Sounding) => (sounding_token(real_attr(typed, "DEPTH"@)), None, None),
        None => no_style(),
    }
}

fn text(s: &str) -> (r: Option<String>)
    ensures
        r matches Some(t) && t@ == s@,
{
    Some(String::from_str(s))
}

fn real_field(typed: &Attrs, key: &str) -> (r: Option<Real>)
    requires
        typed.wf(),
    ensures
        r == real_attr(typed@, key@),
{
    match typed.get(key) {
        Some(v) => v.as_real(),
        None => None,
    }
}

/// Style of a depth area: area colour by depth band, grid line colour.
pub fn depare_style(attrs: &Attrs) -> (r: StyleProps)
    requires
        attrs.wf(),
    ensures
        r@ == style_of(Some(StyleRule::DepthArea), attrs@),
{
    let d1 = real_field(attrs, "DRVAL1");
    let d2 = real_field(attrs, "DRVAL2");
    let ac = match d1 {
        Some(a) => {
            let shoal = match d2 {
                Some(b) => a.lt_int(0) && b.le_int(0),
                None => false,
            };
            if shoal {
                "DEPIT"
            } else if a.le_int(3) {
                "DEPVS"
            } else if a.le_int(6) {
                "DEPMS"
            } else if a.le_int(9) {
                "DEPMD"
            } else {
                "DEPDW"
            }
        },
        None => "DEPDW",
    };
    StyleProps { ac: text(ac), lc: text("CHGRD"), sy: None }
}

/// Style of a land area: fixed land colour, coastline and symbol.
pub fn lndare_style(attrs: &Attrs) -> (r: StyleProps)
    ensures
        r@ == style_of(Some(StyleRule::LandArea), attrs@),
{
    StyleProps { ac: text("LANDA"), lc: text("CSTLN"), sy: text("LNDARE01") }
}

/// Style of a light: symbol by category and first listed colour.
///
/// Of a multi-coloured light only the first colour chooses the symbol; a
/// light of no recognised colour gets the general light symbol.
pub fn lights_style(attrs: &Attrs) -> (r: StyleProps)
    requires
        attrs.wf(),
    ensures
        r@ == style_of(Some(StyleRule::Light), attrs@),
{
    let colours = parse_colours(attrs);
    let catlit = match attrs.get("CATLIT") {
        Some(v) => v.as_int(),
        None => None,
    };
    let first = if colours.len() > 0 {
        Some(colours[0])
    } else {
        None
    };
    let aero = match catlit {
        Some(c) => c == 8,
        None => false,
    };
    let sy = if aero && first == Some(Colour::Red) {
        "LIGHTS81"
    } else if aero {
        "LIGHTS82"
    } else if first == Some(Colour::Red) {
        "LIGHTS11"
    } else if first == Some(Colour::Green) {
        "LIGHTS12"
    } else if first == Some(Colour::Yellow) {
        "LIGHTS13"
    } else {
        "LITDEF11"
    };
    StyleProps { ac: None, lc: None, sy: text(sy) }
}

/// Style of a sounding: text colour by depth.
pub fn soundg_style(attrs: &Attrs) -> (r: StyleProps)
    requires
        attrs.wf(),
    ensures
        r@ == style_of(Some(StyleRule::Sounding), attrs@),
{
    let ac = match real_field(attrs, "DEPTH") {
        Some(d) => if d.lt_int(9) {
            text("SNDG2")
        } else {
            text("SNDG1")
        },
        None => None,
    };
    StyleProps { ac, lc: None, sy: None }
}

/// The style tokens of a feature by the layer's style rule.
pub fn style_props(rule: Option<StyleRule>, typed: &Attrs) -> (r: StyleProps)
    requires
        typed.wf(),
    ensures
        r@ == style_of(rule, typed@),
{
    match rule {
        Some(StyleRule::DepthArea) => depare_style(typed),
        Some(StyleRule::LandArea) => lndare_style(typed),
        Some(StyleRule::Light) => lights_style(typed),
        Some(StyleRule::Sounding) => soundg_style(typed),
        None => StyleProps { ac: None, lc: None, sy: None },
    }
}

/// Depth areas.
pub open spec fn depare_columns() -> Seq<ColumnDef> {
    seq![
        ColumnDef { s57_field: "DRVAL1", sql_column: "drval1", col_type: ColType::Float },
        ColumnDef { s57_field: "DRVAL2", sql_column: "drval2", col_type: ColType::Float },
    ]
}

/// Land areas.
pub open spec fn lndare_columns() -> Seq<ColumnDef> {
    seq![
        ColumnDef { s57_field: "OBJNAM", sql_column: "objnam", col_type: ColType::Text },
        ColumnDef { s57_field: "CONDTN", sql_column: "condtn", col_type: ColType::Int },
        ColumnDef { s57_field: "NATSUR", sql_column: "natsur", col_type: ColType::Int },
        ColumnDef { s57_field: "NATQUA", sql_column: "natqua", col_type: ColType::Int },
    ]
}

/// Lights. The colour column holds the first listed colour.
pub open spec fn lights_columns() -> Seq<ColumnDef> {
    seq![
        ColumnDef { s57_field: "CATLIT", sql_column: "catlit", col_type: ColType::Int },
        ColumnDef { s57_field: "COLOUR", sql_column: "colour", col_type: ColType::Int },
        ColumnDef { s57_field: "LITCHR", sql_column: "litchr", col_type: ColType::Int },
        ColumnDef { s57_field: "SIGPER", sql_column: "sigper", col_type: ColType::Float },
        ColumnDef { s57_field: "VALNMR", sql_column: "valnmr", col_type: ColType::Float },
        ColumnDef { s57_field: "HEIGHT", sql_column: "height", col_type: ColType::Float },
        ColumnDef { s57_field: "OBJNAM", sql_column: "objnam", col_type: ColType::Text },
    ]
}

/// Soundings. The depth arrives from the chart reader, taken from the
/// vertical coordinate of the geometry.
pub open spec fn soundg_columns() -> Seq<ColumnDef> {
    seq![
        ColumnDef { s57_field: "DEPTH", sql_column: "depth", col_type: ColType::Float },
        ColumnDef { s57_field: "TECSOU", sql_column: "tecsou", col_type: ColType::Int },
        ColumnDef { s57_field: "QUASOU", sql_column: "quasou", col_type: ColType::Int },
        ColumnDef { s57_field: "STATUS", sql_column: "status", col_type: ColType::Int },
    ]
}

/// The registered layers, in the order in which they are imported.
pub fn all_layers() -> (r: Vec<LayerDef>)
    ensures
        r@.len() == 4,
        r@[0].s57_name == "DEPARE" && r@[0].table == "depare" && r@[0].columns@ == depare_columns()
            && r@[0].style_rule == Some(StyleRule::DepthArea),
        r@[1].s57_name == "LNDARE" && r@[1].table == "lndare" && r@[1].columns@ == lndare_columns()
            && r@[1].style_rule == Some(StyleRule::LandArea),
        r@[2].s57_name == "LIGHTS" && r@[2].table == "lights" && r@[2].columns@ == lights_columns()
            && r@[2].style_rule == Some(StyleRule::Light),
        r@[3].s57_name == "SOUNDG" && r@[3].table == "soundg" && r@[3].columns@ == soundg_columns()
            && r@[3].style_rule == Some(StyleRule::Sounding),
{
    let depare = LayerDef {
        s57_name: "DEPARE",
        table: "depare",
        columns: vec![
            ColumnDef::new("DRVAL1", "drval1", ColType::Float),
            ColumnDef::new("DRVAL2", "drval2", ColType::Float),
        ],
        style_rule: Some(StyleRule::DepthArea),
    };
    let lndare = LayerDef {
        s57_name: "LNDARE",
        table: "lndare",
        columns: vec![
            ColumnDef::new("OBJNAM", "objnam", ColType::Text),
            ColumnDef::new("CONDTN", "condtn", ColType::Int),
            ColumnDef::new("NATSUR", "natsur", ColType::Int),
            ColumnDef::new("NATQUA", "natqua", ColType::Int),
        ],
        style_rule: Some(StyleRule::LandArea),
    };
    let lights = LayerDef {
        s57_name: "LIGHTS",
        table: "lights",
        columns: vec![
            ColumnDef::new("CATLIT", "catlit", ColType::Int),
            ColumnDef::new("COLOUR", "colour", ColType::Int),
            ColumnDef::new("LITCHR", "litchr", ColType::Int),
            ColumnDef::new("SIGPER", "sigper", ColType::Float),
            ColumnDef::new("VALNMR", "valnmr", ColType::Float),
            ColumnDef::new("HEIGHT", "height", ColType::Float),
            ColumnDef::new("OBJNAM", "objnam", ColType::Text),
        ],
        style_rule: Some(StyleRule::Light),
    };
    let soundg = LayerDef {
        s57_name: "SOUNDG",
        table: "soundg",
        columns: vec![
            ColumnDef::new("DEPTH", "depth", ColType::Float),
            ColumnDef::new("TECSOU", "tecsou", ColType::Int),
            ColumnDef::new("QUASOU", "quasou", ColType::Int),
            ColumnDef::new("STATUS", "status", ColType::Int),
        ],
        style_rule: Some(StyleRule::Sounding),
    };
    assert(depare.columns@ =~= depare_columns());
    assert(lndare.columns@ =~= lndare_columns());
    assert(lights.columns@ =~= lights_columns());
    assert(soundg.columns@ =~= soundg_columns());
    vec![depare, lndare, lights, soundg]
}

/// The indent of a select item in the unified tile function.
pub open spec fn unified_indent() -> Seq<char> {
    "                "@
}

/// One layer's part of the unified tile function; soundings also carry
/// their depth in the common units.
pub open spec fn unified_part(table: Seq<char>, cols: Seq<ColumnDef>) -> Seq<char> {
    UNIFIED_PART_HEAD@ + table + UNIFIED_PART_AFTER_LAYER@ + select_lines(cols, unified_indent())
        + UNIFIED_PART_AFTER_COLS@ + (if table == "soundg"@ {
        SOUNDING_DEPTH_COLUMNS@
    } else {
        Seq::empty()
    }) + UNIFIED_PART_FROM@ + table + UNIFIED_PART_TAIL@
}

/// The parts of all layers, joined by the bytea concatenation operator.
pub open spec fn unified_parts(layers: Seq<LayerDef>) -> Seq<char>
    decreases layers.len(),
{
    if layers.len() == 0 {
        Seq::empty()
    } else if layers.len() == 1 {
        unified_part(layers[0].table@, layers[0].columns@)
    } else {
        unified_parts(layers.drop_last()) + "\n    || "@ + unified_part(
            layers.last().table@,
            layers.last().columns@,
        )
    }
}

/// The unified tile function `enc_mvt(z, x, y)`: one multi-layer tile with
/// every layer's features.
pub open spec fn unified_mvt_sql(layers: Seq<LayerDef>) -> Seq<char> {
    UNIFIED_FN_HEAD@ + unified_parts(layers) + UNIFIED_FN_TAIL@
}

fn push_unified_part(s: &mut String, def: &LayerDef)
    ensures
        final(s)@ == old(s)@ + unified_part(def.table@, def.columns@),
{
    s.append(UNIFIED_PART_HEAD);
    s.append(def.table);
    s.append(UNIFIED_PART_AFTER_LAYER);
    push_select_lines(s, &def.columns, "                ");
    s.append(UNIFIED_PART_AFTER_COLS);
    if same_text(def.table, "soundg") {
        s.append(SOUNDING_DEPTH_COLUMNS);
    }
    s.append(UNIFIED_PART_FROM);
    s.append(def.table);
    s.append(UNIFIED_PART_TAIL);
    assert(s@ =~= old(s)@ + unified_part(def.table@, def.columns@));
}

/// Generate the unified tile function that combines all feature layers into
/// a single source.
pub fn create_unified_mvt_function_sql(layers: &Vec<LayerDef>) -> (r: String)
    ensures
        r@ == unified_mvt_sql(layers@),
{
    let mut s = String::from_str(UNIFIED_FN_HEAD);
    let ghost head = s@;
    let mut i: usize = 0;
    while i < layers.len()
        invariant
            i <= layers@.len(),
            s@ == head + unified_parts(layers@.subrange(0, i as int)),
        decreases layers@.len() - i,
    {
        let def = &layers[i];
        if i > 0 {
            s.append("\n    || ");
        }
        push_unified_part(&mut s, def);
        let ghost sub = layers@.subrange(0, i + 1);
        assert(sub.drop_last() =~= layers@.subrange(0, i as int));
        assert(s@ =~= head + unified_parts(sub));
        i = i + 1;
    }
    assert(layers@.subrange(0, layers@.len() as int) =~= layers@);
    s.append(UNIFIED_FN_TAIL);
    assert(s@ =~= unified_mvt_sql(layers@));
    s
}

} // verus!
