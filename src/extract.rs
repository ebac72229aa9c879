//! Turning one chart feature into the typed values of its table row:
//! common attributes, layer-specific columns, style tokens and geometry, and
//! the parameters of its upsert in the registry's placeholder order.

use vstd::prelude::*;
use vstd::string::*;
use crate::attrs::{
    AttrValue,
    AttrValueView,
    Attrs,
    Field,
    attrs_get,
    attrs_insert,
    eq_ignore_ascii_case,
    field_int32,
    field_pos_from,
    field_value,
    field_value_to_json,
    find_field,
    int_of,
    int32_of,
    json_view,
    key_index,
    real_of,
    same_ignoring_case,
    text_of,
    to_upper,
    upper_of,
};
use crate::depth::Real;
use crate::feature::{ColType, ColumnDef, LayerDef, StyleRule, names_distinct, upsert_columns};
use crate::features::{StyleProps, opt_text, style_of, style_props};
use crate::s57::{ChartFeature, ChartLayer, FeatureGeometry, S57Metadata};

verus! {

/// Attributes every feature has, whatever its type: scale minimum, object
/// class code, source date and source indicator, and every field that no
/// column maps, kept as it is.
#[derive(Debug)]
pub struct CommonAttributes {
    pub scamin: Option<Real>,
    pub objl: Option<i32>,
    pub sordat: Option<String>,
    pub sorind: Option<String>,
    pub other_attributes: Attrs,
}

/// The chart that the features being processed belong to.
pub struct ChartContext<'a> {
    pub enc_name: &'a str,
    pub metadata: &'a S57Metadata,
}

/// The names of the chart fields that a layer's columns read.
pub open spec fn known_fields(cols: Seq<ColumnDef>) -> Seq<&'static str> {
    cols.map_values(|c: ColumnDef| c.s57_field)
}

/// The field is one of the common attributes or one that a column maps.
pub open spec fn is_mapped(name: Seq<char>, known: Seq<&str>) -> bool {
    same_ignoring_case(name, "SCAMIN"@) || same_ignoring_case(name, "OBJL"@) || same_ignoring_case(
        name,
        "SORDAT"@,
    ) || same_ignoring_case(name, "SORIND"@) || exists|i: int|
        0 <= i < known.len() && same_ignoring_case(name, (#[trigger] known[i])@)
}

/// The typed attributes of a feature: for each known field that the
/// feature has, its value under the field name in upper case.
pub open spec fn typed_of(fields: Seq<Field>, known: Seq<&str>) -> Seq<(Seq<char>, AttrValueView)>
    decreases known.len(),
{
    if known.len() == 0 {
        Seq::empty()
    } else {
        let m = typed_of(fields, known.drop_last());
        match field_value(fields, known.last()@) {
            Some(v) => attrs_insert(m, upper_of(known.last()@), json_view(v)),
            None => m,
        }
    }
}

/// The residual attributes of a feature: every field that is neither a
/// common attribute nor a known field, under its own name.
pub open spec fn residual_of(fields: Seq<Field>, known: Seq<&str>) -> Seq<(Seq<char>, AttrValueView)>
    decreases fields.len(),
{
    if fields.len() == 0 {
        Seq::empty()
    } else {
        let m = residual_of(fields.drop_last(), known);
        let f = fields.last();
        if is_mapped(f.name@, known) {
            m
        } else {
            attrs_insert(m, f.name@, json_view(f.value@))
        }
    }
}

/// The real a field holds, if it is one.
pub open spec fn field_real(fields: Seq<Field>, name: Seq<char>) -> Option<Real> {
    match field_value(fields, name) {
        Some(AttrValueView::Real(r)) => Some(r),
        _ => None,
    }
}

/// The 32-bit integer a field holds, if it is one.
pub open spec fn field_i32(fields: Seq<Field>, name: Seq<char>) -> Option<i32> {
    match field_value(fields, name) {
        Some(v) => int32_of(v),
        None => None,
    }
}

/// The text a field holds, if it is one.
pub open spec fn field_text(fields: Seq<Field>, name: Seq<char>) -> Option<Seq<char>> {
    match field_value(fields, name) {
        Some(AttrValueView::Text(s)) => Some(s),
        _ => None,
    }
}

/// The field is a common attribute or one of the known fields.
pub fn is_mapped_field(name: &str, known: &Vec<&str>) -> (r: bool)
    ensures
        r == is_mapped(name@, known@),
{
    if eq_ignore_ascii_case(name, "SCAMIN") || eq_ignore_ascii_case(name, "OBJL")
        || eq_ignore_ascii_case(name, "SORDAT") || eq_ignore_ascii_case(name, "SORIND") {
        return true;
    }
    let mut i: usize = 0;
    while i < known.len()
        invariant
            i <= known@.len(),
            forall|j: int| 0 <= j < i ==> !same_ignoring_case(name@, (#[trigger] known@[j])@),
        decreases known@.len() - i,
    {
        if eq_ignore_ascii_case(name, known[i]) {
            return true;
        }
        i = i + 1;
    }
    false
}

fn field_at<'a>(fields: &'a Vec<Field>, name: &str) -> (r: Option<&'a AttrValue>)
    ensures
        r.is_some() == field_value(fields@, name@).is_some(),
        r matches Some(v) ==> field_value(fields@, name@) == Some(v@),
{
    match find_field(fields, name) {
        Some(p) => Some(&fields[p].value),
        None => None,
    }
}

/// Extract the common attributes and the typed attributes of a feature.
/// `known_fields` are the layer-specific fields read into the typed map.
pub fn extract_common(feature: &ChartFeature, known_fields: &Vec<&str>) -> (r: (CommonAttributes, Attrs))
    ensures
        r.0.scamin == field_real(feature.fields@, "SCAMIN"@),
        r.0.objl == field_i32(feature.fields@, "OBJL"@),
        opt_text(r.0.sordat) == field_text(feature.fields@, "SORDAT"@),
        opt_text(r.0.sorind) == field_text(feature.fields@, "SORIND"@),
        r.0.other_attributes@ == residual_of(feature.fields@, known_fields@),
        r.0.other_attributes.wf(),
        r.1@ == typed_of(feature.fields@, known_fields@),
        r.1.wf(),
{
    let fields = &feature.fields;
    let scamin = match field_at(fields, "SCAMIN") {
        Some(AttrValue::Real(x)) => Some(*x),
        _ => None,
    };
    let objl = match field_at(fields, "OBJL") {
        Some(v) => field_int32(v),
        None => None,
    };
    let sordat = match field_at(fields, "SORDAT") {
        Some(AttrValue::Text(s)) => Some(s.clone()),
        _ => None,
    };
    let sorind = match field_at(fields, "SORIND") {
        Some(AttrValue::Text(s)) => Some(s.clone()),
        _ => None,
    };
    let mut typed = Attrs::new();
    let mut k: usize = 0;
    while k < known_fields.len()
        invariant
            k <= known_fields@.len(),
            typed.wf(),
            typed@ == typed_of(fields@, known_fields@.subrange(0, k as int)),
        decreases known_fields@.len() - k,
    {
        let name = known_fields[k];
        assert(known_fields@.subrange(0, k + 1).drop_last() =~= known_fields@.subrange(0, k as int));
        match field_at(fields, name) {
            Some(v) => {
                if let Some(j) = field_value_to_json(v) {
                    typed.insert(to_upper(name), j);
                }
            },
            None => {},
        }
        k = k + 1;
    }
    assert(known_fields@.subrange(0, known_fields@.len() as int) =~= known_fields@);
    let mut other = Attrs::new();
    let mut i: usize = 0;
    while i < fields.len()
        invariant
            i <= fields@.len(),
            other.wf(),
            other@ == residual_of(fields@.subrange(0, i as int), known_fields@),
        decreases fields@.len() - i,
    {
        let f = &fields[i];
        assert(fields@.subrange(0, i + 1).drop_last() =~= fields@.subrange(0, i as int));
        if !is_mapped_field(f.name.as_str(), known_fields) {
            if let Some(j) = field_value_to_json(&f.value) {
                other.insert(f.name.clone(), j);
            }
        }
        i = i + 1;
    }
    assert(fields@.subrange(0, fields@.len() as int) =~= fields@);
    (CommonAttributes { scamin, objl, sordat, sorind, other_attributes: other }, typed)
}

/// A layer-specific column value read from the typed attributes.
#[derive(Debug)]
pub enum ColValue {
    Float(Option<Real>),
    Int(Option<i32>),
    Text(Option<String>),
}

/// What a `ColValue` holds.
pub enum ColValueView {
    Float(Option<Real>),
    Int(Option<i32>),
    Text(Option<Seq<char>>),
}

impl View for ColValue {
    type V = ColValueView;

    open spec fn view(&self) -> ColValueView {
        match self {
            ColValue::Float(x) => ColValueView::Float(*x),
            ColValue::Int(x) => ColValueView::Int(*x),
            ColValue::Text(x) => ColValueView::Text(opt_text(*x)),
        }
    }
}

/// The value of a column: the typed attribute under its field name in
/// upper case (the form the typed map is keyed by), read by the column's
/// type; unset where it is absent or of another kind, and for an integer
/// column where it does not fit 32 bits.
pub open spec fn column_value(col: ColumnDef, typed: Seq<(Seq<char>, AttrValueView)>) -> ColValueView {
    let v = attrs_get(typed, upper_of(col.s57_field@));
    match col.col_type {
        ColType::Float => ColValueView::Float(
            match v {
                Some(x) => real_of(x),
                None => None,
            },
        ),
        ColType::Int => ColValueView::Int(
            match v {
                Some(x) => int32_of(x),
                None => None,
            },
        ),
        ColType::Text => ColValueView::Text(
            match v {
                Some(x) => text_of(x),
                None => None,
            },
        ),
    }
}

/// The views of a sequence of column values.
pub open spec fn col_values_view(v: Seq<ColValue>) -> Seq<ColValueView> {
    v.map_values(|c: ColValue| c@)
}

/// Extract the layer-specific column values, in column order, from the
/// typed attributes.
pub fn extract_values(def: &LayerDef, typed: &Attrs) -> (r: Vec<ColValue>)
    requires
        typed.wf(),
    ensures
        col_values_view(r@) == def.columns@.map_values(|c: ColumnDef| column_value(c, typed@)),
{
    let mut out: Vec<ColValue> = Vec::new();
    let mut i: usize = 0;
    while i < def.columns.len()
        invariant
            i <= def.columns@.len(),
            typed.wf(),
            col_values_view(out@) =~= def.columns@.subrange(0, i as int).map_values(
                |c: ColumnDef| column_value(c, typed@),
            ),
        decreases def.columns@.len() - i,
    {
        let col = def.columns[i];
        let key = to_upper(col.s57_field);
        let val = typed.get(key.as_str());
        let cv = match col.col_type {
            ColType::Float => ColValue::Float(
                match val {
                    Some(x) => x.as_real(),
                    None => None,
                },
            ),
            ColType::Int => ColValue::Int(
                match val {
                    Some(x) => field_int32(x),
                    None => None,
                },
            ),
            ColType::Text => ColValue::Text(
                match val {
                    Some(x) => x.as_text(),
                    None => None,
                },
            ),
        };
        assert(cv@ == column_value(col, typed@));
        let ghost before = out@;
        out.push(cv);
        assert(col_values_view(out@) =~= col_values_view(before).push(cv@));
        assert(def.columns@.subrange(0, i + 1) =~= def.columns@.subrange(0, i as int).push(col));
        i = i + 1;
    }
    assert(def.columns@.subrange(0, def.columns@.len() as int) =~= def.columns@);
    out
}

/// One parameter of an upsert, typed as it is bound.
#[derive(Debug)]
pub enum SqlParam {
    Text(Option<String>),
    BigInt(i64),
    Int(Option<i32>),
    Number(Option<Real>),
    Json(Option<Attrs>),
}

/// What a `SqlParam` holds.
pub enum SqlParamView {
    Text(Option<Seq<char>>),
    BigInt(i64),
    Int(Option<i32>),
    Number(Option<Real>),
    Json(Option<Seq<(Seq<char>, AttrValueView)>>),
}

impl View for SqlParam {
    type V = SqlParamView;

    open spec fn view(&self) -> SqlParamView {
        match self {
            SqlParam::Text(x) => SqlParamView::Text(opt_text(*x)),
            SqlParam::BigInt(x) => SqlParamView::BigInt(*x),
            SqlParam::Int(x) => SqlParamView::Int(*x),
            SqlParam::Number(x) => SqlParamView::Number(*x),
            SqlParam::Json(x) => SqlParamView::Json(
                match x {
                    Some(a) => Some(a@),
                    None => None,
                },
            ),
        }
    }
}

/// The views of a sequence of parameters.
pub open spec fn params_view(v: Seq<SqlParam>) -> Seq<SqlParamView> {
    v.map_values(|p: SqlParam| p@)
}

/// The parameter that binds a column value.
pub open spec fn col_param(v: ColValueView) -> SqlParamView {
    match v {
        ColValueView::Float(x) => SqlParamView::Number(x),
        ColValueView::Int(x) => SqlParamView::Int(x),
        ColValueView::Text(x) => SqlParamView::Text(x),
    }
}

/// The residual attributes as bound: nothing where there are none.
pub open spec fn residual_param(residual: Seq<(Seq<char>, AttrValueView)>) -> SqlParamView {
    if residual.len() == 0 {
        SqlParamView::Json(None)
    } else {
        SqlParamView::Json(Some(residual))
    }
}

/// The parameters of one feature's upsert, in the order of
/// `upsert_columns`: chart name, feature id, edition, update number,
/// compilation scale, scale minimum, object class; the column values; the
/// three style tokens, source date and indicator, residual attributes and
/// geometry.
pub open spec fn params_of(
    enc_name: Seq<char>,
    meta: S57Metadata,
    fid: i64,
    scamin: Option<Real>,
    objl: Option<i32>,
    values: Seq<ColValueView>,
    style: (Option<Seq<char>>, Option<Seq<char>>, Option<Seq<char>>),
    sordat: Option<Seq<char>>,
    sorind: Option<Seq<char>>,
    residual: Seq<(Seq<char>, AttrValueView)>,
    geom: Seq<char>,
) -> Seq<SqlParamView> {
    seq![
        SqlParamView::Text(Some(enc_name)),
        SqlParamView::BigInt(fid),
        SqlParamView::Int(meta.edition),
        SqlParamView::Int(Some(meta.update_number)),
        SqlParamView::Int(Some(meta.compilation_scale)),
        SqlParamView::Number(scamin),
        SqlParamView::Int(objl),
    ] + values.map_values(|v: ColValueView| col_param(v)) + seq![
        SqlParamView::Text(style.0),
        SqlParamView::Text(style.1),
        SqlParamView::Text(style.2),
        SqlParamView::Text(sordat),
        SqlParamView::Text(sorind),
        residual_param(residual),
        SqlParamView::Text(Some(geom)),
    ]
}

/// Bind one feature's values in the order of the layer's upsert statement.
pub fn upsert_params(
    ctx: &ChartContext,
    fid: i64,
    common: CommonAttributes,
    col_values: Vec<ColValue>,
    style: StyleProps,
    geom_geojson: String,
) -> (r: Vec<SqlParam>)
    ensures
        params_view(r@) == params_of(
            ctx.enc_name@,
            *ctx.metadata,
            fid,
            common.scamin,
            common.objl,
            col_values_view(col_values@),
            style@,
            opt_text(common.sordat),
            opt_text(common.sorind),
            common.other_attributes@,
            geom_geojson@,
        ),
{
    let ghost cv = col_values_view(col_values@);
    let ghost expected = params_of(
        ctx.enc_name@,
        *ctx.metadata,
        fid,
        common.scamin,
        common.objl,
        cv,
        style@,
        opt_text(common.sordat),
        opt_text(common.sorind),
        common.other_attributes@,
        geom_geojson@,
    );
    let mut out: Vec<SqlParam> = Vec::new();
    out.push(SqlParam::Text(Some(String::from_str(ctx.enc_name))));
    out.push(SqlParam::BigInt(fid));
    out.push(SqlParam::Int(ctx.metadata.edition));
    out.push(SqlParam::Int(Some(ctx.metadata.update_number)));
    out.push(SqlParam::Int(Some(ctx.metadata.compilation_scale)));
    out.push(SqlParam::Number(common.scamin));
    out.push(SqlParam::Int(common.objl));
    assert(params_view(out@) =~= expected.subrange(0, 7));
    let mut values = col_values;
    let ghost all = values@;
    let n = values.len();
    let mut i: usize = 0;
    while i < n
        invariant
            n == all.len(),
            i <= n,
            values@ == all.subrange(i as int, n as int),
            cv == col_values_view(all),
            params_view(out@) =~= expected.subrange(0, 7 + i),
            expected.len() == n + 14,
            forall|j: int| 0 <= j < n ==> #[trigger] expected[7 + j] == col_param(cv[j]),
        decreases n - i,
    {
        let v = values.remove(0);
        assert(v == all[i as int]);
        let p = match v {
            ColValue::Float(x) => SqlParam::Number(x),
            ColValue::Int(x) => SqlParam::Int(x),
            ColValue::Text(x) => SqlParam::Text(x),
        };
        assert(p@ == col_param(cv[i as int]));
        let ghost before = out@;
        out.push(p);
        assert(values@ =~= all.subrange(i + 1, n as int));
        assert(params_view(out@) =~= params_view(before).push(p@));
        assert(expected[7 + i as int] == col_param(cv[i as int]));
        assert(params_view(out@) =~= expected.subrange(0, 7 + i + 1));
        i = i + 1;
    }
    let residual = if common.other_attributes.len() == 0 {
        None
    } else {
        Some(common.other_attributes)
    };
    let ghost mid = out@;
    let mut tail: Vec<SqlParam> = Vec::new();
    tail.push(SqlParam::Text(style.ac));
    tail.push(SqlParam::Text(style.lc));
    tail.push(SqlParam::Text(style.sy));
    tail.push(SqlParam::Text(common.sordat));
    tail.push(SqlParam::Text(common.sorind));
    tail.push(SqlParam::Json(residual));
    tail.push(SqlParam::Text(Some(geom_geojson)));
    assert(params_view(tail@) =~= expected.subrange(7 + n as int, 14 + n as int));
    let ghost t = tail@;
    out.append(&mut tail);
    assert(out@ =~= mid + t);
    assert(params_view(out@) =~= params_view(mid) + params_view(t));
    assert(params_view(out@) =~= expected);
    out
}

/// The parameters of a feature's upsert, as extraction gives them from its
/// fields, the layer's columns and style rule, and its geometry.
pub open spec fn feature_params(
    enc_name: Seq<char>,
    meta: S57Metadata,
    fid: i64,
    fields: Seq<Field>,
    cols: Seq<ColumnDef>,
    rule: Option<StyleRule>,
    geom: Seq<char>,
) -> Seq<SqlParamView> {
    let known = known_fields(cols);
    let typed = typed_of(fields, known);
    params_of(
        enc_name,
        meta,
        fid,
        field_real(fields, "SCAMIN"@),
        field_i32(fields, "OBJL"@),
        cols.map_values(|c: ColumnDef| column_value(c, typed)).map_values(|v: ColValueView| v),
        style_of(rule, typed),
        field_text(fields, "SORDAT"@),
        field_text(fields, "SORIND"@),
        residual_of(fields, known),
        geom,
    )
}

/// The feature id as stored: the reader's id where it fits `i64`, else 0.
pub open spec fn fid_of(fid: Option<u64>) -> i64 {
    match fid {
        Some(f) => if f <= i64::MAX {
            f as i64
        } else {
            0
        },
        None => 0,
    }
}

/// What becomes of one feature: skipped (no geometry, or an empty one), a
/// geometry that could not be converted (an error), or an upsert with its
/// parameters.
#[derive(Debug)]
pub enum FeatureStep {
    Skipped { fid: i64 },
    GeometryError { fid: i64 },
    Upsert { fid: i64, params: Vec<SqlParam> },
}

/// What a `FeatureStep` holds.
pub enum FeatureStepView {
    Skipped(i64),
    GeometryError(i64),
    Upsert(i64, Seq<SqlParamView>),
}

impl View for FeatureStep {
    type V = FeatureStepView;

    open spec fn view(&self) -> FeatureStepView {
        match self {
            FeatureStep::Skipped { fid } => FeatureStepView::Skipped(*fid),
            FeatureStep::GeometryError { fid } => FeatureStepView::GeometryError(*fid),
            FeatureStep::Upsert { fid, params } => FeatureStepView::Upsert(*fid, params_view(params@)),
        }
    }
}

/// What becomes of feature `f` of a chart in layer `def`.
pub open spec fn feature_step(def: LayerDef, enc_name: Seq<char>, meta: S57Metadata, f: ChartFeature) -> FeatureStepView {
    let fid = fid_of(f.fid);
    match f.geometry {
        FeatureGeometry::Missing => FeatureStepView::Skipped(fid),
        FeatureGeometry::Failed => FeatureStepView::GeometryError(fid),
        FeatureGeometry::GeoJson(g) => if g@.len() == 0 {
            FeatureStepView::Skipped(fid)
        } else {
            FeatureStepView::Upsert(
                fid,
                feature_params(enc_name, meta, fid, f.fields@, def.columns@, def.style_rule, g@),
            )
        },
    }
}

/// The field names that a layer's columns read.
pub fn layer_known_fields(def: &LayerDef) -> (r: Vec<&'static str>)
    ensures
        r@ == known_fields(def.columns@),
{
    let mut out: Vec<&'static str> = Vec::new();
    let mut i: usize = 0;
    while i < def.columns.len()
        invariant
            i <= def.columns@.len(),
            out@ =~= known_fields(def.columns@.subrange(0, i as int)),
        decreases def.columns@.len() - i,
    {
        out.push(def.columns[i].s57_field);
        assert(def.columns@.subrange(0, i + 1) =~= def.columns@.subrange(0, i as int).push(def.columns@[i as int]));
        i = i + 1;
    }
    assert(def.columns@.subrange(0, def.columns@.len() as int) =~= def.columns@);
    out
}

/// Decide what becomes of one feature of layer `def` and, for one with a
/// geometry, extract everything its upsert binds.
pub fn prepare_feature(def: &LayerDef, known: &Vec<&'static str>, ctx: &ChartContext, feature: &ChartFeature) -> (r: FeatureStep)
    requires
        known@ == known_fields(def.columns@),
    ensures
        r@ == feature_step(*def, ctx.enc_name@, *ctx.metadata, *feature),
{
    let fid: i64 = match feature.fid {
        Some(f) => if f <= i64::MAX as u64 {
            f as i64
        } else {
            0
        },
        None => 0,
    };
    let geom = match &feature.geometry {
        FeatureGeometry::Missing => {
            return FeatureStep::Skipped { fid };
        },
        FeatureGeometry::Failed => {
            return FeatureStep::GeometryError { fid };
        },
        FeatureGeometry::GeoJson(g) => {
            if g.as_str().unicode_len() == 0 {
                return FeatureStep::Skipped { fid };
            }
            g.clone()
        },
    };
    let (common, typed) = extract_common(feature, known);
    let values = extract_values(def, &typed);
    let style = style_props(def.style_rule, &typed);
    let ghost vals = col_values_view(values@);
    assert(vals =~= def.columns@.map_values(|c: ColumnDef| column_value(c, typed@)).map_values(|v: ColValueView| v));
    let params = upsert_params(ctx, fid, common, values, style, geom);
    FeatureStep::Upsert { fid, params }
}

/// The views of a sequence of feature steps.
pub open spec fn steps_view(v: Seq<FeatureStep>) -> Seq<FeatureStepView> {
    v.map_values(|s: FeatureStep| s@)
}

/// What becomes of each feature of the layers of a chart that `def` reads
/// (its type name, ASCII letters without case), layer by layer in order.
pub open spec fn layer_steps(def: LayerDef, enc_name: Seq<char>, meta: S57Metadata, layers: Seq<ChartLayer>) -> Seq<FeatureStepView>
    decreases layers.len(),
{
    if layers.len() == 0 {
        Seq::empty()
    } else {
        let rest = layer_steps(def, enc_name, meta, layers.drop_last());
        if same_ignoring_case(layers.last().name@, def.s57_name@) {
            rest + layers.last().features@.map_values(|f: ChartFeature| feature_step(def, enc_name, meta, f))
        } else {
            rest
        }
    }
}

/// Go through every feature of the chart layers that `def` reads and decide
/// what becomes of each, in order.
pub fn process_layer(def: &LayerDef, layers: &Vec<ChartLayer>, ctx: &ChartContext) -> (r: Vec<FeatureStep>)
    ensures
        steps_view(r@) == layer_steps(*def, ctx.enc_name@, *ctx.metadata, layers@),
{
    let known = layer_known_fields(def);
    let mut out: Vec<FeatureStep> = Vec::new();
    let mut i: usize = 0;
    while i < layers.len()
        invariant
            i <= layers@.len(),
            known@ == known_fields(def.columns@),
            steps_view(out@) == layer_steps(*def, ctx.enc_name@, *ctx.metadata, layers@.subrange(0, i as int)),
        decreases layers@.len() - i,
    {
        let layer = &layers[i];
        let ghost base = steps_view(out@);
        assert(layers@.subrange(0, i + 1).drop_last() =~= layers@.subrange(0, i as int));
        if eq_ignore_ascii_case(layer.name.as_str(), def.s57_name) {
            let mut j: usize = 0;
            while j < layer.features.len()
                invariant
                    j <= layer.features@.len(),
                    known@ == known_fields(def.columns@),
                    steps_view(out@) == base + layer.features@.subrange(0, j as int).map_values(
                        |f: ChartFeature| feature_step(*def, ctx.enc_name@, *ctx.metadata, f),
                    ),
                decreases layer.features@.len() - j,
            {
                let step = prepare_feature(def, &known, ctx, &layer.features[j]);
                let ghost before = out@;
                out.push(step);
                assert(steps_view(out@) =~= steps_view(before).push(step@));
                assert(layer.features@.subrange(0, j + 1) =~= layer.features@.subrange(0, j as int).push(layer.features@[j as int]));
                assert(steps_view(out@) =~= base + layer.features@.subrange(0, j + 1).map_values(
                    |f: ChartFeature| feature_step(*def, ctx.enc_name@, *ctx.metadata, f),
                ));
                j = j + 1;
            }
            assert(layer.features@.subrange(0, layer.features@.len() as int) =~= layer.features@);
        }
        i = i + 1;
    }
    assert(layers@.subrange(0, layers@.len() as int) =~= layers@);
    out
}

/// What an executed feature step came to.
#[derive(Debug, Clone, Copy, PartialEq, Eq, Structural)]
pub enum FeatureOutcome {
    Skipped,
    GeometryError,
    Upserted,
    UpsertFailed,
}

/// Counts of one layer's features: inserted, failed (geometry or upsert)
/// and skipped.
#[derive(Debug, Clone, Copy, PartialEq, Eq, Structural)]
pub struct LayerTally {
    pub inserted: usize,
    pub errors: usize,
    pub skipped: usize,
}

/// One more, unless the count is already at its largest value.
pub open spec fn bumped(n: usize) -> usize {
    if n < usize::MAX {
        (n + 1) as usize
    } else {
        n
    }
}

fn bump(n: usize) -> (r: usize)
    ensures
        r == bumped(n),
{
    if n < usize::MAX {
        n + 1
    } else {
        n
    }
}

impl LayerTally {
    /// No feature counted yet.
    pub fn new() -> (r: LayerTally)
        ensures
            r == (LayerTally { inserted: 0, errors: 0, skipped: 0 }),
    {
        LayerTally { inserted: 0, errors: 0, skipped: 0 }
    }

    /// Count one feature's outcome.
    pub fn record(&mut self, outcome: FeatureOutcome)
        ensures
            final(self).inserted == if outcome == FeatureOutcome::Upserted {
                bumped(old(self).inserted)
            } else {
                old(self).inserted
            },
            final(self).errors == if outcome == FeatureOutcome::GeometryError || outcome
                == FeatureOutcome::UpsertFailed {
                bumped(old(self).errors)
            } else {
                old(self).errors
            },
            final(self).skipped == if outcome == FeatureOutcome::Skipped {
                bumped(old(self).skipped)
            } else {
                old(self).skipped
            },
    {
        match outcome {
            FeatureOutcome::Upserted => self.inserted = bump(self.inserted),
            FeatureOutcome::GeometryError => self.errors = bump(self.errors),
            FeatureOutcome::UpsertFailed => self.errors = bump(self.errors),
            FeatureOutcome::Skipped => self.skipped = bump(self.skipped),
        }
    }
}

/// The value stored in column `name` of a row written with `params` in the
/// order of `names`.
pub open spec fn read_column(names: Seq<Seq<char>>, params: Seq<SqlParamView>, name: Seq<char>) -> Option<SqlParamView> {
    if exists|i: int| 0 <= i < names.len() && #[trigger] names[i] == name {
        Some(params[choose|i: int| 0 <= i < names.len() && #[trigger] names[i] == name])
    } else {
        None
    }
}

proof fn lemma_read_at(names: Seq<Seq<char>>, params: Seq<SqlParamView>, k: int)
    requires
        names_distinct(names),
        0 <= k < names.len(),
    ensures
        read_column(names, params, names[k]) == Some(params[k]),
{
    let name = names[k];
    assert(0 <= k < names.len() && names[k] == name);
    let j = choose|i: int| 0 <= i < names.len() && #[trigger] names[i] == name;
    if j < k {
        assert(names[j] != names[k]);
    } else if j > k {
        assert(names[k] != names[j]);
    }
}

/// Writing a feature row with its upsert and reading it back gives, in each
/// layer-specific column, the value extracted for it, and in the common
/// columns the chart, feature, scale, style, source and residual values
/// that were bound, for every layer whose column names are distinct.
pub proof fn lemma_upsert_round_trip(
    cols: Seq<ColumnDef>,
    enc_name: Seq<char>,
    meta: S57Metadata,
    fid: i64,
    scamin: Option<Real>,
    objl: Option<i32>,
    values: Seq<ColValueView>,
    style: (Option<Seq<char>>, Option<Seq<char>>, Option<Seq<char>>),
    sordat: Option<Seq<char>>,
    sorind: Option<Seq<char>>,
    residual: Seq<(Seq<char>, AttrValueView)>,
    geom: Seq<char>,
)
    requires
        names_distinct(upsert_columns(cols)),
        values.len() == cols.len(),
    ensures
        ({
            let names = upsert_columns(cols);
            let p = params_of(enc_name, meta, fid, scamin, objl, values, style, sordat, sorind, residual, geom);
            &&& forall|c: int|
                0 <= c < cols.len() ==> read_column(names, p, (#[trigger] cols[c]).sql_column@) == Some(
                    col_param(values[c]),
                )
            &&& read_column(names, p, "enc_name"@) == Some(SqlParamView::Text(Some(enc_name)))
            &&& read_column(names, p, "feature_fid"@) == Some(SqlParamView::BigInt(fid))
            &&& read_column(names, p, "edition"@) == Some(SqlParamView::Int(meta.edition))
            &&& read_column(names, p, "update_number"@) == Some(SqlParamView::Int(Some(meta.update_number)))
            &&& read_column(names, p, "compilation_scale"@) == Some(
                SqlParamView::Int(Some(meta.compilation_scale)),
            )
            &&& read_column(names, p, "scamin"@) == Some(SqlParamView::Number(scamin))
            &&& read_column(names, p, "objl"@) == Some(SqlParamView::Int(objl))
            &&& read_column(names, p, "ac"@) == Some(SqlParamView::Text(style.0))
            &&& read_column(names, p, "lc"@) == Some(SqlParamView::Text(style.1))
            &&& read_column(names, p, "sy"@) == Some(SqlParamView::Text(style.2))
            &&& read_column(names, p, "sordat"@) == Some(SqlParamView::Text(sordat))
            &&& read_column(names, p, "sorind"@) == Some(SqlParamView::Text(sorind))
            &&& read_column(names, p, "attributes"@) == Some(residual_param(residual))
            &&& read_column(names, p, "geom"@) == Some(SqlParamView::Text(Some(geom)))
        }),
{
    let names = upsert_columns(cols);
    let p = params_of(enc_name, meta, fid, scamin, objl, values, style, sordat, sorind, residual, geom);
    let n = cols.len() as int;
    assert(names.len() == n + 14);
    assert(p.len() == n + 14);
    assert forall|c: int| 0 <= c < cols.len() implies read_column(names, p, (#[trigger] cols[c]).sql_column@)
        == Some(col_param(values[c])) by {
        assert(names[7 + c] == cols[c].sql_column@);
        assert(p[7 + c] == col_param(values[c]));
        lemma_read_at(names, p, 7 + c);
    }
    lemma_read_at(names, p, 0);
    lemma_read_at(names, p, n + 7);
    lemma_read_at(names, p, 1);
    lemma_read_at(names, p, n + 8);
    lemma_read_at(names, p, 2);
    lemma_read_at(names, p, n + 9);
    lemma_read_at(names, p, 3);
    lemma_read_at(names, p, n + 10);
    lemma_read_at(names, p, 4);
    lemma_read_at(names, p, n + 11);
    lemma_read_at(names, p, 5);
    lemma_read_at(names, p, n + 12);
    lemma_read_at(names, p, 6);
    lemma_read_at(names, p, n + 13);
    assert(names[0] == "enc_name"@ && names[1] == "feature_fid"@ && names[2] == "edition"@);
    assert(names[3] == "update_number"@ && names[4] == "compilation_scale"@ && names[5] == "scamin"@);
    assert(names[6] == "objl"@);
    assert(names[n + 7] == "ac"@ && names[n + 8] == "lc"@ && names[n + 9] == "sy"@);
    assert(names[n + 10] == "sordat"@ && names[n + 11] == "sorind"@ && names[n + 12] == "attributes"@);
    assert(names[n + 13] == "geom"@);
    assert(read_column(names, p, names[n + 12]) == Some(p[n + 12]));
}

/// Some entry of the map has key `k`.
pub open spec fn has_key(m: Seq<(Seq<char>, AttrValueView)>, k: Seq<char>) -> bool {
    exists|i: int| 0 <= i < m.len() && (#[trigger] m[i]).0 == k
}

proof fn lemma_insert_keys(m: Seq<(Seq<char>, AttrValueView)>, key: Seq<char>, v: AttrValueView, k: Seq<char>)
    ensures
        has_key(attrs_insert(m, key, v), k) == (k == key || has_key(m, k)),
{
    let m2 = attrs_insert(m, key, v);
    if exists|i: int| 0 <= i < m.len() && (#[trigger] m[i]).0 == key {
        let c = key_index(m, key);
        assert(m2 == m.update(c, (key, v)));
        if has_key(m, k) {
            let i = choose|i: int| 0 <= i < m.len() && (#[trigger] m[i]).0 == k;
            if i == c {
                assert(m2[c].0 == key);
                assert(k == key);
            } else {
                assert(m2[i] == m[i]);
            }
        }
        if k == key {
            assert(m2[c].0 == key);
        }
        if has_key(m2, k) {
            let i = choose|i: int| 0 <= i < m2.len() && (#[trigger] m2[i]).0 == k;
            if i != c {
                assert(m2[i] == m[i]);
            }
        }
    } else {
        assert(m2 == m.push((key, v)));
        if has_key(m, k) {
            let i = choose|i: int| 0 <= i < m.len() && (#[trigger] m[i]).0 == k;
            assert(m2[i] == m[i]);
        }
        if k == key {
            assert(m2[m.len() as int].0 == key);
        }
        if has_key(m2, k) {
            let i = choose|i: int| 0 <= i < m2.len() && (#[trigger] m2[i]).0 == k;
            if i < m.len() {
                assert(m2[i] == m[i]);
            }
        }
    }
}

/// Some field of the feature is named `k`.
pub open spec fn has_field(fields: Seq<Field>, k: Seq<char>) -> bool {
    exists|i: int| 0 <= i < fields.len() && (#[trigger] fields[i]).name@ == k
}

/// The residual attributes of a feature hold exactly its fields that are
/// neither common attributes nor read by a column of the layer: a name is a
/// key of the residual map if and only if some field has that name and it
/// is not mapped.
pub proof fn lemma_residual_exact(fields: Seq<Field>, known: Seq<&str>, k: Seq<char>)
    ensures
        has_key(residual_of(fields, known), k) == (has_field(fields, k) && !is_mapped(k, known)),
    decreases fields.len(),
{
    if fields.len() > 0 {
        let init = fields.drop_last();
        let f = fields.last();
        lemma_residual_exact(init, known, k);
        let rest = residual_of(init, known);
        if has_field(init, k) {
            let i = choose|i: int| 0 <= i < init.len() && (#[trigger] init[i]).name@ == k;
            assert(fields[i] == init[i]);
        }
        if has_field(fields, k) && f.name@ != k {
            let i = choose|i: int| 0 <= i < fields.len() && (#[trigger] fields[i]).name@ == k;
            assert(i != fields.len() - 1);
            assert(init[i] == fields[i]);
        }
        if f.name@ == k {
            assert(fields[fields.len() - 1].name@ == k);
        }
        if !is_mapped(f.name@, known) {
            lemma_insert_keys(rest, f.name@, json_view(f.value@), k);
        }
    }
}

} // verus!
