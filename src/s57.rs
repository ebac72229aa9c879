//! A chart cell as the chart reader hands it over (layers of features with
//! named fields and a geometry), and what is read from its metadata and
//! coverage layers.

use vstd::prelude::*;
use vstd::string::*;
use crate::attrs::{
    AttrValue,
    AttrValueView,
    Field,
    same_text,
    eq_ignore_ascii_case,
    field_int32,
    find_field,
    field_pos_from,
    int32_of,
    same_ignoring_case,
    to_upper,
    upper_of,
};

verus! {

/// The geometry of a feature: none, its GeoJSON text, or a conversion that
/// failed.
#[derive(Debug)]
pub enum FeatureGeometry {
    Missing,
    GeoJson(String),
    Failed,
}

/// One feature of a chart layer. `fields` holds the fields that have a
/// value, in the layer's field order.
#[derive(Debug)]
pub struct ChartFeature {
    pub fid: Option<u64>,
    pub fields: Vec<Field>,
    pub geometry: FeatureGeometry,
}

/// One layer of a chart cell, by feature type name.
#[derive(Debug)]
pub struct ChartLayer {
    pub name: String,
    pub features: Vec<ChartFeature>,
}

/// Metadata of a chart cell from its dataset identification record.
#[derive(Debug, Clone, Copy, PartialEq, Eq, Structural)]
pub struct S57Metadata {
    pub edition: Option<i32>,
    pub update_number: i32,
    pub compilation_scale: i32,
}

/// Metadata with nothing read: edition unknown, update and scale 0.
pub open spec fn unknown_metadata() -> S57Metadata {
    S57Metadata { edition: None, update_number: 0, compilation_scale: 0 }
}

/// The metadata that the fields of an identification record give, each
/// field read in order: `EDTN` the edition, `UPDN` the update number and
/// `DSPM_CSCL` the compilation scale (names taken in upper case); an
/// unreadable update number or scale counts as 0.
pub open spec fn metadata_from_fields(fields: Seq<Field>) -> S57Metadata
    decreases fields.len(),
{
    if fields.len() == 0 {
        unknown_metadata()
    } else {
        let f = fields.last();
        with_field(metadata_from_fields(fields.drop_last()), upper_of(f.name@), f.value@)
    }
}

/// The metadata after reading one field whose name, in upper case, is
/// `upper`: `EDTN` sets the edition, `UPDN` the update number and
/// `DSPM_CSCL` the compilation scale (0 where unreadable); other fields
/// change nothing.
pub open spec fn with_field(m: S57Metadata, upper: Seq<char>, v: AttrValueView) -> S57Metadata {
    let x = int32_of(v);
    if upper == "EDTN"@ {
        S57Metadata { edition: x, ..m }
    } else if upper == "UPDN"@ {
        S57Metadata { update_number: x.unwrap_or(0), ..m }
    } else if upper == "DSPM_CSCL"@ {
        S57Metadata { compilation_scale: x.unwrap_or(0), ..m }
    } else {
        m
    }
}

/// Read one identification field, its name already in upper case, into the
/// metadata.
pub fn read_metadata_field(m: S57Metadata, upper_name: &str, value: &AttrValue) -> (r: S57Metadata)
    ensures
        r == with_field(m, upper_name@, value@),
{
    let v = field_int32(value);
    let mut m = m;
    if same_text(upper_name, "EDTN") {
        m.edition = v;
    } else if same_text(upper_name, "UPDN") {
        m.update_number = match v {
            Some(x) => x,
            None => 0,
        };
    } else if same_text(upper_name, "DSPM_CSCL") {
        m.compilation_scale = match v {
            Some(x) => x,
            None => 0,
        };
    }
    m
}

/// The position of the first identification layer at or after `i` that has
/// a feature, or -1.
pub open spec fn dsid_pos_from(layers: Seq<ChartLayer>, i: int) -> int
    decreases layers.len() - i,
{
    if i < 0 || i >= layers.len() {
        -1
    } else if same_ignoring_case(layers[i].name@, "DSID"@) && layers[i].features@.len() > 0 {
        i
    } else {
        dsid_pos_from(layers, i + 1)
    }
}

/// The metadata of a chart: from the first feature of its first
/// identification layer that has one, or unknown.
pub open spec fn metadata_of(layers: Seq<ChartLayer>) -> S57Metadata {
    let p = dsid_pos_from(layers, 0);
    if p >= 0 {
        metadata_from_fields(layers[p].features@[0].fields@)
    } else {
        unknown_metadata()
    }
}

/// Read edition, update number and compilation scale from the chart's
/// identification layer.
pub fn extract_metadata(layers: &Vec<ChartLayer>) -> (r: S57Metadata)
    ensures
        r == metadata_of(layers@),
{
    let mut i: usize = 0;
    while i < layers.len()
        invariant
            i <= layers@.len(),
            dsid_pos_from(layers@, 0) == dsid_pos_from(layers@, i as int),
        decreases layers@.len() - i,
    {
        let layer = &layers[i];
        if eq_ignore_ascii_case(layer.name.as_str(), "DSID") && layer.features.len() > 0 {
            return metadata_from(&layer.features[0].fields);
        }
        i = i + 1;
    }
    S57Metadata { edition: None, update_number: 0, compilation_scale: 0 }
}

fn metadata_from(fields: &Vec<Field>) -> (r: S57Metadata)
    ensures
        r == metadata_from_fields(fields@),
{
    let mut m = S57Metadata { edition: None, update_number: 0, compilation_scale: 0 };
    let mut i: usize = 0;
    while i < fields.len()
        invariant
            i <= fields@.len(),
            m == metadata_from_fields(fields@.subrange(0, i as int)),
        decreases fields@.len() - i,
    {
        let f = &fields[i];
        let u = to_upper(f.name.as_str());
        assert(fields@.subrange(0, i + 1).drop_last() =~= fields@.subrange(0, i as int));
        m = read_metadata_field(m, u.as_str(), &f.value);
        i = i + 1;
    }
    assert(fields@.subrange(0, fields@.len() as int) =~= fields@);
    m
}

/// The GeoJSON texts of the coverage features: those whose `CATCOV` field
/// reads 1 and whose geometry converted to a non-empty text, in order.
pub open spec fn coverage_parts(features: Seq<ChartFeature>) -> Seq<Seq<char>>
    decreases features.len(),
{
    if features.len() == 0 {
        Seq::empty()
    } else {
        let rest = coverage_parts(features.drop_last());
        let f = features.last();
        let p = field_pos_from(f.fields@, "CATCOV"@, 0);
        let covered = p >= 0 && int32_of(f.fields@[p].value@) == Some(1i32);
        match f.geometry {
            FeatureGeometry::GeoJson(g) => if covered && g@.len() > 0 {
                rest.push(g@)
            } else {
                rest
            },
            _ => rest,
        }
    }
}

/// The texts joined by commas.
pub open spec fn comma_joined(parts: Seq<Seq<char>>) -> Seq<char>
    decreases parts.len(),
{
    if parts.len() == 0 {
        Seq::empty()
    } else if parts.len() == 1 {
        parts[0]
    } else {
        comma_joined(parts.drop_last()) + ","@ + parts.last()
    }
}

/// One coverage geometry as it is; several wrapped in a GeoJSON geometry
/// collection; none gives no coverage.
pub open spec fn coverage_geometry(parts: Seq<Seq<char>>) -> Option<Seq<char>> {
    if parts.len() == 0 {
        None
    } else if parts.len() == 1 {
        Some(parts[0])
    } else {
        Some("{\"type\":\"GeometryCollection\",\"geometries\":["@ + comma_joined(parts) + "]}"@)
    }
}

/// The position of the first coverage layer at or after `i`, or -1.
pub open spec fn covr_pos_from(layers: Seq<ChartLayer>, i: int) -> int
    decreases layers.len() - i,
{
    if i < 0 || i >= layers.len() {
        -1
    } else if same_ignoring_case(layers[i].name@, "M_COVR"@) {
        i
    } else {
        covr_pos_from(layers, i + 1)
    }
}

/// The coverage of a chart from its first coverage layer, if it has one.
pub open spec fn coverage_of(layers: Seq<ChartLayer>) -> Option<Seq<char>> {
    let p = covr_pos_from(layers, 0);
    if p >= 0 {
        coverage_geometry(coverage_parts(layers[p].features@))
    } else {
        None
    }
}

/// Read the chart's coverage polygon from its coverage layer, as GeoJSON:
/// `None` where the chart has no coverage layer or no usable coverage
/// feature.
pub fn extract_coverage_geojson(layers: &Vec<ChartLayer>) -> (r: Option<String>)
    ensures
        opt_chars(r) == coverage_of(layers@),
{
    let mut i: usize = 0;
    while i < layers.len()
        invariant
            i <= layers@.len(),
            covr_pos_from(layers@, 0) == covr_pos_from(layers@, i as int),
        decreases layers@.len() - i,
    {
        let layer = &layers[i];
        if eq_ignore_ascii_case(layer.name.as_str(), "M_COVR") {
            let parts = coverage_texts(&layer.features);
            return join_coverage(parts);
        }
        i = i + 1;
    }
    None
}

/// The characters of an optional string.
pub open spec fn opt_chars(o: Option<String>) -> Option<Seq<char>> {
    match o {
        Some(s) => Some(s@),
        None => None,
    }
}

/// The characters of each string.
pub open spec fn strings_view(v: Seq<String>) -> Seq<Seq<char>> {
    v.map_values(|s: String| s@)
}

fn coverage_texts(features: &Vec<ChartFeature>) -> (r: Vec<String>)
    ensures
        strings_view(r@) == coverage_parts(features@),
{
    let mut out: Vec<String> = Vec::new();
    let mut i: usize = 0;
    while i < features.len()
        invariant
            i <= features@.len(),
            strings_view(out@) == coverage_parts(features@.subrange(0, i as int)),
        decreases features@.len() - i,
    {
        let f = &features[i];
        assert(features@.subrange(0, i + 1).drop_last() =~= features@.subrange(0, i as int));
        let covered = match find_field(&f.fields, "CATCOV") {
            Some(p) => field_int32(&f.fields[p].value) == Some(1i32),
            None => false,
        };
        match &f.geometry {
            FeatureGeometry::GeoJson(g) => {
                if covered && g.as_str().unicode_len() > 0 {
                    let ghost before = out@;
                    out.push(g.clone());
                    assert(strings_view(out@) =~= strings_view(before).push(g@));
                }
            },
            _ => {},
        }
        i = i + 1;
    }
    assert(features@.subrange(0, features@.len() as int) =~= features@);
    out
}

fn join_coverage(parts: Vec<String>) -> (r: Option<String>)
    ensures
        opt_chars(r) == coverage_geometry(strings_view(parts@)),
{
    if parts.len() == 0 {
        return None;
    }
    if parts.len() == 1 {
        return Some(parts[0].clone());
    }
    let mut s = String::from_str("{\"type\":\"GeometryCollection\",\"geometries\":[");
    let ghost head = s@;
    let mut i: usize = 0;
    while i < parts.len()
        invariant
            i <= parts@.len(),
            s@ == head + comma_joined(strings_view(parts@.subrange(0, i as int))),
        decreases parts@.len() - i,
    {
        if i > 0 {
            s.append(",");
        }
        s.append(parts[i].as_str());
        let ghost sub = strings_view(parts@.subrange(0, i + 1));
        assert(sub.drop_last() =~= strings_view(parts@.subrange(0, i as int)));
        assert(sub.last() == parts@[i as int]@);
        assert(s@ =~= head + comma_joined(sub));
        i = i + 1;
    }
    assert(parts@.subrange(0, parts@.len() as int) =~= parts@);
    s.append("]}");
    assert(s@ =~= "{\"type\":\"GeometryCollection\",\"geometries\":["@ + comma_joined(strings_view(parts@)) + "]}"@);
    Some(s)
}

} // verus!
