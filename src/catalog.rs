//! The chart catalogue: the skip-or-import decision, the catalogue upsert
//! and the coverage fallback, with a model of the stored rows that states
//! how repeated imports behave.

use vstd::prelude::*;
use vstd::string::*;
use crate::feature::LayerDef;
use crate::s57::S57Metadata;

verus! {

/// Catalogue upsert where the chart has a coverage geometry (parameter 5,
/// GeoJSON); on a conflict every column, coverage included, is replaced.
pub const CATALOG_UPSERT_WITH_COVERAGE: &'static str = "INSERT INTO enc_catalog (enc_name, compilation_scale, edition, update_number, coverage) VALUES ($1, $2, $3, $4, ST_SetSRID(ST_GeomFromGeoJSON($5), 4326)) ON CONFLICT (enc_name) DO UPDATE SET compilation_scale = EXCLUDED.compilation_scale, edition = EXCLUDED.edition, update_number = EXCLUDED.update_number, coverage = EXCLUDED.coverage";

/// Catalogue upsert where the chart has no coverage geometry: a new row gets
/// the placeholder point; an existing row keeps its coverage.
pub const CATALOG_UPSERT_PLACEHOLDER: &'static str = "INSERT INTO enc_catalog (enc_name, compilation_scale, edition, update_number, coverage) VALUES ($1, $2, $3, $4, ST_SetSRID(ST_MakePoint(0, 0), 4326)) ON CONFLICT (enc_name) DO UPDATE SET compilation_scale = EXCLUDED.compilation_scale, edition = EXCLUDED.edition, update_number = EXCLUDED.update_number";

/// The query that reads a chart's catalogue version.
pub const CATALOG_LOOKUP: &'static str = "SELECT edition, update_number FROM enc_catalog WHERE enc_name = $1";

/// The catalogue table: one row per chart name.
pub const CATALOG_TABLE: &'static str = "CREATE TABLE IF NOT EXISTS enc_catalog (\n    enc_name TEXT PRIMARY KEY,\n    compilation_scale INTEGER,\n    edition INTEGER,\n    update_number INTEGER,\n    coverage GEOMETRY(GEOMETRY, 4326)\n);";

/// Start of the coverage fallback, before the union of feature geometries.
pub const FALLBACK_HEAD: &'static str = "UPDATE enc_catalog SET coverage = COALESCE((SELECT ST_ConvexHull(ST_Collect(geom)) FROM (";

/// End of the coverage fallback: only a row still holding the placeholder
/// point is updated.
pub const FALLBACK_TAIL: &'static str = ") AS chart_geoms), coverage) WHERE enc_name = $1 AND ST_Equals(coverage, ST_SetSRID(ST_MakePoint(0, 0), 4326))";

/// The catalogue upsert statement for a chart with or without coverage.
pub fn catalog_upsert_sql(has_coverage: bool) -> (r: &'static str)
    ensures
        r@ == if has_coverage {
            CATALOG_UPSERT_WITH_COVERAGE@
        } else {
            CATALOG_UPSERT_PLACEHOLDER@
        },
{
    if has_coverage {
        CATALOG_UPSERT_WITH_COVERAGE
    } else {
        CATALOG_UPSERT_PLACEHOLDER
    }
}

/// The geometries of one layer table that belong to the chart.
pub open spec fn fallback_select(table: Seq<char>) -> Seq<char> {
    "SELECT geom FROM "@ + table + " WHERE enc_name = $1"@
}

/// The selects of all layer tables, joined into one union.
pub open spec fn fallback_union(layers: Seq<LayerDef>) -> Seq<char>
    decreases layers.len(),
{
    if layers.len() == 0 {
        Seq::empty()
    } else if layers.len() == 1 {
        fallback_select(layers[0].table@)
    } else {
        fallback_union(layers.drop_last()) + " UNION ALL "@ + fallback_select(layers.last().table@)
    }
}

/// The coverage fallback: the convex hull of every feature geometry of the
/// chart over all layer tables, written only where the coverage is still
/// the placeholder and there is a geometry.
pub open spec fn fallback_sql(layers: Seq<LayerDef>) -> Seq<char> {
    FALLBACK_HEAD@ + fallback_union(layers) + FALLBACK_TAIL@
}

/// Build the coverage fallback statement over the given layers (parameter 1
/// is the chart name).
pub fn coverage_fallback_sql(layers: &Vec<LayerDef>) -> (r: String)
    ensures
        r@ == fallback_sql(layers@),
{
    let mut s = String::from_str(FALLBACK_HEAD);
    let ghost head = s@;
    let mut i: usize = 0;
    while i < layers.len()
        invariant
            i <= layers@.len(),
            s@ == head + fallback_union(layers@.subrange(0, i as int)),
        decreases layers@.len() - i,
    {
        if i > 0 {
            s.append(" UNION ALL ");
        }
        s.append("SELECT geom FROM ");
        s.append(layers[i].table);
        s.append(" WHERE enc_name = $1");
        let ghost sub = layers@.subrange(0, i + 1);
        assert(sub.drop_last() =~= layers@.subrange(0, i as int));
        assert(s@ =~= head + fallback_union(sub));
        i = i + 1;
    }
    assert(layers@.subrange(0, layers@.len() as int) =~= layers@);
    s.append(FALLBACK_TAIL);
    assert(s@ =~= fallback_sql(layers@));
    s
}

/// The version of a chart that the catalogue holds.
#[derive(Debug, Clone, Copy, PartialEq, Eq, Structural)]
pub struct CatalogVersion {
    pub edition: Option<i32>,
    pub update_number: i32,
}

/// The chart is already imported with exactly this edition (known or
/// unknown) and update number.
pub open spec fn already_imported(existing: Option<CatalogVersion>, edition: Option<i32>, update_number: i32) -> bool {
    existing matches Some(v) && v.edition == edition && v.update_number == update_number
}

/// Whether the catalogue row of a chart (if any) records exactly this
/// edition and update number; an unknown edition matches only an unknown
/// one.
pub fn is_enc_already_imported(existing: Option<CatalogVersion>, edition: Option<i32>, update_number: i32) -> (r: bool)
    ensures
        r == already_imported(existing, edition, update_number),
{
    match existing {
        Some(v) => {
            let same_edition = match (v.edition, edition) {
                (Some(a), Some(b)) => a == b,
                (None, None) => true,
                _ => false,
            };
            same_edition && v.update_number == update_number
        },
        None => false,
    }
}

/// What the catalogue lookup of a chart came to.
#[derive(Debug, Clone, Copy, PartialEq, Eq, Structural)]
pub enum CatalogLookup {
    Found(CatalogVersion),
    Absent,
    Failed,
}

/// Import a chart or skip it.
#[derive(Debug, Clone, Copy, PartialEq, Eq, Structural)]
pub enum ImportDecision {
    Skip,
    Import,
}

/// The decision for a chart: skip only when the catalogue holds its
/// edition and update number exactly; a failed lookup imports.
pub open spec fn decision_for(lookup: CatalogLookup, meta: S57Metadata) -> ImportDecision {
    match lookup {
        CatalogLookup::Found(v) => if already_imported(Some(v), meta.edition, meta.update_number) {
            ImportDecision::Skip
        } else {
            ImportDecision::Import
        },
        _ => ImportDecision::Import,
    }
}

/// The catalogue is consulted unless a re-import is forced.
pub fn needs_catalog_check(force_reimport: bool) -> (r: bool)
    ensures
        r == !force_reimport,
{
    !force_reimport
}

/// Decide, from the catalogue lookup, whether a chart is imported.
pub fn decide_import(lookup: CatalogLookup, meta: &S57Metadata) -> (r: ImportDecision)
    ensures
        r == decision_for(lookup, *meta),
{
    match lookup {
        CatalogLookup::Found(v) => {
            if is_enc_already_imported(Some(v), meta.edition, meta.update_number) {
                ImportDecision::Skip
            } else {
                ImportDecision::Import
            }
        },
        _ => ImportDecision::Import,
    }
}

/// The coverage a catalogue row holds.
pub enum CoverageState {
    Placeholder,
    Geometry(Seq<char>),
}

/// A catalogue row.
pub struct CatalogRow {
    pub edition: Option<i32>,
    pub update_number: i32,
    pub compilation_scale: i32,
    pub coverage: CoverageState,
}

/// The catalogue: one row per chart name.
pub type Catalog = Map<Seq<char>, CatalogRow>;

/// The catalogue after the catalogue upsert of a chart: the row's version
/// and scale are replaced; its coverage is the chart's coverage where it has
/// one, else the row keeps its coverage, and a new row gets the placeholder.
pub open spec fn catalog_after_upsert(cat: Catalog, name: Seq<char>, meta: S57Metadata, coverage: Option<Seq<char>>) -> Catalog {
    let cov = match coverage {
        Some(g) => CoverageState::Geometry(g),
        None => if cat.contains_key(name) {
            cat[name].coverage
        } else {
            CoverageState::Placeholder
        },
    };
    cat.insert(
        name,
        CatalogRow {
            edition: meta.edition,
            update_number: meta.update_number,
            compilation_scale: meta.compilation_scale,
            coverage: cov,
        },
    )
}

/// The catalogue after the coverage fallback with `hull` the convex hull of
/// the chart's feature geometries (none where it has none): only a row
/// still holding the placeholder takes the hull.
pub open spec fn catalog_after_fallback(cat: Catalog, name: Seq<char>, hull: Option<Seq<char>>) -> Catalog {
    if cat.contains_key(name) && cat[name].coverage == CoverageState::Placeholder && hull is Some {
        cat.insert(name, CatalogRow { coverage: CoverageState::Geometry(hull->0), ..cat[name] })
    } else {
        cat
    }
}

/// What the catalogue lookup of a chart finds.
pub open spec fn lookup_in(cat: Catalog, name: Seq<char>) -> CatalogLookup {
    if cat.contains_key(name) {
        CatalogLookup::Found(CatalogVersion { edition: cat[name].edition, update_number: cat[name].update_number })
    } else {
        CatalogLookup::Absent
    }
}

/// The catalogue upsert of a chart leaves one row for it, holding the
/// chart's edition, update number and scale, and the coverage it brought
/// (the placeholder for a new row without one); other charts' rows stay as
/// they were.
pub proof fn lemma_catalog_upsert_row(cat: Catalog, name: Seq<char>, meta: S57Metadata, coverage: Option<Seq<char>>)
    ensures
        ({
            let after = catalog_after_upsert(cat, name, meta, coverage);
            &&& after.contains_key(name)
            &&& after[name].edition == meta.edition
            &&& after[name].update_number == meta.update_number
            &&& after[name].compilation_scale == meta.compilation_scale
            &&& (coverage matches Some(g) ==> after[name].coverage == CoverageState::Geometry(g))
            &&& (coverage is None && !cat.contains_key(name) ==> after[name].coverage == CoverageState::Placeholder)
            &&& after.dom() == cat.dom().insert(name)
            &&& forall|other: Seq<char>| other != name && cat.contains_key(other) ==> #[trigger] after[other] == cat[other]
        }),
{
}

/// A chart imported once is skipped when it comes again with the same
/// edition and update number.
pub proof fn lemma_second_import_skipped(cat: Catalog, name: Seq<char>, meta: S57Metadata, coverage: Option<Seq<char>>)
    ensures
        decision_for(lookup_in(catalog_after_upsert(cat, name, meta, coverage), name), meta) == ImportDecision::Skip,
{
}

/// A chart that comes again with another update number than the catalogue
/// records is imported, whatever its name and edition.
pub proof fn lemma_new_update_imported(cat: Catalog, name: Seq<char>, meta: S57Metadata, update_number: i32)
    requires
        cat.contains_key(name),
        cat[name].update_number != update_number,
    ensures
        decision_for(lookup_in(cat, name), S57Metadata { update_number, ..meta }) == ImportDecision::Import,
{
}

/// A chart imported with a coverage geometry keeps it: the fallback never
/// overwrites it, whatever hull it computes.
pub proof fn lemma_fallback_keeps_coverage(cat: Catalog, name: Seq<char>, meta: S57Metadata, g: Seq<char>, hull: Option<Seq<char>>)
    ensures
        catalog_after_fallback(catalog_after_upsert(cat, name, meta, Some(g)), name, hull)[name].coverage
            == CoverageState::Geometry(g),
{
}

/// A chart imported without a coverage geometry, whose row is new or still
/// holds the placeholder, ends up with the convex hull of its features'
/// geometries once it has at least one.
pub proof fn lemma_fallback_fills_coverage(cat: Catalog, name: Seq<char>, meta: S57Metadata, hull: Seq<char>)
    requires
        !cat.contains_key(name) || cat[name].coverage == CoverageState::Placeholder,
    ensures
        catalog_after_fallback(catalog_after_upsert(cat, name, meta, None), name, Some(hull))[name].coverage
            == CoverageState::Geometry(hull),
{
}

/// The key of a feature row: chart name, edition (unknown editions equal
/// one another), update number and feature id.
pub type FeatureKey = (Seq<char>, Option<i32>, i32, i64);

/// A layer table: one row per key.
pub type FeatureTable<V> = Map<FeatureKey, V>;

/// The table after upserting the rows in order: each row replaces the one
/// with its key, or is added.
pub open spec fn apply_upserts<V>(table: FeatureTable<V>, rows: Seq<(FeatureKey, V)>) -> FeatureTable<V>
    decreases rows.len(),
{
    if rows.len() == 0 {
        table
    } else {
        apply_upserts(table, rows.drop_last()).insert(rows.last().0, rows.last().1)
    }
}

proof fn lemma_upserts_overlay<V>(table: FeatureTable<V>, rows: Seq<(FeatureKey, V)>)
    ensures
        apply_upserts(table, rows) =~= table.union_prefer_right(apply_upserts(Map::empty(), rows)),
    decreases rows.len(),
{
    if rows.len() > 0 {
        lemma_upserts_overlay(table, rows.drop_last());
        lemma_upserts_overlay(Map::<FeatureKey, V>::empty(), rows.drop_last());
    }
}

/// Importing the same rows twice in a row leaves the table as one import
/// does: no row is duplicated and every value is the same.
pub proof fn lemma_upserts_idempotent<V>(table: FeatureTable<V>, rows: Seq<(FeatureKey, V)>)
    ensures
        apply_upserts(apply_upserts(table, rows), rows) == apply_upserts(table, rows),
{
    let w = apply_upserts(Map::<FeatureKey, V>::empty(), rows);
    lemma_upserts_overlay(table, rows);
    lemma_upserts_overlay(apply_upserts(table, rows), rows);
    assert(table.union_prefer_right(w).union_prefer_right(w) =~= table.union_prefer_right(w));
}

} // verus!
