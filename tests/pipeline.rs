use openenc::attrs::{AttrValue, Field};
use openenc::catalog::{
    catalog_upsert_sql, coverage_fallback_sql, decide_import, is_enc_already_imported, needs_catalog_check,
    CatalogLookup, CatalogVersion, ImportDecision,
};
use openenc::depth::Real;
use openenc::extract::{
    extract_common, extract_values, prepare_feature, process_layer, upsert_params, ChartContext, ColValue,
    FeatureOutcome, FeatureStep, LayerTally, SqlParam, layer_known_fields,
};
use openenc::feature::{ColType, ColumnDef, LayerDef};
use openenc::features::{all_layers, depare_style};
use openenc::import::{admission_limit, chart_feature_count, BatchSummary, ChartImport, ChartResult};
use openenc::s57::{extract_coverage_geojson, extract_metadata, read_metadata_field, ChartFeature, ChartLayer, FeatureGeometry, S57Metadata};
use openenc::style::{generate_css, ColorToken};
use openenc::util::{enc_name_from_path, enc_name_from_stem, is_base_chart_extension};

fn field(name: &str, value: AttrValue) -> Field {
    Field { name: name.to_string(), value }
}

fn feature(fid: u64, fields: Vec<Field>, geometry: FeatureGeometry) -> ChartFeature {
    ChartFeature { fid: Some(fid), fields, geometry }
}

fn point() -> FeatureGeometry {
    FeatureGeometry::GeoJson("{\"type\":\"Point\",\"coordinates\":[1,2]}".to_string())
}

fn meta() -> S57Metadata {
    S57Metadata { edition: Some(3), update_number: 2, compilation_scale: 12000 }
}

#[test]
fn metadata_from_identification_layer() {
    let layers = vec![
        ChartLayer { name: "DSID".to_string(), features: vec![] },
        ChartLayer {
            name: "dsid".to_string(),
            features: vec![feature(
                1,
                vec![
                    field("EDTN", AttrValue::Int(4)),
                    field("updn", AttrValue::Int(7)),
                    field("DSPM_CSCL", AttrValue::Int(50000)),
                    field("DSNM", AttrValue::Text("US5WA22M.000".to_string())),
                ],
                FeatureGeometry::Missing,
            )],
        },
    ];
    let m = extract_metadata(&layers);
    assert_eq!(m, S57Metadata { edition: Some(4), update_number: 7, compilation_scale: 50000 });
}

#[test]
fn metadata_defaults() {
    let m = extract_metadata(&vec![]);
    assert_eq!(m, S57Metadata { edition: None, update_number: 0, compilation_scale: 0 });
    let layers = vec![ChartLayer {
        name: "DSID".to_string(),
        features: vec![feature(1, vec![field("UPDN", AttrValue::Text("x".to_string())), field("EDTN", AttrValue::Int(1 << 40))], FeatureGeometry::Missing)],
    }];
    assert_eq!(extract_metadata(&layers), S57Metadata { edition: None, update_number: 0, compilation_scale: 0 });
}

fn covr(catcov: i64, geom: &str) -> ChartFeature {
    feature(9, vec![field("CATCOV", AttrValue::Int(catcov))], FeatureGeometry::GeoJson(geom.to_string()))
}

#[test]
fn coverage_from_coverage_layer() {
    let one = vec![ChartLayer { name: "M_COVR".to_string(), features: vec![covr(1, "A"), covr(2, "B"), covr(1, "")] }];
    assert_eq!(extract_coverage_geojson(&one), Some("A".to_string()));
    let two = vec![ChartLayer { name: "m_covr".to_string(), features: vec![covr(1, "A"), covr(1, "C")] }];
    assert_eq!(
        extract_coverage_geojson(&two),
        Some("{\"type\":\"GeometryCollection\",\"geometries\":[A,C]}".to_string())
    );
    let none = vec![ChartLayer { name: "M_COVR".to_string(), features: vec![covr(2, "A")] }];
    assert_eq!(extract_coverage_geojson(&none), None);
    assert_eq!(extract_coverage_geojson(&vec![]), None);
}

fn sounding_fields() -> Vec<Field> {
    vec![
        field("SCAMIN", AttrValue::Real(Real { mantissa: 22000, exponent: 0 })),
        field("OBJL", AttrValue::Int(129)),
        field("SORDAT", AttrValue::Text("20200101".to_string())),
        field("SORIND", AttrValue::Stamp("x".to_string())),
        field("depth", AttrValue::Real(Real { mantissa: 7, exponent: -1 })),
        field("QUASOU", AttrValue::IntList(vec![1])),
        field("TECSOU", AttrValue::Int(3)),
        field("LNAM", AttrValue::Text("0226".to_string())),
        field("RCID", AttrValue::Int(17)),
    ]
}

#[test]
fn common_and_typed_attributes() {
    let f = feature(5, sounding_fields(), point());
    let known = vec!["DEPTH", "TECSOU", "QUASOU", "STATUS"];
    let (common, typed) = extract_common(&f, &known);
    assert_eq!(common.scamin, Some(Real { mantissa: 22000, exponent: 0 }));
    assert_eq!(common.objl, Some(129));
    assert_eq!(common.sordat.as_deref(), Some("20200101"));
    assert_eq!(common.sorind, None);
    let keys: Vec<&str> = common.other_attributes.entries.iter().map(|a| a.key.as_str()).collect();
    assert_eq!(keys, vec!["LNAM", "RCID"]);
    let tkeys: Vec<&str> = typed.entries.iter().map(|a| a.key.as_str()).collect();
    assert_eq!(tkeys, vec!["DEPTH", "TECSOU", "QUASOU"]);
}

#[test]
fn typed_keys_are_upper_case() {
    let f = feature(5, vec![field("objnam", AttrValue::Text("Pier".to_string()))], point());
    let known = vec!["objnam"];
    let (_, typed) = extract_common(&f, &known);
    assert_eq!(typed.entries[0].key, "OBJNAM");
}

#[test]
fn column_values_by_type() {
    let layers = all_layers();
    let soundg = &layers[3];
    let f = feature(5, sounding_fields(), point());
    let known = layer_known_fields(soundg);
    let (_, typed) = extract_common(&f, &known);
    let values = extract_values(soundg, &typed);
    assert_eq!(values.len(), 4);
    assert!(matches!(values[0], ColValue::Float(Some(Real { mantissa: 7, exponent: -1 }))));
    assert!(matches!(values[1], ColValue::Int(Some(3))));
    assert!(matches!(values[2], ColValue::Int(None)));
    assert!(matches!(values[3], ColValue::Int(None)));
    let lights = &layers[2];
    let f = feature(
        6,
        vec![
            field("OBJNAM", AttrValue::Text("Alki".to_string())),
            field("CATLIT", AttrValue::Int(1 << 33 | 5)),
            field("LITCHR", AttrValue::Int(-7)),
        ],
        point(),
    );
    let (_, typed) = extract_common(&f, &layer_known_fields(lights));
    let values = extract_values(lights, &typed);
    assert!(matches!(values[0], ColValue::Int(None)));
    assert!(matches!(values[2], ColValue::Int(Some(-7))));
    assert!(matches!(values[6], ColValue::Text(Some(ref s)) if s == "Alki"));
}

fn ctx_meta() -> S57Metadata {
    meta()
}

#[test]
fn feature_steps() {
    let layers = all_layers();
    let depare = &layers[0];
    let m = ctx_meta();
    let ctx = ChartContext { enc_name: "US5WA22M", metadata: &m };
    let known = layer_known_fields(depare);
    let missing = feature(1, vec![], FeatureGeometry::Missing);
    assert!(matches!(prepare_feature(depare, &known, &ctx, &missing), FeatureStep::Skipped { fid: 1 }));
    let empty = feature(2, vec![], FeatureGeometry::GeoJson(String::new()));
    assert!(matches!(prepare_feature(depare, &known, &ctx, &empty), FeatureStep::Skipped { fid: 2 }));
    let failed = feature(3, vec![], FeatureGeometry::Failed);
    assert!(matches!(prepare_feature(depare, &known, &ctx, &failed), FeatureStep::GeometryError { fid: 3 }));
    let huge = ChartFeature { fid: Some(u64::MAX), fields: vec![], geometry: FeatureGeometry::Missing };
    assert!(matches!(prepare_feature(depare, &known, &ctx, &huge), FeatureStep::Skipped { fid: 0 }));
    let good = feature(4, vec![field("DRVAL1", AttrValue::Int(2)), field("NOBJNM", AttrValue::Text("x".to_string()))], point());
    match prepare_feature(depare, &known, &ctx, &good) {
        FeatureStep::Upsert { fid, params } => {
            assert_eq!(fid, 4);
            assert_eq!(params.len(), 16);
            assert!(matches!(params[0], SqlParam::Text(Some(ref s)) if s == "US5WA22M"));
            assert!(matches!(params[1], SqlParam::BigInt(4)));
            assert!(matches!(params[2], SqlParam::Int(Some(3))));
            assert!(matches!(params[3], SqlParam::Int(Some(2))));
            assert!(matches!(params[4], SqlParam::Int(Some(12000))));
            assert!(matches!(params[7], SqlParam::Number(Some(Real { mantissa: 2, exponent: 0 }))));
            assert!(matches!(params[8], SqlParam::Number(None)));
            assert!(matches!(params[9], SqlParam::Text(Some(ref s)) if s == "DEPVS"));
            assert!(matches!(params[10], SqlParam::Text(Some(ref s)) if s == "CHGRD"));
            assert!(matches!(params[11], SqlParam::Text(None)));
            match &params[14] {
                SqlParam::Json(Some(a)) => {
                    assert_eq!(a.entries.len(), 1);
                    assert_eq!(a.entries[0].key, "NOBJNM");
                }
                _ => panic!("residual attributes missing"),
            }
            assert!(matches!(params[15], SqlParam::Text(Some(ref s)) if s.contains("Point")));
        }
        _ => panic!("feature with geometry not upserted"),
    }
}

#[test]
fn empty_residual_binds_nothing() {
    let layers = all_layers();
    let m = ctx_meta();
    let ctx = ChartContext { enc_name: "C", metadata: &m };
    let f = feature(4, vec![field("DRVAL1", AttrValue::Int(2))], point());
    let known = layer_known_fields(&layers[0]);
    let (common, typed) = extract_common(&f, &known);
    let values = extract_values(&layers[0], &typed);
    let style = depare_style(&typed);
    let params = upsert_params(&ctx, 4, common, values, style, "G".to_string());
    assert!(matches!(params[14], SqlParam::Json(None)));
    assert!(matches!(params[15], SqlParam::Text(Some(ref s)) if s == "G"));
}

#[test]
fn process_layer_reads_matching_layers_only() {
    let layers = all_layers();
    let m = ctx_meta();
    let ctx = ChartContext { enc_name: "C", metadata: &m };
    let chart = vec![
        ChartLayer { name: "depare".to_string(), features: vec![feature(1, vec![], point()), feature(2, vec![], FeatureGeometry::Missing)] },
        ChartLayer { name: "LNDARE".to_string(), features: vec![feature(3, vec![], point())] },
        ChartLayer { name: "DEPARE".to_string(), features: vec![feature(4, vec![], FeatureGeometry::Failed)] },
    ];
    let steps = process_layer(&layers[0], &chart, &ctx);
    assert_eq!(steps.len(), 3);
    assert!(matches!(steps[0], FeatureStep::Upsert { fid: 1, .. }));
    assert!(matches!(steps[1], FeatureStep::Skipped { fid: 2 }));
    assert!(matches!(steps[2], FeatureStep::GeometryError { fid: 4 }));
}

#[test]
fn layer_tally_counts() {
    let mut t = LayerTally::new();
    t.record(FeatureOutcome::Upserted);
    t.record(FeatureOutcome::Upserted);
    t.record(FeatureOutcome::UpsertFailed);
    t.record(FeatureOutcome::GeometryError);
    t.record(FeatureOutcome::Skipped);
    assert_eq!(t, LayerTally { inserted: 2, errors: 2, skipped: 1 });
    let mut c = ChartImport::new(false);
    c.record_layer(&t);
    c.record_layer_failure();
    assert_eq!(c.total, 2);
    assert_eq!(c.errors, 3);
    assert!(!c.is_failure());
}

#[test]
fn skip_when_same_edition_and_update() {
    let row = CatalogVersion { edition: Some(3), update_number: 2 };
    assert!(is_enc_already_imported(Some(row), Some(3), 2));
    assert_eq!(decide_import(CatalogLookup::Found(row), &meta()), ImportDecision::Skip);
    assert!(needs_catalog_check(false));
    assert!(!needs_catalog_check(true));
}

#[test]
fn reimport_on_incremented_update() {
    let row = CatalogVersion { edition: Some(3), update_number: 2 };
    assert!(!is_enc_already_imported(Some(row), Some(3), 3));
    let newer = S57Metadata { update_number: 3, ..meta() };
    assert_eq!(decide_import(CatalogLookup::Found(row), &newer), ImportDecision::Import);
    let new_edition = S57Metadata { edition: Some(4), update_number: 0, ..meta() };
    assert_eq!(decide_import(CatalogLookup::Found(row), &new_edition), ImportDecision::Import);
}

#[test]
fn lookup_absent_or_failed_imports() {
    assert!(!is_enc_already_imported(None, Some(3), 2));
    assert!(!is_enc_already_imported(Some(CatalogVersion { edition: None, update_number: 2 }), Some(0), 2));
    assert!(is_enc_already_imported(Some(CatalogVersion { edition: None, update_number: 2 }), None, 2));
    let unknown = S57Metadata { edition: None, ..meta() };
    let row = CatalogVersion { edition: None, update_number: 2 };
    assert_eq!(decide_import(CatalogLookup::Found(row), &unknown), ImportDecision::Skip);
    assert_eq!(decide_import(CatalogLookup::Absent, &meta()), ImportDecision::Import);
    assert_eq!(decide_import(CatalogLookup::Failed, &meta()), ImportDecision::Import);
}

#[test]
fn catalog_statements() {
    assert!(catalog_upsert_sql(true).contains("coverage = EXCLUDED.coverage"));
    assert!(catalog_upsert_sql(true).contains("ST_GeomFromGeoJSON($5)"));
    assert!(catalog_upsert_sql(false).contains("ST_MakePoint(0, 0)"));
    assert!(!catalog_upsert_sql(false).contains("coverage = EXCLUDED.coverage"));
    let sql = coverage_fallback_sql(&all_layers());
    assert_eq!(
        sql,
        "UPDATE enc_catalog SET coverage = COALESCE((SELECT ST_ConvexHull(ST_Collect(geom)) FROM (SELECT geom FROM depare WHERE enc_name = $1 UNION ALL SELECT geom FROM lndare WHERE enc_name = $1 UNION ALL SELECT geom FROM lights WHERE enc_name = $1 UNION ALL SELECT geom FROM soundg WHERE enc_name = $1) AS chart_geoms), coverage) WHERE enc_name = $1 AND ST_Equals(coverage, ST_SetSRID(ST_MakePoint(0, 0), 4326))"
    );
}

#[test]
fn coverage_fallback_decision() {
    let mut c = ChartImport::new(false);
    assert!(!c.needs_coverage_fallback());
    c.record_layer(&LayerTally { inserted: 1, errors: 0, skipped: 0 });
    assert!(c.needs_coverage_fallback());
    let mut d = ChartImport::new(true);
    d.record_layer(&LayerTally { inserted: 5, errors: 0, skipped: 0 });
    assert!(!d.needs_coverage_fallback());
}

#[test]
fn failed_chart_does_not_stop_batch() {
    let results = vec![ChartResult::Imported(10), ChartResult::Failed, ChartResult::Imported(5), ChartResult::Skipped];
    let mut s = BatchSummary::new();
    for r in &results {
        s.record(*r);
    }
    assert_eq!(s, BatchSummary { charts: 4, failed: 1, features: 15 });
    assert_eq!(chart_feature_count(ChartResult::Failed), 0);
    let mut c = ChartImport::new(true);
    c.record_layer_failure();
    assert!(c.is_failure());
}

#[test]
fn admission_below_pool() {
    assert_eq!(admission_limit(10, 20), 10);
    assert_eq!(admission_limit(30, 20), 19);
    assert_eq!(admission_limit(0, 20), 1);
    assert_eq!(admission_limit(4, 1), 1);
    assert_eq!(admission_limit(4, 0), 1);
}

#[test]
fn chart_names_from_paths() {
    assert_eq!(enc_name_from_path("/data/US5WA22M/US5WA22M.000"), "US5WA22M");
    assert_eq!(enc_name_from_path("cells/US5WA22M.tar.000"), "US5WA22M");
    assert_eq!(enc_name_from_path("/"), "unknown");
    assert_eq!(enc_name_from_stem(Some("A.B")), "A");
    assert_eq!(enc_name_from_stem(None), "unknown");
}

#[test]
fn theme_css() {
    let colors = vec![
        ColorToken { token: "CURSR".to_string(), hex: "#F0F0F0".to_string() },
        ColorToken { token: "DEPDW".to_string(), hex: "#C9EDFD".to_string() },
    ];
    let css = generate_css(&colors);
    assert!(css.starts_with("svg {\n    background-color: #000000;\n    color: #F0F0F0;\n}\n.layout {display:none}\n"));
    assert!(css.ends_with(".f0 {fill:none}\n.sCURSR {stroke:#F0F0F0}\n.fCURSR {fill:#F0F0F0}\n.sDEPDW {stroke:#C9EDFD}\n.fDEPDW {fill:#C9EDFD}\n"));
}

#[test]
fn metadata_field_by_upper_name() {
    let m = S57Metadata { edition: None, update_number: 0, compilation_scale: 0 };
    let m = read_metadata_field(m, "EDTN", &AttrValue::Int(2));
    let m = read_metadata_field(m, "UPDN", &AttrValue::Text("3".to_string()));
    let m = read_metadata_field(m, "DSPM_CSCL", &AttrValue::Int(22000));
    let m = read_metadata_field(m, "edtn", &AttrValue::Int(9));
    assert_eq!(m, S57Metadata { edition: Some(2), update_number: 0, compilation_scale: 22000 });
}

#[test]
fn stored_row_reads_back_mapped_and_residual_values() {
    let layers = all_layers();
    let lights = &layers[2];
    let m = ctx_meta();
    let ctx = ChartContext { enc_name: "US3WA01M", metadata: &m };
    let f = feature(
        77,
        vec![
            field("CATLIT", AttrValue::Int(8)),
            field("COLOUR", AttrValue::TextList(vec!["3".to_string()])),
            field("HEIGHT", AttrValue::Real(Real { mantissa: 25, exponent: -1 })),
            field("OBJNAM", AttrValue::Text("West Point".to_string())),
            field("SCAMIN", AttrValue::Int(5)),
            field("LNAM", AttrValue::Text("0226".to_string())),
            field("INFORM", AttrValue::Text("aero".to_string())),
        ],
        point(),
    );
    let known = layer_known_fields(lights);
    let names = lights.upsert_column_names();
    let params = match prepare_feature(lights, &known, &ctx, &f) {
        FeatureStep::Upsert { params, .. } => params,
        _ => panic!("feature with geometry not upserted"),
    };
    assert_eq!(names.len(), params.len());
    let col = |n: &str| &params[names.iter().position(|c| *c == n).unwrap()];
    assert!(matches!(col("catlit"), SqlParam::Int(Some(8))));
    assert!(matches!(col("colour"), SqlParam::Int(None)));
    assert!(matches!(col("height"), SqlParam::Number(Some(Real { mantissa: 25, exponent: -1 }))));
    assert!(matches!(col("objnam"), SqlParam::Text(Some(ref s)) if s == "West Point"));
    assert!(matches!(col("litchr"), SqlParam::Int(None)));
    assert!(matches!(col("scamin"), SqlParam::Number(None)));
    assert!(matches!(col("sy"), SqlParam::Text(Some(ref s)) if s == "LIGHTS81"));
    assert!(matches!(col("enc_name"), SqlParam::Text(Some(ref s)) if s == "US3WA01M"));
    match col("attributes") {
        SqlParam::Json(Some(a)) => {
            let keys: Vec<&str> = a.entries.iter().map(|e| e.key.as_str()).collect();
            assert_eq!(keys, vec!["LNAM", "INFORM"]);
        }
        _ => panic!("residual attributes missing"),
    }
}

#[test]
fn base_chart_files_only() {
    assert!(is_base_chart_extension("000"));
    assert!(!is_base_chart_extension("001"));
    assert!(!is_base_chart_extension("0000"));
    assert!(!is_base_chart_extension(""));
}

#[test]
fn column_field_names_match_without_case() {
    let def = LayerDef {
        s57_name: "DEPARE",
        table: "depare",
        columns: vec![ColumnDef::new("drval1", "drval1", ColType::Float)],
        style_rule: None,
    };
    let f = feature(1, vec![field("DRVAL1", AttrValue::Int(4))], point());
    let (_, typed) = extract_common(&f, &layer_known_fields(&def));
    let values = extract_values(&def, &typed);
    assert!(matches!(values[0], ColValue::Float(Some(Real { mantissa: 4, exponent: 0 }))));
}
