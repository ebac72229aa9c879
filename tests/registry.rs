use openenc::feature::{build_upsert_sql, ColType, ColumnDef, LayerDef, StyleRule};
use openenc::features::{all_layers, create_unified_mvt_function_sql};

fn depare() -> LayerDef {
    all_layers().into_iter().next().unwrap()
}

#[test]
fn sql_type_names() {
    assert_eq!(ColType::Float.sql_type(), "NUMERIC");
    assert_eq!(ColType::Int.sql_type(), "INTEGER");
    assert_eq!(ColType::Text.sql_type(), "TEXT");
}

#[test]
fn column_def_new_keeps_parts() {
    let c = ColumnDef::new("DRVAL1", "drval1", ColType::Float);
    assert_eq!(c.s57_field, "DRVAL1");
    assert_eq!(c.sql_column, "drval1");
    assert_eq!(c.col_type, ColType::Float);
}

#[test]
fn registered_layers_in_order() {
    let layers = all_layers();
    let names: Vec<&str> = layers.iter().map(|l| l.s57_name).collect();
    let tables: Vec<&str> = layers.iter().map(|l| l.table).collect();
    assert_eq!(names, vec!["DEPARE", "LNDARE", "LIGHTS", "SOUNDG"]);
    assert_eq!(tables, vec!["depare", "lndare", "lights", "soundg"]);
    assert_eq!(layers[2].columns.len(), 7);
    assert_eq!(layers[2].columns[1].sql_column, "colour");
    assert_eq!(layers[3].style_rule, Some(StyleRule::Sounding));
}

#[test]
fn create_table_sql_depare() {
    let expected = "CREATE TABLE IF NOT EXISTS depare (\n    id SERIAL PRIMARY KEY,\n    enc_name TEXT NOT NULL,\n    feature_fid INTEGER NOT NULL,\n    edition INTEGER,\n    update_number INTEGER DEFAULT 0,\n    compilation_scale INTEGER NOT NULL,\n    scamin NUMERIC,\n    objl INTEGER,\n    drval1 NUMERIC,\n    drval2 NUMERIC,\n    ac TEXT,\n    lc TEXT,\n    sy TEXT,\n    sordat TEXT,\n    sorind TEXT,\n    attributes JSONB,\n    geom GEOMETRY(GEOMETRY, 4326),\n    created_at TIMESTAMP DEFAULT CURRENT_TIMESTAMP,\n    CONSTRAINT depare_unique_feature UNIQUE NULLS NOT DISTINCT (enc_name, edition, update_number, feature_fid)\n);";
    assert_eq!(depare().create_table_sql(), expected);
}

#[test]
fn create_indexes_sql_depare() {
    let idx = depare().create_indexes_sql();
    assert_eq!(
        idx,
        vec![
            "CREATE INDEX IF NOT EXISTS depare_geom_idx ON depare USING GIST(geom);".to_string(),
            "CREATE INDEX IF NOT EXISTS depare_scamin_idx ON depare(scamin) WHERE scamin IS NOT NULL;".to_string(),
            "CREATE INDEX IF NOT EXISTS depare_enc_name_idx ON depare(enc_name);".to_string(),
            "CREATE INDEX IF NOT EXISTS depare_compilation_scale_idx ON depare(compilation_scale);".to_string(),
        ]
    );
}

#[test]
fn build_upsert_sql_depare() {
    let expected = "INSERT INTO depare (enc_name, feature_fid, edition, update_number, compilation_scale, scamin, objl, drval1, drval2, ac, lc, sy, sordat, sorind, attributes, geom) VALUES ($1, $2, $3, $4, $5, $6, $7, $8, $9, $10, $11, $12, $13, $14, $15, ST_Force2D(ST_SetSRID(ST_GeomFromGeoJSON($16), 4326))) ON CONFLICT (enc_name, edition, update_number, feature_fid) DO UPDATE SET compilation_scale = EXCLUDED.compilation_scale, scamin = EXCLUDED.scamin, objl = EXCLUDED.objl, drval1 = EXCLUDED.drval1, drval2 = EXCLUDED.drval2, ac = EXCLUDED.ac, lc = EXCLUDED.lc, sy = EXCLUDED.sy, sordat = EXCLUDED.sordat, sorind = EXCLUDED.sorind, attributes = EXCLUDED.attributes, geom = EXCLUDED.geom";
    assert_eq!(build_upsert_sql(&depare()), expected);
}

#[test]
fn upsert_placeholders_match_columns_for_every_layer() {
    for def in all_layers() {
        let sql = build_upsert_sql(&def);
        let total = def.columns.len() + 14;
        assert!(sql.contains(&format!("ST_GeomFromGeoJSON(${})", total)));
        assert!(sql.contains(&format!("${}, ST_Force2D", total - 1)));
        assert!(!sql.contains(&format!("${}", total + 1)));
        for c in &def.columns {
            assert!(sql.contains(&format!("{} = EXCLUDED.{}", c.sql_column, c.sql_column)));
        }
    }
}

#[test]
fn mvt_function_orders_coarse_charts_first() {
    let sql = depare().create_mvt_function_sql();
    assert!(sql.starts_with("CREATE OR REPLACE FUNCTION depare_mvt(z integer, x integer, y integer, query_params json DEFAULT '{}'::json)"));
    assert!(sql.contains("ST_AsMVT(tile, 'depare', 4096, 'geom')"));
    assert!(sql.contains("            d.objl,\n            d.drval1,\n            d.drval2,\n            d.ac AS \"AC\""));
    assert!(sql.contains("FROM depare d\n"));
    assert!(sql.contains("(28 - CEIL(LN(d.compilation_scale::double precision) / LN(2)))::int <= z"));
    assert!(sql.contains("(d.scamin IS NULL OR (28 - CEIL(LN(d.scamin::double precision) / LN(2)))::int <= z)"));
    assert!(sql.contains("ORDER BY d.compilation_scale DESC"));
    assert!(sql.ends_with("$$ LANGUAGE plpgsql STABLE PARALLEL SAFE;"));
}

#[test]
fn unified_mvt_joins_all_layers() {
    let layers = all_layers();
    let sql = create_unified_mvt_function_sql(&layers);
    assert!(sql.starts_with("CREATE OR REPLACE FUNCTION enc_mvt("));
    assert_eq!(sql.matches("COALESCE((SELECT ST_AsMVT(tile, '").count(), 4);
    assert_eq!(sql.matches("\n    || ").count(), 3);
    assert_eq!(sql.matches("AS depth_meters_whole").count(), 1);
    let soundg_at = sql.find("ST_AsMVT(tile, 'soundg'").unwrap();
    assert!(sql.find("AS depth_meters_whole").unwrap() > soundg_at);
    assert!(sql.contains("            FROM lights d\n"));
    assert!(!sql.contains("geom_3857"));
    assert!(!sql.contains("min_zoom"));
    assert!(!sql.contains("max_zoom"));
    assert_eq!(sql.matches("ST_Transform(d.geom, 3857)").count(), 4);
    assert_eq!(sql.matches("(28 - CEIL(LN(d.compilation_scale::double precision) / LN(2)))::int <= z").count(), 4);
    assert_eq!(sql.matches("(d.scamin IS NULL OR (28 - CEIL(LN(d.scamin::double precision) / LN(2)))::int <= z)").count(), 4);
    assert_eq!(sql.matches("ORDER BY d.compilation_scale DESC").count(), 4);
    assert!(sql.ends_with("$$ LANGUAGE plpgsql STABLE PARALLEL SAFE;"));
}

#[test]
fn layer_columns_are_distinct() {
    for def in all_layers() {
        let mut names: Vec<&str> = vec![
            "enc_name", "feature_fid", "edition", "update_number", "compilation_scale", "scamin", "objl",
            "ac", "lc", "sy", "sordat", "sorind", "attributes", "geom",
        ];
        names.extend(def.columns.iter().map(|c| c.sql_column));
        let mut sorted = names.clone();
        sorted.sort();
        sorted.dedup();
        assert_eq!(sorted.len(), names.len());
    }
}

#[test]
fn registered_layers_are_well_formed() {
    for def in all_layers() {
        assert!(def.has_distinct_columns());
        assert_eq!(def.upsert_column_names().len(), def.columns.len() + 14);
    }
    let clash = LayerDef {
        s57_name: "X",
        table: "x",
        columns: vec![ColumnDef::new("A", "geom", ColType::Text)],
        style_rule: None,
    };
    assert!(!clash.has_distinct_columns());
}

#[test]
fn upsert_for_layer_without_columns() {
    let bare = LayerDef { s57_name: "X", table: "x", columns: vec![], style_rule: None };
    let expected = "INSERT INTO x (enc_name, feature_fid, edition, update_number, compilation_scale, scamin, objl, ac, lc, sy, sordat, sorind, attributes, geom) VALUES ($1, $2, $3, $4, $5, $6, $7, $8, $9, $10, $11, $12, $13, ST_Force2D(ST_SetSRID(ST_GeomFromGeoJSON($14), 4326))) ON CONFLICT (enc_name, edition, update_number, feature_fid) DO UPDATE SET compilation_scale = EXCLUDED.compilation_scale, scamin = EXCLUDED.scamin, objl = EXCLUDED.objl, ac = EXCLUDED.ac, lc = EXCLUDED.lc, sy = EXCLUDED.sy, sordat = EXCLUDED.sordat, sorind = EXCLUDED.sorind, attributes = EXCLUDED.attributes, geom = EXCLUDED.geom";
    assert_eq!(build_upsert_sql(&bare), expected);
    assert!(bare.create_table_sql().contains("    objl INTEGER,\n    ac TEXT,\n"));
}
