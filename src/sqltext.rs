//! Fixed pieces of the SQL text that the layer registry synthesises.

use vstd::prelude::*;

verus! {

/// Start of a table definition, before the table name.
pub const TABLE_HEAD: &'static str = "CREATE TABLE IF NOT EXISTS ";

/// After the table name, before the columns.
pub const TABLE_OPEN: &'static str = " (\n";

/// The common columns that come before the layer-specific ones.
pub const TABLE_LEADING_COLUMNS: &'static str = "    id SERIAL PRIMARY KEY,\n    enc_name TEXT NOT NULL,\n    feature_fid INTEGER NOT NULL,\n    edition INTEGER,\n    update_number INTEGER DEFAULT 0,\n    compilation_scale INTEGER NOT NULL,\n    scamin NUMERIC,\n    objl INTEGER,\n";

/// The common columns that come after the layer-specific ones.
pub const TABLE_TRAILING_COLUMNS: &'static str = "    ac TEXT,\n    lc TEXT,\n    sy TEXT,\n    sordat TEXT,\n    sorind TEXT,\n    attributes JSONB,\n    geom GEOMETRY(GEOMETRY, 4326),\n    created_at TIMESTAMP DEFAULT CURRENT_TIMESTAMP,\n";

/// Start of the uniqueness constraint, before the table name.
pub const TABLE_CONSTRAINT_HEAD: &'static str = "    CONSTRAINT ";

/// The uniqueness constraint over chart, edition, update and feature id; an
/// unknown edition counts as one value, so rows without one conflict too.
pub const TABLE_CONSTRAINT_TAIL: &'static str = "_unique_feature UNIQUE NULLS NOT DISTINCT (enc_name, edition, update_number, feature_fid)\n";

/// End of a table definition.
pub const TABLE_CLOSE: &'static str = ");";

/// Start of every index definition.
pub const INDEX_HEAD: &'static str = "CREATE INDEX IF NOT EXISTS ";

/// Spatial index: after the table name.
pub const INDEX_GEOM_NAME: &'static str = "_geom_idx ON ";

/// Spatial index: the indexed expression.
pub const INDEX_GEOM_TAIL: &'static str = " USING GIST(geom);";

/// Partial index on the scale minimum: after the table name.
pub const INDEX_SCAMIN_NAME: &'static str = "_scamin_idx ON ";

/// Partial index on the scale minimum: the indexed expression.
pub const INDEX_SCAMIN_TAIL: &'static str = "(scamin) WHERE scamin IS NOT NULL;";

/// Index on the chart name: after the table name.
pub const INDEX_ENC_NAME: &'static str = "_enc_name_idx ON ";

/// Index on the chart name: the indexed expression.
pub const INDEX_ENC_TAIL: &'static str = "(enc_name);";

/// Index on the compilation scale: after the table name.
pub const INDEX_SCALE_NAME: &'static str = "_compilation_scale_idx ON ";

/// Index on the compilation scale: the indexed expression.
pub const INDEX_SCALE_TAIL: &'static str = "(compilation_scale);";

/// Start of an upsert, before the table name.
pub const UPSERT_HEAD: &'static str = "INSERT INTO ";

/// The common columns that come before the layer-specific ones, each of
/// which follows with its own separator.
pub const UPSERT_LEADING_COLUMNS: &'static str = " (enc_name, feature_fid, edition, update_number, compilation_scale, scamin, objl";

/// The common columns that come after the layer-specific ones.
pub const UPSERT_TRAILING_COLUMNS: &'static str = ", ac, lc, sy, sordat, sorind, attributes, geom) VALUES (";

/// The geometry placeholder: before its number.
pub const UPSERT_GEOM_HEAD: &'static str = "ST_Force2D(ST_SetSRID(ST_GeomFromGeoJSON($";

/// The conflict clause, from the geometry placeholder's number on.
pub const UPSERT_CONFLICT: &'static str = "), 4326))) ON CONFLICT (enc_name, edition, update_number, feature_fid) DO UPDATE SET compilation_scale = EXCLUDED.compilation_scale, scamin = EXCLUDED.scamin, objl = EXCLUDED.objl";

/// The updates of the common columns that come after the layer-specific ones.
pub const UPSERT_TRAILING_UPDATES: &'static str = ", ac = EXCLUDED.ac, lc = EXCLUDED.lc, sy = EXCLUDED.sy, sordat = EXCLUDED.sordat, sorind = EXCLUDED.sorind, attributes = EXCLUDED.attributes, geom = EXCLUDED.geom";

/// Start of a per-layer tile function, before the table name.
pub const MVT_FN_HEAD: &'static str = r#"CREATE OR REPLACE FUNCTION "#;

/// From the function name to the tile layer name.
pub const MVT_FN_AFTER_NAME: &'static str = r#"_mvt(z integer, x integer, y integer, query_params json DEFAULT '{}'::json)
RETURNS bytea
AS $$
DECLARE
    mvt bytea;
    tile_env geometry;
    tile_env_4326 geometry;
BEGIN
    tile_env := ST_TileEnvelope(z, x, y);
    tile_env_4326 := ST_Transform(tile_env, 4326);

    SELECT INTO mvt ST_AsMVT(tile, '"#;

/// From the tile layer name to the layer-specific columns.
pub const MVT_FN_AFTER_LAYER: &'static str = r#"', 4096, 'geom')
    FROM (
        SELECT
            ST_AsMVTGeom(
                ST_Transform(d.geom, 3857),
                tile_env,
                4096,
                64,
                true
            ) AS geom,
            d.id,
            d.enc_name,
            d.objl"#;

/// From the layer-specific columns to the table that is read.
pub const MVT_FN_AFTER_COLS: &'static str = r#",
            d.ac AS "AC",
            d.lc AS "LC",
            d.sy AS "SY",
            d.scamin,
            d.sordat,
            d.attributes
        FROM "#;

/// The zoom filter, the drawing order and the end of the function.
pub const MVT_FN_TAIL: &'static str = r#" d
        WHERE
            d.geom && tile_env_4326
            AND ST_IsValid(d.geom)
            AND (28 - CEIL(LN(d.compilation_scale::double precision) / LN(2)))::int <= z
            AND (d.scamin IS NULL OR (28 - CEIL(LN(d.scamin::double precision) / LN(2)))::int <= z)
        ORDER BY d.compilation_scale DESC
    ) AS tile
    WHERE geom IS NOT NULL;

    RETURN mvt;
END;
$$ LANGUAGE plpgsql STABLE PARALLEL SAFE;"#;

/// Start of one layer of the unified tile function.
pub const UNIFIED_PART_HEAD: &'static str = r#"COALESCE((SELECT ST_AsMVT(tile, '"#;

/// From the tile layer name to the layer-specific columns.
pub const UNIFIED_PART_AFTER_LAYER: &'static str = r#"', 4096, 'geom')
        FROM (
            SELECT
                ST_AsMVTGeom(
                    ST_Transform(d.geom, 3857),
                    tile_env,
                    4096,
                    128,
                    true
                ) AS geom,
                d.id,
                d.enc_name,
                d.objl"#;

/// The common columns after the layer-specific ones.
pub const UNIFIED_PART_AFTER_COLS: &'static str = r#",
                d.ac AS "AC",
                d.lc AS "LC",
                d.sy AS "SY",
                d.scamin,
                d.sordat,
                d.attributes"#;

/// Depth in whole metres, tenths, feet, fathoms and feet beyond fathoms.
pub const SOUNDING_DEPTH_COLUMNS: &'static str = r#",
                FLOOR(d.depth)::INTEGER AS depth_meters_whole,
                FLOOR((d.depth - FLOOR(d.depth)) * 10)::INTEGER AS depth_meters_tenths,
                ROUND(d.depth * 3.28084)::INTEGER AS depth_feet,
                FLOOR(d.depth / 1.8288)::INTEGER AS depth_fathoms,
                ROUND((d.depth / 1.8288 - FLOOR(d.depth / 1.8288)) * 6)::INTEGER AS depth_fathoms_feet"#;

/// Before the table that one layer reads.
pub const UNIFIED_PART_FROM: &'static str = r#"
            FROM "#;

/// The zoom filter, the drawing order and the end of one layer.
pub const UNIFIED_PART_TAIL: &'static str = r#" d
            WHERE
                d.geom && tile_env_4326
                AND ST_IsValid(d.geom)
                AND (28 - CEIL(LN(d.compilation_scale::double precision) / LN(2)))::int <= z
                AND (d.scamin IS NULL OR (28 - CEIL(LN(d.scamin::double precision) / LN(2)))::int <= z)
            ORDER BY d.compilation_scale DESC
        ) AS tile
        WHERE geom IS NOT NULL), ''::bytea)"#;

/// Start of the unified tile function.
pub const UNIFIED_FN_HEAD: &'static str = r#"CREATE OR REPLACE FUNCTION enc_mvt(z integer, x integer, y integer, query_params json DEFAULT '{}'::json)
RETURNS bytea
AS $$
DECLARE
    mvt bytea;
    tile_env geometry;
    tile_env_4326 geometry;
BEGIN
    tile_env := ST_TileEnvelope(z, x, y);
    tile_env_4326 := ST_Transform(tile_env, 4326);

    SELECT INTO mvt
    "#;

/// End of the unified tile function.
pub const UNIFIED_FN_TAIL: &'static str = r#"
    ;

    RETURN mvt;
END;
$$ LANGUAGE plpgsql STABLE PARALLEL SAFE;"#;

} // verus!
