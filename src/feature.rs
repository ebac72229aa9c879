//! The layer schema registry: column and layer definitions, and the SQL text
//! (tables, indexes, tile functions, upserts) synthesised from them.

use vstd::prelude::*;
use vstd::string::*;
use crate::numtext::{decimal, push_decimal};
use crate::sqltext::{
    MVT_FN_HEAD,
    MVT_FN_AFTER_NAME,
    MVT_FN_AFTER_LAYER,
    MVT_FN_AFTER_COLS,
    MVT_FN_TAIL,
    TABLE_HEAD,
    TABLE_OPEN,
    TABLE_LEADING_COLUMNS,
    TABLE_TRAILING_COLUMNS,
    TABLE_CONSTRAINT_HEAD,
    TABLE_CONSTRAINT_TAIL,
    TABLE_CLOSE,
    INDEX_HEAD,
    INDEX_GEOM_NAME,
    INDEX_GEOM_TAIL,
    INDEX_SCAMIN_NAME,
    INDEX_SCAMIN_TAIL,
    INDEX_ENC_NAME,
    INDEX_ENC_TAIL,
    INDEX_SCALE_NAME,
    INDEX_SCALE_TAIL,
    UPSERT_HEAD,
    UPSERT_LEADING_COLUMNS,
    UPSERT_TRAILING_COLUMNS,
    UPSERT_GEOM_HEAD,
    UPSERT_CONFLICT,
    UPSERT_TRAILING_UPDATES,
};

verus! {

/// Column type of a layer-specific field.
#[derive(Debug, Clone, Copy, PartialEq, Eq, Structural)]
pub enum ColType {
    Float,
    Int,
    Text,
}

/// The SQL type name of a column type.
pub open spec fn sql_type_spec(t: ColType) -> Seq<char> {
    match t {
        ColType::Float => "NUMERIC"@,
        ColType::Int => "INTEGER"@,
        ColType::Text => "TEXT"@,
    }
}

impl ColType {
    /// The SQL type that stores values of this column type.
    pub fn sql_type(&self) -> (r: &'static str)
        ensures
            r@ == sql_type_spec(*self),
    {
        match self {
            ColType::Float => "NUMERIC",
            ColType::Int => "INTEGER",
            ColType::Text => "TEXT",
        }
    }
}

/// Declarative column definition for a feature layer: the chart field it is
/// read from, the table column it is stored in, and its type.
#[derive(Debug, Clone, Copy)]
pub struct ColumnDef {
    pub s57_field: &'static str,
    pub sql_column: &'static str,
    pub col_type: ColType,
}

impl ColumnDef {
    /// A column definition from its three parts.
    pub fn new(s57_field: &'static str, sql_column: &'static str, col_type: ColType) -> (r: Self)
        ensures
            r.s57_field == s57_field,
            r.sql_column == sql_column,
            r.col_type == col_type,
    {
        ColumnDef { s57_field, sql_column, col_type }
    }
}

/// Which style rule a layer's features are styled by: each registered
/// feature type has its own.
#[derive(Debug, Clone, Copy, PartialEq, Eq, Structural)]
pub enum StyleRule {
    DepthArea,
    LandArea,
    Light,
    Sounding,
}

/// Declarative layer definition: the chart feature type it reads, the table
/// it fills, its layer-specific columns in order, and its style rule.
#[derive(Debug)]
pub struct LayerDef {
    pub s57_name: &'static str,
    pub table: &'static str,
    pub columns: Vec<ColumnDef>,
    pub style_rule: Option<StyleRule>,
}

/// The table columns of an upsert, in placeholder order.
pub open spec fn upsert_columns(cols: Seq<ColumnDef>) -> Seq<Seq<char>> {
    seq![
        "enc_name"@,
        "feature_fid"@,
        "edition"@,
        "update_number"@,
        "compilation_scale"@,
        "scamin"@,
        "objl"@,
    ] + cols.map_values(|c: ColumnDef| c.sql_column@) + seq![
        "ac"@,
        "lc"@,
        "sy"@,
        "sordat"@,
        "sorind"@,
        "attributes"@,
        "geom"@,
    ]
}

/// No name stands twice.
pub open spec fn names_distinct(names: Seq<Seq<char>>) -> bool {
    forall|i: int, j: int| 0 <= i < j < names.len() ==> (#[trigger] names[i]) != (#[trigger] names[j])
}

impl LayerDef {
    /// Well-formed: every column of the table, common or layer-specific, has
    /// a name of its own.
    pub open spec fn wf(&self) -> bool {
        names_distinct(upsert_columns(self.columns@))
    }
}

/// The characters of each name.
pub open spec fn names_view(v: Seq<&str>) -> Seq<Seq<char>> {
    v.map_values(|s: &str| s@)
}

impl LayerDef {
    /// The table columns of this layer's upsert, in placeholder order.
    pub fn upsert_column_names(&self) -> (r: Vec<&'static str>)
        ensures
            names_view(r@) == upsert_columns(self.columns@),
    {
        let mut r: Vec<&'static str> = vec!["enc_name", "feature_fid", "edition", "update_number", "compilation_scale", "scamin", "objl"];
        let ghost lead = names_view(r@);
        let mut i: usize = 0;
        while i < self.columns.len()
            invariant
                i <= self.columns@.len(),
                names_view(r@) =~= lead + self.columns@.subrange(0, i as int).map_values(|c: ColumnDef| c.sql_column@),
            decreases self.columns@.len() - i,
        {
            let ghost before = r@;
            r.push(self.columns[i].sql_column);
            assert(names_view(r@) =~= names_view(before).push(self.columns@[i as int].sql_column@));
            assert(self.columns@.subrange(0, i + 1) =~= self.columns@.subrange(0, i as int).push(self.columns@[i as int]));
            i = i + 1;
        }
        assert(self.columns@.subrange(0, self.columns@.len() as int) =~= self.columns@);
        let ghost mid = names_view(r@);
        let mut tail: Vec<&'static str> = vec!["ac", "lc", "sy", "sordat", "sorind", "attributes", "geom"];
        let ghost t = tail@;
        r.append(&mut tail);
        assert(names_view(r@) =~= mid + names_view(t));
        assert(names_view(r@) =~= upsert_columns(self.columns@));
        r
    }

    /// Whether every column of the layer's table has a name of its own.
    pub fn has_distinct_columns(&self) -> (r: bool)
        ensures
            r == self.wf(),
    {
        let names = self.upsert_column_names();
        let ghost v = names_view(names@);
        let n = names.len();
        let mut i: usize = 0;
        while i < n
            invariant
                n == names@.len() == v.len(),
                v == upsert_columns(self.columns@),
                v == names_view(names@),
                i <= n,
                forall|a: int, b: int| 0 <= a < b < n && a < i ==> (#[trigger] v[a]) != (#[trigger] v[b]),
            decreases n - i,
        {
            let mut j: usize = i + 1;
            while j < n
                invariant
                    n == names@.len() == v.len(),
                    v == names_view(names@),
                    v == upsert_columns(self.columns@),
                    i < n,
                    i + 1 <= j <= n,
                    forall|a: int, b: int| 0 <= a < b < n && a < i ==> (#[trigger] v[a]) != (#[trigger] v[b]),
                    forall|b: int| i < b < j ==> v[i as int] != (#[trigger] v[b]),
                decreases n - j,
            {
                if crate::attrs::same_text(names[i], names[j]) {
                    assert(v[i as int] == v[j as int]);
                    assert(!names_distinct(v));
                    return false;
                }
                j = j + 1;
            }
            i = i + 1;
        }
        true
    }
}

/// `CREATE TABLE` lines of the layer-specific columns.
pub open spec fn column_lines(cols: Seq<ColumnDef>) -> Seq<char>
    decreases cols.len(),
{
    if cols.len() == 0 {
        Seq::empty()
    } else {
        column_lines(cols.drop_last()) + "    "@ + cols.last().sql_column@ + " "@
            + sql_type_spec(cols.last().col_type) + ",\n"@
    }
}

/// The table definition of a layer.
pub open spec fn table_sql(table: Seq<char>, cols: Seq<ColumnDef>) -> Seq<char> {
    TABLE_HEAD@ + table + TABLE_OPEN@ + TABLE_LEADING_COLUMNS@ + column_lines(cols)
        + TABLE_TRAILING_COLUMNS@ + TABLE_CONSTRAINT_HEAD@ + table + TABLE_CONSTRAINT_TAIL@
        + TABLE_CLOSE@
}

/// The four index definitions of a layer table.
pub open spec fn index_sqls(t: Seq<char>) -> Seq<Seq<char>> {
    seq![
        INDEX_HEAD@ + t + INDEX_GEOM_NAME@ + t + INDEX_GEOM_TAIL@,
        INDEX_HEAD@ + t + INDEX_SCAMIN_NAME@ + t + INDEX_SCAMIN_TAIL@,
        INDEX_HEAD@ + t + INDEX_ENC_NAME@ + t + INDEX_ENC_TAIL@,
        INDEX_HEAD@ + t + INDEX_SCALE_NAME@ + t + INDEX_SCALE_TAIL@,
    ]
}

/// Tile-query select items of the layer-specific columns, each on its own
/// line after `indent`.
pub open spec fn select_lines(cols: Seq<ColumnDef>, indent: Seq<char>) -> Seq<char>
    decreases cols.len(),
{
    if cols.len() == 0 {
        Seq::empty()
    } else {
        select_lines(cols.drop_last(), indent) + ",\n"@ + indent + "d."@ + cols.last().sql_column@
    }
}

/// The indent of a select item in a per-layer tile function.
pub open spec fn layer_indent() -> Seq<char> {
    "            "@
}

/// The tile function of one layer: features in the tile whose zoom
/// thresholds allow it, coarsest compilation scale first.
pub open spec fn mvt_function_sql(t: Seq<char>, cols: Seq<ColumnDef>) -> Seq<char> {
    MVT_FN_HEAD@ + t + MVT_FN_AFTER_NAME@ + t + MVT_FN_AFTER_LAYER@ + select_lines(cols, layer_indent())
        + MVT_FN_AFTER_COLS@ + t + MVT_FN_TAIL@
}

/// The layer-specific column names, each after ", ".
pub open spec fn column_names(cols: Seq<ColumnDef>) -> Seq<char>
    decreases cols.len(),
{
    if cols.len() == 0 {
        Seq::empty()
    } else {
        column_names(cols.drop_last()) + ", "@ + cols.last().sql_column@
    }
}

/// The placeholders `$1, ` to `$n, `.
pub open spec fn placeholders(n: nat) -> Seq<char>
    decreases n,
{
    if n == 0 {
        Seq::empty()
    } else {
        placeholders((n - 1) as nat) + "$"@ + decimal(n) + ", "@
    }
}

/// The updates of the layer-specific columns from the incoming row.
pub open spec fn column_updates(cols: Seq<ColumnDef>) -> Seq<char>
    decreases cols.len(),
{
    if cols.len() == 0 {
        Seq::empty()
    } else {
        column_updates(cols.drop_last()) + ", "@ + cols.last().sql_column@ + " = EXCLUDED."@
            + cols.last().sql_column@
    }
}

/// The number of parameters of a layer's upsert: seven common ones before
/// the layer-specific columns and seven after.
pub open spec fn upsert_param_count(cols: Seq<ColumnDef>) -> nat {
    cols.len() + 14
}

/// The upsert of one feature row into a layer table: parameters in the order
/// of `upsert_columns`, the last one the geometry as GeoJSON; on a conflict
/// over chart, edition, update and feature id every other column is updated.
pub open spec fn upsert_sql(t: Seq<char>, cols: Seq<ColumnDef>) -> Seq<char> {
    UPSERT_HEAD@ + t + UPSERT_LEADING_COLUMNS@ + column_names(cols) + UPSERT_TRAILING_COLUMNS@
        + placeholders((upsert_param_count(cols) - 1) as nat) + UPSERT_GEOM_HEAD@
        + decimal(upsert_param_count(cols)) + UPSERT_CONFLICT@ + column_updates(cols)
        + UPSERT_TRAILING_UPDATES@
}

/// A string holding `s`.
fn text_of(s: &str) -> (r: String)
    ensures
        r@ == s@,
{
    String::from_str(s)
}

impl LayerDef {
    /// Generate the `CREATE TABLE IF NOT EXISTS` statement of this layer.
    pub fn create_table_sql(&self) -> (r: String)
        ensures
            r@ == table_sql(self.table@, self.columns@),
    {
        let mut s = text_of(TABLE_HEAD);
        s.append(self.table);
        s.append(TABLE_OPEN);
        s.append(TABLE_LEADING_COLUMNS);
        let ghost head = s@;
        let mut i: usize = 0;
        while i < self.columns.len()
            invariant
                i <= self.columns@.len(),
                s@ == head + column_lines(self.columns@.subrange(0, i as int)),
            decreases self.columns@.len() - i,
        {
            let c = self.columns[i];
            s.append("    ");
            s.append(c.sql_column);
            s.append(" ");
            s.append(c.col_type.sql_type());
            s.append(",\n");
            assert(self.columns@.subrange(0, i + 1).drop_last() =~= self.columns@.subrange(0, i as int));
            assert(s@ =~= head + column_lines(self.columns@.subrange(0, i + 1)));
            i = i + 1;
        }
        assert(self.columns@.subrange(0, self.columns@.len() as int) =~= self.columns@);
        s.append(TABLE_TRAILING_COLUMNS);
        s.append(TABLE_CONSTRAINT_HEAD);
        s.append(self.table);
        s.append(TABLE_CONSTRAINT_TAIL);
        s.append(TABLE_CLOSE);
        assert(s@ =~= table_sql(self.table@, self.columns@));
        s
    }

    /// Generate the four index statements every layer table needs: spatial,
    /// partial on the scale minimum, chart name and compilation scale.
    pub fn create_indexes_sql(&self) -> (r: Vec<String>)
        ensures
            r@.len() == 4,
            forall|i: int| 0 <= i < 4 ==> (#[trigger] r@[i])@ == index_sqls(self.table@)[i],
    {
        let t = self.table;
        let mut a = text_of(INDEX_HEAD);
        a.append(t);
        a.append(INDEX_GEOM_NAME);
        a.append(t);
        a.append(INDEX_GEOM_TAIL);
        let mut b = text_of(INDEX_HEAD);
        b.append(t);
        b.append(INDEX_SCAMIN_NAME);
        b.append(t);
        b.append(INDEX_SCAMIN_TAIL);
        let mut c = text_of(INDEX_HEAD);
        c.append(t);
        c.append(INDEX_ENC_NAME);
        c.append(t);
        c.append(INDEX_ENC_TAIL);
        let mut d = text_of(INDEX_HEAD);
        d.append(t);
        d.append(INDEX_SCALE_NAME);
        d.append(t);
        d.append(INDEX_SCALE_TAIL);
        let r = vec![a, b, c, d];
        proof {
            let e = index_sqls(t@);
            assert(r@[0]@ =~= e[0]);
            assert(r@[1]@ =~= e[1]);
            assert(r@[2]@ =~= e[2]);
            assert(r@[3]@ =~= e[3]);
        }
        r
    }

    /// Generate the tile function `{table}_mvt(z, x, y)` of this layer.
    pub fn create_mvt_function_sql(&self) -> (r: String)
        ensures
            r@ == mvt_function_sql(self.table@, self.columns@),
    {
        let t = self.table;
        let mut s = text_of(MVT_FN_HEAD);
        s.append(t);
        s.append(MVT_FN_AFTER_NAME);
        s.append(t);
        s.append(MVT_FN_AFTER_LAYER);
        push_select_lines(&mut s, &self.columns, "            ");
        s.append(MVT_FN_AFTER_COLS);
        s.append(t);
        s.append(MVT_FN_TAIL);
        assert(s@ =~= mvt_function_sql(t@, self.columns@));
        s
    }
}

/// Append the select items of the layer-specific columns.
pub fn push_select_lines(s: &mut String, cols: &Vec<ColumnDef>, indent: &str)
    ensures
        final(s)@ == old(s)@ + select_lines(cols@, indent@),
{
    let ghost head = s@;
    let mut i: usize = 0;
    while i < cols.len()
        invariant
            i <= cols@.len(),
            s@ == head + select_lines(cols@.subrange(0, i as int), indent@),
        decreases cols@.len() - i,
    {
        let c = cols[i];
        s.append(",\n");
        s.append(indent);
        s.append("d.");
        s.append(c.sql_column);
        assert(cols@.subrange(0, i + 1).drop_last() =~= cols@.subrange(0, i as int));
        assert(s@ =~= head + select_lines(cols@.subrange(0, i + 1), indent@));
        i = i + 1;
    }
    assert(cols@.subrange(0, cols@.len() as int) =~= cols@);
}

/// Build the `INSERT ... ON CONFLICT ... DO UPDATE` statement of a layer.
///
/// Column order: enc_name, feature_fid, edition, update_number,
/// compilation_scale, scamin, objl, the layer-specific columns, ac, lc, sy,
/// sordat, sorind, attributes, geom.
pub fn build_upsert_sql(def: &LayerDef) -> (r: String)
    requires
        def.columns@.len() + 14 <= usize::MAX,
    ensures
        r@ == upsert_sql(def.table@, def.columns@),
{
    let n = def.columns.len();
    let total = n + 14;
    let mut s = text_of(UPSERT_HEAD);
    s.append(def.table);
    s.append(UPSERT_LEADING_COLUMNS);
    let ghost h1 = s@;
    let mut i: usize = 0;
    while i < n
        invariant
            n == def.columns@.len(),
            i <= n,
            s@ == h1 + column_names(def.columns@.subrange(0, i as int)),
        decreases n - i,
    {
        s.append(", ");
        s.append(def.columns[i].sql_column);
        let ghost sub = def.columns@.subrange(0, i + 1);
        assert(sub.drop_last() =~= def.columns@.subrange(0, i as int));
        assert(s@ =~= h1 + column_names(sub));
        i = i + 1;
    }
    assert(def.columns@.subrange(0, n as int) =~= def.columns@);
    s.append(UPSERT_TRAILING_COLUMNS);
    let ghost h2 = s@;
    let mut k: usize = 1;
    while k < total
        invariant
            total == n + 14,
            1 <= k <= total,
            s@ == h2 + placeholders((k - 1) as nat),
        decreases total - k,
    {
        s.append("$");
        push_decimal(&mut s, k);
        s.append(", ");
        assert(s@ =~= h2 + placeholders(k as nat));
        k = k + 1;
    }
    s.append(UPSERT_GEOM_HEAD);
    push_decimal(&mut s, total);
    s.append(UPSERT_CONFLICT);
    let ghost h3 = s@;
    let mut j: usize = 0;
    while j < n
        invariant
            n == def.columns@.len(),
            j <= n,
            s@ == h3 + column_updates(def.columns@.subrange(0, j as int)),
        decreases n - j,
    {
        let c = def.columns[j].sql_column;
        s.append(", ");
        s.append(c);
        s.append(" = EXCLUDED.");
        s.append(c);
        assert(def.columns@.subrange(0, j + 1).drop_last() =~= def.columns@.subrange(0, j as int));
        assert(s@ =~= h3 + column_updates(def.columns@.subrange(0, j + 1)));
        j = j + 1;
    }
    assert(def.columns@.subrange(0, n as int) =~= def.columns@);
    s.append(UPSERT_TRAILING_UPDATES);
    assert(s@ =~= upsert_sql(def.table@, def.columns@));
    s
}

} // verus!
