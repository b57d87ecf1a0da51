use std::collections::HashMap;

use pgx_utils::{
    ControlFile, ExtensionSql, ExternArgs, InventoryPgExtern, InventoryPgExternInput,
    InventoryPgExternReturn, InventoryPgOperator, InventoryPostgresEnum, InventoryPostgresHash,
    InventoryPostgresOrd, InventoryPostgresType, InventorySchema, OperatorSide, PgxSql,
    PgxSqlError, SqlGraphEntity,
};

fn context(schemas: Vec<InventorySchema>, externs: Vec<InventoryPgExtern>) -> PgxSql {
    let mut table = HashMap::new();
    table.insert(1, "cstring".to_string());
    table.insert(2, "integer".to_string());
    table.insert(3, "text".to_string());
    PgxSql::build(
        ControlFile { default_version: "0.1.0".to_string(), schema: None },
        table,
        schemas,
        vec![],
        externs,
        vec![],
        vec![],
        vec![],
        vec![],
    )
}

fn input(pattern: &str, ty_id: u64, ty_name: &str, module: &str) -> InventoryPgExternInput {
    InventoryPgExternInput {
        pattern: pattern.to_string(),
        ty_id,
        ty_name: ty_name.to_string(),
        module: module.to_string(),
        is_optional: false,
        default: None,
    }
}

fn plain_function(name: &str, fn_args: Vec<InventoryPgExternInput>) -> InventoryPgExtern {
    InventoryPgExtern {
        name: name.to_string(),
        module: "ext::math".to_string(),
        full_path: format!("ext::math::{}", name),
        file: "src/math.rs".to_string(),
        line: 120,
        extern_attrs: vec![],
        search_path: None,
        fn_args,
        fn_return: InventoryPgExternReturn::Void,
        operator: None,
        overridden: None,
    }
}

fn math_schema() -> InventorySchema {
    InventorySchema {
        module: "ext::math".to_string(),
        name: "math".to_string(),
        file: "src/math.rs".to_string(),
        line: 3,
    }
}

#[test]
fn extension_sql_is_copied_below_its_origin() {
    let sql = context(vec![], vec![]);
    let item = ExtensionSql {
        module: "ext".to_string(),
        full_path: "ext::bootstrap".to_string(),
        sql: "CREATE TABLE t (id int);\n-- done\n".to_string(),
        file: "sql/bootstrap.sql".to_string(),
        line: 4294967295,
    };
    assert_eq!(
        sql.inventory_extension_sql_to_sql(&item),
        "-- sql/bootstrap.sql:4294967295\nCREATE TABLE t (id int);\n-- done\n"
    );
}

#[test]
fn schema_statement() {
    let sql = context(vec![], vec![]);
    assert_eq!(
        sql.inventory_schema_to_sql(&math_schema()),
        "-- src/math.rs:3\nCREATE SCHEMA IF NOT EXISTS math; /* ext::math */\n"
    );
}

#[test]
fn reserved_schemas_give_no_statement() {
    let sql = context(vec![], vec![]);
    for name in ["public", "pg_catalog"] {
        let item = InventorySchema {
            module: "ext::general".to_string(),
            name: name.to_string(),
            file: "src/lib.rs".to_string(),
            line: 1,
        };
        assert_eq!(sql.inventory_schema_to_sql(&item), "");
    }
}

#[test]
fn schemas_lists_the_default_schema_first() {
    let reserved = InventorySchema {
        module: "ext::general".to_string(),
        name: "public".to_string(),
        file: "src/lib.rs".to_string(),
        line: 1,
    };
    let sql = PgxSql::build(
        ControlFile { default_version: "0.1.0".to_string(), schema: Some("home".to_string()) },
        HashMap::new(),
        vec![reserved, math_schema()],
        vec![],
        vec![],
        vec![],
        vec![],
        vec![],
        vec![],
    );
    assert_eq!(sql.default_schema_to_sql(), "CREATE SCHEMA IF NOT EXISTS home;\n");
    assert_eq!(
        sql.schemas(),
        "CREATE SCHEMA IF NOT EXISTS home;\n-- src/math.rs:3\nCREATE SCHEMA IF NOT EXISTS math; /* ext::math */\n"
    );
    let without = context(vec![math_schema()], vec![]);
    assert_eq!(without.default_schema_to_sql(), "");
}

#[test]
fn enum_variants_keep_their_order() {
    let sql = context(vec![math_schema()], vec![]);
    let item = InventoryPostgresEnum {
        name: "sign".to_string(),
        file: "src/math.rs".to_string(),
        line: 40,
        full_path: "ext::math::Sign".to_string(),
        module: "ext::math".to_string(),
        id: 10,
        option_id: 11,
        vec_id: 12,
        array_id: None,
        option_array_id: None,
        varlena_id: None,
        variants: vec!["zero".to_string(), "minus".to_string(), "plus".to_string()],
    };
    let expected = "\n-- src/math.rs:40\n-- ext::math::Sign\nCREATE TYPE math.sign AS ENUM (\n\t'zero',\n\t'minus',\n\t'plus'\n);";
    assert_eq!(item.to_sql(&sql), Ok(expected.to_string()));
    assert_eq!(
        sql.inventory_enums_to_sql(&item),
        "-- src/math.rs:40\n-- ext::math::Sign\nCREATE TYPE math.sign AS ENUM (\n\t'zero',\n\t'minus',\n\t'plus'\n);\n"
    );
    let zero = expected.find("'zero'").unwrap();
    let minus = expected.find("'minus'").unwrap();
    let plus = expected.find("'plus'").unwrap();
    assert!(zero < minus && minus < plus);

    let single = InventoryPostgresEnum { variants: vec!["only".to_string()], ..item.clone() };
    assert_eq!(
        sql.inventory_enums_to_sql(&single),
        "-- src/math.rs:40\n-- ext::math::Sign\nCREATE TYPE math.sign AS ENUM (\n\t'only'\n);\n"
    );
    assert_eq!(
        single.to_sql(&sql),
        Ok("\n-- src/math.rs:40\n-- ext::math::Sign\nCREATE TYPE math.sign AS ENUM (\n\t'only'\n);".to_string())
    );
    let empty = InventoryPostgresEnum { variants: vec![], ..item };
    assert_eq!(
        sql.inventory_enums_to_sql(&empty),
        "-- src/math.rs:40\n-- ext::math::Sign\nCREATE TYPE math.sign AS ENUM (\n\n);\n"
    );
}

#[test]
fn enum_fragment_of_the_document() {
    let foo = InventorySchema {
        module: "ext::foo".to_string(),
        name: "foo".to_string(),
        file: "src/lib.rs".to_string(),
        line: 1,
    };
    let bar = InventoryPostgresEnum {
        name: "bar".to_string(),
        file: "src/lib.rs".to_string(),
        line: 7,
        full_path: "ext::foo::bar".to_string(),
        module: "ext::foo".to_string(),
        id: 10,
        option_id: 11,
        vec_id: 12,
        array_id: None,
        option_array_id: None,
        varlena_id: None,
        variants: vec!["a".to_string(), "b".to_string()],
    };
    let sql = PgxSql::build(
        ControlFile { default_version: "0.1.0".to_string(), schema: None },
        HashMap::new(),
        vec![foo],
        vec![],
        vec![],
        vec![],
        vec![bar.clone()],
        vec![],
        vec![],
    );
    let expected = "-- src/lib.rs:7\n-- ext::foo::bar\nCREATE TYPE foo.bar AS ENUM (\n\t'a',\n\t'b'\n);\n";
    assert_eq!(sql.inventory_enums_to_sql(&bar), expected);
    assert_eq!(SqlGraphEntity::Enum(0).to_sql(&sql), Ok(expected.to_string()));
}

#[test]
fn ordering_operator_class() {
    let sql = context(vec![], vec![]);
    let item = InventoryPostgresOrd {
        name: "thing".to_string(),
        file: "src/thing.rs".to_string(),
        line: 7,
        full_path: "ext::Thing".to_string(),
        module: "ext".to_string(),
        id: 9001,
    };
    assert_eq!(
        sql.inventory_ord_to_sql(&item),
        "\n-- src/thing.rs:7\n-- ext::Thing\n-- 9001\nCREATE OPERATOR FAMILY thing_btree_ops USING btree;\nCREATE OPERATOR CLASS thing_btree_ops DEFAULT FOR TYPE thing USING btree FAMILY thing_btree_ops AS\n\tOPERATOR 1 <,\n\tOPERATOR 2 <=,\n\tOPERATOR 3 =,\n\tOPERATOR 4 >=,\n\tOPERATOR 5 >,\n\tFUNCTION 1 thing_cmp(thing, thing);\n"
    );
}

#[test]
fn hashing_operator_class() {
    let sql = context(vec![], vec![]);
    let item = InventoryPostgresHash {
        name: "thing".to_string(),
        file: "src/thing.rs".to_string(),
        line: 8,
        full_path: "ext::Thing".to_string(),
        module: "ext".to_string(),
        id: 18446744073709551615,
    };
    assert_eq!(
        sql.inventory_hash_to_sql(&item),
        "\n-- src/thing.rs:8\n-- ext::Thing\n-- 18446744073709551615\nCREATE OPERATOR FAMILY thing_hash_ops USING hash;\nCREATE OPERATOR CLASS thing_hash_ops DEFAULT FOR TYPE thing USING hash FAMILY thing_hash_ops AS\n\tOPERATOR    1   =  (thing, thing),\n\tFUNCTION    1   thing_hash(thing);"
    );
}

#[test]
fn function_without_arguments() {
    let sql = context(vec![], vec![]);
    let mut f = plain_function("now", vec![]);
    f.fn_return = InventoryPgExternReturn::Trigger;
    f.extern_attrs = vec![ExternArgs::Raw, ExternArgs::Volatile, ExternArgs::NoGuard];
    assert_eq!(
        sql.inventory_extern_to_sql(&f),
        Ok("\n-- src/math.rs:120\n-- ext::math::now\nCREATE OR REPLACE FUNCTION \"now\"() RETURNS trigger\n VOLATILE  STRICT\nLANGUAGE c /* Rust */\nAS 'MODULE_PATHNAME', 'now_wrapper';\n".to_string())
    );
}

#[test]
fn function_with_arguments_defaults_and_search_path() {
    let sql = context(vec![math_schema()], vec![]);
    let mut first = input("a", 2, "i32", "ext::math");
    first.default = Some("0".to_string());
    let mut second = input("b", 3, "Option<String>", "core::option");
    second.is_optional = true;
    let mut f = plain_function("add", vec![first, second]);
    f.fn_return = InventoryPgExternReturn::SetOf {
        id: 2,
        name: "i32".to_string(),
        module: "ext::math".to_string(),
    };
    f.extern_attrs = vec![ExternArgs::Immutable, ExternArgs::ParallelSafe];
    f.search_path = Some(vec!["math".to_string(), "public".to_string()]);
    assert_eq!(
        sql.inventory_extern_to_sql(&f),
        Ok("\n-- src/math.rs:120\n-- ext::math::add\nCREATE OR REPLACE FUNCTION math.\"add\"(\n\t\"a\" math.integer DEFAULT 0, /* i32 */\n\t\"b\" text /* Option<String> */\n) RETURNS SETOF math.integer /* i32 */\nIMMUTABLE PARALLEL SAFE\nSET search_path TO math, public\nLANGUAGE c /* Rust */\nAS 'MODULE_PATHNAME', 'add_wrapper';\n".to_string())
    );
}

#[test]
fn function_that_returns_a_table() {
    let sql = context(vec![], vec![]);
    let mut f = plain_function("pairs", vec![]);
    f.fn_return = InventoryPgExternReturn::Iterated(vec![
        (2, "i32".to_string(), "ext".to_string(), Some("left".to_string())),
        (3, "String".to_string(), "ext".to_string(), Some("right".to_string())),
    ]);
    f.extern_attrs = vec![ExternArgs::Stable, ExternArgs::ParallelUnsafe, ExternArgs::ParallelRestricted];
    assert_eq!(
        sql.inventory_extern_to_sql(&f),
        Ok("\n-- src/math.rs:120\n-- ext::math::pairs\nCREATE OR REPLACE FUNCTION \"pairs\"() RETURNS TABLE (\n\tleft integer,  /* i32 */\n\tright text  /* String */\n)\nSTABLE PARALLEL UNSAFE PARALLEL RESTRICTED STRICT\nLANGUAGE c /* Rust */\nAS 'MODULE_PATHNAME', 'pairs_wrapper';\n".to_string())
    );
}

#[test]
fn table_column_without_name_is_an_error() {
    let sql = context(vec![], vec![]);
    let mut f = plain_function("pairs", vec![]);
    f.fn_return = InventoryPgExternReturn::Iterated(vec![
        (2, "i32".to_string(), "ext".to_string(), Some("left".to_string())),
        (99, "Unknown".to_string(), "ext".to_string(), None),
    ]);
    let error = sql.inventory_extern_to_sql(&f).unwrap_err();
    assert_eq!(
        error,
        PgxSqlError::MissingTableColumnName {
            function_name: "pairs".to_string(),
            column_index: 1,
            referencing_entity: "ext::math::pairs".to_string(),
            file: "src/math.rs".to_string(),
            line: 120,
        }
    );
    assert_eq!(
        error.message(),
        "Did not find a name for column 1 of the table returned by `pairs` of `ext::math::pairs` (src/math.rs:120)."
    );
}

#[test]
fn unknown_types_of_results_are_errors() {
    let sql = context(vec![], vec![]);
    let mut f = plain_function("f", vec![]);
    f.fn_return = InventoryPgExternReturn::Type {
        id: 44,
        name: "Mystery".to_string(),
        module: "ext".to_string(),
    };
    let expected = PgxSqlError::MissingTypeMapping {
        type_id: 44,
        ty_name: "Mystery".to_string(),
        argument: None,
        referencing_entity: "ext::math::f".to_string(),
        file: "src/math.rs".to_string(),
        line: 120,
    };
    assert_eq!(sql.inventory_extern_to_sql(&f), Err(expected.clone()));
    f.fn_return = InventoryPgExternReturn::SetOf {
        id: 44,
        name: "Mystery".to_string(),
        module: "ext".to_string(),
    };
    assert_eq!(sql.inventory_extern_to_sql(&f), Err(expected.clone()));
    f.fn_return = InventoryPgExternReturn::Iterated(vec![(
        44,
        "Mystery".to_string(),
        "ext".to_string(),
        Some("column".to_string()),
    )]);
    assert_eq!(sql.inventory_extern_to_sql(&f), Err(expected.clone()));
    assert_eq!(
        expected.message(),
        "Failed to map return type `Mystery` to SQL type while building `ext::math::f` (src/math.rs:120)."
    );
    // An unknown argument is reported before an unknown result.
    f.fn_args = vec![input("x", 45, "Other", "ext")];
    let error = sql.inventory_extern_to_sql(&f).unwrap_err();
    assert_eq!(
        error.message(),
        "Failed to map argument `x` type `Other` to SQL type while building `ext::math::f` (src/math.rs:120)."
    );
}

#[test]
fn overridden_function_keeps_the_generated_statement_as_a_comment() {
    let sql = context(vec![], vec![]);
    let mut f = plain_function("shout", vec![input("s", 3, "&str", "ext")]);
    f.overridden = Some("CREATE FUNCTION shout(text) RETURNS void LANGUAGE sql AS 'SELECT 1';".to_string());
    f.operator = Some(InventoryPgOperator {
        opname: "!!".to_string(),
        commutator: None,
        negator: None,
        restrict: None,
        join: None,
        hashes: false,
        merges: false,
    });
    assert_eq!(
        sql.inventory_extern_to_sql(&f),
        Ok("\n-- src/math.rs:120\n-- ext::math::shout\n-- CREATE OR REPLACE FUNCTION \"shout\"(\n-- \t\"s\" text /* &str */\n-- ) RETURNS void\n-- STRICT\n-- LANGUAGE c /* Rust */\n-- AS 'MODULE_PATHNAME', 'shout_wrapper';\n--\n-- Overridden as (due to a `//` comment with a `sql` code block):\nCREATE FUNCTION shout(text) RETURNS void LANGUAGE sql AS 'SELECT 1';\n".to_string())
    );
}

#[test]
fn operator_with_all_clauses() {
    let sql = context(vec![math_schema()], vec![]);
    let mut f = plain_function("eq", vec![input("l", 2, "i32", "ext::math"), input("r", 3, "String", "ext")]);
    f.operator = Some(InventoryPgOperator {
        opname: "==".to_string(),
        commutator: Some("==".to_string()),
        negator: Some("<>".to_string()),
        restrict: Some("eqsel".to_string()),
        join: Some("eqjoinsel".to_string()),
        hashes: true,
        merges: true,
    });
    let function = "\n-- src/math.rs:120\n-- ext::math::eq\nCREATE OR REPLACE FUNCTION math.\"eq\"(\n\t\"l\" math.integer, /* i32 */\n\t\"r\" text /* String */\n) RETURNS void\nSTRICT\nLANGUAGE c /* Rust */\nAS 'MODULE_PATHNAME', 'eq_wrapper';\n";
    let operator = "\n-- src/math.rs:120\n-- ext::math::eq\nCREATE OPERATOR == (\n\tPROCEDURE=\"eq\",\n\tLEFTARG=math.integer, /* i32 */\n\tRIGHTARG=text, /* String */\n\tCOMMUTATOR = ==,\n\tNEGATOR = <>,\n\tRESTRICT = eqsel,\n\tJOIN = eqjoinsel,\n\tHASHES,\n\tMERGES\n);\n                                    ";
    assert_eq!(sql.inventory_extern_to_sql(&f), Ok(format!("{}{}", function, operator)));
}

#[test]
fn operator_without_clauses() {
    let sql = context(vec![], vec![]);
    let mut f = plain_function("eq", vec![input("l", 2, "i32", "ext"), input("r", 2, "i32", "ext")]);
    f.operator = Some(InventoryPgOperator {
        opname: "=".to_string(),
        commutator: None,
        negator: None,
        restrict: None,
        join: None,
        hashes: false,
        merges: true,
    });
    let rendered = sql.inventory_extern_to_sql(&f).unwrap();
    assert!(rendered.ends_with(
        "\n-- src/math.rs:120\n-- ext::math::eq\nCREATE OPERATOR = (\n\tPROCEDURE=\"eq\",\n\tLEFTARG=integer, /* i32 */\n\tRIGHTARG=integer, /* i32 */\n\tMERGES\n);\n                                    "
    ));
    f.operator.as_mut().unwrap().merges = false;
    let rendered = sql.inventory_extern_to_sql(&f).unwrap();
    assert!(rendered.ends_with(
        "CREATE OPERATOR = (\n\tPROCEDURE=\"eq\",\n\tLEFTARG=integer, /* i32 */\n\tRIGHTARG=integer /* i32 */\n\n);\n                                    "
    ));
}

#[test]
fn operator_needs_both_arguments() {
    let sql = context(vec![], vec![]);
    let operator = InventoryPgOperator {
        opname: "=".to_string(),
        commutator: None,
        negator: None,
        restrict: None,
        join: None,
        hashes: false,
        merges: false,
    };
    let mut none = plain_function("eq", vec![]);
    none.operator = Some(operator.clone());
    let error = sql.inventory_extern_to_sql(&none).unwrap_err();
    assert_eq!(
        error,
        PgxSqlError::MissingOperatorArgument {
            operator_name: "=".to_string(),
            side: OperatorSide::Left,
            referencing_entity: "ext::math::eq".to_string(),
            file: "src/math.rs".to_string(),
            line: 120,
        }
    );
    assert_eq!(
        error.message(),
        "Did not find the left argument for operator `=` of `ext::math::eq` (src/math.rs:120)."
    );
    let mut one = plain_function("eq", vec![input("l", 2, "i32", "ext")]);
    one.operator = Some(operator);
    let error = sql.inventory_extern_to_sql(&one).unwrap_err();
    assert_eq!(
        error,
        PgxSqlError::MissingOperatorArgument {
            operator_name: "=".to_string(),
            side: OperatorSide::Right,
            referencing_entity: "ext::math::eq".to_string(),
            file: "src/math.rs".to_string(),
            line: 120,
        }
    );
    assert_eq!(
        error.message(),
        "Did not find the right argument for operator `=` of `ext::math::eq` (src/math.rs:120)."
    );
}

fn a_type(in_fn_module: &str, out_fn: &str) -> InventoryPostgresType {
    InventoryPostgresType {
        name: "point".to_string(),
        file: "src/geo.rs".to_string(),
        line: 30,
        full_path: "ext::geo::Point".to_string(),
        module: "ext::math".to_string(),
        id: 500,
        option_id: 501,
        vec_id: 502,
        vec_option_id: 503,
        array_id: None,
        option_array_id: None,
        varlena_id: None,
        in_fn: "point_in".to_string(),
        in_fn_module: in_fn_module.to_string(),
        out_fn: out_fn.to_string(),
        out_fn_module: String::new(),
    }
}

#[test]
fn composite_type_needs_its_conversion_functions() {
    let point_in = plain_function("point_in", vec![input("s", 1, "&CStr", "ext")]);
    let mut point_out = plain_function("point_out", vec![input("p", 77, "Unknown", "ext")]);
    point_out.line = 121;
    let sql = context(vec![], vec![point_in, point_out]);

    let elsewhere = a_type("ext::other", "point_out");
    let error = sql.inventory_type_to_sql(&elsewhere).unwrap_err();
    assert_eq!(
        error,
        PgxSqlError::MissingConversionFunction {
            qualified_name: "ext::other::point_in".to_string(),
            referencing_entity: "ext::geo::Point".to_string(),
            file: "src/geo.rs".to_string(),
            line: 30,
        }
    );
    assert_eq!(
        error.message(),
        "Did not find conversion function `ext::other::point_in` of `ext::geo::Point` (src/geo.rs:30)."
    );

    let no_output = a_type("", "point_print");
    assert_eq!(
        sql.inventory_type_to_sql(&no_output),
        Err(PgxSqlError::MissingConversionFunction {
            qualified_name: "ext::math::point_print".to_string(),
            referencing_entity: "ext::geo::Point".to_string(),
            file: "src/geo.rs".to_string(),
            line: 30,
        })
    );

    // The output function is found, but one of its types is unknown.
    let broken = a_type("ext::math", "point_out");
    assert_eq!(
        sql.inventory_type_to_sql(&broken),
        Err(PgxSqlError::MissingTypeMapping {
            type_id: 77,
            ty_name: "Unknown".to_string(),
            argument: Some("p".to_string()),
            referencing_entity: "ext::math::point_out".to_string(),
            file: "src/math.rs".to_string(),
            line: 121,
        })
    );
}

#[test]
fn nodes_are_rendered_by_their_kind() {
    let sql = context(vec![math_schema()], vec![plain_function("f", vec![])]);
    assert_eq!(
        SqlGraphEntity::Schema(0).to_sql(&sql),
        Ok("-- src/math.rs:3\nCREATE SCHEMA IF NOT EXISTS math; /* ext::math */\n".to_string())
    );
    assert_eq!(
        SqlGraphEntity::Function(0).to_sql(&sql),
        Ok("\n-- src/math.rs:120\n-- ext::math::f\nCREATE OR REPLACE FUNCTION math.\"f\"() RETURNS void\nSTRICT\nLANGUAGE c /* Rust */\nAS 'MODULE_PATHNAME', 'f_wrapper';\n".to_string())
    );
    assert_eq!(SqlGraphEntity::Schema(0).with_position(4), SqlGraphEntity::Schema(4));
    assert_eq!(SqlGraphEntity::Hash(9).with_position(1), SqlGraphEntity::Hash(1));
}

#[test]
fn cycle_message_names_the_path() {
    let error = PgxSqlError::CycleDetected {
        path: vec!["ext::a".to_string(), "ext::b".to_string()],
    };
    assert_eq!(error.message(), "Found a cycle of dependencies: ext::a -> ext::b.");
}

#[test]
fn explicit_modifiers_are_kept_as_they_are() {
    let sql = context(vec![], vec![]);
    let mut f = plain_function("f", vec![]);
    f.extern_attrs = vec![ExternArgs::Strict, ExternArgs::Stable, ExternArgs::Strict];
    let rendered = sql.inventory_extern_to_sql(&f).unwrap();
    assert!(rendered.contains(" RETURNS void\nSTRICT STABLE STRICT\nLANGUAGE c"));
}

#[test]
fn empty_search_path_and_defaults_of_every_argument() {
    let sql = context(vec![], vec![]);
    let mut only = input("n", 2, "i32", "ext");
    only.default = Some("NULL".to_string());
    only.is_optional = true;
    let mut f = plain_function("f", vec![only]);
    f.search_path = Some(vec![]);
    assert_eq!(
        sql.inventory_extern_to_sql(&f),
        Ok("\n-- src/math.rs:120\n-- ext::math::f\nCREATE OR REPLACE FUNCTION \"f\"(\n\t\"n\" integer DEFAULT NULL /* i32 */\n) RETURNS void\nSET search_path TO \nLANGUAGE c /* Rust */\nAS 'MODULE_PATHNAME', 'f_wrapper';\n".to_string())
    );
}

#[test]
fn overridden_function_with_several_lines_of_its_own() {
    let sql = context(vec![], vec![]);
    let mut f = plain_function("f", vec![]);
    f.extern_attrs = vec![ExternArgs::Raw];
    f.overridden = Some("SELECT 1;\nSELECT 2;".to_string());
    assert_eq!(
        sql.inventory_extern_to_sql(&f),
        Ok("\n-- src/math.rs:120\n-- ext::math::f\n-- CREATE OR REPLACE FUNCTION \"f\"() RETURNS void\n--  STRICT\n-- LANGUAGE c /* Rust */\n-- AS 'MODULE_PATHNAME', 'f_wrapper';\n--\n-- Overridden as (due to a `//` comment with a `sql` code block):\nSELECT 1;\nSELECT 2;\n".to_string())
    );
}

#[test]
fn conversion_function_in_a_module_of_its_own() {
    let mut point_in = plain_function("point_in", vec![input("s", 1, "&CStr", "ext")]);
    point_in.module = "ext::io".to_string();
    point_in.full_path = "ext::io::point_in".to_string();
    let point_out = plain_function("point_out", vec![]);
    let io = InventorySchema {
        module: "ext::io".to_string(),
        name: "io".to_string(),
        file: "src/io.rs".to_string(),
        line: 1,
    };
    let sql = context(vec![io, math_schema()], vec![point_in, point_out]);
    let rendered = sql.inventory_type_to_sql(&a_type("ext::io", "point_out")).unwrap();
    assert!(rendered.starts_with("\n-- src/geo.rs:30\n-- ext::geo::Point\nCREATE TYPE math.point;\n\n-- src/math.rs:120\n-- ext::io::point_in\nCREATE OR REPLACE FUNCTION io.\"point_in\"("));
    assert!(rendered.ends_with(
        "\n-- src/geo.rs:30\n-- ext::geo::Point - 500\nCREATE TYPE math.point (\n\tINTERNALLENGTH = variable,\n\tINPUT = io.point_in, /* ext::io::point_in */\n\tOUTPUT = math.point_out, /* ext::math::point_out */\n\tSTORAGE = extended\n);\n                            "
    ));
}
