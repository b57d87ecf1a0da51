use std::collections::HashMap;

use pgx_utils::{
    ControlFile, ExtensionSql, ExternArgs, InventoryPgExtern, InventoryPgExternInput,
    InventoryPgExternReturn, InventoryPostgresEnum, InventoryPostgresType, InventorySchema,
    PgxSql, PgxSqlError,
};

const PREAMBLE: &str = "/* This file is auto generated by pgx.\n\nThe ordering of items is not stable, it is driven by a dependency graph.\n*/\n                ";

fn control(schema: Option<&str>) -> ControlFile {
    ControlFile { default_version: "1.0".to_string(), schema: schema.map(|s| s.to_string()) }
}

fn schema(name: &str, module: &str, line: u32) -> InventorySchema {
    InventorySchema {
        module: module.to_string(),
        name: name.to_string(),
        file: "src/lib.rs".to_string(),
        line,
    }
}

fn an_enum(name: &str, module: &str, id: u64, variants: &[&str], line: u32) -> InventoryPostgresEnum {
    InventoryPostgresEnum {
        name: name.to_string(),
        file: "src/lib.rs".to_string(),
        line,
        full_path: format!("{}::{}", module, name),
        module: module.to_string(),
        id,
        option_id: id + 1,
        vec_id: id + 2,
        array_id: Some(id + 3),
        option_array_id: None,
        varlena_id: None,
        variants: variants.iter().map(|v| v.to_string()).collect(),
    }
}

fn arg(pattern: &str, ty_id: u64, ty_name: &str) -> InventoryPgExternInput {
    InventoryPgExternInput {
        pattern: pattern.to_string(),
        ty_id,
        ty_name: ty_name.to_string(),
        module: "ext".to_string(),
        is_optional: false,
        default: None,
    }
}

fn function(
    name: &str,
    module: &str,
    line: u32,
    fn_args: Vec<InventoryPgExternInput>,
    fn_return: InventoryPgExternReturn,
) -> InventoryPgExtern {
    InventoryPgExtern {
        name: name.to_string(),
        module: module.to_string(),
        full_path: format!("{}::{}", module, name),
        file: "src/lib.rs".to_string(),
        line,
        extern_attrs: vec![],
        search_path: None,
        fn_args,
        fn_return,
        operator: None,
        overridden: None,
    }
}

fn composite(name: &str, module: &str, id: u64, line: u32) -> InventoryPostgresType {
    InventoryPostgresType {
        name: name.to_string(),
        file: "src/lib.rs".to_string(),
        line,
        full_path: format!("{}::{}", module, name),
        module: module.to_string(),
        id,
        option_id: id + 1,
        vec_id: id + 2,
        vec_option_id: id + 3,
        array_id: None,
        option_array_id: None,
        varlena_id: None,
        in_fn: format!("{}_in", name),
        in_fn_module: String::new(),
        out_fn: format!("{}_out", name),
        out_fn_module: String::new(),
    }
}

fn base_types() -> HashMap<u64, String> {
    let mut table = HashMap::new();
    table.insert(1, "cstring".to_string());
    table.insert(2, "integer".to_string());
    table
}

#[test]
fn end_to_end_schema_then_enum() {
    let sql = PgxSql::build(
        control(None),
        HashMap::new(),
        vec![schema("foo", "ext::foo", 0)],
        vec![],
        vec![],
        vec![],
        vec![an_enum("bar", "ext::foo", 100, &["a", "b"], 0)],
        vec![],
        vec![],
    );
    let document = sql.to_sql().unwrap();
    let create_schema = document.find("CREATE SCHEMA IF NOT EXISTS foo;").unwrap();
    let create_type =
        document.find("CREATE TYPE foo.bar AS ENUM (\n\t'a',\n\t'b'\n);").unwrap();
    assert!(create_schema < create_type);
    assert_eq!(
        document,
        format!(
            "{}{}{}\n",
            PREAMBLE,
            "-- src/lib.rs:0\nCREATE SCHEMA IF NOT EXISTS foo; /* ext::foo */\n",
            "-- src/lib.rs:0\n-- ext::foo::bar\nCREATE TYPE foo.bar AS ENUM (\n\t'a',\n\t'b'\n);\n"
        )
    );
}

#[test]
fn end_to_end_composite_type() {
    let point_in = function(
        "point_in",
        "ext",
        10,
        vec![arg("input", 1, "&std::ffi::CStr")],
        InventoryPgExternReturn::Type {
            id: 200,
            name: "Point".to_string(),
            module: "ext".to_string(),
        },
    );
    let point_out = function(
        "point_out",
        "ext",
        20,
        vec![arg("input", 200, "Point")],
        InventoryPgExternReturn::Type {
            id: 1,
            name: "&std::ffi::CStr".to_string(),
            module: "ext".to_string(),
        },
    );
    let sql = PgxSql::build(
        control(None),
        base_types(),
        vec![schema("geo", "ext", 1)],
        vec![],
        vec![point_in, point_out],
        vec![composite("point", "ext", 200, 5)],
        vec![],
        vec![],
        vec![],
    );
    let rendered_in = "\n-- src/lib.rs:10\n-- ext::point_in\nCREATE OR REPLACE FUNCTION geo.\"point_in\"(\n\t\"input\" geo.cstring /* &std::ffi::CStr */\n) RETURNS geo.point /* Point */\nSTRICT\nLANGUAGE c /* Rust */\nAS 'MODULE_PATHNAME', 'point_in_wrapper';\n";
    let rendered_out = "\n-- src/lib.rs:20\n-- ext::point_out\nCREATE OR REPLACE FUNCTION geo.\"point_out\"(\n\t\"input\" geo.point /* Point */\n) RETURNS geo.cstring /* &std::ffi::CStr */\nSTRICT\nLANGUAGE c /* Rust */\nAS 'MODULE_PATHNAME', 'point_out_wrapper';\n";
    let shell = "\n-- src/lib.rs:5\n-- ext::point\nCREATE TYPE geo.point;\n";
    let materialized = "\n-- src/lib.rs:5\n-- ext::point - 200\nCREATE TYPE geo.point (\n\tINTERNALLENGTH = variable,\n\tINPUT = geo.point_in, /* ext::point_in */\n\tOUTPUT = geo.point_out, /* ext::point_out */\n\tSTORAGE = extended\n);\n                            ";
    let fragment = format!("{}{}{}{}", shell, rendered_in, rendered_out, materialized);
    let document = sql.to_sql().unwrap();
    let at_shell = document.find("CREATE TYPE geo.point;").unwrap();
    let at_in = document.find("CREATE OR REPLACE FUNCTION geo.\"point_in\"").unwrap();
    let at_out = document.find("CREATE OR REPLACE FUNCTION geo.\"point_out\"").unwrap();
    let at_type = document.find("CREATE TYPE geo.point (\n\tINTERNALLENGTH = variable,\n\tINPUT = geo.point_in, /* ext::point_in */\n\tOUTPUT = geo.point_out, /* ext::point_out */\n\tSTORAGE = extended\n);").unwrap();
    assert!(at_shell < at_in && at_in < at_out && at_out < at_type);
    assert_eq!(
        document,
        format!(
            "{}{}{}{}{}\n",
            PREAMBLE,
            "-- src/lib.rs:1\nCREATE SCHEMA IF NOT EXISTS geo; /* ext */\n",
            fragment,
            rendered_in,
            rendered_out
        )
    );
}

#[test]
fn cycle_between_composite_types_is_rejected() {
    let left_in = function("left_in", "ext", 1, vec![arg("input", 300, "Right")], InventoryPgExternReturn::Void);
    let left_out = function("left_out", "ext", 2, vec![arg("input", 200, "Left")], InventoryPgExternReturn::Void);
    let right_in = function("right_in", "ext", 3, vec![arg("input", 200, "Left")], InventoryPgExternReturn::Void);
    let right_out = function("right_out", "ext", 4, vec![arg("input", 300, "Right")], InventoryPgExternReturn::Void);
    let sql = PgxSql::build(
        control(None),
        base_types(),
        vec![],
        vec![],
        vec![left_in, left_out, right_in, right_out],
        vec![composite("left", "ext", 200, 5), composite("right", "ext", 300, 6)],
        vec![],
        vec![],
        vec![],
    );
    match sql.to_sql() {
        Err(PgxSqlError::CycleDetected { path }) => {
            assert_eq!(path.len(), 2);
            assert!(path.contains(&"ext::left".to_string()));
            assert!(path.contains(&"ext::right".to_string()));
        },
        other => panic!("expected a cycle, got {:?}", other),
    }
}

#[test]
fn identical_input_gives_identical_output() {
    let make = || {
        PgxSql::build(
            control(Some("extension")),
            base_types(),
            vec![schema("foo", "ext::foo", 3), schema("public", "ext::public", 4)],
            vec![ExtensionSql {
                module: "ext".to_string(),
                full_path: "ext::bootstrap".to_string(),
                sql: "SELECT 1;\n".to_string(),
                file: "src/lib.rs".to_string(),
                line: 9,
            }],
            vec![function("f", "ext::foo", 7, vec![arg("x", 100, "Bar")], InventoryPgExternReturn::Void)],
            vec![],
            vec![an_enum("bar", "ext::foo", 100, &["a", "b", "c"], 8)],
            vec![],
            vec![],
        )
    };
    let first = make().to_sql().unwrap();
    let second = make().to_sql().unwrap();
    assert_eq!(first, second);
    assert!(first.starts_with(&format!("{}CREATE SCHEMA IF NOT EXISTS extension;\n", PREAMBLE)));
    assert!(!first.contains("CREATE SCHEMA IF NOT EXISTS public"));
}

#[test]
fn dependency_is_rendered_before_dependent() {
    // The function is declared first, but it takes the enum as its argument.
    let sql = PgxSql::build(
        control(None),
        base_types(),
        vec![],
        vec![],
        vec![function("f", "ext", 1, vec![arg("x", 100, "Bar")], InventoryPgExternReturn::Void)],
        vec![],
        vec![an_enum("bar", "ext", 100, &["a"], 50)],
        vec![],
        vec![],
    );
    assert_eq!(sql.walk_order().unwrap(), vec![1, 0]);
    let document = sql.to_sql().unwrap();
    let at_enum = document.find("CREATE TYPE bar AS ENUM").unwrap();
    let at_function = document.find("CREATE OR REPLACE FUNCTION \"f\"").unwrap();
    assert!(at_enum < at_function);
}

#[test]
fn strictness_is_inferred_once() {
    let sql = PgxSql::build(control(None), base_types(), vec![], vec![], vec![], vec![], vec![], vec![], vec![]);
    let plain = function("f", "ext", 1, vec![arg("x", 2, "i32")], InventoryPgExternReturn::Void);
    let rendered = sql.inventory_extern_to_sql(&plain).unwrap();
    assert_eq!(rendered.matches("STRICT").count(), 1);
    assert_eq!(
        rendered,
        "\n-- src/lib.rs:1\n-- ext::f\nCREATE OR REPLACE FUNCTION \"f\"(\n\t\"x\" integer /* i32 */\n) RETURNS void\nSTRICT\nLANGUAGE c /* Rust */\nAS 'MODULE_PATHNAME', 'f_wrapper';\n"
    );

    let mut explicit = function("f", "ext", 1, vec![arg("x", 2, "i32")], InventoryPgExternReturn::Void);
    explicit.extern_attrs = vec![ExternArgs::Strict, ExternArgs::Immutable];
    let rendered = sql.inventory_extern_to_sql(&explicit).unwrap();
    assert_eq!(rendered.matches("STRICT").count(), 1);
    assert!(rendered.contains(") RETURNS void\nSTRICT IMMUTABLE\nLANGUAGE c"));

    let mut nullable = function("f", "ext", 1, vec![arg("x", 2, "i32")], InventoryPgExternReturn::Void);
    nullable.fn_args[0].is_optional = true;
    nullable.extern_attrs = vec![ExternArgs::ParallelSafe];
    let rendered = sql.inventory_extern_to_sql(&nullable).unwrap();
    assert_eq!(rendered.matches("STRICT").count(), 0);
    assert!(rendered.contains(") RETURNS void\nPARALLEL SAFE\nLANGUAGE c"));
}

#[test]
fn missing_mapping_is_reported() {
    let f = function(
        "f",
        "ext",
        12,
        vec![arg("known", 2, "i32"), arg("unknown", 77, "Mystery"), arg("other", 78, "Other")],
        InventoryPgExternReturn::Void,
    );
    let sql = PgxSql::build(control(None), base_types(), vec![], vec![], vec![f], vec![], vec![], vec![], vec![]);
    assert_eq!(
        sql.to_sql(),
        Err(PgxSqlError::MissingTypeMapping {
            type_id: 77,
            ty_name: "Mystery".to_string(),
            argument: Some("unknown".to_string()),
            referencing_entity: "ext::f".to_string(),
            file: "src/lib.rs".to_string(),
            line: 12,
        })
    );
}
