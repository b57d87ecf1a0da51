use std::collections::HashMap;

use pgx_utils::text::{
    comment_out_lines, join_strings, push_decimal, push_line, starts_with, text_order, to_chars,
    TextOrder,
};
use pgx_utils::{
    last_write_wins, ControlFile, ExtensionSql, InventoryPgExtern, InventoryPgExternInput,
    InventoryPgExternReturn, InventoryPostgresEnum, InventoryPostgresHash, InventoryPostgresOrd,
    InventoryPostgresType, InventorySchema, PgxSql, PgxSqlError, SqlGraphEntity,
    SqlGraphIdentifier,
};

fn no_control() -> ControlFile {
    ControlFile { default_version: "0.1.0".to_string(), schema: None }
}

fn fragment(full_path: &str, file: &str, line: u32) -> ExtensionSql {
    ExtensionSql {
        module: "ext".to_string(),
        full_path: full_path.to_string(),
        sql: format!("SELECT '{}';\n", full_path),
        file: file.to_string(),
        line,
    }
}

fn with_fragments(items: Vec<ExtensionSql>) -> PgxSql {
    PgxSql::build(no_control(), HashMap::new(), vec![], items, vec![], vec![], vec![], vec![], vec![])
}

fn simple_enum(name: &str, id: u64, line: u32) -> InventoryPostgresEnum {
    InventoryPostgresEnum {
        name: name.to_string(),
        file: "src/lib.rs".to_string(),
        line,
        full_path: format!("ext::{}", name),
        module: "ext".to_string(),
        id,
        option_id: id + 1,
        vec_id: id + 2,
        array_id: Some(id + 3),
        option_array_id: Some(id + 4),
        varlena_id: Some(id + 5),
        variants: vec!["one".to_string()],
    }
}

fn simple_type(name: &str, id: u64, line: u32) -> InventoryPostgresType {
    InventoryPostgresType {
        name: name.to_string(),
        file: "src/lib.rs".to_string(),
        line,
        full_path: format!("ext::{}", name),
        module: "ext".to_string(),
        id,
        option_id: id + 1,
        vec_id: id + 2,
        vec_option_id: id + 3,
        array_id: Some(id + 4),
        option_array_id: Some(id + 5),
        varlena_id: Some(id + 6),
        in_fn: format!("{}_in", name),
        in_fn_module: String::new(),
        out_fn: format!("{}_out", name),
        out_fn_module: String::new(),
    }
}

fn function_of(name: &str, line: u32, ids: &[u64], fn_return: InventoryPgExternReturn) -> InventoryPgExtern {
    InventoryPgExtern {
        name: name.to_string(),
        module: "ext".to_string(),
        full_path: format!("ext::{}", name),
        file: "src/lib.rs".to_string(),
        line,
        extern_attrs: vec![],
        search_path: None,
        fn_args: ids
            .iter()
            .map(|id| InventoryPgExternInput {
                pattern: format!("arg{}", id),
                ty_id: *id,
                ty_name: format!("T{}", id),
                module: "ext".to_string(),
                is_optional: false,
                default: None,
            })
            .collect(),
        fn_return,
        operator: None,
        overridden: None,
    }
}

#[test]
fn free_choice_goes_by_file_then_line_then_path() {
    let sql = with_fragments(vec![
        fragment("ext::d", "src/b.rs", 1),
        fragment("ext::c", "src/a.rs", 9),
        fragment("ext::b", "src/a.rs", 2),
        fragment("ext::a", "src/a.rs", 2),
        fragment("ext::a", "src/a", 500),
    ]);
    // The second "ext::a" replaces the first one, so four fragments stay.
    assert_eq!(sql.walk_order(), Ok(vec![3, 2, 1, 0]));
    assert_eq!(
        sql.walk(),
        Ok(vec![
            SqlGraphEntity::CustomSql(3),
            SqlGraphEntity::CustomSql(2),
            SqlGraphEntity::CustomSql(1),
            SqlGraphEntity::CustomSql(0),
        ])
    );
    let document = sql.to_sql().unwrap();
    assert!(document.ends_with(
        "-- src/a:500\nSELECT 'ext::a';\n-- src/a.rs:2\nSELECT 'ext::b';\n-- src/a.rs:9\nSELECT 'ext::c';\n-- src/b.rs:1\nSELECT 'ext::d';\n\n"
    ));
}

#[test]
fn equal_keys_go_by_position() {
    let schema = InventorySchema {
        module: "ext::same".to_string(),
        name: "same".to_string(),
        file: "src/lib.rs".to_string(),
        line: 1,
    };
    let sql = PgxSql::build(
        no_control(),
        HashMap::new(),
        vec![schema],
        vec![fragment("ext::same", "src/lib.rs", 1)],
        vec![],
        vec![],
        vec![],
        vec![],
        vec![],
    );
    assert_eq!(sql.walk_order(), Ok(vec![0, 1]));
}

#[test]
fn walk_follows_the_dependencies() {
    // Nodes: 0 f, 1 g, 2 point_in, 3 point_out, 4 point, 5 color, 6 ord, 7 hash.
    let f = function_of("f", 1, &[100], InventoryPgExternReturn::Void);
    let g = function_of(
        "g",
        2,
        &[],
        InventoryPgExternReturn::Iterated(vec![
            (1, "i32".to_string(), "ext".to_string(), Some("n".to_string())),
            (202, "Vec<Color>".to_string(), "ext".to_string(), Some("colors".to_string())),
        ]),
    );
    let point_in = function_of(
        "point_in",
        3,
        &[1],
        InventoryPgExternReturn::Type { id: 100, name: "Point".to_string(), module: "ext".to_string() },
    );
    let point_out = function_of(
        "point_out",
        4,
        &[100, 200],
        InventoryPgExternReturn::SetOf { id: 1, name: "i32".to_string(), module: "ext".to_string() },
    );
    let ord = InventoryPostgresOrd {
        name: "point".to_string(),
        file: "src/lib.rs".to_string(),
        line: 5,
        full_path: "ext::point_ord".to_string(),
        module: "ext".to_string(),
        id: 100,
    };
    let hash = InventoryPostgresHash {
        name: "color".to_string(),
        file: "src/lib.rs".to_string(),
        line: 6,
        full_path: "ext::color_hash".to_string(),
        module: "ext".to_string(),
        id: 201,
    };
    let mut table = HashMap::new();
    table.insert(1, "integer".to_string());
    let sql = PgxSql::build(
        no_control(),
        table,
        vec![],
        vec![],
        vec![f, g, point_in, point_out],
        vec![simple_type("point", 100, 90)],
        vec![simple_enum("color", 200, 80)],
        vec![ord],
        vec![hash],
    );
    // The enum is free at once; the type waits for the enum, which its output
    // function takes; everything else waits for one of the two.
    assert_eq!(sql.walk_order(), Ok(vec![5, 1, 7, 4, 0, 2, 3, 6]));
    assert!(sql.to_sql().is_ok());
}

#[test]
fn a_type_does_not_wait_for_itself() {
    let point_in = function_of(
        "point_in",
        3,
        &[1],
        InventoryPgExternReturn::Type { id: 101, name: "Option<Point>".to_string(), module: "ext".to_string() },
    );
    let point_out = function_of("point_out", 4, &[100], InventoryPgExternReturn::Void);
    let mut table = HashMap::new();
    table.insert(1, "cstring".to_string());
    let sql = PgxSql::build(
        no_control(),
        table,
        vec![],
        vec![],
        vec![point_in, point_out],
        vec![simple_type("point", 100, 1)],
        vec![],
        vec![],
        vec![],
    );
    assert_eq!(sql.walk_order(), Ok(vec![2, 0, 1]));
}

#[test]
fn cycle_of_three_is_reported_in_order() {
    let functions = vec![
        function_of("a_in", 1, &[200], InventoryPgExternReturn::Void),
        function_of("a_out", 1, &[], InventoryPgExternReturn::Void),
        function_of("b_in", 1, &[], InventoryPgExternReturn::Void),
        function_of("b_out", 1, &[300], InventoryPgExternReturn::Void),
        function_of("c_in", 1, &[100], InventoryPgExternReturn::Void),
        function_of("c_out", 1, &[], InventoryPgExternReturn::Void),
    ];
    let sql = PgxSql::build(
        no_control(),
        HashMap::new(),
        vec![],
        vec![fragment("ext::free", "src/lib.rs", 1)],
        functions,
        vec![simple_type("a", 100, 1), simple_type("b", 200, 2), simple_type("c", 300, 3)],
        vec![],
        vec![],
        vec![],
    );
    match sql.walk() {
        Err(PgxSqlError::CycleDetected { path }) => {
            assert_eq!(path.len(), 3);
            let start = path.iter().position(|p| p == "ext::a").unwrap();
            assert_eq!(path[(start + 1) % 3], "ext::b");
            assert_eq!(path[(start + 2) % 3], "ext::c");
        },
        other => panic!("expected a cycle, got {:?}", other),
    }
}

#[test]
fn later_entity_replaces_earlier_one() {
    let kept = last_write_wins(vec![
        fragment("ext::a", "first", 1),
        fragment("ext::b", "first", 2),
        fragment("ext::a", "second", 3),
        fragment("ext::c", "first", 4),
        fragment("ext::b", "second", 5),
        fragment("ext::a", "third", 6),
    ]);
    let seen: Vec<(String, String)> =
        kept.iter().map(|e| (e.full_path.clone(), e.file.clone())).collect();
    assert_eq!(
        seen,
        vec![
            ("ext::c".to_string(), "first".to_string()),
            ("ext::b".to_string(), "second".to_string()),
            ("ext::a".to_string(), "third".to_string()),
        ]
    );
    assert!(last_write_wins(Vec::<ExtensionSql>::new()).is_empty());

    let sql = PgxSql::build(
        no_control(),
        HashMap::new(),
        vec![],
        vec![],
        vec![],
        vec![],
        vec![simple_enum("color", 200, 1), simple_enum("color", 300, 2)],
        vec![],
        vec![],
    );
    assert_eq!(sql.walk_order(), Ok(vec![0]));
    assert_eq!(sql.type_id_to_sql_type(200), None);
    assert_eq!(sql.type_id_to_sql_type(300), Some("color".to_string()));
}

#[test]
fn enums_and_types_are_registered() {
    let mut table = HashMap::new();
    table.insert(1, "integer".to_string());
    table.insert(200, "stale".to_string());
    let mut partial = simple_enum("mood", 300, 2);
    partial.array_id = None;
    partial.option_array_id = None;
    partial.varlena_id = None;
    let mut sql = PgxSql::build(
        no_control(),
        table,
        vec![],
        vec![],
        vec![],
        vec![simple_type("point", 100, 3)],
        vec![simple_enum("color", 200, 1), partial],
        vec![],
        vec![],
    );
    let expected = [
        (1, Some("integer")),
        (2, None),
        (100, Some("point")),
        (101, Some("point")),
        (102, Some("point[]")),
        (103, Some("point[]")),
        (104, Some("point[]")),
        (105, Some("point[]")),
        (106, Some("point")),
        (107, None),
        (200, Some("color")),
        (201, Some("color")),
        (202, Some("color[]")),
        (203, Some("color[]")),
        (204, Some("color[]")),
        (205, Some("color")),
        (206, None),
        (300, Some("mood")),
        (301, Some("mood")),
        (302, Some("mood[]")),
        (303, None),
        (304, None),
        (305, None),
    ];
    for (id, name) in expected {
        assert_eq!(sql.type_id_to_sql_type(id), name.map(|n| n.to_string()), "id {}", id);
    }
    sql.map_type_id_to_sql_type(2, "bigint");
    sql.map_type_id_to_sql_type(100, "renamed");
    assert_eq!(sql.type_id_to_sql_type(2), Some("bigint".to_string()));
    assert_eq!(sql.type_id_to_sql_type(100), Some("renamed".to_string()));
    sql.register_types();
    assert_eq!(sql.type_id_to_sql_type(100), Some("point".to_string()));
    assert_eq!(sql.type_id_to_sql_type(2), Some("bigint".to_string()));
}

#[test]
fn identifiers_match_every_form_of_a_type() {
    let color = simple_enum("color", 200, 1);
    for id in 200..=205 {
        assert!(color.id_matches(&id));
    }
    assert!(!color.id_matches(&199));
    assert!(!color.id_matches(&206));
    let mut bare = simple_enum("color", 200, 1);
    bare.array_id = None;
    bare.option_array_id = None;
    bare.varlena_id = None;
    assert!(bare.id_matches(&202));
    assert!(!bare.id_matches(&203));
    let point = simple_type("point", 100, 1);
    for id in 100..=106 {
        assert!(point.id_matches(&id));
    }
    assert!(!point.id_matches(&107));
}

#[test]
fn schema_is_found_by_module_prefix() {
    let schema = |name: &str, module: &str| InventorySchema {
        module: module.to_string(),
        name: name.to_string(),
        file: "src/lib.rs".to_string(),
        line: 1,
    };
    let sql = PgxSql::build(
        no_control(),
        HashMap::new(),
        vec![schema("inner", "ext::outer::inner"), schema("outer", "ext::outer"), schema("late", "ext::outer")],
        vec![],
        vec![],
        vec![],
        vec![],
        vec![],
        vec![],
    );
    // "late" replaced "outer": both are declared by the module ext::outer.
    assert_eq!(sql.schema_alias_of("ext::outer::inner::deep"), Some("inner".to_string()));
    assert_eq!(sql.schema_alias_of("ext::outer::inner"), Some("inner".to_string()));
    assert_eq!(sql.schema_alias_of("ext::outer::other"), Some("late".to_string()));
    assert_eq!(sql.schema_alias_of("ext::outer"), Some("late".to_string()));
    assert_eq!(sql.schema_alias_of("ext::out"), None);
    assert_eq!(sql.schema_alias_of("ext"), None);
    assert_eq!(sql.schema_prefix_for("ext::outer::inner::deep"), "inner.");
    assert_eq!(sql.schema_prefix_for("elsewhere"), "");
}

#[test]
fn entities_name_themselves() {
    let color = simple_enum("color", 200, 17);
    assert_eq!(color.dot_identifier(), "enum ext::color");
    assert_eq!(color.rust_identifier(), "ext::color");
    assert_eq!(color.file(), Some("src/lib.rs".to_string()));
    assert_eq!(color.line(), Some(17));
    assert_eq!(simple_type("point", 1, 1).dot_identifier(), "type ext::point");
    assert_eq!(function_of("f", 1, &[], InventoryPgExternReturn::Void).dot_identifier(), "fn ext::f");
    assert_eq!(fragment("ext::boot", "f", 1).dot_identifier(), "sql ext::boot");
    let schema = InventorySchema {
        module: "ext::s".to_string(),
        name: "s".to_string(),
        file: "src/s.rs".to_string(),
        line: 2,
    };
    assert_eq!(schema.dot_identifier(), "schema ext::s");
    assert_eq!(schema.rust_identifier(), "ext::s");
    let ord = InventoryPostgresOrd {
        name: "p".to_string(),
        file: "src/p.rs".to_string(),
        line: 3,
        full_path: "ext::P".to_string(),
        module: "ext".to_string(),
        id: 1,
    };
    assert_eq!(ord.dot_identifier(), "ord ext::P");
    let hash = InventoryPostgresHash {
        name: "p".to_string(),
        file: "src/p.rs".to_string(),
        line: 3,
        full_path: "ext::P".to_string(),
        module: "ext".to_string(),
        id: 1,
    };
    assert_eq!(hash.dot_identifier(), "hash ext::P");
    assert_eq!(hash.file(), Some("src/p.rs".to_string()));
    assert_eq!(hash.line(), Some(3));
}

#[test]
fn entity_provenance_is_read_through_its_node() {
    let sql = PgxSql::build(
        no_control(),
        HashMap::new(),
        vec![],
        vec![fragment("ext::boot", "sql/boot.sql", 12)],
        vec![],
        vec![],
        vec![simple_enum("color", 200, 34)],
        vec![],
        vec![],
    );
    assert_eq!(sql.entity_file(SqlGraphEntity::CustomSql(0)), "sql/boot.sql");
    assert_eq!(sql.entity_line(SqlGraphEntity::CustomSql(0)), 12);
    assert_eq!(sql.entity_path(SqlGraphEntity::CustomSql(0)), "ext::boot");
    assert_eq!(sql.entity_file(SqlGraphEntity::Enum(0)), "src/lib.rs");
    assert_eq!(sql.entity_line(SqlGraphEntity::Enum(0)), 34);
    assert_eq!(sql.entity_path(SqlGraphEntity::Enum(0)), "ext::color");
}

#[test]
fn numbers_are_written_in_decimal() {
    let mut s = String::from("n=");
    push_decimal(&mut s, 0);
    s.push(',');
    push_decimal(&mut s, 7);
    s.push(',');
    push_decimal(&mut s, 10);
    s.push(',');
    push_decimal(&mut s, 1234567890);
    s.push(',');
    push_decimal(&mut s, u64::MAX);
    s.push(',');
    push_line(&mut s, u32::MAX);
    assert_eq!(s, "n=0,7,10,1234567890,18446744073709551615,4294967295");
}

#[test]
fn texts_are_compared_like_in_a_dictionary() {
    let order = |a: &str, b: &str| text_order(&to_chars(a), &to_chars(b));
    assert_eq!(order("", ""), TextOrder::Same);
    assert_eq!(order("", "a"), TextOrder::Before);
    assert_eq!(order("a", ""), TextOrder::After);
    assert_eq!(order("abc", "abd"), TextOrder::Before);
    assert_eq!(order("abd", "abc"), TextOrder::After);
    assert_eq!(order("ab", "abc"), TextOrder::Before);
    assert_eq!(order("abc", "abc"), TextOrder::Same);
    assert_eq!(order("Z", "a"), TextOrder::Before);
    assert_eq!(order("é", "z"), TextOrder::After);
    assert_eq!(to_chars("añb"), vec!['a', 'ñ', 'b']);
}

#[test]
fn prefixes_are_recognised() {
    let check = |text: &str, prefix: &str| starts_with(&to_chars(text), &to_chars(prefix));
    assert!(check("ext::foo::bar", "ext::foo"));
    assert!(check("ext::foo", "ext::foo"));
    assert!(check("ext::foo", ""));
    assert!(!check("ext::fo", "ext::foo"));
    assert!(!check("ext::bar", "ext::foo"));
    assert!(!check("", "e"));
}

#[test]
fn strings_are_joined() {
    let parts = |items: &[&str]| items.iter().map(|s| s.to_string()).collect::<Vec<String>>();
    assert_eq!(join_strings(&parts(&[]), ", "), "");
    assert_eq!(join_strings(&parts(&["a"]), ", "), "a");
    assert_eq!(join_strings(&parts(&["a", "b", "c"]), ", "), "a, b, c");
    assert_eq!(join_strings(&parts(&["", "", ""]), "-"), "--");
}

#[test]
fn lines_become_comments() {
    assert_eq!(comment_out_lines(""), "");
    assert_eq!(comment_out_lines("a"), "-- a");
    assert_eq!(comment_out_lines("a\n"), "-- a");
    assert_eq!(comment_out_lines("a\nb"), "-- a\n-- b");
    assert_eq!(comment_out_lines("a\r\nb\r\n"), "-- a\n-- b");
    assert_eq!(comment_out_lines("\n"), "-- ");
    assert_eq!(comment_out_lines("a\n\nb"), "-- a\n-- \n-- b");
    assert_eq!(comment_out_lines("a\rb\r"), "-- a\rb\r");
    for text in ["", "x", "x\n", "x\ny\n", "\r\n", "a\r\n\r\nb", "tab\there\nnext", "end\r"] {
        let expected = text.lines().map(|l| format!("-- {}", l)).collect::<Vec<_>>().join("\n");
        assert_eq!(comment_out_lines(text), expected, "for {:?}", text);
    }
}

#[test]
fn nodes_name_entities_of_the_registries() {
    let sql = with_fragments(vec![fragment("ext::a", "src/a.rs", 1), fragment("ext::b", "src/a.rs", 2)]);
    assert!(sql.has_entity(SqlGraphEntity::CustomSql(0)));
    assert!(sql.has_entity(SqlGraphEntity::CustomSql(1)));
    assert!(!sql.has_entity(SqlGraphEntity::CustomSql(2)));
    assert!(!sql.has_entity(SqlGraphEntity::Schema(0)));
    assert!(!sql.has_entity(SqlGraphEntity::Function(0)));
    assert!(!sql.has_entity(SqlGraphEntity::Type(0)));
    assert!(!sql.has_entity(SqlGraphEntity::Enum(0)));
    assert!(!sql.has_entity(SqlGraphEntity::Ord(0)));
    assert!(!sql.has_entity(SqlGraphEntity::Hash(0)));
}

#[test]
fn a_function_speaks_of_the_types_of_its_arguments_and_results() {
    let nothing = function_of("f", 1, &[], InventoryPgExternReturn::Trigger);
    assert_eq!(nothing.type_ids(), Vec::<u64>::new());
    let scalar = function_of(
        "g",
        1,
        &[7, 8],
        InventoryPgExternReturn::Type { id: 9, name: "T".to_string(), module: "ext".to_string() },
    );
    assert_eq!(scalar.type_ids(), vec![7, 8, 9]);
    let table = function_of(
        "h",
        1,
        &[7],
        InventoryPgExternReturn::Iterated(vec![
            (3, "A".to_string(), "ext".to_string(), Some("a".to_string())),
            (4, "B".to_string(), "ext".to_string(), None),
        ]),
    );
    assert_eq!(table.type_ids(), vec![7, 3, 4]);
}

#[test]
fn a_built_state_can_be_read() {
    let mut table = HashMap::new();
    table.insert(1, "integer".to_string());
    let sql = PgxSql::build(
        ControlFile { default_version: "2.3".to_string(), schema: Some("home".to_string()) },
        table,
        vec![InventorySchema {
            module: "ext::s".to_string(),
            name: "s".to_string(),
            file: "src/s.rs".to_string(),
            line: 2,
        }],
        vec![fragment("ext::old", "first", 1), fragment("ext::new", "f", 2), fragment("ext::old", "second", 3)],
        vec![function_of("f", 1, &[200], InventoryPgExternReturn::Void)],
        vec![simple_type("point", 100, 3)],
        vec![simple_enum("color", 200, 1)],
        vec![InventoryPostgresOrd {
            name: "point".to_string(),
            file: "src/lib.rs".to_string(),
            line: 5,
            full_path: "ext::point_ord".to_string(),
            module: "ext".to_string(),
            id: 100,
        }],
        vec![InventoryPostgresHash {
            name: "color".to_string(),
            file: "src/lib.rs".to_string(),
            line: 6,
            full_path: "ext::color_hash".to_string(),
            module: "ext".to_string(),
            id: 201,
        }],
    );
    assert_eq!(sql.control().default_version, "2.3");
    assert_eq!(sql.control().schema, Some("home".to_string()));
    assert_eq!(sql.type_mappings().get(&1), Some(&"integer".to_string()));
    assert_eq!(sql.type_mappings().get(&202), Some(&"color[]".to_string()));
    assert_eq!(sql.type_mappings().len(), 14);
    assert_eq!(sql.schema_registry().len(), 1);
    assert_eq!(sql.schema_registry()[0].name, "s");
    let fragments: Vec<(&str, &str)> = sql
        .extension_sql_registry()
        .iter()
        .map(|e| (e.full_path.as_str(), e.file.as_str()))
        .collect();
    assert_eq!(fragments, vec![("ext::new", "f"), ("ext::old", "second")]);
    assert_eq!(sql.extern_registry()[0].full_path, "ext::f");
    assert_eq!(sql.type_registry()[0].full_path, "ext::point");
    assert_eq!(sql.enum_registry()[0], simple_enum("color", 200, 1));
    assert_eq!(sql.ord_registry()[0].id, 100);
    assert_eq!(sql.hash_registry()[0].id, 201);
    // Nodes: 0 schema, 1 and 2 fragments, 3 function, 4 type, 5 enum, 6 ord, 7 hash.
    let graph = sql.graph();
    assert_eq!(graph.node_count(), 8);
    assert_eq!(graph.node_weight(petgraph::graph::NodeIndex::new(5)), Some(&SqlGraphEntity::Enum(0)));
    let edges: Vec<(usize, usize)> = graph
        .raw_edges()
        .iter()
        .map(|e| (e.source().index(), e.target().index()))
        .collect();
    assert_eq!(edges, vec![(3, 5), (6, 4), (7, 5)]);
}
