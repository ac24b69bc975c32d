use blog_backend::assembler::build_delete;
use blog_backend::assembler::build_select;
use blog_backend::assembler::build_update;
use blog_backend::assembler::AssignmentSet;
use blog_backend::assembler::Connective;
use blog_backend::assembler::ConstructionError;
use blog_backend::assembler::Contribution;
use blog_backend::assembler::FilterSet;
use blog_backend::assembler::Pagination;
use blog_backend::assembler::Predicate;
use blog_backend::assembler::Value;

fn text(value: &str) -> Option<Value> {
    Some(Value::Text(value.to_string()))
}

fn item(fragment: &str, value: Option<Value>) -> Contribution {
    Contribution { text: fragment.to_string(), value }
}

fn texts(values: &[Value]) -> Vec<String> {
    values.iter().map(|value| format!("{:?}", value)).collect()
}

fn placeholders(sql: &str) -> usize {
    sql.chars().filter(|c| *c == '?').count()
}

#[test]
fn select_without_filters_has_no_where_clause() {
    let filters = FilterSet { operator: Connective::And, items: vec![] };
    let page = Pagination::new(1, 6).unwrap();
    let statement = build_select("SELECT * FROM posts", &filters, &page);
    assert_eq!(statement.sql, "SELECT * FROM posts OFFSET ? LIMIT ?");
    assert!(!statement.sql.contains("WHERE"));
    assert_eq!(texts(&statement.values), vec!["Int(0)", "Int(6)"]);
}

#[test]
fn select_with_only_absent_filters_has_no_where_clause() {
    let filters = FilterSet {
        operator: Connective::Or,
        items: vec![item("firstname LIKE ?", None), item("lastname LIKE ?", None)],
    };
    let page = Pagination::new(3, 10).unwrap();
    let statement = build_select("SELECT * FROM people", &filters, &page);
    assert_eq!(statement.sql, "SELECT * FROM people OFFSET ? LIMIT ?");
    assert_eq!(texts(&statement.values), vec!["Int(20)", "Int(10)"]);
}

#[test]
fn select_with_one_filter_has_no_operator() {
    let filters = FilterSet {
        operator: Connective::And,
        items: vec![
            item("firstname LIKE ?", None),
            item("lastname LIKE ?", text("%Doe%")),
            item("LOWER(username) LIKE ?", None),
        ],
    };
    let page = Pagination::new(1, 6).unwrap();
    let statement = build_select("SELECT * FROM people", &filters, &page);
    assert_eq!(statement.sql, "SELECT * FROM people WHERE (lastname LIKE ?) OFFSET ? LIMIT ?");
    assert!(!statement.sql.contains("AND"));
    assert!(!statement.sql.contains(" OR "));
    assert_eq!(texts(&statement.values), vec!["Text(\"%Doe%\")", "Int(0)", "Int(6)"]);
}

#[test]
fn select_keeps_the_order_of_the_present_filters() {
    let filters = FilterSet {
        operator: Connective::And,
        items: vec![
            item("first = ?", text("a")),
            item("second = ?", None),
            item("third = ?", text("c")),
        ],
    };
    let page = Pagination::new(1, 6).unwrap();
    let statement = build_select("SELECT * FROM t", &filters, &page);
    assert_eq!(statement.sql, "SELECT * FROM t WHERE (first = ? AND third = ?) OFFSET ? LIMIT ?");
    let first = statement.sql.find("first").unwrap();
    let third = statement.sql.find("third").unwrap();
    assert!(first < third);
    assert!(!statement.sql.contains("second"));
    assert_eq!(texts(&statement.values[..2]), vec!["Text(\"a\")", "Text(\"c\")"]);
}

#[test]
fn select_joins_with_the_operator_given() {
    let filters = FilterSet {
        operator: Connective::Or,
        items: vec![item("a = ?", text("1")), item("b = ?", text("2")), item("c = ?", text("3"))],
    };
    let page = Pagination::new(1, 6).unwrap();
    let statement = build_select("SELECT * FROM t", &filters, &page);
    assert_eq!(statement.sql, "SELECT * FROM t WHERE (a = ? OR b = ? OR c = ?) OFFSET ? LIMIT ?");
}

#[test]
fn select_treats_an_empty_text_as_present() {
    let filters = FilterSet { operator: Connective::And, items: vec![item("title LIKE ?", text(""))] };
    let page = Pagination::new(1, 6).unwrap();
    let statement = build_select("SELECT * FROM posts", &filters, &page);
    assert_eq!(statement.sql, "SELECT * FROM posts WHERE (title LIKE ?) OFFSET ? LIMIT ?");
    assert_eq!(texts(&statement.values), vec!["Text(\"\")", "Int(0)", "Int(6)"]);
}

#[test]
fn second_page_of_six_starts_at_offset_six() {
    let filters = FilterSet { operator: Connective::And, items: vec![] };
    let page = Pagination::new(2, 6).unwrap();
    assert_eq!(page.offset(), 6);
    assert_eq!(page.limit(), 6);
    assert_eq!(page.page(), 2);
    let statement = build_select("SELECT * FROM posts", &filters, &page);
    assert!(statement.sql.ends_with(" OFFSET ? LIMIT ?"));
    assert_eq!(texts(&statement.values), vec!["Int(6)", "Int(6)"]);
}

#[test]
fn select_is_the_same_when_built_twice() {
    let filters = FilterSet {
        operator: Connective::And,
        items: vec![item("a = ?", text("x")), item("b = ?", Some(Value::Bool(true)))],
    };
    let page = Pagination::new(4, 25).unwrap();
    let first = build_select("SELECT * FROM t", &filters, &page);
    let second = build_select("SELECT * FROM t", &filters, &page);
    assert_eq!(first.sql, second.sql);
    assert_eq!(texts(&first.values), texts(&second.values));
    assert_eq!(texts(&first.values), vec!["Text(\"x\")", "Bool(true)", "Int(75)", "Int(25)"]);
}

#[test]
fn pagination_refuses_a_page_or_a_limit_of_zero() {
    assert!(Pagination::new(0, 6).is_none());
    assert!(Pagination::new(1, 0).is_none());
    assert!(Pagination::new(1, 1).is_some());
}

#[test]
fn pagination_refuses_an_offset_out_of_range() {
    assert!(Pagination::new(u32::MAX, usize::MAX).is_none());
    assert!(Pagination::new(2, i64::MAX as usize).is_some());
    assert!(Pagination::new(3, i64::MAX as usize).is_none());
    assert!(Pagination::new(1, i64::MAX as usize).is_some());
    assert!(Pagination::new(1, i64::MAX as usize + 1).is_none());
    let far = Pagination::new(u32::MAX, 1000).unwrap();
    assert_eq!(far.offset(), (u32::MAX as i64 - 1) * 1000);
}

#[test]
fn update_skips_absent_columns_and_places_commas_between() {
    let assignments = AssignmentSet {
        items: vec![item("col1", None), item("col2", text("x")), item("col3", text("y"))],
    };
    let identity = Predicate { text: "id = ?".to_string(), values: vec![Value::Uuid(7)] };
    let statement = build_update("t", &assignments, &identity).unwrap();
    assert_eq!(statement.sql, "UPDATE t SET col2 = ?, col3 = ? WHERE id = ?");
    assert!(!statement.sql.contains("col1"));
    assert_eq!(texts(&statement.values), vec!["Text(\"x\")", "Text(\"y\")", "Uuid(7)"]);
}

#[test]
fn update_with_one_column_has_no_comma() {
    let assignments = AssignmentSet {
        items: vec![item("title", None), item("description", text("New Description"))],
    };
    let identity = Predicate { text: "id = ?".to_string(), values: vec![Value::Uuid(1)] };
    let statement = build_update("posts", &assignments, &identity).unwrap();
    assert_eq!(statement.sql, "UPDATE posts SET description = ? WHERE id = ?");
    assert!(!statement.sql.contains(','));
}

#[test]
fn update_binds_the_identity_values_last() {
    let assignments = AssignmentSet { items: vec![item("a", Some(Value::Int(1)))] };
    let identity = Predicate {
        text: "id = ? AND owner_id = ?".to_string(),
        values: vec![Value::Uuid(10), Value::Uuid(20)],
    };
    let statement = build_update("emails", &assignments, &identity).unwrap();
    assert_eq!(statement.sql, "UPDATE emails SET a = ? WHERE id = ? AND owner_id = ?");
    assert_eq!(texts(&statement.values), vec!["Int(1)", "Uuid(10)", "Uuid(20)"]);
}

#[test]
fn update_with_nothing_to_set_is_refused() {
    let identity = Predicate { text: "id = ?".to_string(), values: vec![Value::Uuid(7)] };
    let none = AssignmentSet { items: vec![] };
    assert_eq!(
        build_update("t", &none, &identity).unwrap_err(),
        ConstructionError::EmptyAssignmentSet
    );
    let absent = AssignmentSet { items: vec![item("a", None), item("b", None)] };
    assert_eq!(
        build_update("t", &absent, &identity).unwrap_err(),
        ConstructionError::EmptyAssignmentSet
    );
}

#[test]
fn delete_has_a_fixed_shape() {
    let identity = Predicate {
        text: "id = ? AND role = 'user'".to_string(),
        values: vec![Value::Uuid(3)],
    };
    let statement = build_delete("people", &identity);
    assert_eq!(statement.sql, "DELETE FROM people WHERE id = ? AND role = 'user'");
    assert_eq!(texts(&statement.values), vec!["Uuid(3)"]);
}

#[test]
fn placeholders_are_as_many_as_values() {
    let filters = FilterSet {
        operator: Connective::Or,
        items: vec![
            item("a LIKE ?", text("1")),
            item("b LIKE ?", None),
            item("c LIKE ?", text("3")),
            item("d = ?", Some(Value::Bool(false))),
        ],
    };
    let page = Pagination::new(5, 2).unwrap();
    let select = build_select("SELECT * FROM t", &filters, &page);
    assert_eq!(placeholders(&select.sql), select.values.len());
    assert_eq!(select.values.len(), 5);

    let assignments = AssignmentSet {
        items: vec![item("a", text("1")), item("b", None), item("c", Some(Value::Int(3)))],
    };
    let identity = Predicate {
        text: "id = ? AND owner_id = ?".to_string(),
        values: vec![Value::Uuid(1), Value::Uuid(2)],
    };
    let update = build_update("t", &assignments, &identity).unwrap();
    assert_eq!(placeholders(&update.sql), update.values.len());
    assert_eq!(update.values.len(), 4);

    let delete = build_delete("t", &identity);
    assert_eq!(placeholders(&delete.sql), delete.values.len());
}

#[test]
fn a_copy_of_a_value_holds_the_same() {
    let values = vec![
        Value::Text("a".to_string()),
        Value::Bool(true),
        Value::NullableBool(None),
        Value::Int(-4),
        Value::Uuid(9),
    ];
    let copies: Vec<Value> = values.iter().map(|value| value.clone()).collect();
    assert_eq!(texts(&values), texts(&copies));
}

#[test]
fn operators_stand_between_spaces() {
    assert_eq!(Connective::And.as_separator(), " AND ");
    assert_eq!(Connective::Or.as_separator(), " OR ");
}
