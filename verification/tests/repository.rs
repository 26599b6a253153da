use axum_todo::models::{TodoFilter, UpdateTodo};
use axum_todo::repository::{
    list_sql, update_statement, UpdateParam, LIST_TODOS_BY_COMPLETED_SQL, LIST_TODOS_SQL,
    UPDATE_FETCH_TODO_SQL,
};

fn payload(title: Option<&str>, description: Option<&str>, completed: Option<bool>) -> UpdateTodo {
    UpdateTodo {
        title: title.map(|s| s.to_string()),
        description: description.map(|s| s.to_string()),
        completed,
    }
}

const RETURNING: &str = " RETURNING id, title, description, completed, created_at, updated_at";

#[test]
fn update_with_every_field() {
    let st = update_statement(payload(Some("t"), Some("d"), Some(true)));
    assert_eq!(
        st.sql,
        format!(
            "UPDATE todos SET updated_at = NOW(), title = $1, description = $2, completed = $3 WHERE id = $4{}",
            RETURNING
        )
    );
    assert_eq!(st.params.len(), 3);
    assert!(matches!(&st.params[0], UpdateParam::Title(t) if t == "t"));
    assert!(matches!(&st.params[1], UpdateParam::Description(d) if d == "d"));
    assert!(matches!(&st.params[2], UpdateParam::Completed(true)));
}

#[test]
fn update_with_some_fields_numbers_consecutively() {
    let st = update_statement(payload(None, Some("d"), Some(false)));
    assert_eq!(
        st.sql,
        format!("UPDATE todos SET updated_at = NOW(), description = $1, completed = $2 WHERE id = $3{}", RETURNING)
    );
    let st = update_statement(payload(None, None, Some(false)));
    assert_eq!(
        st.sql,
        format!("UPDATE todos SET updated_at = NOW(), completed = $1 WHERE id = $2{}", RETURNING)
    );
    assert!(matches!(&st.params[..], [UpdateParam::Completed(false)]));
    let st = update_statement(payload(Some("only"), None, None));
    assert_eq!(
        st.sql,
        format!("UPDATE todos SET updated_at = NOW(), title = $1 WHERE id = $2{}", RETURNING)
    );
}

#[test]
fn update_without_fields_is_a_fetch() {
    let st = update_statement(payload(None, None, None));
    assert_eq!(st.sql, UPDATE_FETCH_TODO_SQL);
    assert!(st.params.is_empty());
}

#[test]
fn placeholders_match_bound_values() {
    for t in [None, Some("a")] {
        for d in [None, Some("b")] {
            for c in [None, Some(true)] {
                let st = update_statement(payload(t, d, c));
                let dollars = st.sql.chars().filter(|ch| *ch == '$').count();
                assert_eq!(dollars, st.params.len() + 1);
            }
        }
    }
}

#[test]
fn list_statement_follows_filter() {
    assert_eq!(list_sql(&TodoFilter::new(None)), LIST_TODOS_SQL);
    assert_eq!(list_sql(&TodoFilter::new(Some(true))), LIST_TODOS_BY_COMPLETED_SQL);
    assert_eq!(list_sql(&TodoFilter::new(Some(false))), LIST_TODOS_BY_COMPLETED_SQL);
    assert_eq!(TodoFilter::new(Some(false)).completed(), Some(false));
}

#[test]
fn statements_keep_the_column_aliases() {
    assert!(UPDATE_FETCH_TODO_SQL.contains("completed as \"completed!\""));
    assert!(LIST_TODOS_SQL.contains("ORDER BY created_at DESC"));
    assert!(!LIST_TODOS_SQL.contains("WHERE"));
    assert!(LIST_TODOS_BY_COMPLETED_SQL.contains("WHERE completed = $1"));
}
