use dkdc_md_cli::jsonv::Jv;
use dkdc_md_cli::render::{
    account_rows, display_field, render_duckling_config, render_table, token_rows,
};

fn s(x: &str) -> String {
    x.to_string()
}

fn obj(pairs: Vec<(&str, Jv)>) -> Jv {
    Jv::Obj(pairs.into_iter().map(|(k, v)| (k.to_string(), v)).collect())
}

#[test]
fn display_field_returns_value() {
    let v = obj(vec![("name", Jv::Str(s("alice")))]);
    assert_eq!(display_field(&v, "name"), "alice");
}

#[test]
fn display_field_returns_dash_for_missing() {
    let v = obj(vec![]);
    assert_eq!(display_field(&v, "name"), "-");
}

#[test]
fn display_field_returns_dash_for_null() {
    let v = obj(vec![("name", Jv::Null)]);
    assert_eq!(display_field(&v, "name"), "-");
}

#[test]
fn print_table_empty_rows_no_output() {
    let lines = render_table(&vec![s("A"), s("B")], &vec![]);
    assert!(lines.is_empty());
}

#[test]
fn print_table_single_row() {
    let lines = render_table(&vec![s("A"), s("B")], &vec![vec![s("short"), s("x")]]);
    assert_eq!(lines, vec![s("A      B"), s("short  x")]);
}

#[test]
fn print_table_varying_widths() {
    let lines = render_table(
        &vec![s("ID"), s("NAME")],
        &vec![vec![s("1"), s("alice")], vec![s("1000"), s("b")]],
    );
    // column widths 4 and 5, driven by "1000" and "alice"
    assert_eq!(lines, vec![s("ID    NAME"), s("1     alice"), s("1000  b")]);
}

#[test]
fn table_last_column_is_never_padded() {
    let lines = render_table(
        &vec![s("A"), s("B")],
        &vec![vec![s("x"), s("y")], vec![s("x"), s("longer")]],
    );
    assert_eq!(lines, vec![s("A  B"), s("x  y"), s("x  longer")]);
}

#[test]
fn token_rows_extracts_fields_and_expiry() {
    let result = obj(vec![(
        "tokens",
        Jv::Arr(vec![
            obj(vec![
                ("id", Jv::Str(s("t1"))),
                ("name", Jv::Str(s("tok"))),
                ("token_type", Jv::Str(s("read_write"))),
                ("expire_at", Jv::Str(s("2030-01-01"))),
            ]),
            obj(vec![
                ("id", Jv::Str(s("t2"))),
                ("expire_at", Jv::Str(s(""))),
            ]),
            obj(vec![("id", Jv::Str(s("t3")))]),
        ]),
    )]);
    let rows = token_rows(&result).unwrap();
    assert_eq!(
        rows,
        vec![
            vec![s("t1"), s("tok"), s("read_write"), s("2030-01-01")],
            vec![s("t2"), s("-"), s("-"), s("never")],
            vec![s("t3"), s("-"), s("-"), s("never")],
        ]
    );
}

#[test]
fn token_rows_absent_without_array() {
    assert!(token_rows(&obj(vec![])).is_none());
    assert!(token_rows(&obj(vec![("tokens", Jv::Null)])).is_none());
    let empty = token_rows(&obj(vec![("tokens", Jv::Arr(vec![]))])).unwrap();
    assert!(empty.is_empty());
}

#[test]
fn account_rows_join_ducklings() {
    let result = obj(vec![(
        "accounts",
        Jv::Arr(vec![
            obj(vec![
                ("username", Jv::Str(s("alice"))),
                (
                    "ducklings",
                    Jv::Arr(vec![
                        obj(vec![
                            ("type", Jv::Str(s("read_write"))),
                            ("status", Jv::Str(s("running"))),
                        ]),
                        obj(vec![
                            ("type", Jv::Str(s("read_scaling"))),
                            ("status", Jv::Str(s("stopped"))),
                        ]),
                    ]),
                ),
            ]),
            obj(vec![("username", Jv::Str(s("bob")))]),
        ]),
    )]);
    let rows = account_rows(&result).unwrap();
    assert_eq!(
        rows,
        vec![
            vec![s("alice"), s("read_write (running), read_scaling (stopped)")],
            vec![s("bob"), s("")],
        ]
    );
}

#[test]
fn duckling_config_two_lines() {
    let v = obj(vec![
        ("read_write", obj(vec![("instance_size", Jv::Str(s("pulse")))])),
        (
            "read_scaling",
            obj(vec![
                ("instance_size", Jv::Str(s("standard"))),
                ("flock_size", Jv::UInt(4)),
            ]),
        ),
    ]);
    let lines = render_duckling_config(&v);
    assert_eq!(
        lines,
        vec![s("read_write:   pulse"), s("read_scaling: standard (flock_size: 4)")]
    );
}

#[test]
fn duckling_config_dashes_for_missing() {
    let lines = render_duckling_config(&obj(vec![]));
    assert_eq!(
        lines,
        vec![s("read_write:   -"), s("read_scaling: - (flock_size: -)")]
    );
}
