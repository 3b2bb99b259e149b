use dkdc_md_cli::duckling::{check_overrides, merge_duckling_config, MergedDucklingConfig};
use dkdc_md_cli::errors::{CliError, ConfigField};
use dkdc_md_cli::jsonv::Jv;
use dkdc_md_cli::InstanceSize;

fn s(x: &str) -> String {
    x.to_string()
}

fn obj(pairs: Vec<(&str, Jv)>) -> Jv {
    Jv::Obj(pairs.into_iter().map(|(k, v)| (k.to_string(), v)).collect())
}

fn current_config() -> Jv {
    obj(vec![
        ("read_write", obj(vec![("instance_size", Jv::Str(s("pulse")))])),
        (
            "read_scaling",
            obj(vec![
                ("instance_size", Jv::Str(s("standard"))),
                ("flock_size", Jv::UInt(4)),
            ]),
        ),
    ])
}

#[test]
fn merge_overrides_only_rw_size() {
    let merged =
        merge_duckling_config(&current_config(), Some(InstanceSize::Jumbo), None, None).unwrap();
    assert_eq!(
        merged,
        MergedDucklingConfig { rw_size: s("jumbo"), rs_size: s("standard"), flock_size: 4 }
    );
}

#[test]
fn merge_overrides_all_fields() {
    let merged = merge_duckling_config(
        &current_config(),
        Some(InstanceSize::Mega),
        Some(InstanceSize::Giga),
        Some(16),
    )
    .unwrap();
    assert_eq!(
        merged,
        MergedDucklingConfig { rw_size: s("mega"), rs_size: s("giga"), flock_size: 16 }
    );
}

#[test]
fn merge_fails_on_missing_rw_size() {
    let current = obj(vec![(
        "read_scaling",
        obj(vec![
            ("instance_size", Jv::Str(s("standard"))),
            ("flock_size", Jv::UInt(4)),
        ]),
    )]);
    let err = merge_duckling_config(&current, None, Some(InstanceSize::Giga), Some(1)).unwrap_err();
    assert_eq!(err, CliError::IncompleteConfig(ConfigField::RwSize));
    assert!(err.message().contains("read_write.instance_size"));
}

#[test]
fn merge_fails_on_missing_rs_size() {
    let current = obj(vec![
        ("read_write", obj(vec![("instance_size", Jv::Str(s("pulse")))])),
        ("read_scaling", obj(vec![("flock_size", Jv::UInt(4))])),
    ]);
    let err = merge_duckling_config(&current, Some(InstanceSize::Pulse), None, Some(1)).unwrap_err();
    assert_eq!(err, CliError::IncompleteConfig(ConfigField::RsSize));
    assert!(err.message().contains("read_scaling.instance_size"));
}

#[test]
fn merge_fails_on_missing_flock_size() {
    let current = obj(vec![
        ("read_write", obj(vec![("instance_size", Jv::Str(s("pulse")))])),
        ("read_scaling", obj(vec![("instance_size", Jv::Str(s("standard")))])),
    ]);
    let err = merge_duckling_config(&current, Some(InstanceSize::Pulse), None, None).unwrap_err();
    assert_eq!(err, CliError::IncompleteConfig(ConfigField::FlockSize));
    assert!(err.message().contains("read_scaling.flock_size"));
}

#[test]
fn merge_fails_on_oversized_fetched_flock() {
    let current = obj(vec![
        ("read_write", obj(vec![("instance_size", Jv::Str(s("pulse")))])),
        (
            "read_scaling",
            obj(vec![
                ("instance_size", Jv::Str(s("standard"))),
                ("flock_size", Jv::UInt(1 << 40)),
            ]),
        ),
    ]);
    let err = merge_duckling_config(&current, None, None, None).unwrap_err();
    assert_eq!(err, CliError::IncompleteConfig(ConfigField::FlockSize));
}

#[test]
fn merge_error_priority_names_first_missing_field() {
    let err = merge_duckling_config(&obj(vec![]), None, None, None).unwrap_err();
    assert_eq!(err, CliError::IncompleteConfig(ConfigField::RwSize));
}

#[test]
fn at_least_one_override_required() {
    assert_eq!(check_overrides(None, None, None).unwrap_err(), CliError::NoOverrides);
    assert!(check_overrides(Some(InstanceSize::Pulse), None, None).is_ok());
    assert!(check_overrides(None, Some(InstanceSize::Pulse), None).is_ok());
    assert!(check_overrides(None, None, Some(0)).is_ok());
}
