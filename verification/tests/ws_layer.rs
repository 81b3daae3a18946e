use elo::ws::layer::try_extract_id;

const STR: &str = r#"{"name":"name_value","count":8855}"#;

#[test]
fn try_extract_id_present() {
    let id = try_extract_id::<String>(format!(r#"{{"do":{STR},"id":27}}"#).as_bytes());

    assert_eq!(id, Some(27));
}

#[test]
fn try_extract_id_missing() {
    let id = try_extract_id::<String>(format!(r#"{{"do":{STR}}}"#).as_bytes());

    assert_eq!(id, None);
}

#[test]
fn try_extract_id_bad_request() {
    let id = try_extract_id::<String>(br#"{"id":27}"#);

    assert_eq!(id, Some(27));
}

#[test]
fn try_extract_id_really_bad_request() {
    let id = try_extract_id::<String>(br#"{"id":27,"":{""}}"#);

    assert_eq!(id, None);
}
