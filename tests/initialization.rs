use configgen::initialization::{
    check_dir_target, check_file_target, dir_created, file_written, text_to_write,
};
use configgen::{Backends, Error, ErrorKind, SerializationFormat};

fn host_backends() -> Backends {
    Backends::new()
        .with(SerializationFormat::Json)
        .with(SerializationFormat::Toml)
        .with(SerializationFormat::Ron)
}

/// Runs the file steps over an in-memory file slot: `file` is what exists at
/// the target path, `encode` stands for the encoder of the requested format.
fn write_config(
    file: &mut Option<String>,
    format: SerializationFormat,
    backends: &Backends,
    encode: impl Fn() -> Result<String, String>,
) -> Result<(), Error> {
    check_file_target(file.is_some(), format, backends)?;
    let text = text_to_write(encode())?;
    *file = Some(text);
    file_written(Ok(()))
}

fn dummy_json() -> serde_json::Value {
    let mut m = serde_json::Map::new();
    m.insert("toto".to_string(), serde_json::Value::from(2));
    m.insert("tata".to_string(), serde_json::Value::from(3));
    m.insert("s".to_string(), serde_json::Value::from("test"));
    serde_json::Value::Object(m)
}

fn dummy_toml() -> toml::Table {
    let mut t = toml::Table::new();
    t.insert("toto".to_string(), toml::Value::Integer(2));
    t.insert("tata".to_string(), toml::Value::Integer(3));
    t.insert("s".to_string(), toml::Value::String("test".to_string()));
    t
}

#[test]
fn new_directory_target_goes_on() {
    assert!(check_dir_target(false).is_ok());
}

#[test]
fn existing_directory_target_is_refused() {
    match check_dir_target(true) {
        Err(Error::ConfigDirectoryAlreadyExists(e)) => {
            assert_eq!(e.kind(), std::io::ErrorKind::AlreadyExists)
        }
        other => panic!("unexpected {:?}", other),
    }
}

#[test]
fn directory_created_twice() {
    let mut exists = false;
    let first = check_dir_target(exists).and_then(|()| {
        exists = true;
        dir_created(Ok(()))
    });
    assert!(first.is_ok());
    assert!(exists);
    let second = check_dir_target(exists);
    assert_eq!(second.unwrap_err().kind(), ErrorKind::ConfigDirectoryAlreadyExists);
}

#[test]
fn failed_directory_creation_keeps_its_cause() {
    let cause = std::io::Error::new(std::io::ErrorKind::NotFound, "no parent");
    match dir_created(Err(cause)) {
        Err(Error::ConfigDirectoryCreationFailed(e)) => {
            assert_eq!(e.kind(), std::io::ErrorKind::NotFound);
            assert_eq!(e.to_string(), "no parent");
        }
        other => panic!("unexpected {:?}", other),
    }
}

#[test]
fn existing_file_target_is_refused_before_the_format() {
    let r = check_file_target(true, SerializationFormat::Json5, &host_backends());
    match r {
        Err(Error::ConfigFileAlreadyExists(e)) => {
            assert_eq!(e.kind(), std::io::ErrorKind::AlreadyExists)
        }
        other => panic!("unexpected {:?}", other),
    }
}

#[test]
fn format_without_encoder_is_unsupported_and_writes_nothing() {
    let mut file: Option<String> = None;
    let r = write_config(&mut file, SerializationFormat::Json5, &host_backends(), || {
        Ok("{}".to_string())
    });
    match r {
        Err(Error::UnsupportedFormat(e)) => assert_eq!(e.kind(), std::io::ErrorKind::Unsupported),
        other => panic!("unexpected {:?}", other),
    }
    assert!(file.is_none());
}

#[test]
fn supported_formats_go_on() {
    let b = host_backends();
    assert!(check_file_target(false, SerializationFormat::Json, &b).is_ok());
    assert!(check_file_target(false, SerializationFormat::Toml, &b).is_ok());
    assert!(check_file_target(false, SerializationFormat::Ron, &b).is_ok());
}

#[test]
fn encoded_text_is_written_unchanged() {
    assert_eq!(text_to_write(Ok("a = 1\n".to_string())).unwrap(), "a = 1\n");
}

#[test]
fn encoder_failure_is_a_serialization_error_with_its_message() {
    match text_to_write(Err("unsupported type".to_string())) {
        Err(Error::SerializationFailed(m)) => assert_eq!(m, "unsupported type"),
        other => panic!("unexpected {:?}", other),
    }
}

#[test]
fn write_failure_keeps_its_cause() {
    let cause = std::io::Error::new(std::io::ErrorKind::PermissionDenied, "read-only");
    match file_written(Err(cause)) {
        Err(Error::WritingFailed(e)) => assert_eq!(e.kind(), std::io::ErrorKind::PermissionDenied),
        other => panic!("unexpected {:?}", other),
    }
    assert!(file_written(Ok(())).is_ok());
}

#[test]
fn toml_configuration_round_trips() {
    let value = dummy_toml();
    let mut file: Option<String> = None;
    let r = write_config(&mut file, SerializationFormat::Toml, &host_backends(), || {
        toml::to_string(&value).map_err(|e| e.to_string())
    });
    assert!(r.is_ok());
    let read: toml::Table = toml::from_str(file.as_deref().unwrap()).unwrap();
    assert_eq!(read, value);
}

#[test]
fn json_configuration_round_trips() {
    let value = dummy_json();
    let mut file: Option<String> = None;
    let r = write_config(&mut file, SerializationFormat::Json, &host_backends(), || {
        serde_json::to_string(&value).map_err(|e| e.to_string())
    });
    assert!(r.is_ok());
    let read: serde_json::Value = serde_json::from_str(file.as_deref().unwrap()).unwrap();
    assert_eq!(read, value);
}

#[test]
fn ron_configuration_round_trips() {
    let value = dummy_json();
    let mut file: Option<String> = None;
    let r = write_config(&mut file, SerializationFormat::Ron, &host_backends(), || {
        ron::to_string(&value).map_err(|e| e.to_string())
    });
    assert!(r.is_ok());
    let read: serde_json::Value = ron::from_str(file.as_deref().unwrap()).unwrap();
    assert_eq!(read, value);
}

#[test]
fn configuration_file_written_once() {
    let value = dummy_json();
    let mut file: Option<String> = None;
    let first = write_config(&mut file, SerializationFormat::Json, &host_backends(), || {
        serde_json::to_string(&value).map_err(|e| e.to_string())
    });
    assert!(first.is_ok());
    let written = file.clone();
    let second = write_config(&mut file, SerializationFormat::Toml, &host_backends(), || {
        Ok("other = 1\n".to_string())
    });
    assert_eq!(second.unwrap_err().kind(), ErrorKind::ConfigFileAlreadyExists);
    assert_eq!(file, written);
}
