use webcrypto_shared::{data_error, not_supported_error, unsupported_format, ErrorKind};

#[test]
fn unsupported_format_has_its_fixed_message() {
    let error = unsupported_format();
    assert_eq!(error.kind(), ErrorKind::NotSupportedError);
    assert_eq!(error.message(), "unsupported format");
    assert_eq!(error, not_supported_error("unsupported format"));
}

#[test]
fn kinds_differ_despite_identical_messages() {
    let data = data_error("bad length");
    let not_supported = not_supported_error("bad length");
    assert_eq!(data.message(), "bad length");
    assert_eq!(not_supported.message(), "bad length");
    assert_eq!(data.message(), not_supported.message());
    assert_ne!(data.kind(), not_supported.kind());
    assert_ne!(data, not_supported);
    assert_eq!(data.kind(), ErrorKind::DataError);
    assert_eq!(not_supported.kind(), ErrorKind::NotSupportedError);
}

#[test]
fn same_kind_compares_equal() {
    assert_eq!(data_error("a").kind(), data_error("b").kind());
    assert_eq!(not_supported_error("a").kind(), unsupported_format().kind());
    assert_ne!(data_error("a"), data_error("b"));
    assert_eq!(data_error("a"), data_error("a"));
}

#[test]
fn message_is_kept_exactly() {
    for message in ["", "bad length", "  spaced  ", "ключ\u{0}\n", "unsupported format"] {
        assert_eq!(data_error(message).message(), message);
        assert_eq!(not_supported_error(message).message(), message);
        assert_eq!(data_error(message).message, message.to_string());
    }
}

#[test]
fn class_names_are_those_of_the_binding_layer() {
    assert_eq!(ErrorKind::DataError.class_name(), "DOMExceptionDataError");
    assert_eq!(ErrorKind::NotSupportedError.class_name(), "DOMExceptionNotSupportedError");
    assert_eq!(data_error("x").class_name(), "DOMExceptionDataError");
    assert_eq!(not_supported_error("x").class_name(), "DOMExceptionNotSupportedError");
    assert_eq!(unsupported_format().class_name(), "DOMExceptionNotSupportedError");
}
