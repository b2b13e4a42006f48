use grpc_deliver::config::{config_init_parse, ConfigError, ConfigInit};

#[test]
fn threads_entry_is_read() {
    assert_eq!(
        config_init_parse("{\"threads\":4}"),
        Ok(ConfigInit { threads: 4 })
    );
}

#[test]
fn missing_threads_defaults_to_zero() {
    assert_eq!(config_init_parse("{}"), Ok(ConfigInit { threads: 0 }));
}

#[test]
fn unrelated_entries_are_ignored() {
    assert_eq!(
        config_init_parse("{\"name\":\"x\",\"threads\":2,\"debug\":true}"),
        Ok(ConfigInit { threads: 2 })
    );
}

#[test]
fn whitespace_and_zero_are_accepted() {
    assert_eq!(
        config_init_parse(" { \"threads\" : 0 } "),
        Ok(ConfigInit { threads: 0 })
    );
}

#[test]
fn malformed_json_is_rejected() {
    assert_eq!(
        config_init_parse("{\"threads\":"),
        Err(ConfigError::NotAnObject)
    );
}

#[test]
fn non_object_top_levels_are_rejected() {
    assert_eq!(config_init_parse("4"), Err(ConfigError::NotAnObject));
    assert_eq!(config_init_parse("\"threads\""), Err(ConfigError::NotAnObject));
    assert_eq!(config_init_parse("[{\"threads\":4}]"), Err(ConfigError::NotAnObject));
    assert_eq!(config_init_parse("null"), Err(ConfigError::NotAnObject));
    assert_eq!(config_init_parse(""), Err(ConfigError::NotAnObject));
}

#[test]
fn string_threads_is_rejected() {
    assert_eq!(
        config_init_parse("{\"threads\":\"4\"}"),
        Err(ConfigError::ThreadsNotUnsigned)
    );
}

#[test]
fn negative_threads_is_rejected() {
    assert_eq!(
        config_init_parse("{\"threads\":-1}"),
        Err(ConfigError::ThreadsNotUnsigned)
    );
}

#[test]
fn fractional_threads_is_rejected() {
    assert_eq!(
        config_init_parse("{\"threads\":1.5}"),
        Err(ConfigError::ThreadsNotUnsigned)
    );
}

#[test]
fn null_threads_is_rejected() {
    assert_eq!(
        config_init_parse("{\"threads\":null}"),
        Err(ConfigError::ThreadsNotUnsigned)
    );
}

#[test]
fn threads_beyond_sixty_four_bits_is_rejected() {
    assert_eq!(
        config_init_parse("{\"threads\":18446744073709551616}"),
        Err(ConfigError::ThreadsNotUnsigned)
    );
}

#[test]
fn largest_representable_threads_is_read() {
    assert_eq!(
        config_init_parse("{\"threads\":18446744073709551615}"),
        Ok(ConfigInit { threads: usize::MAX })
    );
}
