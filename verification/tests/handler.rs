use tuffi::error::AppError;
use tuffi::handler::{greeting, ProtocolHandler, TuffiProtocolHandler};

fn owned(items: &[&str]) -> Vec<String> {
    items.iter().map(|s| s.to_string()).collect()
}

#[test]
fn hello_echoes_its_arguments() {
    let handler = TuffiProtocolHandler;
    assert_eq!(
        handler.handle("hello", &owned(&["a", "b"])),
        Ok("Hello from Rust! Args: [\"a\", \"b\"]".to_string())
    );
}

#[test]
fn hello_accepts_any_number_of_arguments() {
    let handler = TuffiProtocolHandler;
    assert_eq!(handler.handle("hello", &[]), Ok("Hello from Rust! Args: []".to_string()));
    assert_eq!(
        handler.handle("hello", &owned(&["one"])),
        Ok("Hello from Rust! Args: [\"one\"]".to_string())
    );
    assert_eq!(
        handler.handle_hello(&owned(&["1", "2", "3"])),
        Ok("Hello from Rust! Args: [\"1\", \"2\", \"3\"]".to_string())
    );
}

#[test]
fn hello_renders_arguments_as_escaped_literals() {
    let handler = TuffiProtocolHandler;
    assert_eq!(
        handler.handle("hello", &owned(&["say \"hi\"", "a\\b", "line\nbreak"])),
        Ok("Hello from Rust! Args: [\"say \\\"hi\\\"\", \"a\\\\b\", \"line\\nbreak\"]".to_string())
    );
}

#[test]
fn greeting_prefixes_the_rendered_arguments() {
    assert_eq!(greeting("[]"), "Hello from Rust! Args: []");
    assert_eq!(greeting(""), "Hello from Rust! Args: ");
}

#[test]
fn add_sums_two_integers() {
    let handler = TuffiProtocolHandler;
    assert_eq!(handler.handle("add", &owned(&["2", "3"])), Ok("Sum: 5".to_string()));
    assert_eq!(handler.handle("add", &owned(&["-7", "+4"])), Ok("Sum: -3".to_string()));
    assert_eq!(handler.handle_add(&owned(&["0", "0"])), Ok("Sum: 0".to_string()));
}

#[test]
fn add_sums_beyond_the_range_of_its_arguments() {
    let handler = TuffiProtocolHandler;
    assert_eq!(
        handler.handle_add(&owned(&["2147483647", "2147483647"])),
        Ok("Sum: 4294967294".to_string())
    );
    assert_eq!(
        handler.handle_add(&owned(&["-2147483648", "-2147483648"])),
        Ok("Sum: -4294967296".to_string())
    );
    assert_eq!(handler.handle_add(&owned(&["2147483647", "1"])), Ok("Sum: 2147483648".to_string()));
}

#[test]
fn add_wants_exactly_two_arguments() {
    let handler = TuffiProtocolHandler;
    for args in [owned(&[]), owned(&["2"]), owned(&["1", "2", "3"])] {
        assert_eq!(
            handler.handle("add", &args),
            Err(AppError::InvalidArgCount {
                function: "add".to_string(),
                expected: 2,
                got: args.len(),
            })
        );
    }
}

#[test]
fn add_counts_arguments_before_it_reads_them() {
    let handler = TuffiProtocolHandler;
    assert_eq!(
        handler.handle_add(&owned(&["x"])),
        Err(AppError::InvalidArgCount { function: "add".to_string(), expected: 2, got: 1 })
    );
}

#[test]
fn add_reports_the_first_argument_that_is_no_number() {
    let handler = TuffiProtocolHandler;
    assert_eq!(
        handler.handle("add", &owned(&["two", "3"])),
        Err(AppError::ParseError { message: "Failed to parse 'two' as number".to_string() })
    );
    assert_eq!(
        handler.handle("add", &owned(&["2", "three"])),
        Err(AppError::ParseError { message: "Failed to parse 'three' as number".to_string() })
    );
    assert_eq!(
        handler.handle("add", &owned(&["x", "y"])),
        Err(AppError::ParseError { message: "Failed to parse 'x' as number".to_string() })
    );
    assert_eq!(
        handler.handle("add", &owned(&["1", ""])),
        Err(AppError::ParseError { message: "Failed to parse '' as number".to_string() })
    );
}

#[test]
fn add_refuses_numbers_outside_the_32_bit_range() {
    let handler = TuffiProtocolHandler;
    assert_eq!(
        handler.handle("add", &owned(&["2147483648", "0"])),
        Err(AppError::ParseError { message: "Failed to parse '2147483648' as number".to_string() })
    );
}

#[test]
fn unknown_function_is_reported_by_name() {
    let handler = TuffiProtocolHandler;
    assert_eq!(
        handler.handle("nope", &[]),
        Err(AppError::UnknownFunction("nope".to_string()))
    );
    assert_eq!(handler.handle("", &[]), Err(AppError::UnknownFunction(String::new())));
    assert_eq!(
        handler.handle("Add", &owned(&["1", "2"])),
        Err(AppError::UnknownFunction("Add".to_string()))
    );
    assert_eq!(
        handler.handle("hello ", &[]),
        Err(AppError::UnknownFunction("hello ".to_string()))
    );
}

#[test]
fn errors_are_reported_as_sentences() {
    assert_eq!(
        AppError::InvalidArgCount { function: "add".to_string(), expected: 2, got: 1 }.to_string(),
        "Invalid argument count for add: expected 2, got 1"
    );
    assert_eq!(
        AppError::InvalidArgCount { function: "f".to_string(), expected: 10, got: 0 }.to_string(),
        "Invalid argument count for f: expected 10, got 0"
    );
    assert_eq!(
        AppError::ParseError { message: "Failed to parse 'x' as number".to_string() }.to_string(),
        "Parse error: Failed to parse 'x' as number"
    );
    assert_eq!(
        AppError::UnknownFunction("nope".to_string()).to_string(),
        "Unknown function: nope"
    );
}
