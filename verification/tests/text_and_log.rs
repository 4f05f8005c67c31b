use netcoredbg_resolver::logger::{Logger, DEBUG_ENABLED};
use netcoredbg_resolver::text::{append, decimal_string, ends_with, join_strings};

#[test]
fn decimal_of_small_numbers() {
    assert_eq!(decimal_string(0), "0");
    assert_eq!(decimal_string(7), "7");
    assert_eq!(decimal_string(9), "9");
    assert_eq!(decimal_string(10), "10");
    assert_eq!(decimal_string(42), "42");
    assert_eq!(decimal_string(100), "100");
    assert_eq!(decimal_string(1009), "1009");
}

#[test]
fn decimal_of_large_numbers() {
    assert_eq!(decimal_string(1234567890), "1234567890");
    assert_eq!(decimal_string(u64::MAX), "18446744073709551615");
}

#[test]
fn decimal_agrees_with_std() {
    let mut n: u64 = 1;
    for _ in 0..19 {
        assert_eq!(decimal_string(n), n.to_string());
        assert_eq!(decimal_string(n - 1), (n - 1).to_string());
        n *= 10;
    }
}

#[test]
fn append_writes_one_after_the_other() {
    assert_eq!(append("abc", "def"), "abcdef");
    assert_eq!(append("", "def"), "def");
    assert_eq!(append("abc", ""), "abc");
    assert_eq!(append("pfad: ", "/tmp/\u{e4}\u{f6}"), "pfad: /tmp/\u{e4}\u{f6}");
}

#[test]
fn ends_with_agrees_with_std() {
    let texts = ["", "a", "zip", ".zip", "a.zip", "a.tar.gz", "tar.gz", "a.zip.", "\u{e4}.zip", "a.zi\u{fc}"];
    let suffixes = ["", ".zip", ".tar.gz", "p", "a.zip", "\u{fc}", "zip"];
    for text in texts {
        for suffix in suffixes {
            assert_eq!(ends_with(text, suffix), text.ends_with(suffix), "{:?} {:?}", text, suffix);
        }
    }
}

#[test]
fn join_puts_the_separator_between_neighbours() {
    let none: Vec<String> = vec![];
    assert_eq!(join_strings(&none, ", "), "");
    assert_eq!(join_strings(&vec!["a".to_string()], ", "), "a");
    assert_eq!(join_strings(&vec!["a".to_string(), "b".to_string()], ", "), "a, b");
    assert_eq!(
        join_strings(&vec!["a".to_string(), "".to_string(), "c".to_string()], "-"),
        "a--c"
    );
}

#[test]
fn log_line_has_time_in_brackets() {
    assert!(DEBUG_ENABLED);
    let logger = Logger::new();
    assert_eq!(
        logger.debug_log(1700000000, "Starting get_binary_path"),
        Some("[1700000000] Starting get_binary_path".to_string())
    );
    assert_eq!(logger.debug_log(0, ""), Some("[0] ".to_string()));
    assert_eq!(
        logger.debug_log(u64::MAX, "x"),
        Some("[18446744073709551615] x".to_string())
    );
}

#[test]
fn shared_logger_writes_the_same_lines() {
    assert_eq!(
        Logger::debug(1718000000, "Found latest version: 3.1.0"),
        Logger::instance().debug_log(1718000000, "Found latest version: 3.1.0")
    );
    assert_eq!(
        Logger::debug(12, "message with [brackets] inside"),
        Some("[12] message with [brackets] inside".to_string())
    );
    assert_eq!(*Logger::instance(), Logger::new());
}

#[test]
fn log_file_has_a_fixed_name() {
    assert_eq!(Logger::file_name(), "netcoredbg_extension_debug.log");
}
