use summarize::args::{context_window, Args};

#[test]
fn defaults_read_stdin_with_window_2048() {
    let a = Args::default();
    assert_eq!(a.verbose, 0);
    assert_eq!(a.path, "-");
    assert_eq!(a.context_size, 11);
    assert!(a.model_path.is_none());
    assert!(a.reads_stdin());
    assert_eq!(a.context_window(), Some(2048));
}

#[test]
fn log_levels_by_verbosity() {
    let mut a = Args::default();
    let expected = ["warn", "info", "debug", "trace", "trace"];
    for (v, want) in expected.iter().enumerate() {
        a.verbose = v as u8;
        assert_eq!(a.log_level(), *want);
    }
    a.verbose = 255;
    assert_eq!(a.log_level(), "trace");
}

#[test]
fn file_path_is_not_stdin() {
    let mut a = Args::default();
    a.path = String::from("notes.txt");
    assert!(!a.reads_stdin());
    a.path = String::from("--");
    assert!(!a.reads_stdin());
    a.path = String::new();
    assert!(!a.reads_stdin());
}

#[test]
fn context_window_sizes() {
    assert_eq!(context_window(0), Some(1));
    assert_eq!(context_window(1), Some(2));
    assert_eq!(context_window(11), Some(2048));
    assert_eq!(context_window(12), Some(4096));
    let bits = usize::BITS;
    assert_eq!(context_window(bits - 1), Some(1usize << (bits - 1)));
    assert_eq!(context_window(bits), None);
    assert_eq!(context_window(u32::MAX), None);
}
