use summarize::text::{contains, ends_with};

#[test]
fn suffix_checks() {
    assert!(ends_with("model-chat.bin", ".bin"));
    assert!(!ends_with("model-chat.bin.txt", ".bin"));
    assert!(!ends_with("bin", ".bin"));
    assert!(ends_with(".bin", ".bin"));
    assert!(ends_with("anything", ""));
}

#[test]
fn infix_checks() {
    assert!(contains("llama-2-7b-chat.ggml.bin", "-chat"));
    assert!(!contains("llama-2-7b-chaT.bin", "-chat"));
    assert!(!contains("chat.bin", "-chat"));
    assert!(contains("-chat", "-chat"));
    assert!(contains("", ""));
    assert!(!contains("", "x"));
    assert!(contains("äö-chat", "-chat"));
}
