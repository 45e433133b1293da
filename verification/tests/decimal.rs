use gpui_gpu::decimal::decimal_text;

#[test]
fn decimal_text_matches_display() {
    for n in [0u64, 7, 9, 10, 42, 100, 12345, 1_000_000_007, u64::MAX] {
        assert_eq!(decimal_text(n), n.to_string());
    }
}
