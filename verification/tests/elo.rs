use automate::elo::k_factor;

#[test]
fn k_factor_drops_after_thirty_games() {
    assert_eq!(f64::from(k_factor(0)), 40.0);
    assert_eq!(f64::from(k_factor(29)), 40.0);
    assert_eq!(f64::from(k_factor(30)), 20.0);
}

#[test]
fn k_factor_of_negative_and_large_counts() {
    assert_eq!(k_factor(-5), 40);
    assert_eq!(k_factor(i64::MAX), 20);
}
