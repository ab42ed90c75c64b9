use automate::chess::{uci_legal, uci_well_formed};

#[test]
fn uci_notation() {
    for good in ["e2e4", "e7e8q", "a1h8", "0000", "Q@f7", "n@a1", "h7h8N"] {
        assert!(uci_well_formed(good), "{good}");
    }
    for bad in ["", "e2e", "e2e4qq", "i2e4", "e9e4", "e2e4x", "X@f7", "Q@f9", "e2-e4", "é2e4"] {
        assert!(!uci_well_formed(bad), "{bad}");
    }
}

#[test]
fn only_well_formed_moves_are_legal() {
    let start = "rnbqkbnr/pppppppp/8/8/8/8/PPPPPPPP/RNBQKBNR w KQkq - 0 1";
    assert!(uci_legal(start, "e2e4"));
    assert!(!uci_legal(start, "e2e5"));
    assert!(!uci_legal(start, "e2e4 "));
}
