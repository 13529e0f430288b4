use mobilecli::render::{Frame, RenderState};
use mobilecli::snapshot::{CheckoutSnapshot, TransferSnapshot};

fn transfer(
    received: u64,
    total: u64,
    indexed: u64,
    bytes: u64,
    indexed_deltas: u64,
    total_deltas: u64,
) -> TransferSnapshot {
    TransferSnapshot {
        received_bytes: bytes,
        received_objects: received,
        total_objects: total,
        indexed_objects: indexed,
        indexed_deltas,
        total_deltas,
    }
}

fn std_composite(t: &TransferSnapshot, current: u64, total: u64, path: &str) -> String {
    let network_pct = if t.total_objects > 0 {
        100 * (t.received_objects as u128) / (t.total_objects as u128)
    } else {
        0
    };
    let index_pct = if t.total_objects > 0 {
        100 * (t.indexed_objects as u128) / (t.total_objects as u128)
    } else {
        0
    };
    let co_pct = if total > 0 { 100 * (current as u128) / (total as u128) } else { 0 };
    format!(
        "net {:3}% ({:4} kb, {:5}/{:5})  /  idx {:3}% ({:5}/{:5})  /  chk {:3}% ({:4}/{:4}) {}\r",
        network_pct,
        t.received_bytes / 1024,
        t.received_objects,
        t.total_objects,
        index_pct,
        t.indexed_objects,
        t.total_objects,
        co_pct,
        current,
        total,
        path
    )
}

#[test]
fn new_state_holds_nothing() {
    let state = RenderState::new();
    assert_eq!(state.transfer, None);
    assert_eq!(state.checkout, None);
    assert!(!state.emitted_completion_newline);
}

#[test]
fn transfer_half_done_renders_composite_line() {
    let mut state = RenderState::new();
    let frame = state.on_transfer(transfer(50, 100, 40, 102400, 0, 0));
    assert!(!frame.line_break);
    assert_eq!(
        frame.line,
        "net  50% ( 100 kb,    50/  100)  /  idx  40% (   40/  100)  /  chk   0% (   0/   0) \r"
    );
    assert_eq!(frame.text(), frame.line);
    assert!(!state.emitted_completion_newline);
    assert_eq!(state.transfer, Some(transfer(50, 100, 40, 102400, 0, 0)));
}

#[test]
fn complete_transfer_moves_to_resolving_line() {
    let mut state = RenderState::new();
    let frame = state.on_transfer(transfer(100, 100, 0, 0, 3, 10));
    assert!(frame.line_break);
    assert_eq!(frame.line, "Resolving deltas 3/10\r");
    assert_eq!(frame.line.trim_end_matches('\r'), "Resolving deltas 3/10");
    assert_eq!(frame.text(), "\nResolving deltas 3/10\r");
    assert!(state.emitted_completion_newline);
}

#[test]
fn checkout_of_empty_tree_renders_zero_percent() {
    let mut state = RenderState::new();
    let frame = state.on_checkout(CheckoutSnapshot::new(None, 0, 0));
    assert!(!frame.line_break);
    assert_eq!(
        frame.line,
        "net   0% (   0 kb,     0/    0)  /  idx   0% (    0/    0)  /  chk   0% (   0/   0) \r"
    );
    assert_eq!(state.checkout, Some(CheckoutSnapshot::new(None, 0, 0)));
}

#[test]
fn line_break_is_given_once_over_many_renders() {
    let mut state = RenderState::new();
    let mut line_breaks = 0;
    let mut frames: Vec<Frame> = Vec::new();
    frames.push(state.on_transfer(transfer(10, 100, 5, 2048, 0, 20)));
    frames.push(state.on_transfer(transfer(99, 100, 80, 90000, 0, 20)));
    for resolved in 0..=20u64 {
        frames.push(state.on_transfer(transfer(100, 100, 100, 100000, resolved, 20)));
    }
    for file in 0..=5u64 {
        let path = format!("file{}.txt", file);
        frames.push(state.on_checkout(CheckoutSnapshot::new(Some(path), file, 5)));
    }
    frames.push(state.render());
    for (i, frame) in frames.iter().enumerate() {
        if frame.line_break {
            line_breaks += 1;
            assert_eq!(i, 2);
        }
        assert!(frame.line.ends_with('\r'));
        assert!(!frame.line.contains('\n'));
    }
    assert_eq!(line_breaks, 1);
    assert!(state.emitted_completion_newline);
}

#[test]
fn no_line_break_before_the_transfer_is_complete() {
    let mut state = RenderState::new();
    for received in 0..100u64 {
        let frame = state.on_transfer(transfer(received, 100, received / 2, received * 700, 0, 0));
        assert!(!frame.line_break);
        assert!(frame.line.starts_with("net "));
        let frame = state.on_checkout(CheckoutSnapshot::new(None, received, 100));
        assert!(!frame.line_break);
    }
    assert!(!state.emitted_completion_newline);
}

#[test]
fn same_snapshot_twice_renders_the_same_line() {
    let snapshots = [
        transfer(0, 0, 0, 0, 0, 0),
        transfer(50, 100, 40, 102400, 0, 0),
        transfer(100, 100, 100, 5000, 3, 10),
        transfer(7, 7, 0, 1, 0, 0),
    ];
    for snapshot in snapshots {
        let mut state = RenderState::new();
        let first = state.on_transfer(snapshot);
        let after_first = state.clone();
        let second = state.on_transfer(snapshot);
        assert_eq!(first.line, second.line);
        assert_eq!(first.line.as_bytes(), second.line.as_bytes());
        assert!(!second.line_break);
        assert_eq!(first.line_break, snapshot.is_complete());
        assert_eq!(state, after_first);
        let third = state.render();
        assert_eq!(third, second);
    }
}

#[test]
fn same_checkout_twice_renders_the_same_line() {
    let mut state = RenderState::new();
    state.on_transfer(transfer(3, 9, 1, 0, 0, 0));
    let report = CheckoutSnapshot::new(Some("a/b.txt".to_string()), 2, 4);
    let first = state.on_checkout(report.clone());
    let second = state.on_checkout(report);
    assert_eq!(first, second);
    assert!(!first.line_break);
}

#[test]
fn composite_line_shows_checkout_and_path() {
    let mut state = RenderState::new();
    state.on_transfer(transfer(5, 10, 2, 10 * 1024 + 5, 0, 0));
    let frame =
        state.on_checkout(CheckoutSnapshot::new(Some("docs/read me.md".to_string()), 3, 12));
    assert_eq!(
        frame.line,
        "net  50% (  10 kb,     5/   10)  /  idx  20% (    2/   10)  /  chk  25% (   3/  12) docs/read me.md\r"
    );
    assert!(!frame.line_break);
}

#[test]
fn composite_line_keeps_a_path_that_is_not_ascii() {
    let mut state = RenderState::new();
    let path = "src/données/\u{1F980}.rs";
    let frame = state.on_checkout(CheckoutSnapshot::new(Some(path.to_string()), 1, 2));
    assert_eq!(frame.line, std_composite(&TransferSnapshot::zero(), 1, 2, path));
    assert!(frame.line.ends_with("src/données/\u{1F980}.rs\r"));
}

#[test]
fn checkout_before_any_transfer_shows_zero_transfer() {
    let mut state = RenderState::new();
    let frame = state.on_checkout(CheckoutSnapshot::new(Some("x".to_string()), 1, 4));
    assert_eq!(
        frame.line,
        "net   0% (   0 kb,     0/    0)  /  idx   0% (    0/    0)  /  chk  25% (   1/   4) x\r"
    );
    assert_eq!(state.transfer, None);
}

#[test]
fn transfer_without_objects_renders_composite_line() {
    let mut state = RenderState::new();
    let frame = state.on_transfer(transfer(0, 0, 0, 2048, 0, 0));
    assert!(!frame.line_break);
    assert_eq!(
        frame.line,
        "net   0% (   2 kb,     0/    0)  /  idx   0% (    0/    0)  /  chk   0% (   0/   0) \r"
    );
}

#[test]
fn checkout_during_resolving_shows_resolving_line() {
    let mut state = RenderState::new();
    let first = state.on_transfer(transfer(8, 8, 8, 100, 2, 4));
    assert!(first.line_break);
    let frame = state.on_checkout(CheckoutSnapshot::new(Some("a".to_string()), 1, 3));
    assert!(!frame.line_break);
    assert_eq!(frame.line, "Resolving deltas 2/4\r");
    assert_eq!(state.checkout, Some(CheckoutSnapshot::new(Some("a".to_string()), 1, 3)));
}

#[test]
fn each_snapshot_replaces_the_one_before() {
    let mut state = RenderState::new();
    state.on_transfer(transfer(1, 10, 0, 0, 0, 0));
    state.on_transfer(transfer(4, 10, 2, 0, 0, 0));
    assert_eq!(state.transfer, Some(transfer(4, 10, 2, 0, 0, 0)));
    state.on_checkout(CheckoutSnapshot::new(None, 0, 3));
    state.on_checkout(CheckoutSnapshot::new(Some("b".to_string()), 1, 3));
    assert_eq!(state.checkout, Some(CheckoutSnapshot::new(Some("b".to_string()), 1, 3)));
    assert_eq!(state.transfer, Some(transfer(4, 10, 2, 0, 0, 0)));
}

#[test]
fn wide_numbers_widen_the_line() {
    let mut state = RenderState::new();
    let snapshot = transfer(1234567, 7654321, 1000000, 50 * 1024 * 1024, 0, 0);
    let frame = state.on_transfer(snapshot);
    assert_eq!(
        frame.line,
        "net  16% (51200 kb, 1234567/7654321)  /  idx  13% (1000000/7654321)  /  chk   0% (   0/   0) \r"
    );
    assert_eq!(frame.line, std_composite(&snapshot, 0, 0, ""));
}

#[test]
fn composite_line_agrees_with_std_formatting() {
    let counts = [0u64, 1, 9, 10, 99, 100, 101, 999, 9999, 10000, 99999, 100000, u64::MAX];
    for &total in &counts {
        for &received in &counts {
            if received == total && total > 0 {
                continue;
            }
            let snapshot = transfer(received, total, received / 3, received.wrapping_mul(977), 0, 0);
            for &(current, files) in &[(0u64, 0u64), (3, 7), (7, 7), (12345, 99999), (9, 4)] {
                let mut state = RenderState::new();
                state.on_transfer(snapshot);
                let frame =
                    state.on_checkout(CheckoutSnapshot::new(Some("p/q".to_string()), current, files));
                assert_eq!(frame.line, std_composite(&snapshot, current, files, "p/q"));
                assert!(!frame.line_break);
            }
        }
    }
}

#[test]
fn resolving_line_agrees_with_std_formatting() {
    let counts = [0u64, 1, 9, 10, 11, 99, 100, 12345, u64::MAX];
    for &indexed in &counts {
        for &total in &counts {
            let mut state = RenderState::new();
            let frame = state.on_transfer(transfer(5, 5, 5, 0, indexed, total));
            assert_eq!(frame.line, format!("Resolving deltas {}/{}\r", indexed, total));
            assert!(frame.line_break);
        }
    }
}

#[test]
fn frame_text_puts_the_line_break_first() {
    let with = Frame { line_break: true, line: "abc\r".to_string() };
    let without = Frame { line_break: false, line: "abc\r".to_string() };
    assert_eq!(with.text(), "\nabc\r");
    assert_eq!(without.text(), "abc\r");
}

#[test]
fn render_without_reports_shows_zeros() {
    let mut state = RenderState::new();
    let frame = state.render();
    assert!(!frame.line_break);
    assert_eq!(frame.line, std_composite(&TransferSnapshot::zero(), 0, 0, ""));
    assert_eq!(state, RenderState::new());
}
