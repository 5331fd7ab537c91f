use rscom::baud::BaudLadder;
use rscom::baud::LADDER_LEN;
use rscom::baud::rate_at;

#[test]
fn ladder_holds_the_standard_rates_in_order() {
    let rates: Vec<u32> = (0..LADDER_LEN).map(rate_at).collect();
    assert_eq!(rates, vec![9600, 19200, 33400, 57600, 115200, 230400]);
    for w in rates.windows(2) {
        assert!(w[0] < w[1]);
    }
}

#[test]
fn new_ladder_starts_at_the_lowest_rate() {
    let l = BaudLadder::new();
    assert_eq!(l.index, 0);
    assert_eq!(l.current_rate(), 9600);
}

#[test]
fn increase_walks_the_ladder_and_wraps() {
    let mut l = BaudLadder::new();
    let mut seen = Vec::new();
    for _ in 0..LADDER_LEN {
        l.increase();
        seen.push(l.current_rate());
    }
    assert_eq!(seen, vec![19200, 33400, 57600, 115200, 230400, 9600]);
    assert_eq!(l.index, 0);
}

#[test]
fn decrease_from_the_bottom_wraps_to_the_top() {
    let mut l = BaudLadder::new();
    l.decrease();
    assert_eq!(l.index, LADDER_LEN - 1);
    assert_eq!(l.current_rate(), 230400);
}

#[test]
fn full_cycle_returns_to_the_start_from_any_index() {
    for start in 0..LADDER_LEN {
        let mut up = BaudLadder { index: start };
        let mut down = BaudLadder { index: start };
        for _ in 0..LADDER_LEN {
            up.increase();
            down.decrease();
        }
        assert_eq!(up.index, start);
        assert_eq!(down.index, start);
    }
}

#[test]
fn increase_and_decrease_are_inverse() {
    for start in 0..LADDER_LEN {
        let mut l = BaudLadder { index: start };
        l.increase();
        l.decrease();
        assert_eq!(l.index, start);
        l.decrease();
        l.increase();
        assert_eq!(l.index, start);
    }
}
