use demo_actions::action::{
    decrement, execute, increment, reset, toggle_counter, toggle_stats, Action, ActionData,
    ActionResult, DEFAULT_AMOUNT,
};
use demo_actions::params::ActionParams;

fn no_params() -> ActionParams {
    ActionParams { amount: None, count: None, show_counter: None, show_stats: None }
}

fn counting(count: i32, amount: Option<i32>) -> ActionParams {
    ActionParams { amount, count: Some(count), show_counter: None, show_stats: None }
}

fn done(data: ActionData, message: &str) -> ActionResult {
    ActionResult {
        success: true,
        data: Some(data),
        message: Some(message.to_string()),
        error: None,
    }
}

fn refused(error: &str) -> ActionResult {
    ActionResult { success: false, data: None, message: None, error: Some(error.to_string()) }
}

#[test]
fn names_are_matched_exactly() {
    assert_eq!(Action::named("increment"), Some(Action::Increment));
    assert_eq!(Action::named("decrement"), Some(Action::Decrement));
    assert_eq!(Action::named("reset"), Some(Action::Reset));
    assert_eq!(Action::named("toggleCounter"), Some(Action::ToggleCounter));
    assert_eq!(Action::named("toggleStats"), Some(Action::ToggleStats));
    assert_eq!(Action::named("Increment"), None);
    assert_eq!(Action::named("increment "), None);
    assert_eq!(Action::named("togglecounter"), None);
    assert_eq!(Action::named(""), None);
}

#[test]
fn every_action_is_found_by_its_name() {
    let all = [
        Action::Increment,
        Action::Decrement,
        Action::Reset,
        Action::ToggleCounter,
        Action::ToggleStats,
    ];
    for action in all {
        assert_eq!(Action::named(action.name()), Some(action));
    }
    assert_eq!(Action::ToggleCounter.name(), "toggleCounter");
}

#[test]
fn increment_adds_the_amount() {
    assert_eq!(
        execute("increment", &counting(7, Some(5))),
        done(ActionData::Count(12), "Counter incremented by 5 to 12")
    );
    assert_eq!(
        execute("increment", &counting(-3, Some(100))),
        done(ActionData::Count(97), "Counter incremented by 100 to 97")
    );
}

#[test]
fn increment_holds_for_many_counts_and_amounts() {
    let counts = [-1000, -1, 0, 1, 41, 99999];
    let amounts = [1, 2, 50, 100, 7777];
    for c in counts {
        for a in amounts {
            let result = execute("increment", &counting(c, Some(a)));
            assert!(result.success);
            assert_eq!(result.data, Some(ActionData::Count(c as i64 + a as i64)));
            assert_eq!(result.error, None);
        }
    }
}

#[test]
fn decrement_subtracts_the_amount() {
    assert_eq!(
        execute("decrement", &counting(7, Some(5))),
        done(ActionData::Count(2), "Counter decremented by 5 to 2")
    );
    assert_eq!(
        execute("decrement", &counting(3, Some(10))),
        done(ActionData::Count(-7), "Counter decremented by 10 to -7")
    );
}

#[test]
fn amount_defaults_to_one() {
    assert_eq!(DEFAULT_AMOUNT, 1);
    assert_eq!(
        execute("increment", &counting(41, None)),
        done(ActionData::Count(42), "Counter incremented by 1 to 42")
    );
    assert_eq!(
        execute("decrement", &counting(41, None)),
        done(ActionData::Count(40), "Counter decremented by 1 to 40")
    );
    assert_eq!(execute("increment", &counting(41, None)), execute("increment", &counting(41, Some(1))));
}

#[test]
fn amounts_outside_the_declared_limits_are_not_refused() {
    assert_eq!(
        execute("increment", &counting(10, Some(0))),
        done(ActionData::Count(10), "Counter incremented by 0 to 10")
    );
    assert_eq!(
        execute("increment", &counting(10, Some(-4))),
        done(ActionData::Count(6), "Counter incremented by -4 to 6")
    );
    assert_eq!(
        execute("decrement", &counting(10, Some(500))),
        done(ActionData::Count(-490), "Counter decremented by 500 to -490")
    );
}

#[test]
fn sums_beyond_thirty_two_bits_are_exact() {
    assert_eq!(
        execute("increment", &counting(i32::MAX, Some(1))),
        done(ActionData::Count(2147483648), "Counter incremented by 1 to 2147483648")
    );
    assert_eq!(
        execute("decrement", &counting(i32::MIN, Some(1))),
        done(ActionData::Count(-2147483649), "Counter decremented by 1 to -2147483649")
    );
    assert_eq!(
        execute("decrement", &counting(i32::MAX, Some(i32::MIN))),
        done(
            ActionData::Count(4294967295),
            "Counter decremented by -2147483648 to 4294967295"
        )
    );
}

#[test]
fn reset_yields_zero_whatever_the_parameters() {
    let expected = done(ActionData::Count(0), "Counter reset to 0");
    assert_eq!(execute("reset", &no_params()), expected);
    assert_eq!(execute("reset", &counting(99, Some(3))), expected);
    assert_eq!(reset(), expected);
}

#[test]
fn reset_does_not_depend_on_earlier_calls() {
    let before = execute("reset", &no_params());
    let _ = execute("increment", &counting(5, Some(5)));
    let _ = execute("toggleCounter", &no_params());
    let after = execute("reset", &no_params());
    assert_eq!(before, after);
    assert_eq!(
        execute("increment", &counting(5, Some(5))),
        execute("increment", &counting(5, Some(5)))
    );
}

#[test]
fn toggle_counter_flips_the_flag() {
    let shown = ActionParams { show_counter: Some(true), ..no_params() };
    let hidden = ActionParams { show_counter: Some(false), ..no_params() };
    assert_eq!(
        execute("toggleCounter", &shown),
        done(ActionData::ShowCounter(false), "Counter visibility toggled to false")
    );
    assert_eq!(
        execute("toggleCounter", &hidden),
        done(ActionData::ShowCounter(true), "Counter visibility toggled to true")
    );
}

#[test]
fn toggle_stats_flips_the_flag() {
    let shown = ActionParams { show_stats: Some(true), ..no_params() };
    let hidden = ActionParams { show_stats: Some(false), ..no_params() };
    assert_eq!(
        execute("toggleStats", &shown),
        done(ActionData::ShowStats(false), "Stats visibility toggled to false")
    );
    assert_eq!(
        execute("toggleStats", &hidden),
        done(ActionData::ShowStats(true), "Stats visibility toggled to true")
    );
}

#[test]
fn toggling_twice_gives_the_first_flag_again() {
    for first in [true, false] {
        let once = execute("toggleCounter", &ActionParams { show_counter: Some(first), ..no_params() });
        let Some(ActionData::ShowCounter(flipped)) = once.data else {
            panic!("no flag in {:?}", once);
        };
        assert_eq!(flipped, !first);
        let twice =
            execute("toggleCounter", &ActionParams { show_counter: Some(flipped), ..no_params() });
        assert_eq!(twice.data, Some(ActionData::ShowCounter(first)));

        let once = execute("toggleStats", &ActionParams { show_stats: Some(first), ..no_params() });
        let Some(ActionData::ShowStats(flipped)) = once.data else {
            panic!("no flag in {:?}", once);
        };
        let twice = execute("toggleStats", &ActionParams { show_stats: Some(flipped), ..no_params() });
        assert_eq!(twice.data, Some(ActionData::ShowStats(first)));
    }
}

#[test]
fn each_toggle_reads_its_own_flag() {
    let only_stats = ActionParams { show_stats: Some(true), ..no_params() };
    let only_counter = ActionParams { show_counter: Some(true), ..no_params() };
    assert_eq!(
        execute("toggleCounter", &only_stats),
        refused("Missing required parameter: showCounter")
    );
    assert_eq!(
        execute("toggleStats", &only_counter),
        refused("Missing required parameter: showStats")
    );
}

#[test]
fn increment_without_count_is_refused() {
    let params = ActionParams { amount: Some(5), ..no_params() };
    let result = execute("increment", &params);
    assert!(!result.success);
    assert_eq!(result, refused("Missing required parameter: count"));
    assert_eq!(execute("decrement", &params), refused("Missing required parameter: count"));
    assert_eq!(execute("increment", &no_params()), refused("Missing required parameter: count"));
}

#[test]
fn unknown_action_is_reported_in_the_result() {
    let result = execute("unknownAction", &no_params());
    assert!(!result.success);
    assert_eq!(result, refused("Unknown action: unknownAction"));
    assert_eq!(execute("", &counting(1, Some(1))), refused("Unknown action: "));
    assert_eq!(execute("RESET", &no_params()), refused("Unknown action: RESET"));
}

#[test]
fn the_handlers_agree_with_execute() {
    assert_eq!(increment(2, 3), execute("increment", &counting(2, Some(3))));
    assert_eq!(decrement(2, 3), execute("decrement", &counting(2, Some(3))));
    assert_eq!(
        toggle_counter(true),
        execute("toggleCounter", &ActionParams { show_counter: Some(true), ..no_params() })
    );
    assert_eq!(
        toggle_stats(false),
        execute("toggleStats", &ActionParams { show_stats: Some(false), ..no_params() })
    );
}

#[test]
fn a_result_has_either_data_or_an_error() {
    let names = ["increment", "decrement", "reset", "toggleCounter", "toggleStats", "other"];
    let all = [
        no_params(),
        counting(1, None),
        counting(1, Some(2)),
        ActionParams { show_counter: Some(true), ..no_params() },
        ActionParams { show_stats: Some(false), ..no_params() },
    ];
    for name in names {
        for params in all {
            let result = execute(name, &params);
            assert_eq!(result.success, result.error.is_none());
            assert_eq!(result.success, result.data.is_some());
            assert_eq!(result.success, result.message.is_some());
        }
    }
}
