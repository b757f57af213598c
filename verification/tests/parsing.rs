use tic_tac_toe::game::{Action, ActionError};
use tic_tac_toe::input::get_move;
use tic_tac_toe::interface::cli::get_action;
use tic_tac_toe::ui;

/// The command as the standard library reads it: trim, lower-case, then compare or
/// parse as `usize`.
fn std_action(input: &str) -> Result<Action, ActionError> {
    let input = input.trim().to_lowercase();
    if input == "quit" || input == "q" {
        return Ok(Action::Quit);
    }
    match input.parse::<usize>() {
        Ok(idx) if (1..=9).contains(&idx) => Ok(Action::Move(idx - 1)),
        Ok(_) => Err(ActionError::OutOfRange),
        Err(_) => Err(ActionError::NotANumber),
    }
}

fn std_move(input: &str) -> Option<usize> {
    input
        .trim()
        .parse::<usize>()
        .ok()
        .filter(|&n| n >= 1 && n <= 9)
        .map(|n| n - 1)
}

const SAMPLES: &[&str] = &[
    "", " ", "\n", "1", "9", "0", "10", "5\n", " 5 ", "\t7\r\n", "+3", "+", "-3", "-0", "05",
    "0009", "1 2", "q", "Q", "quit", "QUIT", "QuIt", " quit\n", "qu", "quitt", "exit",
    "\u{a0}4\u{3000}", "\u{2009}8\u{2028}", "\u{85}2", "\u{feff}3", "\u{212a}", "QU\u{130}T",
    "q\u{307}", "\u{ff11}", "٣", "99999999999999999999999999", "18446744073709551616",
    "18446744073709551615", "4294967296", "potato", "9000", "x", "1.0", "1e0",
];

#[test]
fn action_parse_agrees_with_std_reading() {
    for s in SAMPLES {
        assert_eq!(Action::parse(s), std_action(s), "input {:?}", s);
        let parsed: Result<Action, ActionError> = s.parse();
        assert_eq!(parsed, std_action(s), "input {:?}", s);
    }
}

#[test]
fn cli_get_action_agrees_with_std_reading() {
    for s in SAMPLES {
        let expected = if s.is_empty() { Ok(Action::Quit) } else { std_action(s.trim()) };
        assert_eq!(get_action(s), expected, "input {:?}", s);
    }
}

#[test]
fn get_move_agrees_with_std_reading() {
    for s in SAMPLES {
        assert_eq!(get_move(s), std_move(s), "input {:?}", s);
    }
}

#[test]
fn ui_get_action_agrees_with_std_reading() {
    for s in SAMPLES {
        let expected = if s.is_empty() {
            ui::Action::Quit
        } else {
            let t = s.trim().to_lowercase();
            if t == "quit" || t == "q" {
                ui::Action::Quit
            } else {
                t.parse::<usize>()
                    .ok()
                    .filter(|&n| n >= 1 && n <= 9)
                    .map(|n| ui::Action::Move(n - 1))
                    .unwrap_or(ui::Action::Invalid)
            }
        };
        assert_eq!(ui::get_action(s), expected, "input {:?}", s);
    }
}

#[test]
fn each_action_error_has_an_input() {
    assert_eq!(Action::parse("0"), Err(ActionError::OutOfRange));
    assert_eq!(Action::parse("10"), Err(ActionError::OutOfRange));
    assert_eq!(Action::parse("abc"), Err(ActionError::NotANumber));
    assert_eq!(Action::parse("99999999999999999999999999"), Err(ActionError::NotANumber));
}

#[test]
fn every_space_number_reads_as_its_move() {
    for n in 1..=9usize {
        assert_eq!(Action::parse(&n.to_string()), Ok(Action::Move(n - 1)));
        assert_eq!(get_move(&format!(" {}\n", n)), Some(n - 1));
    }
}
