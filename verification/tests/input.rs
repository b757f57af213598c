use tic_tac_toe::input::get_move;

#[test]
fn test_get_move_returns_some_number() {
    let input = "5\n";
    let result = get_move(input);

    assert_eq!(result, Some(4));
}

#[test]
fn test_get_move_returns_none() {
    let scenarios = [("Out of Bounds", "9000\n"), ("Invalid Input", "potato\n")];

    for (name, input_text) in scenarios {
        let result = get_move(input_text);
        assert_eq!(result, None, "Failed in Scenario {}", name);
    }
}
