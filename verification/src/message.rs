use vstd::prelude::*;
use vstd::string::StringExecFns;

verus! {

/// The character for a die face, `1` through `6`.
pub open spec fn die_digit(v: int) -> char {
    if v == 1 {
        '1'
    } else if v == 2 {
        '2'
    } else if v == 3 {
        '3'
    } else if v == 4 {
        '4'
    } else if v == 5 {
        '5'
    } else {
        '6'
    }
}

/// The one log message of a run: the fixed prefix followed by the die face.
pub open spec fn dice_message_spec(v: int) -> Seq<char> {
    "Player is rolling the dice: "@ + seq![die_digit(v)]
}

/// The die face as a one-character string.
fn die_digit_str(v: i32) -> (r: &'static str)
    requires
        1 <= v <= 6,
    ensures
        r@ == seq![die_digit(v as int)],
{
    proof {
        reveal_strlit("1");
        reveal_strlit("2");
        reveal_strlit("3");
        reveal_strlit("4");
        reveal_strlit("5");
        reveal_strlit("6");
        assert("1"@ =~= seq!['1']);
        assert("2"@ =~= seq!['2']);
        assert("3"@ =~= seq!['3']);
        assert("4"@ =~= seq!['4']);
        assert("5"@ =~= seq!['5']);
        assert("6"@ =~= seq!['6']);
    }
    match v {
        1 => "1",
        2 => "2",
        3 => "3",
        4 => "4",
        5 => "5",
        _ => "6",
    }
}

/// Builds the message `Player is rolling the dice: <v>` for a die value.
pub fn dice_message(v: i32) -> (r: String)
    requires
        1 <= v <= 6,
    ensures
        r@ == dice_message_spec(v as int),
{
    let prefix: String = "Player is rolling the dice: ".to_owned();
    prefix.concat(die_digit_str(v))
}

/// The completion marker printed before the final flush.
pub fn completion_marker() -> (r: &'static str)
    ensures
        r@ == "Done"@,
{
    "Done"
}

} // verus!
