//! The two fixed symbol vocabularies: canonical button and axis symbols,
//! each resolved against a lexicographically sorted table of names by
//! verified binary search.

use vstd::prelude::*;

use crate::text::{lemma_lex_irrefl, lemma_lex_trans, lex_cmp, lex_lt};

verus! {

/// Canonical button symbols of the target controller abstraction.
#[derive(Clone, Copy, Debug, PartialEq, Eq, Structural)]
pub enum Button {
    South,
    East,
    Select,
    C,
    DPadDown,
    DPadLeft,
    DPadRight,
    DPadUp,
    Mode,
    LeftTrigger,
    LeftThumb,
    LeftTrigger2,
    RightTrigger,
    RightThumb,
    RightTrigger2,
    Start,
    West,
    North,
    Z,
}

/// Canonical axis symbols of the target controller abstraction.
#[derive(Clone, Copy, Debug, PartialEq, Eq, Structural)]
pub enum Axis {
    LeftTrigger,
    LeftTrigger2,
    LeftStickX,
    LeftStickY,
    LeftZ,
    RightTrigger,
    RightTrigger2,
    RightStickX,
    RightStickY,
    RightZ,
}

/// The button table: which texts name a button symbol, and which symbol
/// each names. Every other text resolves to nothing.
pub open spec fn button_of(name: Seq<char>) -> Option<Button> {
    if name == "a"@ {
        Some(Button::South)
    } else if name == "b"@ {
        Some(Button::East)
    } else if name == "back"@ {
        Some(Button::Select)
    } else if name == "c"@ {
        Some(Button::C)
    } else if name == "dpdown"@ {
        Some(Button::DPadDown)
    } else if name == "dpleft"@ {
        Some(Button::DPadLeft)
    } else if name == "dpright"@ {
        Some(Button::DPadRight)
    } else if name == "dpup"@ {
        Some(Button::DPadUp)
    } else if name == "guide"@ {
        Some(Button::Mode)
    } else if name == "leftshoulder"@ {
        Some(Button::LeftTrigger)
    } else if name == "leftstick"@ {
        Some(Button::LeftThumb)
    } else if name == "lefttrigger"@ {
        Some(Button::LeftTrigger2)
    } else if name == "rightshoulder"@ {
        Some(Button::RightTrigger)
    } else if name == "rightstick"@ {
        Some(Button::RightThumb)
    } else if name == "righttrigger"@ {
        Some(Button::RightTrigger2)
    } else if name == "start"@ {
        Some(Button::Start)
    } else if name == "x"@ {
        Some(Button::West)
    } else if name == "y"@ {
        Some(Button::North)
    } else if name == "z"@ {
        Some(Button::Z)
    } else {
        None
    }
}

/// The axis table: which texts name an axis symbol, and which symbol each
/// names. Every other text resolves to nothing.
pub open spec fn axis_of(name: Seq<char>) -> Option<Axis> {
    if name == "leftshoulder"@ {
        Some(Axis::LeftTrigger)
    } else if name == "lefttrigger"@ {
        Some(Axis::LeftTrigger2)
    } else if name == "leftx"@ {
        Some(Axis::LeftStickX)
    } else if name == "lefty"@ {
        Some(Axis::LeftStickY)
    } else if name == "leftz"@ {
        Some(Axis::LeftZ)
    } else if name == "rightshoulder"@ {
        Some(Axis::RightTrigger)
    } else if name == "righttrigger"@ {
        Some(Axis::RightTrigger2)
    } else if name == "rightx"@ {
        Some(Axis::RightStickX)
    } else if name == "righty"@ {
        Some(Axis::RightStickY)
    } else if name == "rightz"@ {
        Some(Axis::RightZ)
    } else {
        None
    }
}

/// The button table's names, in table order.
pub open spec fn button_names() -> Seq<Seq<char>> {
    seq![
        "a"@,
        "b"@,
        "back"@,
        "c"@,
        "dpdown"@,
        "dpleft"@,
        "dpright"@,
        "dpup"@,
        "guide"@,
        "leftshoulder"@,
        "leftstick"@,
        "lefttrigger"@,
        "rightshoulder"@,
        "rightstick"@,
        "righttrigger"@,
        "start"@,
        "x"@,
        "y"@,
        "z"@,
    ]
}

/// The axis table's names, in table order.
pub open spec fn axis_names() -> Seq<Seq<char>> {
    seq![
        "leftshoulder"@,
        "lefttrigger"@,
        "leftx"@,
        "lefty"@,
        "leftz"@,
        "rightshoulder"@,
        "righttrigger"@,
        "rightx"@,
        "righty"@,
        "rightz"@,
    ]
}

/// Each name comes strictly before the next.
pub open spec fn sorted_by_name(names: Seq<Seq<char>>) -> bool {
    forall|i: int| 0 <= i && i + 1 < names.len() ==> lex_lt(#[trigger] names[i], names[i + 1])
}

/// In a sorted table every earlier name comes before every later one.
pub proof fn lemma_sorted_pairwise(names: Seq<Seq<char>>, i: int, j: int)
    requires
        sorted_by_name(names),
        0 <= i < j < names.len(),
    ensures
        lex_lt(names[i], names[j]),
    decreases j - i,
{
    assert(lex_lt(names[j - 1], names[j]));
    if i < j - 1 {
        lemma_sorted_pairwise(names, i, j - 1);
        lemma_lex_trans(names[i], names[j - 1], names[j]);
    }
}

/// Law: both symbol tables are sorted strictly ascending by name, so an
/// ordered binary search over them is sound.
pub proof fn lemma_tables_sorted()
    ensures
        sorted_by_name(button_names()),
        sorted_by_name(axis_names()),
{
    reveal_with_fuel(lex_lt, 15);
    reveal_strlit("a");
    reveal_strlit("b");
    reveal_strlit("back");
    reveal_strlit("c");
    reveal_strlit("dpdown");
    reveal_strlit("dpleft");
    reveal_strlit("dpright");
    reveal_strlit("dpup");
    reveal_strlit("guide");
    reveal_strlit("leftshoulder");
    reveal_strlit("leftstick");
    reveal_strlit("lefttrigger");
    reveal_strlit("rightshoulder");
    reveal_strlit("rightstick");
    reveal_strlit("righttrigger");
    reveal_strlit("start");
    reveal_strlit("x");
    reveal_strlit("y");
    reveal_strlit("z");
    reveal_strlit("leftx");
    reveal_strlit("lefty");
    reveal_strlit("leftz");
    reveal_strlit("rightx");
    reveal_strlit("righty");
    reveal_strlit("rightz");
    assert forall|i: int| 0 <= i && i + 1 < button_names().len() implies lex_lt(
        #[trigger] button_names()[i],
        button_names()[i + 1],
    ) by {
        assert(lex_lt("a"@, "b"@));
        assert(lex_lt("b"@, "back"@));
        assert(lex_lt("back"@, "c"@));
        assert(lex_lt("c"@, "dpdown"@));
        assert(lex_lt("dpdown"@, "dpleft"@));
        assert(lex_lt("dpleft"@, "dpright"@));
        assert(lex_lt("dpright"@, "dpup"@));
        assert(lex_lt("dpup"@, "guide"@));
        assert(lex_lt("guide"@, "leftshoulder"@));
        assert(lex_lt("leftshoulder"@, "leftstick"@));
        assert(lex_lt("leftstick"@, "lefttrigger"@));
        assert(lex_lt("lefttrigger"@, "rightshoulder"@));
        assert(lex_lt("rightshoulder"@, "rightstick"@));
        assert(lex_lt("rightstick"@, "righttrigger"@));
        assert(lex_lt("righttrigger"@, "start"@));
        assert(lex_lt("start"@, "x"@));
        assert(lex_lt("x"@, "y"@));
        assert(lex_lt("y"@, "z"@));
    }
    assert forall|i: int| 0 <= i && i + 1 < axis_names().len() implies lex_lt(
        #[trigger] axis_names()[i],
        axis_names()[i + 1],
    ) by {
        assert(lex_lt("leftshoulder"@, "lefttrigger"@));
        assert(lex_lt("lefttrigger"@, "leftx"@));
        assert(lex_lt("leftx"@, "lefty"@));
        assert(lex_lt("lefty"@, "leftz"@));
        assert(lex_lt("leftz"@, "rightshoulder"@));
        assert(lex_lt("rightshoulder"@, "righttrigger"@));
        assert(lex_lt("righttrigger"@, "rightx"@));
        assert(lex_lt("rightx"@, "righty"@));
        assert(lex_lt("righty"@, "rightz"@));
    }
}

/// A text the button table resolves stands in the name list.
proof fn lemma_button_of_in_table(name: Seq<char>)
    requires
        button_of(name) is Some,
    ensures
        exists|j: int| 0 <= j < button_names().len() && button_names()[j] == name,
{
    if name == "a"@ {
        assert(button_names()[0] == name);
    } else if name == "b"@ {
        assert(button_names()[1] == name);
    } else if name == "back"@ {
        assert(button_names()[2] == name);
    } else if name == "c"@ {
        assert(button_names()[3] == name);
    } else if name == "dpdown"@ {
        assert(button_names()[4] == name);
    } else if name == "dpleft"@ {
        assert(button_names()[5] == name);
    } else if name == "dpright"@ {
        assert(button_names()[6] == name);
    } else if name == "dpup"@ {
        assert(button_names()[7] == name);
    } else if name == "guide"@ {
        assert(button_names()[8] == name);
    } else if name == "leftshoulder"@ {
        assert(button_names()[9] == name);
    } else if name == "leftstick"@ {
        assert(button_names()[10] == name);
    } else if name == "lefttrigger"@ {
        assert(button_names()[11] == name);
    } else if name == "rightshoulder"@ {
        assert(button_names()[12] == name);
    } else if name == "rightstick"@ {
        assert(button_names()[13] == name);
    } else if name == "righttrigger"@ {
        assert(button_names()[14] == name);
    } else if name == "start"@ {
        assert(button_names()[15] == name);
    } else if name == "x"@ {
        assert(button_names()[16] == name);
    } else if name == "y"@ {
        assert(button_names()[17] == name);
    } else {
        assert(name == "z"@);
        assert(button_names()[18] == name);
    }
}

/// A text the axis table resolves stands in the name list.
proof fn lemma_axis_of_in_table(name: Seq<char>)
    requires
        axis_of(name) is Some,
    ensures
        exists|j: int| 0 <= j < axis_names().len() && axis_names()[j] == name,
{
    if name == "leftshoulder"@ {
        assert(axis_names()[0] == name);
    } else if name == "lefttrigger"@ {
        assert(axis_names()[1] == name);
    } else if name == "leftx"@ {
        assert(axis_names()[2] == name);
    } else if name == "lefty"@ {
        assert(axis_names()[3] == name);
    } else if name == "leftz"@ {
        assert(axis_names()[4] == name);
    } else if name == "rightshoulder"@ {
        assert(axis_names()[5] == name);
    } else if name == "righttrigger"@ {
        assert(axis_names()[6] == name);
    } else if name == "rightx"@ {
        assert(axis_names()[7] == name);
    } else if name == "righty"@ {
        assert(axis_names()[8] == name);
    } else {
        assert(name == "rightz"@);
        assert(axis_names()[9] == name);
    }
}

/// The button table's entry at `i`: its name and its symbol.
fn button_entry(i: usize) -> (r: (&'static str, Button))
    requires
        i < 19,
    ensures
        r.0@ == button_names()[i as int],
        button_of(button_names()[i as int]) == Some(r.1),
{
    proof {
        reveal_strlit("a");
        reveal_strlit("b");
        reveal_strlit("back");
        reveal_strlit("c");
        reveal_strlit("dpdown");
        reveal_strlit("dpleft");
        reveal_strlit("dpright");
        reveal_strlit("dpup");
        reveal_strlit("guide");
        reveal_strlit("leftshoulder");
        reveal_strlit("leftstick");
        reveal_strlit("lefttrigger");
        reveal_strlit("rightshoulder");
        reveal_strlit("rightstick");
        reveal_strlit("righttrigger");
        reveal_strlit("start");
        reveal_strlit("x");
        reveal_strlit("y");
        reveal_strlit("z");
        assert("a"@.len() == 1 && "a"@[0] == 'a');
        assert("b"@.len() == 1 && "b"@[0] == 'b');
        assert("back"@.len() == 4 && "back"@[0] == 'b');
        assert("c"@.len() == 1 && "c"@[0] == 'c');
        assert("dpdown"@.len() == 6 && "dpdown"@[0] == 'd' && "dpdown"@[2] == 'd');
        assert("dpleft"@.len() == 6 && "dpleft"@[0] == 'd' && "dpleft"@[2] == 'l');
        assert("dpright"@.len() == 7 && "dpright"@[0] == 'd');
        assert("dpup"@.len() == 4 && "dpup"@[0] == 'd');
        assert("guide"@.len() == 5 && "guide"@[0] == 'g');
        assert("leftshoulder"@.len() == 12 && "leftshoulder"@[0] == 'l');
        assert("leftstick"@.len() == 9 && "leftstick"@[0] == 'l');
        assert("lefttrigger"@.len() == 11 && "lefttrigger"@[0] == 'l');
        assert("rightshoulder"@.len() == 13 && "rightshoulder"@[0] == 'r');
        assert("rightstick"@.len() == 10 && "rightstick"@[0] == 'r');
        assert("righttrigger"@.len() == 12 && "righttrigger"@[0] == 'r');
        assert("start"@.len() == 5 && "start"@[0] == 's');
        assert("x"@.len() == 1 && "x"@[0] == 'x');
        assert("y"@.len() == 1 && "y"@[0] == 'y');
        assert("z"@.len() == 1 && "z"@[0] == 'z');
    }
    if i == 0 {
        ("a", Button::South)
    } else if i == 1 {
        ("b", Button::East)
    } else if i == 2 {
        ("back", Button::Select)
    } else if i == 3 {
        ("c", Button::C)
    } else if i == 4 {
        ("dpdown", Button::DPadDown)
    } else if i == 5 {
        ("dpleft", Button::DPadLeft)
    } else if i == 6 {
        ("dpright", Button::DPadRight)
    } else if i == 7 {
        ("dpup", Button::DPadUp)
    } else if i == 8 {
        ("guide", Button::Mode)
    } else if i == 9 {
        ("leftshoulder", Button::LeftTrigger)
    } else if i == 10 {
        ("leftstick", Button::LeftThumb)
    } else if i == 11 {
        ("lefttrigger", Button::LeftTrigger2)
    } else if i == 12 {
        ("rightshoulder", Button::RightTrigger)
    } else if i == 13 {
        ("rightstick", Button::RightThumb)
    } else if i == 14 {
        ("righttrigger", Button::RightTrigger2)
    } else if i == 15 {
        ("start", Button::Start)
    } else if i == 16 {
        ("x", Button::West)
    } else if i == 17 {
        ("y", Button::North)
    } else {
        ("z", Button::Z)
    }
}

/// The axis table's entry at `i`: its name and its symbol.
fn axis_entry(i: usize) -> (r: (&'static str, Axis))
    requires
        i < 10,
    ensures
        r.0@ == axis_names()[i as int],
        axis_of(axis_names()[i as int]) == Some(r.1),
{
    proof {
        reveal_strlit("leftshoulder");
        reveal_strlit("lefttrigger");
        reveal_strlit("leftx");
        reveal_strlit("lefty");
        reveal_strlit("leftz");
        reveal_strlit("rightshoulder");
        reveal_strlit("righttrigger");
        reveal_strlit("rightx");
        reveal_strlit("righty");
        reveal_strlit("rightz");
        assert("leftshoulder"@.len() == 12 && "leftshoulder"@[0] == 'l');
        assert("lefttrigger"@.len() == 11 && "lefttrigger"@[0] == 'l');
        assert("leftx"@.len() == 5 && "leftx"@[0] == 'l' && "leftx"@[4] == 'x');
        assert("lefty"@.len() == 5 && "lefty"@[0] == 'l' && "lefty"@[4] == 'y');
        assert("leftz"@.len() == 5 && "leftz"@[0] == 'l' && "leftz"@[4] == 'z');
        assert("rightshoulder"@.len() == 13 && "rightshoulder"@[0] == 'r');
        assert("righttrigger"@.len() == 12 && "righttrigger"@[0] == 'r');
        assert("rightx"@.len() == 6 && "rightx"@[0] == 'r' && "rightx"@[5] == 'x');
        assert("righty"@.len() == 6 && "righty"@[0] == 'r' && "righty"@[5] == 'y');
        assert("rightz"@.len() == 6 && "rightz"@[0] == 'r' && "rightz"@[5] == 'z');
    }
    if i == 0 {
        ("leftshoulder", Axis::LeftTrigger)
    } else if i == 1 {
        ("lefttrigger", Axis::LeftTrigger2)
    } else if i == 2 {
        ("leftx", Axis::LeftStickX)
    } else if i == 3 {
        ("lefty", Axis::LeftStickY)
    } else if i == 4 {
        ("leftz", Axis::LeftZ)
    } else if i == 5 {
        ("rightshoulder", Axis::RightTrigger)
    } else if i == 6 {
        ("righttrigger", Axis::RightTrigger2)
    } else if i == 7 {
        ("rightx", Axis::RightStickX)
    } else if i == 8 {
        ("righty", Axis::RightStickY)
    } else {
        ("rightz", Axis::RightZ)
    }
}

/// Resolves a text against the button table by binary search: exactly
/// `button_of`.
pub fn lookup_button(name: &str) -> (r: Option<Button>)
    ensures
        r == button_of(name@),
{
    proof {
        lemma_tables_sorted();
        lemma_lex_irrefl(name@);
    }
    let mut lo: usize = 0;
    let mut hi: usize = 19;
    while lo < hi
        invariant
            lo <= hi <= 19,
            sorted_by_name(button_names()),
            !lex_lt(name@, name@),
            forall|j: int| 0 <= j < lo ==> lex_lt(#[trigger] button_names()[j], name@),
            forall|j: int| hi <= j < 19 ==> lex_lt(name@, #[trigger] button_names()[j]),
        decreases hi - lo,
    {
        let mid = lo + (hi - lo) / 2;
        let (entry_name, entry_value) = button_entry(mid);
        let c = lex_cmp(name, entry_name);
        if c == 0 {
            return Some(entry_value);
        } else if c == -1 {
            proof {
                assert forall|j: int| mid <= j < 19 implies lex_lt(
                    name@,
                    #[trigger] button_names()[j],
                ) by {
                    if mid < j < hi {
                        lemma_sorted_pairwise(button_names(), mid as int, j);
                        lemma_lex_trans(name@, button_names()[mid as int], button_names()[j]);
                    }
                }
            }
            hi = mid;
        } else {
            proof {
                assert forall|j: int| 0 <= j <= mid implies lex_lt(
                    #[trigger] button_names()[j],
                    name@,
                ) by {
                    if lo <= j < mid {
                        lemma_sorted_pairwise(button_names(), j, mid as int);
                        lemma_lex_trans(button_names()[j], button_names()[mid as int], name@);
                    }
                }
            }
            lo = mid + 1;
        }
    }
    proof {
        if button_of(name@) is Some {
            lemma_button_of_in_table(name@);
            let j = choose|j: int| 0 <= j < button_names().len() && button_names()[j] == name@;
            if j < lo {
                assert(lex_lt(button_names()[j], name@));
            } else {
                assert(lex_lt(name@, button_names()[j]));
            }
        }
    }
    None
}

/// Resolves a text against the axis table by binary search: exactly
/// `axis_of`.
pub fn lookup_axis(name: &str) -> (r: Option<Axis>)
    ensures
        r == axis_of(name@),
{
    proof {
        lemma_tables_sorted();
        lemma_lex_irrefl(name@);
    }
    let mut lo: usize = 0;
    let mut hi: usize = 10;
    while lo < hi
        invariant
            lo <= hi <= 10,
            sorted_by_name(axis_names()),
            !lex_lt(name@, name@),
            forall|j: int| 0 <= j < lo ==> lex_lt(#[trigger] axis_names()[j], name@),
            forall|j: int| hi <= j < 10 ==> lex_lt(name@, #[trigger] axis_names()[j]),
        decreases hi - lo,
    {
        let mid = lo + (hi - lo) / 2;
        let (entry_name, entry_value) = axis_entry(mid);
        let c = lex_cmp(name, entry_name);
        if c == 0 {
            return Some(entry_value);
        } else if c == -1 {
            proof {
                assert forall|j: int| mid <= j < 10 implies lex_lt(
                    name@,
                    #[trigger] axis_names()[j],
                ) by {
                    if mid < j < hi {
                        lemma_sorted_pairwise(axis_names(), mid as int, j);
                        lemma_lex_trans(name@, axis_names()[mid as int], axis_names()[j]);
                    }
                }
            }
            hi = mid;
        } else {
            proof {
                assert forall|j: int| 0 <= j <= mid implies lex_lt(
                    #[trigger] axis_names()[j],
                    name@,
                ) by {
                    if lo <= j < mid {
                        lemma_sorted_pairwise(axis_names(), j, mid as int);
                        lemma_lex_trans(axis_names()[j], axis_names()[mid as int], name@);
                    }
                }
            }
            lo = mid + 1;
        }
    }
    proof {
        if axis_of(name@) is Some {
            lemma_axis_of_in_table(name@);
            let j = choose|j: int| 0 <= j < axis_names().len() && axis_names()[j] == name@;
            if j < lo {
                assert(lex_lt(axis_names()[j], name@));
            } else {
                assert(lex_lt(name@, axis_names()[j]));
            }
        }
    }
    None
}

} // verus!
