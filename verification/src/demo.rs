//! A walk through the three records and the lines that it prints.

use vstd::prelude::*;
use crate::point::{Point, UnitLike};
use crate::text::{integer_to_string, natural_text};
use crate::user::{User, UserView};

verus! {

/// The user that the walk builds second: the first one under another name.
pub open spec fn second_user() -> UserView {
    UserView {
        name: "Mariah"@,
        email: "email@example.com"@,
        is_active: true,
        login_count: 1,
    }
}

/// The sentence that introduces the second user, letter for letter.
proof fn second_user_sentence()
    ensures
        second_user().sentence()
            == "Hi, my name is Mariah, my email is email@example.com, I have logged on 1 times, and my status is true"@,
{
    reveal_strlit("Hi, my name is ");
    reveal_strlit("Mariah");
    reveal_strlit(", my email is ");
    reveal_strlit("email@example.com");
    reveal_strlit(", I have logged on ");
    reveal_strlit(" times, and my status is ");
    reveal_strlit("true");
    reveal_strlit(
        "Hi, my name is Mariah, my email is email@example.com, I have logged on 1 times, and my status is true",
    );
    assert(second_user().sentence()
        =~= "Hi, my name is Mariah, my email is email@example.com, I have logged on 1 times, and my status is true"@);
}

/// Builds a user, a renamed copy of it, a point and a marker, and returns
/// what is to be printed of them, one entry for each print, in order.
pub fn transcript() -> (lines: Vec<String>)
    ensures
        lines@.len() == 7,
        lines@[0]@ == "Adam"@,
        lines@[1]@ == "Mariah"@,
        lines@[2]@ == second_user().debug_text(),
        lines@[3]@ == second_user().pretty_debug_text(),
        lines@[4]@
            == "Hi, my name is Mariah, my email is email@example.com, I have logged on 1 times, and my status is true"@,
        lines@[5]@ == "Adam"@,
        lines@[6]@ == "12"@,
{
    let mut lines: Vec<String> = Vec::new();

    let my_user = User {
        name: String::from_str("Adam"),
        email: String::from_str("email@example.com"),
        is_active: true,
        login_count: 1,
    };

    // A shared reference reads the name and leaves the record whole.
    let name = &my_user.name;
    lines.push(name.clone());

    // The email moves into the new record; `my_user` keeps only its name and
    // its two copyable fields.
    let second_user = User { name: String::from_str("Mariah"), ..my_user };
    lines.push(second_user.name.clone());
    lines.push(second_user.debug_single_line());
    lines.push(second_user.debug_multi_line());
    lines.push(second_user.describe());
    proof {
        second_user_sentence();
    }

    // The name was not moved, so it can still be read.
    lines.push(my_user.name);

    let new_point = Point(10, 12);
    lines.push(integer_to_string(new_point.1 as i64));
    proof {
        reveal_strlit("12");
        reveal_with_fuel(natural_text, 2);
        assert(lines@[6]@ =~= "12"@);
    }

    let _new_unitlike = UnitLike;

    lines
}

} // verus!
