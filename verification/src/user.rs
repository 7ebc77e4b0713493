//! The user record and its renderings.

use vstd::prelude::*;
use crate::quote::{quote, quoted_text};
use crate::text::{bool_str, bool_text, integer_text, push_integer};

verus! {

/// A user account. The record is immutable once built; a changed copy is made
/// by naming the fields that differ and moving the rest out of the source.
#[derive(Debug)]
pub struct User {
    pub name: String,
    pub email: String,
    pub is_active: bool,
    pub login_count: i64,
}

/// What a `User` holds, as plain values.
pub struct UserView {
    pub name: Seq<char>,
    pub email: Seq<char>,
    pub is_active: bool,
    pub login_count: int,
}

impl View for User {
    type V = UserView;

    open spec fn view(&self) -> UserView {
        UserView {
            name: self.name@,
            email: self.email@,
            is_active: self.is_active,
            login_count: self.login_count as int,
        }
    }
}

impl UserView {
    /// One sentence that introduces the user.
    pub open spec fn sentence(self) -> Seq<char> {
        "Hi, my name is "@ + self.name + ", my email is "@ + self.email
            + ", I have logged on "@ + integer_text(self.login_count)
            + " times, and my status is "@ + bool_text(self.is_active)
    }

    /// The record on one line: the type's name, then every field as
    /// `name: value` between braces, separated by commas, text fields quoted.
    pub open spec fn debug_text(self) -> Seq<char> {
        "User { name: "@ + quoted_text(self.name) + ", email: "@ + quoted_text(self.email)
            + ", is_active: "@ + bool_text(self.is_active) + ", login_count: "@ + integer_text(
            self.login_count,
        ) + " }"@
    }

    /// The record with one field per line, each indented by four spaces and
    /// followed by a comma, the braces on lines of their own.
    pub open spec fn pretty_debug_text(self) -> Seq<char> {
        "User {\n    name: "@ + quoted_text(self.name) + ",\n    email: "@ + quoted_text(
            self.email,
        ) + ",\n    is_active: "@ + bool_text(self.is_active) + ",\n    login_count: "@
            + integer_text(self.login_count) + ",\n}"@
    }
}

impl User {
    /// Builds a record that carries `name` and takes every other field from
    /// `self`, which is consumed: the email's buffer moves, it is not copied.
    pub fn with_name(self, name: String) -> (renamed: User)
        ensures
            renamed.name@ == name@,
            renamed.email@ == self.email@,
            renamed.is_active == self.is_active,
            renamed.login_count == self.login_count,
    {
        User { name, ..self }
    }

    /// Introduces the user in one sentence.
    pub fn describe(&self) -> (sentence: String)
        ensures
            sentence@ == self@.sentence(),
    {
        let mut my_str = String::new();
        my_str.append("Hi, my name is ");
        my_str.append(self.name.as_str());
        my_str.append(", my email is ");
        my_str.append(self.email.as_str());
        my_str.append(", I have logged on ");
        push_integer(&mut my_str, self.login_count);
        my_str.append(" times, and my status is ");
        my_str.append(bool_str(self.is_active));
        assert(my_str@ =~= self@.sentence());
        my_str
    }

    /// Renders the record on a single line.
    pub fn debug_single_line(&self) -> (line: String)
        ensures
            line@ == self@.debug_text(),
    {
        let mut line = String::new();
        line.append("User { name: ");
        line.append(quote(self.name.as_str()).as_str());
        line.append(", email: ");
        line.append(quote(self.email.as_str()).as_str());
        line.append(", is_active: ");
        line.append(bool_str(self.is_active));
        line.append(", login_count: ");
        push_integer(&mut line, self.login_count);
        line.append(" }");
        assert(line@ =~= self@.debug_text());
        line
    }

    /// Renders the record over several lines, one field per line.
    pub fn debug_multi_line(&self) -> (block: String)
        ensures
            block@ == self@.pretty_debug_text(),
    {
        let mut block = String::new();
        block.append("User {\n    name: ");
        block.append(quote(self.name.as_str()).as_str());
        block.append(",\n    email: ");
        block.append(quote(self.email.as_str()).as_str());
        block.append(",\n    is_active: ");
        block.append(bool_str(self.is_active));
        block.append(",\n    login_count: ");
        push_integer(&mut block, self.login_count);
        block.append(",\n}");
        assert(block@ =~= self@.pretty_debug_text());
        block
    }
}

} // verus!
