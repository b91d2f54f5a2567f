//! The state behind a chat window: the line being typed and the lines that
//! were entered.

use crate::text::{is_blank, str_is_blank};
use vstd::prelude::*;

verus! {

/// The state of the chat window.
pub struct WalkieTalkieApp {
    input: String,
    messages: Vec<String>,
}

/// The entered lines, each as a text.
pub open spec fn lines(v: Seq<String>) -> Seq<Seq<char>> {
    Seq::new(v.len(), |i: int| v[i]@)
}

impl WalkieTalkieApp {
    /// The line being typed.
    pub closed spec fn input(&self) -> Seq<char> {
        self.input@
    }

    /// The lines entered so far, oldest first.
    pub closed spec fn messages(&self) -> Seq<Seq<char>> {
        lines(self.messages@)
    }

    /// The line being typed.
    pub fn current_input(&self) -> (s: &String)
        ensures
            s@ == self.input(),
    {
        &self.input
    }

    /// Replaces the line being typed.
    pub fn set_input(&mut self, text: String)
        ensures
            final(self).input() == text@,
            final(self).messages() == old(self).messages(),
    {
        self.input = text;
    }

    /// The lines entered so far, oldest first.
    pub fn entered(&self) -> (v: &Vec<String>)
        ensures
            lines(v@) == self.messages(),
    {
        &self.messages
    }

    /// Enters the line being typed: unless it is blank, it is added to the
    /// entered lines as it stands and the input is emptied. Tells whether it
    /// was entered.
    pub fn submit(&mut self) -> (entered: bool)
        ensures
            entered == !is_blank(old(self).input()),
            entered ==> final(self).messages() == old(self).messages().push(old(self).input())
                && final(self).input() == Seq::<char>::empty(),
            !entered ==> final(self).messages() == old(self).messages() && final(self).input()
                == old(self).input(),
    {
        if str_is_blank(self.input.as_str()) {
            return false;
        }
        let ghost before = self.messages@;
        let line = self.input.clone();
        self.messages.push(line);
        self.input = String::new();
        assert(lines(self.messages@) =~= lines(before).push(old(self).input@));
        true
    }
}

impl Default for WalkieTalkieApp {
    fn default() -> (app: Self)
        ensures
            app.input() == Seq::<char>::empty(),
            app.messages() == Seq::<Seq<char>>::empty(),
    {
        let app = WalkieTalkieApp { input: String::new(), messages: Vec::new() };
        assert(lines(app.messages@) =~= Seq::<Seq<char>>::empty());
        app
    }
}

} // verus!
