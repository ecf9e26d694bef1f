//! The mode menu: which line of input selects which mode.

use vstd::prelude::*;
use crate::text::{char_is_whitespace, is_whitespace};

verus! {

/// What a line of input asks for.
#[derive(Clone, Copy, Debug, PartialEq, Eq, Structural)]
pub enum MenuChoice {
    /// Watch the clipboard for changes.
    ClipboardPolling,
    /// Poll the accessibility tree.
    Accessibility,
    /// Install the global hooks.
    GlobalHook,
    /// Leave the program.
    Quit,
    /// None of the above.
    Invalid,
}

/// A text without its leading whitespace.
pub open spec fn trim_start(s: Seq<char>) -> Seq<char>
    decreases s.len(),
{
    if s.len() > 0 && is_whitespace(s[0]) {
        trim_start(s.drop_first())
    } else {
        s
    }
}

/// A text without its trailing whitespace.
pub open spec fn trim_end(s: Seq<char>) -> Seq<char>
    decreases s.len(),
{
    if s.len() > 0 && is_whitespace(s.last()) {
        trim_end(s.drop_last())
    } else {
        s
    }
}

/// A text without the whitespace at either end.
pub open spec fn trimmed(s: Seq<char>) -> Seq<char> {
    trim_end(trim_start(s))
}

/// The choice a line stands for: what is left of it after trimming must be
/// one of `1`, `2`, `3`, `q` or `Q`.
pub open spec fn choice_of(line: Seq<char>) -> MenuChoice {
    let t = trimmed(line);
    if t == seq!['1'] {
        MenuChoice::ClipboardPolling
    } else if t == seq!['2'] {
        MenuChoice::Accessibility
    } else if t == seq!['3'] {
        MenuChoice::GlobalHook
    } else if t == seq!['q'] || t == seq!['Q'] {
        MenuChoice::Quit
    } else {
        MenuChoice::Invalid
    }
}

/// The characters of a text, one by one.
fn chars_of(s: &str) -> (chars: Vec<char>)
    ensures
        chars@ == s@,
{
    broadcast use vstd::string::axiom_spec_iter;

    let mut chars: Vec<char> = Vec::new();
    for c in it: s.chars()
        invariant
            it.seq() == s@,
            chars@ == s@.take(it.index()),
    {
        assert(s@.take(it.index() + 1) == s@.take(it.index()).push(c));
        chars.push(c);
    }
    assert(s@.take(s@.len() as int) == s@);
    chars
}

/// Reads a line of input as a menu choice. Whitespace around the choice,
/// the end of the line included, does not count.
pub fn parse_choice(line: &str) -> (choice: MenuChoice)
    ensures
        choice == choice_of(line@),
{
    let chars = chars_of(line);
    let n = chars.len();
    let mut start: usize = 0;
    assert(chars@.skip(0) == chars@);
    while start < n
        invariant_except_break
            start <= n,
            n == chars@.len(),
            trim_start(chars@) == trim_start(chars@.skip(start as int)),
        ensures
            start <= n,
            trim_start(chars@) == chars@.skip(start as int),
        decreases n - start,
    {
        if !char_is_whitespace(chars[start]) {
            break ;
        }
        assert(chars@.skip(start as int).drop_first() == chars@.skip(start + 1));
        start = start + 1;
    }
    let ghost rest = chars@.skip(start as int);
    let mut end: usize = n;
    assert(rest.take(end - start) == rest);
    while end > start
        invariant_except_break
            start <= end <= n,
            n == chars@.len(),
            rest == chars@.skip(start as int),
            trim_end(rest) == trim_end(rest.take(end - start)),
        ensures
            start <= end <= n,
            trim_end(rest) == rest.take(end - start),
        decreases end - start,
    {
        if !char_is_whitespace(chars[end - 1]) {
            break ;
        }
        assert(rest.take(end - start).drop_last() == rest.take(end - start - 1));
        end = end - 1;
    }
    assert(trimmed(line@) == rest.take(end - start));
    if end - start == 1 {
        let c = chars[start];
        assert(rest.take(1) == seq![c]);
        assert(seq![c][0] == c);
        if c == '1' {
            MenuChoice::ClipboardPolling
        } else if c == '2' {
            MenuChoice::Accessibility
        } else if c == '3' {
            MenuChoice::GlobalHook
        } else if c == 'q' || c == 'Q' {
            MenuChoice::Quit
        } else {
            MenuChoice::Invalid
        }
    } else {
        assert(rest.take(end - start).len() != 1);
        MenuChoice::Invalid
    }
}

} // verus!
