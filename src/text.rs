//! What the calculator reads from a line of user input.
use vstd::prelude::*;

verus! {

/// What `str::trim` leaves of a text.
pub uninterp spec fn trimmed(s: Seq<char>) -> Seq<char>;

/// What `str::to_lowercase` makes of a text.
pub uninterp spec fn lower_of(s: Seq<char>) -> Seq<char>;

/// Relies on `str::trim`: the text without leading and trailing whitespace,
/// a function of the text alone.
#[verifier::external_body]
pub(crate) fn trim_text(s: &str) -> (r: &str)
    ensures
        r@ == trimmed(s@),
{
    s.trim()
}

/// Relies on `str::to_lowercase`: the lowercase mapping of each char, a
/// function of the text alone.
#[verifier::external_body]
pub(crate) fn lowercase_text(s: &str) -> (r: String)
    ensures
        r@ == lower_of(s@),
{
    s.to_lowercase()
}

pub open spec fn done_word() -> Seq<char> {
    seq!['d', 'o', 'n', 'e']
}

/// Whether `s` is exactly the word `done`.
pub fn is_done_word(s: &str) -> (r: bool)
    ensures
        r == (s@ == done_word()),
{
    if s.unicode_len() != 4 {
        assert(s@.len() != done_word().len());
        return false;
    }
    let r = s.get_char(0) == 'd' && s.get_char(1) == 'o' && s.get_char(2) == 'n' && s.get_char(3)
        == 'e';
    if r {
        assert(s@ =~= done_word());
    }
    r
}

/// Whether a line typed in place of a cash-flow amount ends the list: the
/// word `done` in any case, with surrounding whitespace.
pub fn ends_cashflow_entry(line: &str) -> (r: bool)
    ensures
        r == (lower_of(trimmed(line@)) == done_word()),
{
    let t = trim_text(line);
    let lower = lowercase_text(t);
    is_done_word(lower.as_str())
}

} // verus!
