//! The state of the form through which a browser user adds a book to a
//! locally saved list: the three text fields, the messages that change them,
//! and the submission that appends a book.

use vstd::prelude::*;

verus! {

/// Whether `c` is a decimal digit.
pub open spec fn is_decimal_digit(c: char) -> bool {
    '0' <= c && c <= '9'
}

/// Whether `s` is one or more decimal digits.
pub open spec fn all_decimal_digits(s: Seq<char>) -> bool {
    s.len() > 0 && forall|i: int| 0 <= i < s.len() ==> #[trigger] is_decimal_digit(s[i])
}

/// The value of the decimal digits `s`, most significant first.
pub open spec fn digits_value(s: Seq<char>) -> int
    decreases s.len(),
{
    if s.len() == 0 {
        0
    } else {
        digits_value(s.drop_last()) * 10 + (s.last() as int - '0' as int)
    }
}

/// The integer that `s` writes in decimal: digits, after an optional sign.
pub open spec fn decimal_of(s: Seq<char>) -> Option<int> {
    if s.len() > 0 && s[0] == '-' && all_decimal_digits(s.drop_first()) {
        Some(-digits_value(s.drop_first()))
    } else if s.len() > 0 && s[0] == '+' && all_decimal_digits(s.drop_first()) {
        Some(digits_value(s.drop_first()))
    } else if all_decimal_digits(s) {
        Some(digits_value(s))
    } else {
        None
    }
}

/// The `i32` that `s` writes, if it writes one in range.
pub open spec fn i32_of(s: Seq<char>) -> Option<i32> {
    match decimal_of(s) {
        Some(v) => if i32::MIN <= v <= i32::MAX {
            Some(v as i32)
        } else {
            None
        },
        None => None,
    }
}

/// Relies on `str::parse::<i32>` (`i32::from_str`): an optional `+` or `-`
/// followed by decimal digits and nothing else, in the range of `i32`.
#[verifier::external_body]
fn parse_i32(s: &str) -> (r: Option<i32>)
    ensures
        r == i32_of(s@),
{
    s.parse::<i32>().ok()
}

/// A book as the form saves it; it has no identifier until something assigns one.
#[derive(Debug)]
pub struct Book {
    pub id: Option<u32>,
    pub title: String,
    pub author: String,
    pub published_year: i32,
}

/// What the form's user did.
pub enum Msg {
    UpdateTitle(String),
    UpdateAuthor(String),
    UpdateYear(String),
    Submit,
}

/// The text in the form's three fields.
pub struct BookForm {
    pub title: String,
    pub author: String,
    pub published_year: String,
}

/// Sets `field` to `value` where they differ; the result says whether it changed.
fn assign_if_changed(field: &mut String, value: String) -> (r: bool)
    ensures
        final(field)@ == value@,
        r == (old(field)@ != value@),
{
    if *field == value {
        false
    } else {
        *field = value;
        true
    }
}

impl BookForm {
    /// A form with empty fields.
    pub fn create() -> (r: BookForm)
        ensures
            r.title@.len() == 0,
            r.author@.len() == 0,
            r.published_year@.len() == 0,
    {
        BookForm { title: String::new(), author: String::new(), published_year: String::new() }
    }

    /// Applies `msg`; the result says whether the form must be shown again.
    /// A field message sets its field and asks for a new showing when the text
    /// changed. Submit appends the form's book, without an identifier, to
    /// `saved`, where the year field writes an `i32`; otherwise it changes nothing.
    pub fn update(&mut self, msg: Msg, saved: &mut Vec<Book>) -> (r: bool)
        ensures
            match msg {
                Msg::UpdateTitle(t) => {
                    &&& final(self).title@ == t@
                    &&& final(self).author == old(self).author
                    &&& final(self).published_year == old(self).published_year
                    &&& final(saved)@ == old(saved)@
                    &&& r == (old(self).title@ != t@)
                },
                Msg::UpdateAuthor(a) => {
                    &&& final(self).author@ == a@
                    &&& final(self).title == old(self).title
                    &&& final(self).published_year == old(self).published_year
                    &&& final(saved)@ == old(saved)@
                    &&& r == (old(self).author@ != a@)
                },
                Msg::UpdateYear(y) => {
                    &&& final(self).published_year@ == y@
                    &&& final(self).title == old(self).title
                    &&& final(self).author == old(self).author
                    &&& final(saved)@ == old(saved)@
                    &&& r == (old(self).published_year@ != y@)
                },
                Msg::Submit => {
                    &&& *final(self) == *old(self)
                    &&& r == i32_of(old(self).published_year@) is Some
                    &&& match i32_of(old(self).published_year@) {
                        Some(year) => {
                            &&& final(saved)@.len() == old(saved)@.len() + 1
                            &&& final(saved)@.take(old(saved)@.len() as int) == old(saved)@
                            &&& final(saved)@.last().id is None
                            &&& final(saved)@.last().title@ == old(self).title@
                            &&& final(saved)@.last().author@ == old(self).author@
                            &&& final(saved)@.last().published_year == year
                        },
                        None => final(saved)@ == old(saved)@,
                    }
                },
            },
    {
        match msg {
            Msg::UpdateTitle(t) => assign_if_changed(&mut self.title, t),
            Msg::UpdateAuthor(a) => assign_if_changed(&mut self.author, a),
            Msg::UpdateYear(y) => assign_if_changed(&mut self.published_year, y),
            Msg::Submit => match parse_i32(self.published_year.as_str()) {
                Some(year) => {
                    saved.push(
                        Book {
                            id: None,
                            title: self.title.clone(),
                            author: self.author.clone(),
                            published_year: year,
                        },
                    );
                    assert(saved@.take(old(saved)@.len() as int) =~= old(saved)@);
                    true
                },
                None => false,
            },
        }
    }
}

} // verus!
