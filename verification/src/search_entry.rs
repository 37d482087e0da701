//! The search query buffer: the text the user has typed so far, edited by
//! appending one character, deleting the last, or clearing the whole text.
//! All operations are total; its view is the sequence of characters typed.

use crate::colors::Colors;
use vstd::prelude::*;

verus! {

/// Relies on `String::push`: appends the character at the end.
#[verifier::external_body]
fn string_push(s: &mut String, c: char)
    ensures
        final(s)@ == old(s)@.push(c),
{
    s.push(c);
}

/// Relies on `String::pop`: removes and returns the last character, or
/// leaves an empty string unchanged and returns nothing.
#[verifier::external_body]
fn string_pop(s: &mut String) -> (r: Option<char>)
    ensures
        old(s)@.len() == 0 ==> final(s)@ == old(s)@ && r is None,
        old(s)@.len() > 0 ==> final(s)@ == old(s)@.drop_last() && r == Some(old(s)@.last()),
{
    s.pop()
}

/// Relies on `String::clear`: empties the string.
#[verifier::external_body]
fn string_clear(s: &mut String)
    ensures
        final(s)@ == Seq::<char>::empty(),
{
    s.clear();
}

/// The query box: the text being typed, and the palette it is drawn with.
pub struct SearchEntry {
    text: String,
    colors: Colors,
}

impl View for SearchEntry {
    type V = Seq<char>;

    closed spec fn view(&self) -> Seq<char> {
        self.text@
    }
}

impl SearchEntry {
    /// The palette the box is drawn with.
    pub closed spec fn spec_colors(&self) -> Colors {
        self.colors
    }

    /// An empty query buffer.
    pub fn new(colors: &Colors) -> (s: Self)
        ensures
            s@ == Seq::<char>::empty(),
            s.spec_colors() == *colors,
    {
        SearchEntry { text: String::new(), colors: *colors }
    }

    /// The current query text.
    pub fn text(&self) -> (r: &str)
        ensures
            r@ == self@,
    {
        self.text.as_str()
    }

    /// The palette the box is drawn with.
    pub fn colors(&self) -> (r: &Colors)
        ensures
            *r == self.spec_colors(),
    {
        &self.colors
    }

    /// Appends one character to the end of the query text.
    pub fn append(&mut self, c: char)
        ensures
            final(self)@ == old(self)@.push(c),
            final(self).spec_colors() == old(self).spec_colors(),
    {
        string_push(&mut self.text, c);
    }

    /// Removes the last character of the query text; leaves an empty text
    /// unchanged.
    pub fn delete_last(&mut self)
        ensures
            old(self)@.len() == 0 ==> final(self)@ == old(self)@,
            old(self)@.len() > 0 ==> final(self)@ == old(self)@.drop_last(),
            final(self).spec_colors() == old(self).spec_colors(),
    {
        let _ = string_pop(&mut self.text);
    }

    /// Clears the query text.
    pub fn delete_all(&mut self)
        ensures
            final(self)@ == Seq::<char>::empty(),
            final(self).spec_colors() == old(self).spec_colors(),
    {
        string_clear(&mut self.text);
    }

    /// What the query box shows: the query text, or the dimmed placeholder
    /// prompt when the text is empty. The flag says whether the text is the
    /// placeholder and is to be dimmed.
    pub fn display_text(&self) -> (r: (&str, bool))
        ensures
            self@.len() == 0 ==> r.0@ == "Use arrow keys or type to search"@ && r.1,
            self@.len() > 0 ==> r.0@ == self@ && !r.1,
    {
        if self.text.as_str().is_empty() {
            ("Use arrow keys or type to search", true)
        } else {
            (self.text.as_str(), false)
        }
    }
}

} // verus!
