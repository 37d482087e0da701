//! The records of the picker's dataset: an emoji with its short code,
//! description, glyph, legacy entity and name. Records are immutable once
//! built; the engine never changes a field.

use crate::pattern::pattern_of;
use crate::pattern::regex_accepts;
use crate::pattern::regex_is_match;
use vstd::prelude::*;

verus! {

/// A record matches a pattern when the case-insensitive regular expression
/// matches at least one of its five fields.
pub open spec fn emoji_matches(pattern: Seq<char>, e: EmojiView) -> bool {
    ||| regex_accepts(pattern, e.code)
    ||| regex_accepts(pattern, e.description)
    ||| regex_accepts(pattern, e.emoji)
    ||| regex_accepts(pattern, e.entity)
    ||| regex_accepts(pattern, e.name)
}

/// The abstract value of an [`Emoji`]: its five fields as character
/// sequences.
pub ghost struct EmojiView {
    pub code: Seq<char>,
    pub description: Seq<char>,
    pub emoji: Seq<char>,
    pub entity: Seq<char>,
    pub name: Seq<char>,
}

/// One selectable record: a short code (":art:"), a free-text description,
/// the glyph to emit, an alternate entity form, and a short name.
pub struct Emoji {
    code: String,
    description: String,
    emoji: String,
    entity: String,
    name: String,
}

impl View for Emoji {
    type V = EmojiView;

    closed spec fn view(&self) -> EmojiView {
        EmojiView {
            code: self.code@,
            description: self.description@,
            emoji: self.emoji@,
            entity: self.entity@,
            name: self.name@,
        }
    }
}

impl Emoji {
    /// Builds a record from its five fields.
    pub fn new(
        code: String,
        description: String,
        emoji: String,
        entity: String,
        name: String,
    ) -> (e: Self)
        ensures
            e@.code == code@,
            e@.description == description@,
            e@.emoji == emoji@,
            e@.entity == entity@,
            e@.name == name@,
    {
        Emoji { code, description, emoji, entity, name }
    }

    /// The record's short code, such as ":art:".
    pub fn code(&self) -> (r: &str)
        ensures
            r@ == self@.code,
    {
        self.code.as_str()
    }

    /// The record's free-text description.
    pub fn description(&self) -> (r: &str)
        ensures
            r@ == self@.description,
    {
        self.description.as_str()
    }

    /// The glyph this record emits when selected.
    pub fn emoji(&self) -> (r: &str)
        ensures
            r@ == self@.emoji,
    {
        self.emoji.as_str()
    }

    /// Whether the pattern matches any of the record's five fields.
    pub fn contains(&self, pattern: &regex::Regex) -> (r: bool)
        ensures
            r == emoji_matches(pattern_of(*pattern), self@),
    {
        regex_is_match(pattern, self.code.as_str())
            || regex_is_match(pattern, self.description.as_str())
            || regex_is_match(pattern, self.emoji.as_str())
            || regex_is_match(pattern, self.entity.as_str())
            || regex_is_match(pattern, self.name.as_str())
    }
}

impl Clone for Emoji {
    /// A clone is equal to the original, field for field.
    fn clone(&self) -> (r: Self)
        ensures
            r == *self,
    {
        Emoji {
            code: self.code.clone(),
            description: self.description.clone(),
            emoji: self.emoji.clone(),
            entity: self.entity.clone(),
            name: self.name.clone(),
        }
    }
}

} // verus!
