//! The filter/selection engine: it owns the dataset and the selection
//! cursor, derives the filtered view for a query, and moves the cursor
//! within that view with wrap-around. Filtering preserves dataset order; the
//! cursor resets to the top whenever the view shrinks below it.

use crate::colors::Colors;
use crate::emoji::emoji_matches;
use crate::emoji::Emoji;
use crate::pattern::compile_ci;
use crate::pattern::regex_valid;
use vstd::prelude::*;

verus! {

/// A record matches the query: the empty query matches every record; a
/// non-empty query matches through its case-insensitive pattern when the
/// pattern compiles, and matches nothing when it does not.
pub open spec fn matches_query(q: Seq<char>, e: Emoji) -> bool {
    ||| q.len() == 0
    ||| (regex_valid(q) && emoji_matches(q, e@))
}

/// The subsequence of `ds` whose records match `q`, in dataset order.
pub open spec fn filtered_of(ds: Seq<Emoji>, q: Seq<char>) -> Seq<Emoji> {
    ds.filter(|e: Emoji| matches_query(q, e))
}

/// One filtering step: extending the dataset by one record extends the
/// filtered subsequence exactly when that record matches.
proof fn lemma_filtered_of_push(s: Seq<Emoji>, x: Emoji, q: Seq<char>)
    ensures
        filtered_of(s.push(x), q) == (if matches_query(q, x) {
            filtered_of(s, q).push(x)
        } else {
            filtered_of(s, q)
        }),
{
    reveal(Seq::filter);
    assert(s.push(x).drop_last() =~= s);
    assert(s.push(x).last() == x);
}

/// Law: the filtered view holds only matching records, holds every matching
/// record of the dataset, and never grows beyond it. Together with its
/// definition as a stable filter, it is exactly the matching subsequence of
/// the dataset, in dataset order.
pub proof fn lemma_filter_correct(ds: Seq<Emoji>, q: Seq<char>)
    ensures
        forall|i: int|
            0 <= i < filtered_of(ds, q).len() ==> matches_query(
                q,
                #[trigger] filtered_of(ds, q)[i],
            ),
        forall|i: int|
            0 <= i < ds.len() && matches_query(q, ds[i]) ==> filtered_of(ds, q).contains(ds[i]),
        filtered_of(ds, q).len() <= ds.len(),
{
    broadcast use vstd::seq_lib::group_filter_ensures;

}

/// Law: the empty query is the identity filter. Filtering with it returns
/// the dataset unchanged, same records, same order, same length.
pub proof fn lemma_empty_query_identity(ds: Seq<Emoji>, q: Seq<char>)
    requires
        q.len() == 0,
    ensures
        filtered_of(ds, q) == ds,
    decreases ds.len(),
{
    reveal(Seq::filter);
    if ds.len() == 0 {
        assert(filtered_of(ds, q) =~= ds);
    } else {
        lemma_empty_query_identity(ds.drop_last(), q);
        assert(filtered_of(ds, q) =~= ds);
    }
}

/// The engine: the full dataset, the selection cursor carried from frame to
/// frame, and the palette the list is drawn with.
pub struct SelectionView {
    emojis: Vec<Emoji>,
    selected: usize,
    colors: Colors,
}

/// One filtered view: the matching records in dataset order and the cursor
/// into them, produced fresh for each frame.
pub struct FilteredView {
    emojis: Vec<Emoji>,
    cursor: usize,
    colors: Colors,
}

impl View for FilteredView {
    type V = Seq<Emoji>;

    closed spec fn view(&self) -> Seq<Emoji> {
        self.emojis@
    }
}

impl FilteredView {
    /// The cursor's position within the view.
    pub closed spec fn spec_cursor(&self) -> int {
        self.cursor as int
    }

    /// The palette the list is drawn with.
    pub closed spec fn spec_colors(&self) -> Colors {
        self.colors
    }

    /// The cursor lies inside a non-empty view and is pinned to zero on an
    /// empty one.
    pub open spec fn cursor_in_bounds(&self) -> bool {
        if self@.len() > 0 {
            0 <= self.spec_cursor() < self@.len()
        } else {
            self.spec_cursor() == 0
        }
    }

    #[verifier::type_invariant]
    spec fn type_inv(&self) -> bool {
        self.cursor_in_bounds()
    }

    /// How many records the view holds.
    pub fn len(&self) -> (r: usize)
        ensures
            r == self@.len(),
    {
        self.emojis.len()
    }

    /// The record at a position of the view.
    pub fn get(&self, i: usize) -> (r: &Emoji)
        requires
            i < self@.len(),
        ensures
            *r == self@[i as int],
    {
        &self.emojis[i]
    }

    /// The cursor's position.
    pub fn cursor(&self) -> (r: usize)
        ensures
            r == self.spec_cursor(),
            self.cursor_in_bounds(),
    {
        proof {
            use_type_invariant(self);
        }
        self.cursor
    }

    /// The palette the list is drawn with.
    pub fn colors(&self) -> (r: &Colors)
        ensures
            *r == self.spec_colors(),
    {
        &self.colors
    }

    /// The record under the cursor, or none when the view is empty.
    pub fn selected(&self) -> (r: Option<&Emoji>)
        ensures
            self@.len() == 0 ==> r is None,
            self@.len() > 0 ==> (r matches Some(e) && *e == self@[self.spec_cursor()]),
    {
        proof {
            use_type_invariant(self);
        }
        if self.emojis.len() == 0 {
            Option::None
        } else {
            Option::Some(&self.emojis[self.cursor])
        }
    }

    /// Moves the cursor one row up, wrapping from the first row to the last;
    /// does nothing on an empty view.
    pub fn move_up(&mut self)
        ensures
            final(self)@ == old(self)@,
            final(self).spec_colors() == old(self).spec_colors(),
            old(self)@.len() == 0 ==> final(self).spec_cursor() == old(self).spec_cursor(),
            old(self)@.len() > 0 ==> final(self).spec_cursor() == (if old(self).spec_cursor() == 0 {
                old(self)@.len() - 1
            } else {
                old(self).spec_cursor() - 1
            }),
            final(self).cursor_in_bounds(),
    {
        proof {
            use_type_invariant(&*self);
        }
        if self.emojis.len() > 0 {
            if self.cursor == 0 {
                self.cursor = self.emojis.len() - 1;
            } else {
                self.cursor = self.cursor - 1;
            }
        }
    }

    /// Moves the cursor one row down, wrapping from the last row to the
    /// first; does nothing on an empty view.
    pub fn move_down(&mut self)
        ensures
            final(self)@ == old(self)@,
            final(self).spec_colors() == old(self).spec_colors(),
            old(self)@.len() == 0 ==> final(self).spec_cursor() == old(self).spec_cursor(),
            old(self)@.len() > 0 ==> final(self).spec_cursor() == (old(self).spec_cursor() + 1) % (
            old(self)@.len() as int),
            final(self).cursor_in_bounds(),
    {
        proof {
            use_type_invariant(&*self);
        }
        if self.emojis.len() > 0 {
            if self.cursor == self.emojis.len() - 1 {
                proof {
                    vstd::arithmetic::div_mod::lemma_mod_self_0(self.emojis@.len() as int);
                }
                self.cursor = 0;
            } else {
                proof {
                    vstd::arithmetic::div_mod::lemma_small_mod(
                        (self.cursor + 1) as nat,
                        self.emojis@.len() as nat,
                    );
                }
                self.cursor = self.cursor + 1;
            }
        }
    }
}

impl SelectionView {
    /// The dataset the engine filters.
    pub closed spec fn dataset(&self) -> Seq<Emoji> {
        self.emojis@
    }

    /// The cursor carried from frame to frame.
    pub closed spec fn spec_cursor(&self) -> int {
        self.selected as int
    }

    /// The palette the list is drawn with.
    pub closed spec fn spec_colors(&self) -> Colors {
        self.colors
    }

    /// An engine over a dataset, with the cursor at the top.
    pub fn new(emojis: Vec<Emoji>, colors: &Colors) -> (s: Self)
        ensures
            s.dataset() == emojis@,
            s.spec_cursor() == 0,
            s.spec_colors() == *colors,
    {
        SelectionView { emojis, selected: 0, colors: *colors }
    }

    /// Stores a cursor position moved within this frame's filtered view, so
    /// that the next recomputation starts from it.
    pub fn set_cursor(&mut self, cursor: usize)
        ensures
            final(self).dataset() == old(self).dataset(),
            final(self).spec_colors() == old(self).spec_colors(),
            final(self).spec_cursor() == cursor,
    {
        self.selected = cursor;
    }

    /// Recomputes the filtered view for the query: exactly the records
    /// matching the query, in dataset order. If the carried cursor falls
    /// outside the new view it resets to the top; the view and the engine
    /// then agree on the cursor.
    pub fn filtered_view(&mut self, search_text: &str) -> (fv: FilteredView)
        ensures
            fv@ == filtered_of(old(self).dataset(), search_text@),
            final(self).dataset() == old(self).dataset(),
            final(self).spec_colors() == old(self).spec_colors(),
            fv.spec_colors() == old(self).spec_colors(),
            fv.spec_cursor() == (if old(self).spec_cursor() < fv@.len() {
                old(self).spec_cursor()
            } else {
                0
            }),
            final(self).spec_cursor() == fv.spec_cursor(),
            fv.cursor_in_bounds(),
    {
        let ghost q = search_text@;
        let query_empty = search_text.is_empty();
        let pattern = if query_empty {
            Option::None
        } else {
            compile_ci(search_text)
        };
        let mut out: Vec<Emoji> = Vec::new();
        let n = self.emojis.len();
        let mut i: usize = 0;
        while i < n
            invariant
                n == self.emojis@.len(),
                i <= n,
                out@ == filtered_of(self.emojis@.subrange(0, i as int), q),
                query_empty == (q.len() == 0),
                pattern is Some ==> regex_valid(q) && crate::pattern::pattern_of(pattern->0) == q,
                !query_empty && pattern is None ==> !regex_valid(q),
            decreases n - i,
        {
            let e = &self.emojis[i];
            let matched = if query_empty {
                true
            } else if let Option::Some(re) = &pattern {
                e.contains(re)
            } else {
                false
            };
            proof {
                lemma_filtered_of_push(self.emojis@.subrange(0, i as int), self.emojis@[i as int], q);
                assert(self.emojis@.subrange(0, i + 1) =~= self.emojis@.subrange(
                    0,
                    i as int,
                ).push(self.emojis@[i as int]));
            }
            if matched {
                out.push(e.clone());
            }
            i += 1;
        }
        proof {
            assert(self.emojis@.subrange(0, n as int) =~= self.emojis@);
        }
        if self.selected >= out.len() {
            self.selected = 0;
        }
        FilteredView { emojis: out, cursor: self.selected, colors: self.colors }
    }
}

} // verus!
