//! The offline maintenance merge: combining the current emoji database with
//! a freshly fetched upstream one, upstream taking priority, custom entries
//! preserved. Fetching and rewriting the database file happen outside the
//! library.

use vstd::prelude::*;

verus! {

/// One database entry as the maintenance merge sees it, all fields plain.
pub struct Emoji {
    pub emoji: String,
    pub entity: String,
    pub code: String,
    pub description: String,
    pub name: String,
    pub semver: Option<String>,
}

impl Clone for Emoji {
    /// A clone is equal to the original, field for field.
    fn clone(&self) -> (r: Self)
        ensures
            r == *self,
    {
        Emoji {
            emoji: self.emoji.clone(),
            entity: self.entity.clone(),
            code: self.code.clone(),
            description: self.description.clone(),
            name: self.name.clone(),
            semver: match &self.semver {
                Option::Some(s) => Option::Some(s.clone()),
                Option::None => Option::None,
            },
        }
    }
}

/// A database: its schema marker and its entries, in file order.
pub struct EmojiDatabase {
    pub schema: String,
    pub gitmojis: Vec<Emoji>,
}

/// What one merge did: entry counts and the lists behind them.
pub struct MergeStats {
    /// How many entries the merged database holds.
    pub total: usize,
    /// How many entries came from upstream.
    pub upstream: usize,
    /// How many custom entries were preserved.
    pub custom: usize,
    /// The preserved custom entries, in current-database order.
    pub custom_emojis: Vec<Emoji>,
    /// How many upstream entries were not in the current database.
    pub new_upstream: usize,
    /// Those new upstream entries, in upstream order.
    pub new_upstream_emojis: Vec<Emoji>,
}

/// Some entry of `list` carries the short code `code`.
pub open spec fn has_code(list: Seq<Emoji>, code: Seq<char>) -> bool {
    exists|i: int| 0 <= i < list.len() && #[trigger] list[i].code@ == code
}

/// The entries of `list` whose code does not occur in `other`, in `list`
/// order.
pub open spec fn missing_from(list: Seq<Emoji>, other: Seq<Emoji>) -> Seq<Emoji> {
    list.filter(|e: Emoji| !has_code(other, e.code@))
}

/// One filtering step of [`missing_from`] at the end of the list.
proof fn lemma_missing_from_push(s: Seq<Emoji>, x: Emoji, other: Seq<Emoji>)
    ensures
        missing_from(s.push(x), other) == (if !has_code(other, x.code@) {
            missing_from(s, other).push(x)
        } else {
            missing_from(s, other)
        }),
{
    reveal(Seq::filter);
    assert(s.push(x).drop_last() =~= s);
    assert(s.push(x).last() == x);
}

/// Whether some entry of `list` carries the code `code`.
fn contains_code(list: &Vec<Emoji>, code: &String) -> (r: bool)
    ensures
        r == has_code(list@, code@),
{
    let n = list.len();
    let mut i: usize = 0;
    while i < n
        invariant
            i <= n,
            n == list@.len(),
            forall|k: int| 0 <= k < i ==> #[trigger] list@[k].code@ != code@,
        decreases n - i,
    {
        if list[i].code == *code {
            return true;
        }
        i += 1;
    }
    false
}

/// The entries of `list` whose code does not occur in `other`, as owned
/// clones, in `list` order.
fn collect_missing(list: &Vec<Emoji>, other: &Vec<Emoji>) -> (r: Vec<Emoji>)
    ensures
        r@ == missing_from(list@, other@),
{
    let mut out: Vec<Emoji> = Vec::new();
    let n = list.len();
    let mut i: usize = 0;
    while i < n
        invariant
            i <= n,
            n == list@.len(),
            out@ == missing_from(list@.subrange(0, i as int), other@),
        decreases n - i,
    {
        let e = &list[i];
        proof {
            lemma_missing_from_push(list@.subrange(0, i as int), list@[i as int], other@);
            assert(list@.subrange(0, i + 1) =~= list@.subrange(0, i as int).push(list@[i as int]));
        }
        if !contains_code(other, &e.code) {
            out.push(e.clone());
        }
        i += 1;
    }
    proof {
        assert(list@.subrange(0, n as int) =~= list@);
    }
    out
}

/// Merges the current database with the upstream one. Upstream entries come
/// first and take priority; current entries whose code upstream does not
/// know — the custom ones — are appended in their current order. The stats
/// report the counts, the preserved custom entries, and the upstream entries
/// the current database did not know.
pub fn merge_databases(current: EmojiDatabase, upstream: EmojiDatabase) -> (r: (
    EmojiDatabase,
    MergeStats,
))
    ensures
        r.0.schema@ == current.schema@,
        r.0.gitmojis@ == upstream.gitmojis@ + missing_from(current.gitmojis@, upstream.gitmojis@),
        r.1.custom_emojis@ == missing_from(current.gitmojis@, upstream.gitmojis@),
        r.1.new_upstream_emojis@ == missing_from(upstream.gitmojis@, current.gitmojis@),
        r.1.total == r.0.gitmojis@.len(),
        r.1.upstream == upstream.gitmojis@.len(),
        r.1.custom == r.1.custom_emojis@.len(),
        r.1.new_upstream == r.1.new_upstream_emojis@.len(),
{
    let new_upstream_emojis = collect_missing(&upstream.gitmojis, &current.gitmojis);
    let custom_emojis = collect_missing(&current.gitmojis, &upstream.gitmojis);
    let upstream_count = upstream.gitmojis.len();

    let mut merged_emojis = upstream.gitmojis;
    let n = custom_emojis.len();
    let mut i: usize = 0;
    while i < n
        invariant
            i <= n,
            n == custom_emojis@.len(),
            merged_emojis@ == upstream.gitmojis@ + custom_emojis@.subrange(0, i as int),
        decreases n - i,
    {
        merged_emojis.push(custom_emojis[i].clone());
        proof {
            assert(custom_emojis@.subrange(0, i + 1) =~= custom_emojis@.subrange(
                0,
                i as int,
            ).push(custom_emojis@[i as int]));
        }
        i += 1;
    }
    proof {
        assert(custom_emojis@.subrange(0, n as int) =~= custom_emojis@);
    }

    let stats = MergeStats {
        total: merged_emojis.len(),
        upstream: upstream_count,
        custom: custom_emojis.len(),
        custom_emojis,
        new_upstream: new_upstream_emojis.len(),
        new_upstream_emojis,
    };
    let merged = EmojiDatabase { schema: current.schema, gitmojis: merged_emojis };
    (merged, stats)
}

} // verus!
