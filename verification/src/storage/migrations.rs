//! The image history clean-up run by the database migration: one record per image, the
//! preferred one (pinned first, then newest). Reading the images and their hashes and
//! running the updates is the caller's part.
use vstd::prelude::*;
use crate::actions::registry::{text_le, text_le_exec};
use crate::text::chars_of;

verus! {

/// An image record of the clipboard history.
#[derive(Debug, Clone)]
pub struct ImageRow {
    pub id: i64,
    pub image_path: String,
    pub created_at: String,
    pub is_pinned: bool,
}

/// The mathematical value of an `ImageRow`.
pub struct ImageRowView {
    pub id: i64,
    pub image_path: Seq<char>,
    pub created_at: Seq<char>,
    pub is_pinned: bool,
}

impl View for ImageRow {
    type V = ImageRowView;

    open spec fn view(&self) -> ImageRowView {
        ImageRowView { id: self.id, image_path: self.image_path@, created_at: self.created_at@, is_pinned: self.is_pinned }
    }
}

impl ImageRow {
    /// A copy of this value.
    pub fn duplicate(&self) -> (r: ImageRow)
        ensures
            r@ == self@,
    {
        ImageRow { id: self.id, image_path: self.image_path.clone(), created_at: self.created_at.clone(), is_pinned: self.is_pinned }
    }
}

/// Whether `candidate` is kept over `existing`: a pinned record over an unpinned one, else
/// the one created later (timestamps compare as text).
pub open spec fn prefers(candidate: ImageRowView, existing: ImageRowView) -> bool {
    if candidate.is_pinned != existing.is_pinned {
        candidate.is_pinned
    } else {
        !text_le(candidate.created_at, existing.created_at)
    }
}

/// Whether `candidate` is kept over `existing`.
pub fn prefer_image_row(candidate: &ImageRow, existing: &ImageRow) -> (r: bool)
    ensures
        r == prefers(candidate@, existing@),
{
    if candidate.is_pinned != existing.is_pinned {
        return candidate.is_pinned;
    }
    let a = chars_of(candidate.created_at.as_str());
    let b = chars_of(existing.created_at.as_str());
    !text_le_exec(&a, &b)
}

/// The records kept per image hash, and the ids of those to delete.
pub struct Dedup {
    pub winners: Seq<(Seq<char>, ImageRowView)>,
    pub losers: Seq<i64>,
}

/// The position of the record kept for `hash`.
pub open spec fn winner_index(w: Seq<(Seq<char>, ImageRowView)>, hash: Seq<char>) -> Option<int>
    decreases w.len(),
{
    if w.len() == 0 {
        None
    } else if w.last().0 == hash {
        Some(w.len() - 1)
    } else {
        winner_index(w.drop_last(), hash)
    }
}

/// One record taken in: kept when its image is new, else either it or the record kept so
/// far (whichever is not preferred) is deleted.
pub open spec fn dedup_step(d: Dedup, hash: Seq<char>, row: ImageRowView) -> Dedup {
    match winner_index(d.winners, hash) {
        None => Dedup { winners: d.winners.push((hash, row)), losers: d.losers },
        Some(i) => if prefers(row, d.winners[i].1) {
            Dedup { winners: d.winners.update(i, (hash, row)), losers: d.losers.push(d.winners[i].1.id) }
        } else {
            Dedup { winners: d.winners, losers: d.losers.push(row.id) }
        },
    }
}

/// The records taken in order; a record whose image could not be hashed is skipped.
pub open spec fn dedup_all(rows: Seq<(ImageRowView, Option<Seq<char>>)>) -> Dedup
    decreases rows.len(),
{
    if rows.len() == 0 {
        Dedup { winners: Seq::empty(), losers: Seq::empty() }
    } else {
        let d = dedup_all(rows.drop_last());
        match rows.last().1 {
            Some(h) => dedup_step(d, h, rows.last().0),
            None => d,
        }
    }
}

/// The views of the input records.
pub open spec fn hashed_views(v: Seq<(ImageRow, Option<String>)>) -> Seq<(ImageRowView, Option<Seq<char>>)> {
    Seq::new(v.len(), |i: int| (v[i].0@, crate::text::opt_text(v[i].1)))
}

/// The views of kept records.
pub open spec fn winner_views(v: Seq<(String, ImageRow)>) -> Seq<(Seq<char>, ImageRowView)> {
    Seq::new(v.len(), |i: int| (v[i].0@, v[i].1@))
}

/// The position of the record kept for `hash`.
fn find_winner(w: &Vec<(String, ImageRow)>, hash: &String) -> (r: Option<usize>)
    ensures
        match r {
            Some(i) => i < w@.len() && winner_index(winner_views(w@), hash@) == Some(i as int),
            None => winner_index(winner_views(w@), hash@) is None,
        },
{
    let ghost all = winner_views(w@);
    let mut i: usize = w.len();
    assert(all.take(i as int) =~= all);
    while i > 0
        invariant
            i <= w@.len(),
            all == winner_views(w@),
            winner_index(all, hash@) == winner_index(all.take(i as int), hash@),
        decreases i,
    {
        assert(all.take(i as int).drop_last() =~= all.take(i as int - 1));
        if w[i - 1].0 == *hash {
            return Some(i - 1);
        }
        i = i - 1;
    }
    None
}

/// The records to keep, with their image hashes, and the ids of the duplicate records to
/// delete, for the image records with their hashes (none when the image could not be read).
pub fn deduplicate_images(rows: &Vec<(ImageRow, Option<String>)>) -> (r: (Vec<(String, ImageRow)>, Vec<i64>))
    ensures
        winner_views(r.0@) == dedup_all(hashed_views(rows@)).winners,
        r.1@ == dedup_all(hashed_views(rows@)).losers,
{
    let ghost all = hashed_views(rows@);
    let mut winners: Vec<(String, ImageRow)> = Vec::new();
    let mut losers: Vec<i64> = Vec::new();
    let n = rows.len();
    let mut k: usize = 0;
    assert(all.take(0) =~= Seq::<(ImageRowView, Option<Seq<char>>)>::empty());
    assert(winner_views(winners@) =~= Seq::<(Seq<char>, ImageRowView)>::empty());
    while k < n
        invariant
            n == rows@.len(),
            all == hashed_views(rows@),
            k <= n,
            winner_views(winners@) == dedup_all(all.take(k as int)).winners,
            losers@ == dedup_all(all.take(k as int)).losers,
        decreases n - k,
    {
        assert(all.take(k as int + 1).drop_last() =~= all.take(k as int));
        assert(all.take(k as int + 1).last() == all[k as int]);
        let row = &rows[k].0;
        match &rows[k].1 {
            None => {},
            Some(hash) => {
                let ghost wv = winner_views(winners@);
                match find_winner(&winners, hash) {
                    None => {
                        winners.push((hash.clone(), row.duplicate()));
                        assert(winner_views(winners@) =~= wv.push((hash@, row@)));
                    },
                    Some(i) => {
                        if prefer_image_row(row, &winners[i].1) {
                            losers.push(winners[i].1.id);
                            winners.set(i, (hash.clone(), row.duplicate()));
                            assert(winner_views(winners@) =~= wv.update(i as int, (hash@, row@)));
                        } else {
                            losers.push(row.id);
                        }
                    },
                }
            },
        }
        k = k + 1;
    }
    assert(all.take(n as int) =~= all);
    (winners, losers)
}

/// Each image keeps at most one record: taking in a record never leaves two kept records
/// for one hash.
pub open spec fn hashes_distinct(w: Seq<(Seq<char>, ImageRowView)>) -> bool {
    forall|i: int, j: int| 0 <= i < w.len() && 0 <= j < w.len() && i != j ==> #[trigger] w[i].0 != #[trigger] w[j].0
}

/// The position found for a hash holds that hash, and no position holds it when none is
/// found.
pub proof fn lemma_winner_index(w: Seq<(Seq<char>, ImageRowView)>, hash: Seq<char>)
    ensures
        match winner_index(w, hash) {
            Some(i) => 0 <= i < w.len() && w[i].0 == hash,
            None => forall|j: int| 0 <= j < w.len() ==> #[trigger] w[j].0 != hash,
        },
    decreases w.len(),
{
    if w.len() > 0 {
        lemma_winner_index(w.drop_last(), hash);
        if w.last().0 != hash {
            match winner_index(w.drop_last(), hash) {
                Some(i) => {},
                None => {
                    assert forall|j: int| 0 <= j < w.len() implies #[trigger] w[j].0 != hash by {
                        if j < w.len() - 1 {
                            assert(w.drop_last()[j] == w[j]);
                        }
                    }
                },
            }
        }
    }
}

/// The clean-up keeps at most one record per image hash.
pub proof fn law_one_record_per_image(rows: Seq<(ImageRowView, Option<Seq<char>>)>)
    ensures
        hashes_distinct(dedup_all(rows).winners),
    decreases rows.len(),
{
    if rows.len() > 0 {
        law_one_record_per_image(rows.drop_last());
        let d = dedup_all(rows.drop_last());
        match rows.last().1 {
            Some(h) => {
                lemma_winner_index(d.winners, h);
                let d2 = dedup_step(d, h, rows.last().0);
                assert forall|i: int, j: int| 0 <= i < d2.winners.len() && 0 <= j < d2.winners.len() && i != j
                    implies #[trigger] d2.winners[i].0 != #[trigger] d2.winners[j].0 by {
                    match winner_index(d.winners, h) {
                        None => {
                            if i < d.winners.len() && j < d.winners.len() {
                            } else if i < d.winners.len() {
                                assert(d.winners[i].0 != h);
                            } else {
                                assert(d.winners[j].0 != h);
                            }
                        },
                        Some(k) => {
                            if prefers(rows.last().0, d.winners[k].1) {
                                assert(d2.winners[i].0 == d.winners[i].0);
                                assert(d2.winners[j].0 == d.winners[j].0);
                            }
                        },
                    }
                }
            },
            None => {},
        }
    }
}

} // verus!
