//! The order of texts by their code points, and lists put in order by
//! insertion, each row after the rows that do not come after it.

use crate::records::{clone_mod, clone_webhook, Mod, Webhook};
use crate::tables::pairwise;
use crate::text::{same_text, to_chars};
use vstd::prelude::*;

verus! {

/// From position `from` on, `a` does not come after `b`: at the first
/// position where they differ `a` holds the smaller code point, or `a` ends
/// before they differ.
pub open spec fn text_le_from(a: Seq<char>, b: Seq<char>, from: int) -> bool
    decreases a.len() - from,
{
    if from < 0 || from >= a.len() {
        true
    } else if from >= b.len() {
        false
    } else if (a[from] as u32) < (b[from] as u32) {
        true
    } else if (a[from] as u32) > (b[from] as u32) {
        false
    } else {
        text_le_from(a, b, from + 1)
    }
}

/// `a` does not come after `b` in the order of texts by code points.
pub open spec fn text_le(a: Seq<char>, b: Seq<char>) -> bool {
    text_le_from(a, b, 0)
}

/// Whether `a` does not come after `b` in the order of texts.
pub fn text_not_after(a: &str, b: &str) -> (le: bool)
    ensures
        le == text_le(a@, b@),
{
    let x = to_chars(a);
    let y = to_chars(b);
    let mut i: usize = 0;
    while i < x.len()
        invariant
            i <= x.len(),
            x@ == a@,
            y@ == b@,
            text_le(a@, b@) == text_le_from(a@, b@, i as int),
        decreases x.len() - i,
    {
        if i >= y.len() {
            return false;
        }
        let p: u32 = x[i] as u32;
        let q: u32 = y[i] as u32;
        if p < q {
            return true;
        }
        if p > q {
            return false;
        }
        i += 1;
    }
    true
}

/// Of two texts, one does not come after the other.
pub proof fn lemma_text_le_total(a: Seq<char>, b: Seq<char>, from: int)
    requires
        0 <= from,
    ensures
        text_le_from(a, b, from) || text_le_from(b, a, from),
    decreases a.len() - from,
{
    if from < a.len() && from < b.len() && a[from] as u32 == b[from] as u32 {
        lemma_text_le_total(a, b, from + 1);
    }
}

/// The order of texts is transitive.
pub proof fn lemma_text_le_transitive(a: Seq<char>, b: Seq<char>, c: Seq<char>, from: int)
    requires
        0 <= from,
        text_le_from(a, b, from),
        text_le_from(b, c, from),
    ensures
        text_le_from(a, c, from),
    decreases a.len() - from,
{
    if from < a.len() && a[from] as u32 == b[from] as u32 && b[from] as u32 == c[from] as u32 {
        lemma_text_le_transitive(a, b, c, from + 1);
    }
}

/// The first position at or after `from` whose row comes after the given
/// row, or the length of the list.
pub open spec fn place_after<T>(sorted: Seq<T>, row: T, le: spec_fn(T, T) -> bool, from: int) -> int
    decreases sorted.len() - from,
{
    if from < 0 || from >= sorted.len() {
        sorted.len() as int
    } else if !le(sorted[from], row) {
        from
    } else {
        place_after(sorted, row, le, from + 1)
    }
}

/// The rows put in order: one after the other, each is placed after the
/// rows that do not come after it.
pub open spec fn ordered<T>(rows: Seq<T>, le: spec_fn(T, T) -> bool) -> Seq<T>
    decreases rows.len(),
{
    if rows.len() == 0 {
        rows
    } else {
        let sorted = ordered(rows.drop_last(), le);
        sorted.insert(place_after(sorted, rows.last(), le, 0), rows.last())
    }
}

/// Of two rows, one does not come after the other.
pub open spec fn total<T>(le: spec_fn(T, T) -> bool) -> bool {
    forall|a: T, b: T| #[trigger] le(a, b) || le(b, a)
}

/// A row that does not come after a second, which does not come after a
/// third, does not come after the third.
pub open spec fn transitive<T>(le: spec_fn(T, T) -> bool) -> bool {
    forall|a: T, b: T, c: T| #[trigger] le(a, b) && #[trigger] le(b, c) ==> le(a, c)
}

proof fn lemma_place_after<T>(sorted: Seq<T>, row: T, le: spec_fn(T, T) -> bool, from: int)
    requires
        0 <= from <= sorted.len(),
    ensures
        from <= place_after(sorted, row, le, from) <= sorted.len(),
        forall|i: int|
            from <= i < place_after(sorted, row, le, from) ==> le(#[trigger] sorted[i], row),
        place_after(sorted, row, le, from) < sorted.len() ==> !le(
            sorted[place_after(sorted, row, le, from)],
            row,
        ),
    decreases sorted.len() - from,
{
    if from < sorted.len() && le(sorted[from], row) {
        lemma_place_after(sorted, row, le, from + 1);
    }
}

/// Rows put in order are as many as before.
pub proof fn lemma_ordered_len<T>(rows: Seq<T>, le: spec_fn(T, T) -> bool)
    ensures
        ordered(rows, le).len() == rows.len(),
    decreases rows.len(),
{
    if rows.len() > 0 {
        lemma_ordered_len(rows.drop_last(), le);
        lemma_place_after(ordered(rows.drop_last(), le), rows.last(), le, 0);
    }
}

/// Rows put in order stand in order, where the order is total and
/// transitive.
pub proof fn lemma_ordered_is_in_order<T>(rows: Seq<T>, le: spec_fn(T, T) -> bool)
    requires
        total(le),
        transitive(le),
    ensures
        pairwise(ordered(rows, le), le),
    decreases rows.len(),
{
    if rows.len() > 0 {
        let row = rows.last();
        let sorted = ordered(rows.drop_last(), le);
        lemma_ordered_is_in_order(rows.drop_last(), le);
        lemma_ordered_len(rows.drop_last(), le);
        lemma_place_after(sorted, row, le, 0);
        let k = place_after(sorted, row, le, 0);
        let after = sorted.insert(k, row);
        assert forall|i: int, j: int| 0 <= i < j < after.len() implies le(
            #[trigger] after[i],
            #[trigger] after[j],
        ) by {
            if j < k {
                assert(after[i] == sorted[i] && after[j] == sorted[j]);
            } else if j == k {
                assert(after[i] == sorted[i]);
            } else if i < k {
                assert(after[i] == sorted[i] && after[j] == sorted[j - 1]);
            } else if i == k {
                assert(after[j] == sorted[j - 1]);
                assert(!le(sorted[k], row));
                assert(le(sorted[k], row) || le(row, sorted[k]));
                if k < j - 1 {
                    assert(le(sorted[k], sorted[j - 1]));
                    assert(le(row, sorted[k]) && le(sorted[k], sorted[j - 1]));
                }
            } else {
                assert(after[i] == sorted[i - 1] && after[j] == sorted[j - 1]);
            }
        }
    }
}

/// Rows put in order are the same rows: each stands in the list as often as
/// before.
pub proof fn lemma_ordered_keeps_rows<T>(rows: Seq<T>, le: spec_fn(T, T) -> bool)
    ensures
        ordered(rows, le).to_multiset() == rows.to_multiset(),
    decreases rows.len(),
{
    broadcast use vstd::seq_lib::group_to_multiset_ensures;

    if rows.len() > 0 {
        let row = rows.last();
        let front = rows.drop_last();
        let sorted = ordered(front, le);
        lemma_ordered_keeps_rows(front, le);
        lemma_ordered_len(front, le);
        lemma_place_after(sorted, row, le, 0);
        let k = place_after(sorted, row, le, 0);
        sorted.to_multiset_ensures();
        assert(sorted.insert(k, row).to_multiset() =~= sorted.to_multiset().insert(row));
        assert(front.push(row) =~= rows);
        assert(rows.to_multiset() =~= front.to_multiset().insert(row));
    }
}

/// Characters with the same code point are the same.
proof fn lemma_same_code_point(c: char, d: char)
    requires
        c as u32 == d as u32,
    ensures
        c == d,
{
    assert(c as int == d as int);
}

/// Two texts of which neither comes after the other are the same from the
/// position on.
pub proof fn lemma_text_le_antisymmetric(a: Seq<char>, b: Seq<char>, from: int)
    requires
        0 <= from <= a.len(),
        from <= b.len(),
        text_le_from(a, b, from),
        text_le_from(b, a, from),
    ensures
        a.skip(from) == b.skip(from),
    decreases a.len() - from,
{
    if from < a.len() {
        lemma_text_le_antisymmetric(a, b, from + 1);
        lemma_same_code_point(a[from], b[from]);
        assert(a.skip(from) =~= seq![a[from]] + a.skip(from + 1));
        assert(b.skip(from) =~= seq![b[from]] + b.skip(from + 1));
    } else {
        assert(a.skip(from) =~= b.skip(from));
    }
}

/// Webhooks in the order of their names.
pub open spec fn webhook_order() -> spec_fn(Webhook, Webhook) -> bool {
    |a: Webhook, b: Webhook| text_le(a.name@, b.name@)
}

/// Mods in the order of their games' names, and of their own names within a
/// game.
pub open spec fn mod_order() -> spec_fn(Mod, Mod) -> bool {
    |a: Mod, b: Mod|
        if a.game_name@ == b.game_name@ {
            text_le(a.name@, b.name@)
        } else {
            text_le(a.game_name@, b.game_name@)
        }
}

/// The order of webhooks and the order of mods are total and transitive.
pub proof fn lemma_orders()
    ensures
        total(webhook_order()),
        transitive(webhook_order()),
        total(mod_order()),
        transitive(mod_order()),
{
    assert forall|a: Webhook, b: Webhook| #[trigger]
        webhook_order()(a, b) || webhook_order()(b, a) by {
        lemma_text_le_total(a.name@, b.name@, 0);
    }
    assert forall|a: Webhook, b: Webhook, c: Webhook| #[trigger]
        webhook_order()(a, b) && #[trigger] webhook_order()(b, c) implies webhook_order()(a, c) by {
        lemma_text_le_transitive(a.name@, b.name@, c.name@, 0);
    }
    assert forall|a: Mod, b: Mod| #[trigger] mod_order()(a, b) || mod_order()(b, a) by {
        lemma_text_le_total(a.name@, b.name@, 0);
        lemma_text_le_total(a.game_name@, b.game_name@, 0);
    }
    assert forall|a: Mod, b: Mod, c: Mod| #[trigger]
        mod_order()(a, b) && #[trigger] mod_order()(b, c) implies mod_order()(a, c) by {
        let (x, y, z) = (a.game_name@, b.game_name@, c.game_name@);
        assert(text_le(x, y)) by {
            if x == y {
                lemma_text_le_total(x, y, 0);
            }
        }
        assert(text_le(y, z)) by {
            if y == z {
                lemma_text_le_total(y, z, 0);
            }
        }
        lemma_text_le_transitive(x, y, z, 0);
        if x == z {
            lemma_text_le_antisymmetric(x, y, 0);
            assert(x.skip(0) =~= x && y.skip(0) =~= y);
            lemma_text_le_transitive(a.name@, b.name@, c.name@, 0);
        }
    }
}

/// Whether a webhook does not come after another in the order of names.
pub fn webhook_not_after(a: &Webhook, b: &Webhook) -> (le: bool)
    ensures
        le == webhook_order()(*a, *b),
{
    text_not_after(a.name.as_str(), b.name.as_str())
}

/// Whether a mod does not come after another in the order of games and
/// names.
pub fn mod_not_after(a: &Mod, b: &Mod) -> (le: bool)
    ensures
        le == mod_order()(*a, *b),
{
    if same_text(a.game_name.as_str(), b.game_name.as_str()) {
        text_not_after(a.name.as_str(), b.name.as_str())
    } else {
        text_not_after(a.game_name.as_str(), b.game_name.as_str())
    }
}

/// The webhooks in the order of their names.
pub fn webhooks_by_name(rows: &Vec<Webhook>) -> (out: Vec<Webhook>)
    ensures
        out@ == ordered(rows@, webhook_order()),
{
    let mut out: Vec<Webhook> = Vec::new();
    let mut i: usize = 0;
    while i < rows.len()
        invariant
            i <= rows.len(),
            out@ == ordered(rows@.take(i as int), webhook_order()),
        decreases rows.len() - i,
    {
        let row = clone_webhook(&rows[i]);
        let mut place: usize = 0;
        while place < out.len() && webhook_not_after(&out[place], &row)
            invariant
                place <= out.len(),
                place_after(out@, row, webhook_order(), 0) == place_after(
                    out@,
                    row,
                    webhook_order(),
                    place as int,
                ),
            decreases out.len() - place,
        {
            place += 1;
        }
        assert(rows@.take(i + 1).drop_last() =~= rows@.take(i as int));
        out.insert(place, row);
        i += 1;
    }
    assert(rows@.take(rows@.len() as int) =~= rows@);
    out
}

/// The mods in the order of their games' names and their own names.
pub fn mods_by_name(rows: &Vec<Mod>) -> (out: Vec<Mod>)
    ensures
        out@ == ordered(rows@, mod_order()),
{
    let mut out: Vec<Mod> = Vec::new();
    let mut i: usize = 0;
    while i < rows.len()
        invariant
            i <= rows.len(),
            out@ == ordered(rows@.take(i as int), mod_order()),
        decreases rows.len() - i,
    {
        let row = clone_mod(&rows[i]);
        let mut place: usize = 0;
        while place < out.len() && mod_not_after(&out[place], &row)
            invariant
                place <= out.len(),
                place_after(out@, row, mod_order(), 0) == place_after(
                    out@,
                    row,
                    mod_order(),
                    place as int,
                ),
            decreases out.len() - place,
        {
            place += 1;
        }
        assert(rows@.take(i + 1).drop_last() =~= rows@.take(i as int));
        out.insert(place, row);
        i += 1;
    }
    assert(rows@.take(rows@.len() as int) =~= rows@);
    out
}

} // verus!
