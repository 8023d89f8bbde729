//! What holds of the save locator, whatever the directory.

use vstd::prelude::*;
use crate::disk::{DirectoryView, EntryView};
use crate::error::StartErrorView;
use crate::paths::is_zip_path;
use crate::utils::{
    is_save, latest_index, latest_save_in, lemma_latest_index, lemma_zips_of_push, newest_first,
    saves_in, zips_in, zips_of, SaveFileView,
};

verus! {

/// A listing without a save file gives no save file.
pub proof fn lemma_zips_of_none(entries: Seq<EntryView>)
    requires
        forall|i: int| 0 <= i < entries.len() ==> !is_save(#[trigger] entries[i]),
    ensures
        zips_of(entries) == Seq::<SaveFileView>::empty(),
    decreases entries.len(),
{
    if entries.len() == 0 {
        reveal(Seq::filter);
        assert(zips_of(entries) =~= Seq::<SaveFileView>::empty());
    } else {
        assert forall|i: int| 0 <= i < entries.drop_last().len() implies !is_save(
            #[trigger] entries.drop_last()[i],
        ) by {
            assert(entries.drop_last()[i] == entries[i]);
        }
        lemma_zips_of_none(entries.drop_last());
        lemma_zips_of_push(entries.drop_last(), entries.last());
        assert(entries.drop_last().push(entries.last()) =~= entries);
    }
}

/// Every save file that `zips_of` gives has the extension `zip`.
pub proof fn lemma_zips_are_zip(entries: Seq<EntryView>)
    ensures
        forall|i: int|
            0 <= i < zips_of(entries).len() ==> is_zip_path((#[trigger] zips_of(entries)[i]).path),
    decreases entries.len(),
{
    if entries.len() == 0 {
        reveal(Seq::filter);
        assert(zips_of(entries) =~= Seq::<SaveFileView>::empty());
    } else {
        lemma_zips_are_zip(entries.drop_last());
        lemma_zips_of_push(entries.drop_last(), entries.last());
        assert(entries.drop_last().push(entries.last()) =~= entries);
    }
}

/// A directory that was listed and holds no regular file with the extension
/// `zip` has no saves: `get_zips` and `get_saves` give an empty list, and
/// `get_latest_save` fails with `NoSaveFound`.
pub proof fn lemma_directory_without_saves(dir: DirectoryView)
    requires
        dir.listing is Entries,
        forall|i: int|
            0 <= i < dir.listing->Entries_0.len() ==> !is_save(
                #[trigger] dir.listing->Entries_0[i],
            ),
    ensures
        zips_in(dir) == Ok::<Seq<SaveFileView>, StartErrorView>(Seq::empty()),
        saves_in(dir) == Ok::<Seq<SaveFileView>, StartErrorView>(Seq::empty()),
        latest_save_in(dir) == Err::<SaveFileView, StartErrorView>(
            StartErrorView::NoSaveFound(dir.path),
        ),
{
    lemma_zips_of_none(dir.listing->Entries_0);
}

/// A directory whose path cannot be resolved has no saves to offer: all three
/// queries fail with `PathNotFound` and the path as the caller named it.
pub proof fn lemma_unresolved_directory(dir: DirectoryView)
    requires
        dir.listing is Unresolved,
    ensures
        zips_in(dir) == Err::<Seq<SaveFileView>, StartErrorView>(
            StartErrorView::PathNotFound(dir.path),
        ),
        saves_in(dir) == Err::<Seq<SaveFileView>, StartErrorView>(
            StartErrorView::PathNotFound(dir.path),
        ),
        latest_save_in(dir) == Err::<SaveFileView, StartErrorView>(
            StartErrorView::PathNotFound(dir.path),
        ),
{
}

/// `newest_first` reorders and nothing else: every save comes out as often as
/// it went in.
pub proof fn lemma_newest_first_permutes(saves: Seq<SaveFileView>)
    ensures
        newest_first(saves).len() == saves.len(),
        newest_first(saves).to_multiset() == saves.to_multiset(),
    decreases saves.len(),
{
    broadcast use vstd::seq_lib::group_to_multiset_ensures;

    if saves.len() == 0 {
        assert(newest_first(saves) =~= saves);
    } else {
        lemma_latest_index(saves);
        let latest = latest_index(saves);
        let rest = saves.remove(latest);
        lemma_newest_first_permutes(rest);
        assert(newest_first(saves) =~= newest_first(rest).insert(0, saves[latest]));
        assert(saves.contains(saves[latest]));
        assert(saves.to_multiset().remove(saves[latest]).insert(saves[latest])
            =~= saves.to_multiset());
    }
}

/// In what `newest_first` gives, no save stands before a more recent one.
pub proof fn lemma_newest_first_descends(saves: Seq<SaveFileView>)
    ensures
        forall|i: int, j: int|
            0 <= i < j < newest_first(saves).len() ==> (#[trigger] newest_first(saves)[i]).modified
                >= (#[trigger] newest_first(saves)[j]).modified,
    decreases saves.len(),
{
    broadcast use vstd::seq_lib::group_to_multiset_ensures;

    if saves.len() > 0 {
        lemma_latest_index(saves);
        let latest = latest_index(saves);
        let rest = saves.remove(latest);
        lemma_newest_first_descends(rest);
        lemma_newest_first_permutes(rest);
        let sorted = newest_first(saves);
        assert(sorted =~= seq![saves[latest]] + newest_first(rest));
        assert forall|i: int, j: int| 0 <= i < j < sorted.len() implies (#[trigger] sorted[i]).modified
            >= (#[trigger] sorted[j]).modified by {
            assert(sorted[j] == newest_first(rest)[j - 1]);
            if i == 0 {
                let later = newest_first(rest)[j - 1];
                assert(newest_first(rest).contains(later));
                assert(rest.to_multiset().count(later) > 0);
                assert(rest.contains(later));
                let k = choose|k: int| 0 <= k < rest.len() && rest[k] == later;
                if k < latest {
                    assert(rest[k] == saves[k]);
                } else {
                    assert(rest[k] == saves[k + 1]);
                }
            } else {
                assert(sorted[i] == newest_first(rest)[i - 1]);
            }
        }
    }
}

/// Where each save is more recent than those listed before it, the latest is
/// the last one listed, and `newest_first` is the listing in reverse.
pub proof fn lemma_newest_first_of_ascending(saves: Seq<SaveFileView>)
    requires
        forall|i: int, j: int|
            0 <= i < j < saves.len() ==> (#[trigger] saves[i]).modified
                < (#[trigger] saves[j]).modified,
    ensures
        latest_index(saves) == saves.len() - 1,
        newest_first(saves) == saves.reverse(),
    decreases saves.len(),
{
    if saves.len() == 0 {
        assert(newest_first(saves) =~= saves.reverse());
    } else {
        lemma_latest_index(saves);
        let latest = latest_index(saves);
        if latest < saves.len() - 1 {
            assert(saves[latest].modified < saves[saves.len() - 1].modified);
        }
        let rest = saves.drop_last();
        assert(saves.remove(latest) =~= rest);
        assert forall|i: int, j: int| 0 <= i < j < rest.len() implies (#[trigger] rest[i]).modified
            < (#[trigger] rest[j]).modified by {
            assert(rest[i] == saves[i] && rest[j] == saves[j]);
        }
        lemma_newest_first_of_ascending(rest);
        assert(seq![saves[latest]] + rest.reverse() =~= saves.reverse());
    }
}

/// Whether no two of `saves` were modified at the same instant.
pub open spec fn distinct_times(saves: Seq<SaveFileView>) -> bool {
    forall|i: int, j: int|
        0 <= i < j < saves.len() ==> (#[trigger] saves[i]).modified != (#[trigger] saves[j]).modified
}

/// Whether each of `saves` is strictly more recent than all that follow it.
pub open spec fn strictly_descending(saves: Seq<SaveFileView>) -> bool {
    forall|i: int, j: int|
        0 <= i < j < saves.len() ==> (#[trigger] saves[i]).modified > (#[trigger] saves[j]).modified
}

/// Where no two saves share a modification time, `newest_first` puts each
/// strictly before all older ones.
pub proof fn lemma_newest_first_strictly_descends(saves: Seq<SaveFileView>)
    requires
        distinct_times(saves),
    ensures
        strictly_descending(newest_first(saves)),
    decreases saves.len(),
{
    broadcast use vstd::seq_lib::group_to_multiset_ensures;

    lemma_newest_first_descends(saves);
    lemma_newest_first_permutes(saves);
    let sorted = newest_first(saves);
    assert forall|i: int, j: int| 0 <= i < j < sorted.len() implies (#[trigger] sorted[i]).modified
        > (#[trigger] sorted[j]).modified by {
        lemma_latest_index(saves);
        let latest = latest_index(saves);
        let rest = saves.remove(latest);
        assert forall|p: int, q: int| 0 <= p < q < rest.len() implies (#[trigger] rest[p]).modified
            != (#[trigger] rest[q]).modified by {
            let pp = if p < latest { p } else { p + 1 };
            let qq = if q < latest { q } else { q + 1 };
            assert(rest[p] == saves[pp] && rest[q] == saves[qq]);
        }
        lemma_newest_first_strictly_descends(rest);
        lemma_newest_first_permutes(rest);
        assert(sorted =~= seq![saves[latest]] + newest_first(rest));
        assert(sorted[j] == newest_first(rest)[j - 1]);
        if i == 0 {
            let later = newest_first(rest)[j - 1];
            assert(newest_first(rest).contains(later));
            assert(rest.to_multiset().count(later) > 0);
            assert(rest.contains(later));
            let k = choose|k: int| 0 <= k < rest.len() && rest[k] == later;
            let kk = if k < latest { k } else { k + 1 };
            assert(rest[k] == saves[kk]);
            if kk < latest {
                assert(saves[kk].modified != saves[latest].modified);
            } else {
                assert(saves[latest].modified != saves[kk].modified);
            }
        } else {
            assert(sorted[i] == newest_first(rest)[i - 1]);
        }
    }
}

/// Two strictly descending lists that hold the same saves are the same list.
pub proof fn lemma_strictly_descending_is_unique(a: Seq<SaveFileView>, b: Seq<SaveFileView>)
    requires
        strictly_descending(a),
        strictly_descending(b),
        forall|i: int| 0 <= i < a.len() ==> b.contains(#[trigger] a[i]),
        forall|i: int| 0 <= i < b.len() ==> a.contains(#[trigger] b[i]),
    ensures
        a == b,
    decreases a.len(),
{
    if a.len() == 0 {
        if b.len() > 0 {
            assert(a.contains(b[0]));
        }
        assert(a =~= b);
    } else {
        assert(b.contains(a[0]));
        let k = choose|k: int| 0 <= k < b.len() && b[k] == a[0];
        assert(a.contains(b[0]));
        let m = choose|m: int| 0 <= m < a.len() && a[m] == b[0];
        if m > 0 {
            assert(a[0].modified > a[m].modified);
        }
        if k > 0 {
            assert(b[0].modified > b[k].modified);
        }
        assert(a[0] == b[0]);
        let a_rest = a.skip(1);
        let b_rest = b.skip(1);
        assert forall|i: int| 0 <= i < a_rest.len() implies b_rest.contains(
            #[trigger] a_rest[i],
        ) by {
            assert(a_rest[i] == a[i + 1]);
            assert(b.contains(a[i + 1]));
            let n = choose|n: int| 0 <= n < b.len() && b[n] == a[i + 1];
            assert(a[0].modified > a[i + 1].modified);
            assert(n > 0);
            assert(b_rest[n - 1] == b[n]);
        }
        assert forall|i: int| 0 <= i < b_rest.len() implies a_rest.contains(
            #[trigger] b_rest[i],
        ) by {
            assert(b_rest[i] == b[i + 1]);
            assert(a.contains(b[i + 1]));
            let n = choose|n: int| 0 <= n < a.len() && a[n] == b[i + 1];
            assert(b[0].modified > b[i + 1].modified);
            assert(n > 0);
            assert(a_rest[n - 1] == a[n]);
        }
        assert forall|i: int, j: int| 0 <= i < j < a_rest.len() implies (
        #[trigger] a_rest[i]).modified > (#[trigger] a_rest[j]).modified by {
            assert(a_rest[i] == a[i + 1] && a_rest[j] == a[j + 1]);
        }
        assert forall|i: int, j: int| 0 <= i < j < b_rest.len() implies (
        #[trigger] b_rest[i]).modified > (#[trigger] b_rest[j]).modified by {
            assert(b_rest[i] == b[i + 1] && b_rest[j] == b[j + 1]);
        }
        lemma_strictly_descending_is_unique(a_rest, b_rest);
        assert(a =~= seq![a[0]] + a_rest);
        assert(b =~= seq![b[0]] + b_rest);
    }
}

/// Where no two saves share a modification time, the order in which the file
/// system lists them does not matter: two listings of the same saves give the
/// same order, most recent first, and the same latest save.
pub proof fn lemma_listing_order_is_irrelevant(a: Seq<SaveFileView>, b: Seq<SaveFileView>)
    requires
        a.to_multiset() == b.to_multiset(),
        distinct_times(a),
        distinct_times(b),
    ensures
        newest_first(a) == newest_first(b),
        a.len() > 0 ==> b.len() > 0 && a[latest_index(a)] == b[latest_index(b)],
{
    broadcast use vstd::seq_lib::group_to_multiset_ensures;

    lemma_newest_first_strictly_descends(a);
    lemma_newest_first_strictly_descends(b);
    lemma_newest_first_permutes(a);
    lemma_newest_first_permutes(b);
    let x = newest_first(a);
    let y = newest_first(b);
    assert forall|i: int| 0 <= i < x.len() implies y.contains(#[trigger] x[i]) by {
        assert(x.contains(x[i]));
        assert(x.to_multiset().count(x[i]) > 0);
        assert(y.to_multiset().count(x[i]) > 0);
    }
    assert forall|i: int| 0 <= i < y.len() implies x.contains(#[trigger] y[i]) by {
        assert(y.contains(y[i]));
        assert(y.to_multiset().count(y[i]) > 0);
        assert(x.to_multiset().count(y[i]) > 0);
    }
    lemma_strictly_descending_is_unique(x, y);
    if a.len() > 0 {
        assert(x[0] == a[latest_index(a)]);
        assert(y[0] == b[latest_index(b)]);
    }
}

/// The first of `get_saves` is what `get_latest_save` gives; and where
/// `get_saves` gives nothing, `get_latest_save` fails with `NoSaveFound`.
pub proof fn lemma_latest_is_first(dir: DirectoryView)
    requires
        zips_in(dir) is Ok,
    ensures
        saves_in(dir) is Ok,
        match latest_save_in(dir) {
            Ok(save) => saves_in(dir)->Ok_0.len() > 0 && saves_in(dir)->Ok_0[0] == save,
            Err(error) => saves_in(dir)->Ok_0.len() == 0 && error == StartErrorView::NoSaveFound(
                dir.path,
            ),
        },
{
    let zips = zips_in(dir)->Ok_0;
    lemma_newest_first_permutes(zips);
    if zips.len() > 0 {
        lemma_latest_index(zips);
    }
}

/// A directory whose saves are `a`, `b` and `c`, modified in this order, one
/// strictly after the other, and listed in whatever order: the latest save is
/// `c`, and the saves most recent first are `c`, `b`, `a`.
pub proof fn lemma_three_saves(
    dir: DirectoryView,
    a: SaveFileView,
    b: SaveFileView,
    c: SaveFileView,
)
    requires
        zips_in(dir) matches Ok(zips) && zips.len() == 3 && zips.contains(a) && zips.contains(b)
            && zips.contains(c),
        a.modified < b.modified < c.modified,
    ensures
        latest_save_in(dir) == Ok::<SaveFileView, StartErrorView>(c),
        saves_in(dir) == Ok::<Seq<SaveFileView>, StartErrorView>(seq![c, b, a]),
{
    broadcast use vstd::seq_lib::group_to_multiset_ensures;

    let zips = zips_in(dir)->Ok_0;
    let expected = seq![c, b, a];
    let i = choose|i: int| 0 <= i < zips.len() && zips[i] == a;
    let j = choose|j: int| 0 <= j < zips.len() && zips[j] == b;
    let k = choose|k: int| 0 <= k < zips.len() && zips[k] == c;
    assert(i != j && j != k && i != k);
    assert forall|n: int| 0 <= n < zips.len() implies expected.contains(#[trigger] zips[n]) by {
        assert(n == i || n == j || n == k);
        assert(expected[0] == c && expected[1] == b && expected[2] == a);
    }
    assert(distinct_times(zips)) by {
        assert forall|p: int, q: int| 0 <= p < q < zips.len() implies (#[trigger] zips[p]).modified
            != (#[trigger] zips[q]).modified by {
            assert(p == i || p == j || p == k);
            assert(q == i || q == j || q == k);
        }
    }
    lemma_newest_first_strictly_descends(zips);
    lemma_newest_first_permutes(zips);
    let sorted = newest_first(zips);
    assert forall|n: int| 0 <= n < sorted.len() implies expected.contains(#[trigger] sorted[n]) by {
        assert(sorted.contains(sorted[n]));
        assert(sorted.to_multiset().count(sorted[n]) > 0);
        assert(zips.contains(sorted[n]));
        let m = choose|m: int| 0 <= m < zips.len() && zips[m] == sorted[n];
        assert(expected.contains(zips[m]));
    }
    assert forall|n: int| 0 <= n < expected.len() implies sorted.contains(
        #[trigger] expected[n],
    ) by {
        assert(zips.contains(expected[n]));
        assert(zips.to_multiset().count(expected[n]) > 0);
        assert(sorted.to_multiset().count(expected[n]) > 0);
    }
    lemma_strictly_descending_is_unique(sorted, expected);
    lemma_latest_index(zips);
    assert(sorted[0] == zips[latest_index(zips)]);
}

/// Every save that the three queries return has the extension `zip`.
pub proof fn lemma_saves_are_zip(dir: DirectoryView)
    ensures
        zips_in(dir) matches Ok(zips) ==> forall|i: int|
            0 <= i < zips.len() ==> is_zip_path((#[trigger] zips[i]).path),
        saves_in(dir) matches Ok(saves) ==> forall|i: int|
            0 <= i < saves.len() ==> is_zip_path((#[trigger] saves[i]).path),
        latest_save_in(dir) matches Ok(save) ==> is_zip_path(save.path),
{
    broadcast use vstd::seq_lib::group_to_multiset_ensures;

    if let Ok(zips) = zips_in(dir) {
        lemma_zips_are_zip(dir.listing->Entries_0);
        lemma_newest_first_permutes(zips);
        let saves = newest_first(zips);
        assert forall|i: int| 0 <= i < saves.len() implies is_zip_path(
            (#[trigger] saves[i]).path,
        ) by {
            assert(saves.contains(saves[i]));
            assert(saves.to_multiset().count(saves[i]) > 0);
            assert(zips.contains(saves[i]));
            let m = choose|m: int| 0 <= m < zips.len() && zips[m] == saves[i];
            assert(is_zip_path(zips[m].path));
        }
        if zips.len() > 0 {
            lemma_latest_index(zips);
        }
    }
}

} // verus!
