//! Grouping a run of releases under headers, one header for each stretch of
//! neighbouring releases of the same kind.

use crate::musicbrainz::{Release, ReleaseType, ReleaseTypeView, ReleaseView};
use vstd::prelude::*;

verus! {

/// An entry of a sectioned list: the header of a section, or a release.
#[derive(Debug, PartialEq, Eq)]
pub enum ListItemType {
    ReleaseType(ReleaseType),
    Release(Release),
}

/// What a [`ListItemType`] stands for.
pub ghost enum ItemView {
    ReleaseType(ReleaseTypeView),
    Release(ReleaseView),
}

impl View for ListItemType {
    type V = ItemView;

    open spec fn view(&self) -> ItemView {
        match self {
            ListItemType::ReleaseType(kind) => ItemView::ReleaseType(kind@),
            ListItemType::Release(release) => ItemView::Release(release@),
        }
    }
}

/// The releases of `releases`, each as what it stands for.
pub open spec fn releases_view(releases: Seq<Release>) -> Seq<ReleaseView> {
    releases.map_values(|release: Release| release@)
}

/// The entries of `items`, each as what it stands for.
pub open spec fn items_view(items: Seq<ListItemType>) -> Seq<ItemView> {
    items.map_values(|item: ListItemType| item@)
}

/// Whether the release at `i` opens a section: it is the first release, or
/// its kind differs from that of the release before it.
pub open spec fn opens_section(releases: Seq<ReleaseView>, i: int) -> bool {
    i == 0 || releases[i - 1].group_type != releases[i].group_type
}

/// The releases in their order, with a header of the release's kind before
/// each release that opens a section.
pub open spec fn with_headers(releases: Seq<ReleaseView>) -> Seq<ItemView>
    decreases releases.len(),
{
    if releases.len() == 0 {
        Seq::empty()
    } else {
        let before = with_headers(releases.drop_last());
        let release = releases.last();
        if opens_section(releases, releases.len() - 1) {
            before.push(ItemView::ReleaseType(release.group_type)).push(ItemView::Release(release))
        } else {
            before.push(ItemView::Release(release))
        }
    }
}

/// Puts a header before each stretch of neighbouring releases of the same
/// kind. The releases keep their order; nothing is sorted.
pub fn insert_headers(releases: Vec<Release>) -> (items: Vec<ListItemType>)
    ensures
        items_view(items@) == with_headers(releases_view(releases@)),
{
    let ghost all = releases_view(releases@);
    let mut items: Vec<ListItemType> = Vec::new();
    for release in it: releases
        invariant
            all == releases_view(it.seq()),
            items_view(items@) == with_headers(all.take(it.index() as int)),
            it.index() > 0 ==> items@.len() > 0 && items@.last()@ == ItemView::Release(
                all[it.index() - 1],
            ),
    {
        let ghost n = it.index() as int;
        let ghost before = items_view(items@);
        assert(all.take(n + 1).drop_last() == all.take(n));
        assert(release@ == all[n]);
        let opens = match items.last() {
            Some(ListItemType::Release(last)) => release.group_type != last.group_type,
            _ => true,
        };
        assert(opens == opens_section(all.take(n + 1), n)) by {
            if n == 0 {
                assert(before.len() == 0);
            } else {
                assert(all.take(n + 1)[n - 1] == all[n - 1]);
                assert(all.take(n + 1)[n] == all[n]);
            }
        }
        if opens {
            items.push(ListItemType::ReleaseType(release.group_type.clone()));
        }
        items.push(ListItemType::Release(release));
        assert(items_view(items@) == if opens {
            before.push(ItemView::ReleaseType(all[n].group_type)).push(ItemView::Release(all[n]))
        } else {
            before.push(ItemView::Release(all[n]))
        });
    }
    assert(all.take(all.len() as int) == all);
    items
}

/// The releases among `items`, in their order.
pub open spec fn releases_of(items: Seq<ItemView>) -> Seq<ReleaseView>
    decreases items.len(),
{
    if items.len() == 0 {
        Seq::empty()
    } else {
        match items.last() {
            ItemView::Release(release) => releases_of(items.drop_last()).push(release),
            ItemView::ReleaseType(_) => releases_of(items.drop_last()),
        }
    }
}

/// The kinds named by the headers among `items`, in their order.
pub open spec fn headers_of(items: Seq<ItemView>) -> Seq<ReleaseTypeView>
    decreases items.len(),
{
    if items.len() == 0 {
        Seq::empty()
    } else {
        match items.last() {
            ItemView::Release(_) => headers_of(items.drop_last()),
            ItemView::ReleaseType(kind) => headers_of(items.drop_last()).push(kind),
        }
    }
}

/// The kinds of the sections of `releases`, in their order: one for each
/// longest stretch of neighbouring releases of the same kind.
pub open spec fn section_kinds(releases: Seq<ReleaseView>) -> Seq<ReleaseTypeView>
    decreases releases.len(),
{
    if releases.len() == 0 {
        Seq::empty()
    } else if opens_section(releases, releases.len() - 1) {
        section_kinds(releases.drop_last()).push(releases.last().group_type)
    } else {
        section_kinds(releases.drop_last())
    }
}

/// Whether the entry at `i` stands where the sections allow it: a header
/// directly before a release of its kind and directly after nothing or a
/// release of another kind; a release directly after a header or a release
/// of its own kind.
pub open spec fn in_place(items: Seq<ItemView>, i: int) -> bool {
    match items[i] {
        ItemView::ReleaseType(kind) => {
            &&& i + 1 < items.len()
            &&& items[i + 1] matches ItemView::Release(next)
            &&& next.group_type == kind
            &&& i > 0 ==> (items[i - 1] matches ItemView::Release(previous)
                && previous.group_type != kind)
        },
        ItemView::Release(release) => {
            &&& i > 0
            &&& items[i - 1] matches ItemView::Release(previous) ==> previous.group_type
                == release.group_type
        },
    }
}

/// Whether `items` is a list of sections: every entry stands in its place.
/// So the list starts with a header unless it is empty, a header never
/// follows a header and never comes last, and there is a header exactly
/// where the kind changes from one release to the next.
pub open spec fn is_sectioned(items: Seq<ItemView>) -> bool {
    forall|i: int| 0 <= i < items.len() ==> #[trigger] in_place(items, i)
}

/// The releases of a list with one more entry behind it.
proof fn lemma_releases_of_push(items: Seq<ItemView>, item: ItemView)
    ensures
        releases_of(items.push(item)) == match item {
            ItemView::Release(release) => releases_of(items).push(release),
            ItemView::ReleaseType(_) => releases_of(items),
        },
{
    assert(items.push(item).drop_last() == items);
}

/// The headers of a list with one more entry behind it.
proof fn lemma_headers_of_push(items: Seq<ItemView>, item: ItemView)
    ensures
        headers_of(items.push(item)) == match item {
            ItemView::Release(_) => headers_of(items),
            ItemView::ReleaseType(kind) => headers_of(items).push(kind),
        },
{
    assert(items.push(item).drop_last() == items);
}

/// Sectioning ends with the last release, and a list that ends with a
/// release has that release as the last of its releases.
proof fn lemma_with_headers_last(releases: Seq<ReleaseView>)
    requires
        releases.len() > 0,
    ensures
        with_headers(releases).len() > 0,
        with_headers(releases).last() == ItemView::Release(releases.last()),
{
}

/// Taking the headers out of a sectioned run of releases gives the releases
/// back, unchanged and in their order.
pub proof fn lemma_releases_of_with_headers(releases: Seq<ReleaseView>)
    ensures
        releases_of(with_headers(releases)) == releases,
    decreases releases.len(),
{
    if releases.len() > 0 {
        let before = with_headers(releases.drop_last());
        let release = releases.last();
        lemma_releases_of_with_headers(releases.drop_last());
        if opens_section(releases, releases.len() - 1) {
            lemma_releases_of_push(before, ItemView::ReleaseType(release.group_type));
            lemma_releases_of_push(
                before.push(ItemView::ReleaseType(release.group_type)),
                ItemView::Release(release),
            );
        } else {
            lemma_releases_of_push(before, ItemView::Release(release));
        }
        assert(releases.drop_last().push(release) == releases);
    }
}

/// What sectioning produces is a list of sections.
pub proof fn lemma_with_headers_sectioned(releases: Seq<ReleaseView>)
    ensures
        is_sectioned(with_headers(releases)),
    decreases releases.len(),
{
    if releases.len() > 0 {
        let n = releases.len() - 1;
        let earlier = releases.drop_last();
        let before = with_headers(earlier);
        let release = releases.last();
        let items = with_headers(releases);
        lemma_with_headers_sectioned(earlier);
        if n > 0 {
            lemma_with_headers_last(earlier);
            assert(earlier.last() == releases[n - 1]);
        }
        assert forall|i: int| 0 <= i < items.len() implies #[trigger] in_place(items, i) by {
            if i < before.len() {
                assert(in_place(before, i));
                assert(items[i] == before[i]);
                if i > 0 {
                    assert(items[i - 1] == before[i - 1]);
                }
                if i + 1 < before.len() {
                    assert(items[i + 1] == before[i + 1]);
                }
            }
        }
    }
}

/// A list of sections cut off behind one of its releases is a list of
/// sections.
proof fn lemma_sectioned_prefix(items: Seq<ItemView>, k: int)
    requires
        is_sectioned(items),
        0 <= k <= items.len(),
        k > 0 ==> items[k - 1] is Release,
    ensures
        is_sectioned(items.take(k)),
{
    let before = items.take(k);
    assert forall|i: int| 0 <= i < before.len() implies #[trigger] in_place(before, i) by {
        assert(in_place(items, i));
        assert(before[i] == items[i]);
    }
}

/// The last release of a list that ends with a release is that release.
proof fn lemma_releases_of_last(items: Seq<ItemView>)
    requires
        items.len() > 0,
        items.last() is Release,
    ensures
        releases_of(items).len() > 0,
        ItemView::Release(releases_of(items).last()) == items.last(),
{
}

/// Sectioning a run of releases with one more release behind it.
proof fn lemma_with_headers_push(earlier: Seq<ReleaseView>, release: ReleaseView)
    ensures
        with_headers(earlier.push(release)) == if earlier.len() == 0 || earlier.last().group_type
            != release.group_type {
            with_headers(earlier).push(ItemView::ReleaseType(release.group_type)).push(
                ItemView::Release(release),
            )
        } else {
            with_headers(earlier).push(ItemView::Release(release))
        },
{
    let releases = earlier.push(release);
    assert(releases.drop_last() == earlier);
    if earlier.len() > 0 {
        assert(releases[releases.len() - 2] == earlier.last());
    }
}

/// Sectioning the releases of a list of sections gives that list back: the
/// headers return to the places where they stood.
pub proof fn lemma_sectioned_is_fixed(items: Seq<ItemView>)
    requires
        is_sectioned(items),
    ensures
        with_headers(releases_of(items)) == items,
    decreases items.len(),
{
    if items.len() > 0 {
        let n = items.len() - 1;
        let last = items[n];
        assert(in_place(items, n));
        assert(last is Release);
        let release = last->Release_0;
        assert(n > 0);
        let second = items[n - 1];
        assert(in_place(items, n - 1));
        if second is Release {
            let before = items.take(n);
            lemma_sectioned_prefix(items, n);
            lemma_sectioned_is_fixed(before);
            lemma_releases_of_push(before, last);
            assert(before.push(last) == items);
            assert(before.last() == second);
            lemma_releases_of_last(before);
            lemma_with_headers_push(releases_of(before), release);
            assert(second->Release_0.group_type == release.group_type);
        } else {
            let before = items.take(n - 1);
            assert(second->ReleaseType_0 == release.group_type);
            if n - 1 > 0 {
                assert(items[n - 2] is Release);
                assert(items[n - 2]->Release_0.group_type != release.group_type);
            }
            lemma_sectioned_prefix(items, n - 1);
            lemma_sectioned_is_fixed(before);
            lemma_releases_of_push(before, second);
            lemma_releases_of_push(before.push(second), last);
            assert(before.push(second).push(last) == items);
            if n - 1 > 0 {
                assert(before.last() == items[n - 2]);
                lemma_releases_of_last(before);
            }
            lemma_with_headers_push(releases_of(before), release);
        }
    }
}

/// Sectioning again what sectioning produced, after taking the headers out,
/// changes nothing.
pub proof fn lemma_sectioning_idempotent(releases: Seq<ReleaseView>)
    ensures
        with_headers(releases_of(with_headers(releases))) == with_headers(releases),
{
    lemma_releases_of_with_headers(releases);
}

/// Sectioning puts exactly one header before each section, in the order of
/// the sections, and none where there are no releases.
pub proof fn lemma_one_header_per_section(releases: Seq<ReleaseView>)
    ensures
        headers_of(with_headers(releases)) == section_kinds(releases),
        releases.len() == 0 ==> with_headers(releases).len() == 0,
        with_headers(releases).len() == releases.len() + section_kinds(releases).len(),
    decreases releases.len(),
{
    if releases.len() > 0 {
        let before = with_headers(releases.drop_last());
        let release = releases.last();
        lemma_one_header_per_section(releases.drop_last());
        if opens_section(releases, releases.len() - 1) {
            lemma_headers_of_push(before, ItemView::ReleaseType(release.group_type));
            lemma_headers_of_push(
                before.push(ItemView::ReleaseType(release.group_type)),
                ItemView::Release(release),
            );
        } else {
            lemma_headers_of_push(before, ItemView::Release(release));
        }
    }
}

/// A new rating on one of the releases leaves a list of sections a list of
/// sections.
pub proof fn lemma_rating_keeps_sections(items: Seq<ItemView>, i: int, rating: Option<u8>)
    requires
        is_sectioned(items),
        0 <= i < items.len(),
        items[i] is Release,
    ensures
        is_sectioned(
            items.update(i, ItemView::Release(ReleaseView { rating, ..items[i]->Release_0 })),
        ),
{
    let rated = items.update(i, ItemView::Release(ReleaseView { rating, ..items[i]->Release_0 }));
    assert forall|k: int| 0 <= k < rated.len() implies #[trigger] in_place(rated, k) by {
        assert(in_place(items, k));
    }
}

/// A list of sections that is not empty starts with a header followed by a
/// release, and ends with a release.
pub proof fn lemma_sections_ends(items: Seq<ItemView>)
    requires
        is_sectioned(items),
        items.len() > 0,
    ensures
        items.len() >= 2,
        items[0] is ReleaseType,
        items[1] is Release,
        items.last() is Release,
{
    assert(in_place(items, 0));
    assert(in_place(items, items.len() - 1));
}

/// The first release stands second in its list of sections, right behind
/// the header of its kind.
pub proof fn lemma_first_release(releases: Seq<ReleaseView>)
    requires
        releases.len() > 0,
    ensures
        with_headers(releases).len() >= 2,
        with_headers(releases)[0] == ItemView::ReleaseType(releases[0].group_type),
        with_headers(releases)[1] == ItemView::Release(releases[0]),
    decreases releases.len(),
{
    let before = with_headers(releases.drop_last());
    if releases.len() > 1 {
        lemma_first_release(releases.drop_last());
        assert(releases.drop_last()[0] == releases[0]);
        assert(with_headers(releases)[0] == before[0]);
        assert(with_headers(releases)[1] == before[1]);
    } else {
        assert(before.len() == 0);
        assert(releases.last() == releases[0]);
    }
}

} // verus!
