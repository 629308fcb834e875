//! The latest tag of a remote: semantic versions by their precedence, and
//! any other tag only where the remote has no semantic version.

use crate::text::{
    chars_of, copy_range, ends_with, is_prefix, is_suffix, lemma_text_less_total,
    lemma_text_less_transitive, starts_with, text_is_less, text_less, text_of, text_of_range,
    views,
};
use crate::version::{parses_as_semver, semver_compare, semver_order, semver_valid, Precedence};
use vstd::prelude::*;

verus! {

/// The tag that a reference names: what follows `refs/tags/`, unless it
/// ends with `^{}`, the mark of a tag followed down to what it points at.
pub open spec fn tag_of_ref(name: Seq<char>) -> Option<Seq<char>> {
    if is_prefix("refs/tags/"@, name) && !is_suffix("^{}"@, name.skip(10)) {
        Some(name.skip(10))
    } else {
        None
    }
}

/// The tags among the references `refs`, in their order.
pub open spec fn tags_of(refs: Seq<Seq<char>>) -> Seq<Seq<char>>
    decreases refs.len(),
{
    if refs.len() == 0 {
        Seq::empty()
    } else {
        match tag_of_ref(refs.last()) {
            Some(t) => tags_of(refs.drop_last()).push(t),
            None => tags_of(refs.drop_last()),
        }
    }
}

/// The tags among the references `refs`, in their order.
pub fn tag_names(refs: &Vec<String>) -> (r: Vec<String>)
    ensures
        views(r@) == tags_of(views(refs@)),
{
    let prefix = chars_of("refs/tags/");
    let peeled = chars_of("^{}");
    proof {
        reveal_strlit("refs/tags/");
    }
    let mut r: Vec<String> = Vec::new();
    let mut i: usize = 0;
    assert(views(refs@).take(0) == Seq::<Seq<char>>::empty());
    assert(views(r@) == Seq::<Seq<char>>::empty());
    while i < refs.len()
        invariant
            i <= refs.len(),
            prefix@ == "refs/tags/"@,
            prefix@.len() == 10,
            peeled@ == "^{}"@,
            views(r@) == tags_of(views(refs@).take(i as int)),
        decreases refs.len() - i,
    {
        let ghost before = views(r@);
        let v = chars_of(refs[i].as_str());
        proof {
            let upto = views(refs@).take(i + 1);
            assert(upto.drop_last() == views(refs@).take(i as int));
            assert(upto.last() == refs@[i as int]@);
        }
        if starts_with(&v, &prefix) {
            let t = copy_range(&v, 10, v.len());
            assert(t@ == v@.skip(10));
            assert(t@.take(t.len() as int) == t@);
            if !ends_with(&t, t.len(), &peeled) {
                r.push(text_of(&t));
                assert(views(r@) == before.push(t@));
            }
        }
        i += 1;
    }
    assert(views(refs@).take(refs.len() as int) == views(refs@));
    r
}

/// A tag without the one `v` or `V` that may stand before a version.
pub open spec fn strip_v(tag: Seq<char>) -> Seq<char> {
    if tag.len() > 0 && (tag[0] == 'v' || tag[0] == 'V') {
        tag.drop_first()
    } else {
        tag
    }
}

/// Whether a tag is a semantic version, with or without a `v` before it.
pub open spec fn is_semver_tag(tag: Seq<char>) -> bool {
    semver_valid(strip_v(tag))
}

/// How the version of the tag `a` stands to that of the tag `b`.
pub open spec fn tag_order(a: Seq<char>, b: Seq<char>) -> Precedence {
    semver_order(strip_v(a), strip_v(b))
}

/// The position of the latest semantic version among the first `n` tags,
/// or -1 where none of them is one: each version in turn replaces the
/// latest so far unless it is lower, so that of equal versions the last
/// stays.
pub open spec fn latest_semver(tags: Seq<Seq<char>>, n: int) -> int
    decreases n,
{
    if n <= 0 {
        -1
    } else {
        let before = latest_semver(tags, n - 1);
        if !is_semver_tag(tags[n - 1]) {
            before
        } else if before < 0 {
            n - 1
        } else if tag_order(tags[n - 1], tags[before]) == Precedence::Lower {
            before
        } else {
            n - 1
        }
    }
}

/// The position of the greatest in the order of strings among the first
/// `n` tags that are no semantic versions, or -1 where there is none.
pub open spec fn latest_plain(tags: Seq<Seq<char>>, n: int) -> int
    decreases n,
{
    if n <= 0 {
        -1
    } else {
        let before = latest_plain(tags, n - 1);
        if is_semver_tag(tags[n - 1]) {
            before
        } else if before < 0 {
            n - 1
        } else if text_less(tags[n - 1], tags[before]) {
            before
        } else {
            n - 1
        }
    }
}

/// The position of the latest tag: the latest semantic version where there
/// is one, else the greatest of the other tags, else -1.
pub open spec fn latest_index(tags: Seq<Seq<char>>) -> int {
    if latest_semver(tags, tags.len() as int) >= 0 {
        latest_semver(tags, tags.len() as int)
    } else {
        latest_plain(tags, tags.len() as int)
    }
}

/// The latest tag, where there is any tag.
pub open spec fn latest_of(tags: Seq<Seq<char>>) -> Option<Seq<char>> {
    if latest_index(tags) >= 0 {
        Some(tags[latest_index(tags)])
    } else {
        None
    }
}

/// The latest semantic version is one of the tags and a semantic version,
/// and there is one exactly where some tag is a semantic version.
pub proof fn lemma_latest_semver(tags: Seq<Seq<char>>, n: int)
    requires
        0 <= n <= tags.len(),
    ensures
        -1 <= latest_semver(tags, n) < n,
        latest_semver(tags, n) >= 0 ==> is_semver_tag(tags[latest_semver(tags, n)]),
        latest_semver(tags, n) < 0 <==> forall|i: int| 0 <= i < n ==> !is_semver_tag(#[trigger] tags[i]),
    decreases n,
{
    if n > 0 {
        lemma_latest_semver(tags, n - 1);
    }
}

/// The greatest of the other tags is one of the tags and no semantic
/// version, no other such tag comes behind it in the order of strings, and
/// there is one exactly where some tag is no semantic version.
pub proof fn lemma_latest_plain(tags: Seq<Seq<char>>, n: int)
    requires
        0 <= n <= tags.len(),
    ensures
        -1 <= latest_plain(tags, n) < n,
        latest_plain(tags, n) >= 0 ==> !is_semver_tag(tags[latest_plain(tags, n)]),
        latest_plain(tags, n) < 0 <==> forall|i: int| 0 <= i < n ==> is_semver_tag(#[trigger] tags[i]),
        forall|i: int|
            0 <= i < n && !is_semver_tag(#[trigger] tags[i]) ==> !text_less(
                tags[latest_plain(tags, n)],
                tags[i],
            ),
    decreases n,
{
    if n > 0 {
        lemma_latest_plain(tags, n - 1);
        let before = latest_plain(tags, n - 1);
        let now = latest_plain(tags, n);
        if !is_semver_tag(tags[n - 1]) && before >= 0 {
            lemma_text_less_total(tags[n - 1], tags[before]);
            assert forall|i: int| 0 <= i < n && !is_semver_tag(#[trigger] tags[i]) implies !text_less(
                tags[now],
                tags[i],
            ) by {
                if i < n - 1 {
                    if now == n - 1 && text_less(tags[now], tags[i]) {
                        // tags[before] <= tags[n - 1] < tags[i], against the choice of before
                        if tags[before] == tags[n - 1] {
                        } else {
                            lemma_text_less_transitive(tags[before], tags[n - 1], tags[i]);
                        }
                    }
                } else {
                    if now == before {
                    } else {
                        crate::text::lemma_text_less_irreflexive(tags[n - 1]);
                    }
                }
            }
        } else if !is_semver_tag(tags[n - 1]) {
            crate::text::lemma_text_less_irreflexive(tags[n - 1]);
        }
    }
}

/// Whether `semver` orders the versions among `tags` as a total order:
/// each stands to itself as the same, two stand to each other in opposite
/// ways, and what is not lower than something not lower than a third is not
/// lower than the third.
pub open spec fn versions_totally_ordered(tags: Seq<Seq<char>>) -> bool {
    &&& forall|i: int|
        0 <= i < tags.len() && is_semver_tag(#[trigger] tags[i]) ==> tag_order(tags[i], tags[i])
            == Precedence::Same
    &&& forall|i: int, j: int|
        0 <= i < tags.len() && 0 <= j < tags.len() && is_semver_tag(tags[i]) && is_semver_tag(
            tags[j],
        ) ==> ((#[trigger] tag_order(tags[i], tags[j]) == Precedence::Lower) <==> (tag_order(
            tags[j],
            tags[i],
        ) == Precedence::Higher))
    &&& forall|i: int, j: int, k: int|
        0 <= i < tags.len() && 0 <= j < tags.len() && 0 <= k < tags.len() && is_semver_tag(tags[i])
            && is_semver_tag(tags[j]) && is_semver_tag(tags[k]) && #[trigger] tag_order(
            tags[i],
            tags[j],
        ) != Precedence::Lower && #[trigger] tag_order(tags[j], tags[k]) != Precedence::Lower
            ==> tag_order(tags[i], tags[k]) != Precedence::Lower
}

/// Where semantic versions are totally ordered by their precedence, the
/// latest semantic version among the tags is lower than none of them, and
/// higher than every equal or lower one that comes after it: it is the last
/// of the greatest.
pub proof fn lemma_latest_semver_is_greatest(tags: Seq<Seq<char>>, n: int)
    requires
        0 <= n <= tags.len(),
        versions_totally_ordered(tags),
    ensures
        forall|i: int|
            0 <= i < n && is_semver_tag(#[trigger] tags[i]) ==> tag_order(
                tags[latest_semver(tags, n)],
                tags[i],
            ) != Precedence::Lower,
        forall|i: int|
            latest_semver(tags, n) < i < n && is_semver_tag(#[trigger] tags[i]) ==> tag_order(
                tags[i],
                tags[latest_semver(tags, n)],
            ) == Precedence::Lower,
    decreases n,
{
    if n > 0 {
        lemma_latest_semver_is_greatest(tags, n - 1);
        lemma_latest_semver(tags, n - 1);
        lemma_latest_semver(tags, n);
        let before = latest_semver(tags, n - 1);
        let now = latest_semver(tags, n);
        if is_semver_tag(tags[n - 1]) && before >= 0 {
            let o = tag_order(tags[n - 1], tags[before]);
            if now == n - 1 {
                assert forall|i: int| 0 <= i < n && is_semver_tag(#[trigger] tags[i]) implies tag_order(
                    tags[now],
                    tags[i],
                ) != Precedence::Lower by {
                    if i < n - 1 {
                        assert(tag_order(tags[before], tags[i]) != Precedence::Lower);
                        assert(tag_order(tags[n - 1], tags[before]) != Precedence::Lower);
                    }
                }
            } else {
                assert(o == Precedence::Lower);
                assert(tag_order(tags[before], tags[n - 1]) == Precedence::Higher);
            }
        }
    }
}

/// Whether the tag `t`, which stands at the position `at`, is lower than
/// no other semantic version among `tags`.
pub open spec fn is_greatest_version(t: Seq<char>, at: int, tags: Seq<Seq<char>>) -> bool {
    forall|j: int|
        0 <= j < tags.len() && j != at && is_semver_tag(#[trigger] tags[j]) ==> tag_order(
            t,
            tags[j],
        ) != Precedence::Lower
}

/// The latest of `tags`: the latest semantic version where there is one,
/// else the greatest of the other tags in the order of strings; `None`
/// without tags. A semantic version that is the latest is lower than no
/// other semantic version among the tags.
pub fn latest_tag(tags: &Vec<String>) -> (r: Option<String>)
    ensures
        r is Some <==> tags@.len() > 0,
        r matches Some(t) ==> latest_of(views(tags@)) == Some(t@),
        r is None ==> latest_of(views(tags@)) is None,
        (exists|i: int| 0 <= i < tags@.len() && is_semver_tag(#[trigger] tags@[i]@)) ==> (r matches Some(
            t,
        ) && is_semver_tag(t@)),
        r matches Some(t) ==> is_semver_tag(t@) ==> is_greatest_version(
            t@,
            latest_index(views(tags@)),
            views(tags@),
        ),
{
    let ghost all = views(tags@);
    let mut best_semver: Option<usize> = None;
    let mut best_plain: Option<usize> = None;
    let mut i: usize = 0;
    while i < tags.len()
        invariant
            i <= tags.len(),
            all == views(tags@),
            best_semver matches Some(b) ==> b < i,
            best_plain matches Some(b) ==> b < i,
            latest_semver(all, i as int) == (match best_semver {
                Some(b) => b as int,
                None => -1,
            }),
            latest_plain(all, i as int) == (match best_plain {
                Some(b) => b as int,
                None => -1,
            }),
            best_semver matches Some(b) ==> forall|j: int|
                0 <= j < i && j != b && is_semver_tag(#[trigger] all[j]) ==> tag_order(
                    all[b as int],
                    all[j],
                ) != Precedence::Lower,
        decreases tags.len() - i,
    {
        let v = chars_of(tags[i].as_str());
        let bare = bare_version(&v);
        proof {
            lemma_latest_semver(all, i as int);
            assert(all[i as int] == v@);
        }
        if parses_as_semver(bare.as_str()) {
            match best_semver {
                None => {
                    best_semver = Some(i);
                },
                Some(b) => {
                    let other = chars_of(tags[b].as_str());
                    let other_bare = bare_version(&other);
                    assert(all[b as int] == other@);
                    let order = semver_compare(bare.as_str(), other_bare.as_str());
                    match order {
                        Precedence::Lower => {
                            assert(tag_order(all[b as int], all[i as int]) == Precedence::Higher);
                        },
                        _ => {
                            proof {
                                assert(tag_order(all[i as int], all[b as int]) != Precedence::Lower);
                                assert forall|j: int|
                                    0 <= j < i && is_semver_tag(
                                        #[trigger] all[j],
                                    ) implies tag_order(all[i as int], all[j])
                                    != Precedence::Lower by {
                                    if j != b {
                                        assert(tag_order(all[b as int], all[j])
                                            != Precedence::Lower);
                                        assert(semver_order(other_bare@, strip_v(all[j]))
                                            != Precedence::Lower);
                                    }
                                }
                            }
                            best_semver = Some(i);
                        },
                    }
                },
            }
        } else {
            match best_plain {
                None => {
                    best_plain = Some(i);
                },
                Some(b) => {
                    let other = chars_of(tags[b].as_str());
                    if !text_is_less(&v, &other) {
                        best_plain = Some(i);
                    }
                },
            }
        }
        i += 1;
    }
    proof {
        lemma_latest_semver(all, tags@.len() as int);
        lemma_latest_plain(all, tags@.len() as int);
        if tags@.len() > 0 && latest_semver(all, tags@.len() as int) < 0 {
            assert(!is_semver_tag(all[0]));
        }
        if exists|i: int| 0 <= i < tags@.len() && is_semver_tag(#[trigger] tags@[i]@) {
            let i = choose|i: int| 0 <= i < tags@.len() && is_semver_tag(#[trigger] tags@[i]@);
            assert(is_semver_tag(all[i]));
        }
        if best_semver is None && tags@.len() > 0 {
            assert(!is_semver_tag(all[latest_plain(all, tags@.len() as int)]));
        }
    }
    match best_semver {
        Some(b) => Some(tags[b].clone()),
        None => match best_plain {
            Some(b) => Some(tags[b].clone()),
            None => None,
        },
    }
}

/// The text of a tag without the one `v` or `V` that may stand before a
/// version.
fn bare_version(v: &Vec<char>) -> (r: String)
    ensures
        r@ == strip_v(v@),
{
    if v.len() > 0 && (v[0] == 'v' || v[0] == 'V') {
        let r = text_of_range(v, 1, v.len());
        assert(v@.subrange(1, v.len() as int) == v@.drop_first());
        r
    } else {
        text_of(v)
    }
}

/// What is to be reported, given the latest tag of the remote and the tag
/// recorded: the latest where the two differ, and nothing where they agree.
pub open spec fn tag_news(latest: Option<Seq<char>>, current: Option<Seq<char>>) -> Option<
    Seq<char>,
> {
    if latest == current {
        None
    } else {
        latest
    }
}

/// The text of a string that may be absent.
pub open spec fn opt_view(s: Option<String>) -> Option<Seq<char>> {
    match s {
        Some(t) => Some(t@),
        None => None,
    }
}

/// The new latest tag of a remote with the references `ref_names`, where
/// `current` is the tag recorded: the latest tag of the remote where it is
/// another than the one recorded, and `None` where nothing has changed. A
/// semantic version that is reported is lower than no other semantic
/// version among the tags of the remote.
pub fn check_for_new_tag(ref_names: &Vec<String>, current: &Option<String>) -> (r: Option<String>)
    ensures
        opt_view(r) == tag_news(latest_of(tags_of(views(ref_names@))), opt_view(*current)),
        r matches Some(t) ==> is_semver_tag(t@) ==> is_greatest_version(
            t@,
            latest_index(tags_of(views(ref_names@))),
            tags_of(views(ref_names@)),
        ),
{
    let tags = tag_names(ref_names);
    let latest = latest_tag(&tags);
    let same = match (&latest, current) {
        (Some(a), Some(b)) => a.as_str().eq(b.as_str()),
        (None, None) => true,
        _ => false,
    };
    if same {
        None
    } else {
        latest
    }
}

} // verus!
