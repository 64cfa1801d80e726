use vstd::prelude::*;
use vstd::multiset::group_multiset_axioms;
use vstd::seq_lib::group_to_multiset_ensures;
use crate::errors::AppError;
use crate::order::{
    lemma_lex_le_refl, lemma_lex_le_total, lemma_lex_le_trans, lex_le, sorted_desc,
};
use crate::parser::{field_step, BlobActionView, RawFieldView};
use vstd::utf8::{decode_utf8, valid_utf8};
use crate::pipeline::{lemma_parse_fold_wf, parse_fold, parse_result_ok};
use crate::post::PostView;
use crate::store::{contains_post_id, distinct_ids};

verus! {

/// Empty-field policy: an empty `image` payload or an empty `avatar_url`
/// string counts as "field not provided": the field is skipped, so no
/// materialization is requested and the corresponding ref stays absent.
pub proof fn lemma_empty_attachment_skipped(f: RawFieldView)
    requires
        f.data.len() == 0,
        f.name == Some("image"@) || f.name == Some("avatar_url"@),
    ensures
        field_step(f) is Skip,
{
    reveal_strlit("text");
    reveal_strlit("username");
    reveal_strlit("image");
    reveal_strlit("avatar_url");
    assert("image"@.len() == 5);
    assert("text"@.len() == 4);
    assert("username"@.len() == 8);
    assert("avatar_url"@.len() == 10);
    assert("image"@ != "text"@ && "image"@ != "username"@);
    assert("avatar_url"@ != "text"@ && "avatar_url"@ != "username"@ && "avatar_url"@
        != "image"@);
    assert(valid_utf8(f.data));
    assert(decode_utf8(f.data).len() == 0);
}

/// A submission none of whose fields asks for a materialization (text,
/// username, empty attachments, unrecognized names) parses to a model
/// with no materializations, and so to a draft whose refs are absent.
pub proof fn lemma_no_materialization_no_refs(fields: Seq<RawFieldView>)
    requires
        forall|i: int|
            0 <= i < fields.len() ==> !((#[trigger] field_step(fields[i])) is StoreImage
                || field_step(fields[i]) is FetchAvatar),
    ensures
        parse_fold(fields) matches Some(m) ==> m.mats.len() == 0 && m.image_at is None
            && m.avatar_at is None,
    decreases fields.len(),
{
    if fields.len() > 0 {
        assert(forall|i: int|
            0 <= i < fields.drop_last().len() ==> fields.drop_last()[i] == fields[i]);
        lemma_no_materialization_no_refs(fields.drop_last());
    }
}

/// Round trip: a submission with a given text and username and no
/// materializations parses into a draft with exactly that text and
/// username and absent refs; after committing it under its fresh id,
/// any feed of the store (a date-sorted permutation of the records)
/// holds exactly one record with that id, and it is the new post.
pub proof fn lemma_round_trip(
    fields: Seq<RawFieldView>,
    post: PostView,
    acts: Seq<BlobActionView>,
    before: Seq<PostView>,
    feed: Seq<PostView>,
)
    requires
        parse_result_ok(fields, post, acts),
        acts.len() == 0,
        distinct_ids(before),
        !contains_post_id(before, post.id),
        feed.to_multiset() == before.push(post).to_multiset(),
        sorted_desc(feed),
    ensures
        post.image is None,
        post.avatar is None,
        feed.len() == before.len() + 1,
        exists|i: int| 0 <= i < feed.len() && feed[i] == post,
        forall|i: int| 0 <= i < feed.len() && (#[trigger] feed[i]).id == post.id ==> feed[i]
            == post,
        forall|i: int, j: int|
            0 <= i < feed.len() && 0 <= j < feed.len() && feed[i].id == post.id && feed[j].id
                == post.id ==> i == j,
{
    broadcast use group_to_multiset_ensures;
    broadcast use group_multiset_axioms;

    lemma_parse_fold_wf(fields);
    let after = before.push(post);
    assert(after.no_duplicates()) by {
        assert forall|x: int, y: int|
            0 <= x < after.len() && 0 <= y < after.len() && x != y implies after[x] != after[y] by {
            let (a, b) = if x < y {
                (x, y)
            } else {
                (y, x)
            };
            if b < before.len() {
                assert(after[a].id != after[b].id);
            } else {
                assert(after[b] == post);
                if after[a].id == post.id {
                    assert(contains_post_id(before, post.id));
                }
            }
        }
    }
    after.lemma_multiset_has_no_duplicates();
    feed.lemma_multiset_has_no_duplicates_conv();
    vstd::seq_lib::to_multiset_len(feed);
    vstd::seq_lib::to_multiset_len(after);
    assert(feed.len() == after.len());
    assert(after[before.len() as int] == post);
    assert(after.contains(post));
    assert(feed.to_multiset().count(post) > 0);
    assert(feed.contains(post));
    assert forall|i: int|
        0 <= i < feed.len() && (#[trigger] feed[i]).id == post.id implies feed[i] == post by {
        assert(feed.contains(feed[i]));
        assert(after.to_multiset().count(feed[i]) > 0);
        assert(after.contains(feed[i]));
        let q = choose|q: int| 0 <= q < after.len() && after[q] == feed[i];
        if q < before.len() {
            assert(before[q] == feed[i]);
            assert(contains_post_id(before, post.id));
            assert(false);
        }
        assert(feed[i] == post);
    }
}

/// Ordering: posts submitted at strictly increasing times are listed
/// newest first: a date-sorted permutation of three records with dates
/// t1 < t2 < t3 is exactly [t3, t2, t1].
pub proof fn lemma_feed_ordering(p1: PostView, p2: PostView, p3: PostView, feed: Seq<PostView>)
    requires
        !lex_le(p2.date, p1.date),
        !lex_le(p3.date, p2.date),
        feed.to_multiset() == seq![p1, p2, p3].to_multiset(),
        sorted_desc(feed),
    ensures
        feed == seq![p3, p2, p1],
{
    broadcast use group_to_multiset_ensures;
    broadcast use group_multiset_axioms;

    let s = seq![p1, p2, p3];
    assert(s.len() == 3 && s[0] == p1 && s[1] == p2 && s[2] == p3);
    lemma_lex_le_total(p1.date, p2.date);
    lemma_lex_le_total(p2.date, p3.date);
    lemma_lex_le_trans(p1.date, p2.date, p3.date);
    assert(p1.date != p2.date) by {
        if p1.date == p2.date {
            lemma_lex_le_refl(p1.date);
        }
    }
    assert(p2.date != p3.date) by {
        if p2.date == p3.date {
            lemma_lex_le_refl(p2.date);
        }
    }
    assert(p1.date != p3.date);
    assert(s.no_duplicates());
    s.lemma_multiset_has_no_duplicates();
    feed.lemma_multiset_has_no_duplicates_conv();
    vstd::seq_lib::to_multiset_len(feed);
    vstd::seq_lib::to_multiset_len(s);
    assert(feed.len() == 3);
    assert(s.contains(p1) && s.contains(p2) && s.contains(p3));
    assert(feed.to_multiset().count(p1) > 0 && feed.to_multiset().count(p2) > 0
        && feed.to_multiset().count(p3) > 0);
    assert(feed.contains(p1) && feed.contains(p2) && feed.contains(p3));
    let i1 = choose|i: int| 0 <= i < feed.len() && feed[i] == p1;
    let i2 = choose|i: int| 0 <= i < feed.len() && feed[i] == p2;
    let i3 = choose|i: int| 0 <= i < feed.len() && feed[i] == p3;
    assert(i1 != i2 && i2 != i3 && i1 != i3);
    assert(i3 == 0) by {
        if i3 != 0 {
            assert(lex_le(feed[i3].date, feed[0].date));
            if feed[0] == p1 {
                lemma_lex_le_trans(p3.date, p1.date, p2.date);
            } else if feed[0] == p2 {
            } else {
                assert(feed.to_multiset().count(feed[0]) > 0);
                assert(s.contains(feed[0]));
                let q = choose|q: int| 0 <= q < s.len() && s[q] == feed[0];
                assert(feed[0] == p3);
                assert(i3 == 0);
            }
        }
    }
    assert(i1 == 2) by {
        if i1 != 2 {
            assert(lex_le(feed[2].date, feed[i1].date));
            assert(feed.to_multiset().count(feed[2]) > 0);
            assert(s.contains(feed[2]));
            let q = choose|q: int| 0 <= q < s.len() && s[q] == feed[2];
            if feed[2] == p2 {
            } else if feed[2] == p3 {
                lemma_lex_le_trans(p3.date, p1.date, p2.date);
            } else {
                assert(feed[2] == p1);
                assert(i1 == 2);
            }
        }
    }
    assert(i2 == 1) by {
        assert(0 <= i2 < 3);
    }
    assert(feed =~= seq![p3, p2, p1]);
}

/// Concurrent submission safety at the store: records committed with
/// pairwise distinct fresh ids — in whatever order their inserts
/// interleave — leave every prior record and every new one in place,
/// with all ids still distinct: nothing is lost and nothing merges.
pub proof fn lemma_concurrent_distinct_ids(before: Seq<PostView>, added: Seq<PostView>)
    requires
        distinct_ids(before),
        distinct_ids(added),
        forall|i: int|
            0 <= i < added.len() ==> !contains_post_id(before, (#[trigger] added[i]).id),
    ensures
        distinct_ids(before + added),
        (before + added).len() == before.len() + added.len(),
        forall|i: int|
            0 <= i < added.len() ==> contains_post_id(before + added, (#[trigger] added[i]).id),
{
    let all = before + added;
    assert forall|x: int, y: int| 0 <= x < y < all.len() implies all[x].id != all[y].id by {
        if y < before.len() {
        } else if x >= before.len() {
            assert(all[x] == added[x - before.len()] && all[y] == added[y - before.len()]);
        } else {
            assert(all[x] == before[x] && all[y] == added[y - before.len()]);
            if all[x].id == all[y].id {
                assert(contains_post_id(before, added[y - before.len()].id));
                assert(false);
            }
        }
    }
    assert forall|i: int| 0 <= i < added.len() implies contains_post_id(
        all,
        added[i].id,
    ) by {
        assert(all[before.len() + i] == added[i]);
    }
}

/// Fetch failure isolation: a failed avatar fetch is the client's fault
/// and surfaces with status 400; together with `commit_submission`, which
/// leaves the store unchanged on any materialization failure, no record
/// of such a submission ever exists.
pub proof fn lemma_fetch_failure_client_class(e: AppError)
    requires
        e is MediaFetchError,
    ensures
        e.is_client_error(),
        e.spec_status() == 400,
{
}

} // verus!
