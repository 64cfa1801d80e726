use vstd::prelude::*;
use crate::errors::AppError;
use crate::parser::{
    action_matches, actions_view, apply_field, field_step, fields_view, fresh_id, is_blob_ref,
    now_rfc3339, BlobAction, BlobActionView, FieldStep, RawField, RawFieldView,
};
use crate::post::{Blogpost, PostView};
use crate::store::{contains_post_id, Store};

verus! {

/// The cumulative effect of a field sequence on an empty draft: the final
/// text and username, the materialization steps in arrival order, and
/// which of them (the last of each kind) the draft's attachment
/// references point at.
#[verifier::ext_equal]
pub struct ParseModel {
    pub text: Seq<char>,
    pub username: Seq<char>,
    pub mats: Seq<FieldStep>,
    pub image_at: Option<int>,
    pub avatar_at: Option<int>,
}

pub open spec fn empty_model() -> ParseModel {
    ParseModel {
        text: Seq::empty(),
        username: Seq::empty(),
        mats: Seq::empty(),
        image_at: None,
        avatar_at: None,
    }
}

pub open spec fn model_step(m: ParseModel, s: FieldStep) -> ParseModel {
    match s {
        FieldStep::SetText(t) => ParseModel { text: t, ..m },
        FieldStep::SetUsername(u) => ParseModel { username: u, ..m },
        FieldStep::StoreImage(_) => ParseModel {
            mats: m.mats.push(s),
            image_at: Some(m.mats.len() as int),
            ..m
        },
        FieldStep::FetchAvatar(_) => ParseModel {
            mats: m.mats.push(s),
            avatar_at: Some(m.mats.len() as int),
            ..m
        },
        _ => m,
    }
}

/// The submission grammar: fields are folded left to right, each field
/// processed exactly once, and the first rejected field fails the whole
/// submission (`None`).
pub open spec fn parse_fold(fields: Seq<RawFieldView>) -> Option<ParseModel>
    decreases fields.len(),
{
    if fields.len() == 0 {
        Some(empty_model())
    } else {
        match parse_fold(fields.drop_last()) {
            None => None,
            Some(m) => {
                if field_step(fields.last()) is Reject {
                    None
                } else {
                    Some(model_step(m, field_step(fields.last())))
                }
            },
        }
    }
}

/// Internal consistency of a parse model: every recorded step is a
/// materialization, and each attachment reference points at a recorded
/// step of the right kind.
pub open spec fn model_wf(m: ParseModel) -> bool {
    &&& (forall|i: int|
        0 <= i < m.mats.len() ==> (#[trigger] m.mats[i] is StoreImage || m.mats[i] is FetchAvatar))
    &&& (m.image_at matches Some(j) ==> 0 <= j < m.mats.len() && m.mats[j] is StoreImage)
    &&& (m.avatar_at matches Some(j) ==> 0 <= j < m.mats.len() && m.mats[j] is FetchAvatar)
}

pub proof fn lemma_parse_fold_wf(fields: Seq<RawFieldView>)
    ensures
        parse_fold(fields) matches Some(m) ==> model_wf(m),
    decreases fields.len(),
{
    if fields.len() > 0 {
        lemma_parse_fold_wf(fields.drop_last());
    }
}

/// A submission that fails on some prefix fails as a whole.
pub proof fn lemma_parse_fold_prefix_none(fields: Seq<RawFieldView>, n: int)
    requires
        0 <= n <= fields.len(),
        parse_fold(fields.take(n)) is None,
    ensures
        parse_fold(fields) is None,
    decreases fields.len(),
{
    if fields.len() > n {
        assert(fields.drop_last().take(n) =~= fields.take(n));
        lemma_parse_fold_prefix_none(fields.drop_last(), n);
    } else {
        assert(fields.take(n) =~= fields);
    }
}

/// Unfolds one step of the fold at a prefix boundary.
pub proof fn lemma_parse_fold_snoc(fields: Seq<RawFieldView>, k: int)
    requires
        0 <= k < fields.len(),
    ensures
        parse_fold(fields.take(k + 1)) == (match parse_fold(fields.take(k)) {
            None => None::<ParseModel>,
            Some(m) => {
                if field_step(fields[k]) is Reject {
                    None
                } else {
                    Some(model_step(m, field_step(fields[k])))
                }
            },
        }),
{
    assert(fields.take(k + 1).drop_last() =~= fields.take(k));
    assert(fields.take(k + 1).last() == fields[k]);
}

/// What a successful parse guarantees: the draft agrees with the model of
/// its field sequence, and the pending materializations carry out the
/// model's steps, in order, each under a fresh well-formed blob name that
/// the draft's attachment references point at.
pub open spec fn parse_result_ok(
    fields: Seq<RawFieldView>,
    post: PostView,
    acts: Seq<BlobActionView>,
) -> bool {
    &&& (parse_fold(fields) matches Some(m) && {
        &&& post.text == m.text
        &&& post.username == m.username
        &&& acts.len() == m.mats.len()
        &&& (forall|i: int| 0 <= i < acts.len() ==> #[trigger] action_matches(acts[i], m.mats[i]))
        &&& (forall|i: int| 0 <= i < acts.len() ==> is_blob_ref(#[trigger] acts[i].blob()))
        &&& (match m.image_at {
            None => post.image is None,
            Some(j) => post.image == Some(acts[j].blob()),
        })
        &&& (match m.avatar_at {
            None => post.avatar is None,
            Some(j) => post.avatar == Some(acts[j].blob()),
        })
    })
    &&& post.id.len() == 36
}

/// Drives one whole submission: assigns a fresh identity and the commit
/// timestamp up front, folds every field into the draft in arrival order,
/// and collects the materializations the caller must perform before the
/// record may be committed. Fails on the first malformed field.
pub fn parse_submission(fields: Vec<RawField>) -> (r: Result<(Blogpost, Vec<BlobAction>), AppError>)
    ensures
        (r is Ok <==> parse_fold(fields_view(fields@)) is Some),
        r is Err ==> r->Err_0 is MalformedSubmission,
        r is Ok ==> parse_result_ok(fields_view(fields@), r->Ok_0.0@, actions_view(r->Ok_0.1@)),
{
    let mut post = Blogpost {
        id: fresh_id(),
        text: String::new(),
        date: now_rfc3339(),
        image: None,
        username: String::new(),
        avatar: None,
    };
    let mut acts: Vec<BlobAction> = Vec::new();
    let ghost all: Seq<RawFieldView> = fields_view(fields@);
    let ghost id0: Seq<char> = post@.id;
    let mut rest = fields;
    let mut failure: Option<AppError> = None;
    let ghost mut k: int = 0;
    proof {
        assert(fields_view(rest@) =~= all.skip(0));
        assert(all.take(0) =~= Seq::<RawFieldView>::empty());
    }
    loop
        invariant_except_break
            0 <= k <= all.len(),
            rest@.len() == all.len() - k,
            fields_view(rest@) == all.skip(k),
            parse_fold(all.take(k)) is Some,
            failure is None,
            post@.id == id0,
            id0.len() == 36,
            ({
                let m = parse_fold(all.take(k))->0;
                &&& post@.text == m.text
                &&& post@.username == m.username
                &&& acts@.len() == m.mats.len()
                &&& (forall|i: int|
                    0 <= i < acts@.len() ==> #[trigger] action_matches(acts@[i]@, m.mats[i]))
                &&& (forall|i: int| 0 <= i < acts@.len() ==> is_blob_ref(#[trigger] acts@[i]@.blob()))
                &&& (match m.image_at {
                    None => post@.image is None,
                    Some(j) => post@.image == Some(acts@[j]@.blob()),
                })
                &&& (match m.avatar_at {
                    None => post@.avatar is None,
                    Some(j) => post@.avatar == Some(acts@[j]@.blob()),
                })
            }),
        ensures
            post@.id == id0,
            id0.len() == 36,
            (match failure {
                Some(e) => e is MalformedSubmission && parse_fold(all) is None,
                None => parse_fold(all) is Some && ({
                    let m = parse_fold(all)->0;
                    &&& post@.text == m.text
                    &&& post@.username == m.username
                    &&& acts@.len() == m.mats.len()
                    &&& (forall|i: int|
                        0 <= i < acts@.len() ==> #[trigger] action_matches(acts@[i]@, m.mats[i]))
                    &&& (forall|i: int|
                        0 <= i < acts@.len() ==> is_blob_ref(#[trigger] acts@[i]@.blob()))
                    &&& (match m.image_at {
                        None => post@.image is None,
                        Some(j) => post@.image == Some(acts@[j]@.blob()),
                    })
                    &&& (match m.avatar_at {
                        None => post@.avatar is None,
                        Some(j) => post@.avatar == Some(acts@[j]@.blob()),
                    })
                }),
            }),
        decreases rest@.len(),
    {
        if rest.len() == 0 {
            proof {
                assert(all.take(k) =~= all);
            }
            break;
        }
        let ghost m = parse_fold(all.take(k))->0;
        let f = rest.remove(0);
        proof {
            assert(fields_view(rest@) =~= all.skip(k + 1)) by {
                assert(forall|i: int|
                    0 <= i < rest@.len() ==> all.skip(k)[i + 1] == #[trigger] all.skip(k + 1)[i]);
            }
            assert(f@ == all.skip(k)[0]);
            assert(f@ == all[k]);
            lemma_parse_fold_snoc(all, k);
            lemma_parse_fold_wf(all.take(k));
            lemma_parse_fold_wf(all.take(k + 1));
        }
        let step_result = apply_field(&mut post, f);
        match step_result {
            Err(e) => {
                proof {
                    assert(parse_fold(all.take(k + 1)) is None);
                    lemma_parse_fold_prefix_none(all, k + 1);
                }
                failure = Some(e);
                break;
            },
            Ok(None) => {
                proof {
                    k = k + 1;
                }
            },
            Ok(Some(a)) => {
                acts.push(a);
                proof {
                    k = k + 1;
                }
            },
        }
    }
    match failure {
        Some(e) => Err(e),
        None => {
            proof {
                lemma_parse_fold_wf(all);
                assert(forall|i: int|
                    0 <= i < acts@.len() ==> #[trigger] actions_view(acts@)[i] == acts@[i]@);
            }
            Ok((post, acts))
        },
    }
}

/// Fail-fast tail of the ingestion pipeline: the completed record
/// reaches the store only when every materialization succeeded. A failed
/// submission leaves the store exactly as it was and the failure passes
/// through unchanged; no partial record is ever committed.
pub fn commit_submission(
    store: &mut Store,
    post: Blogpost,
    materialized: Result<(), AppError>,
) -> (r: Result<(), AppError>)
    requires
        old(store).wf(),
    ensures
        final(store).wf(),
        materialized is Err ==> final(store).contents() == old(store).contents() && r
            == materialized,
        materialized is Ok ==> {
            &&& (r is Ok <==> !contains_post_id(old(store).contents(), post@.id))
            &&& (r is Ok ==> final(store).contents() == old(store).contents().push(post@))
            &&& (r is Err ==> final(store).contents() == old(store).contents() && r->Err_0
                is StorageWriteError)
        },
{
    match materialized {
        Err(e) => Err(e),
        Ok(()) => store.insert(post),
    }
}

} // verus!
