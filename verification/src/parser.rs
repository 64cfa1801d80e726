use vstd::prelude::*;
use vstd::string::StringExecFns;
use vstd::utf8::{decode_utf8, valid_utf8};
use crate::errors::AppError;
use crate::post::{opt_view, Blogpost, PostView};

verus! {

/// One multipart field as the transport hands it over: the part's name,
/// if it carried one, and its raw byte payload.
#[derive(Debug)]
pub struct RawField {
    pub name: Option<String>,
    pub data: Vec<u8>,
}

#[verifier::ext_equal]
pub struct RawFieldView {
    pub name: Option<Seq<char>>,
    pub data: Seq<u8>,
}

impl View for RawField {
    type V = RawFieldView;

    open spec fn view(&self) -> RawFieldView {
        RawFieldView { name: opt_view(self.name), data: self.data@ }
    }
}

/// The views of a field sequence, index by index.
pub open spec fn fields_view(s: Seq<RawField>) -> Seq<RawFieldView> {
    Seq::new(s.len(), |i: int| s[i]@)
}

/// What handling one field does to a draft, before any I/O happens: the
/// recognized-field table of the submission format.
pub enum FieldStep {
    /// An unnamed field, or text that is not valid UTF-8: the submission
    /// is malformed.
    Reject,
    SetText(Seq<char>),
    SetUsername(Seq<char>),
    /// A non-empty `image` payload: write these bytes as a blob.
    StoreImage(Seq<u8>),
    /// A non-empty `avatar_url`: fetch this URL and store the response
    /// body as a blob.
    FetchAvatar(Seq<char>),
    /// Empty attachment fields and unrecognized names are ignored.
    Skip,
}

pub open spec fn field_step(f: RawFieldView) -> FieldStep {
    match f.name {
        None => FieldStep::Reject,
        Some(n) => {
            if n == "text"@ {
                if valid_utf8(f.data) {
                    FieldStep::SetText(decode_utf8(f.data))
                } else {
                    FieldStep::Reject
                }
            } else if n == "username"@ {
                if valid_utf8(f.data) {
                    FieldStep::SetUsername(decode_utf8(f.data))
                } else {
                    FieldStep::Reject
                }
            } else if n == "image"@ {
                if f.data.len() == 0 {
                    FieldStep::Skip
                } else {
                    FieldStep::StoreImage(f.data)
                }
            } else if n == "avatar_url"@ {
                if !valid_utf8(f.data) {
                    FieldStep::Reject
                } else if decode_utf8(f.data).len() == 0 {
                    FieldStep::Skip
                } else {
                    FieldStep::FetchAvatar(decode_utf8(f.data))
                }
            } else {
                FieldStep::Skip
            }
        },
    }
}

/// A pending materialization, handed back to the pipeline's caller: the
/// blob name the draft already references, with either the bytes to write
/// or the URL whose response body to store under that name.
#[derive(Debug)]
pub enum BlobAction {
    WriteBlob { name: String, data: Vec<u8> },
    FetchBlob { name: String, url: String },
}

#[verifier::ext_equal]
pub enum BlobActionView {
    WriteBlob { name: Seq<char>, data: Seq<u8> },
    FetchBlob { name: Seq<char>, url: Seq<char> },
}

impl View for BlobAction {
    type V = BlobActionView;

    open spec fn view(&self) -> BlobActionView {
        match self {
            BlobAction::WriteBlob { name, data } => BlobActionView::WriteBlob {
                name: name@,
                data: data@,
            },
            BlobAction::FetchBlob { name, url } => BlobActionView::FetchBlob {
                name: name@,
                url: url@,
            },
        }
    }
}

impl BlobActionView {
    /// The blob reference this materialization fills.
    pub open spec fn blob(self) -> Seq<char> {
        match self {
            BlobActionView::WriteBlob { name, data } => name,
            BlobActionView::FetchBlob { name, url } => name,
        }
    }
}

/// The views of an action sequence, index by index.
pub open spec fn actions_view(s: Seq<BlobAction>) -> Seq<BlobActionView> {
    Seq::new(s.len(), |i: int| s[i]@)
}

/// Whether a materialization carries out one parsing step: a stored image
/// holds exactly the bytes the field supplied, a fetched avatar exactly
/// the URL.
pub open spec fn action_matches(a: BlobActionView, s: FieldStep) -> bool {
    match s {
        FieldStep::StoreImage(d) => (a matches BlobActionView::WriteBlob { data, .. } && data == d),
        FieldStep::FetchAvatar(u) => (a matches BlobActionView::FetchBlob { url, .. } && url == u),
        _ => false,
    }
}

/// A well-formed blob reference: a fresh name directly under the media
/// root, "images/<identifier>.png".
pub open spec fn is_blob_ref(s: Seq<char>) -> bool {
    &&& s.len() == 47
    &&& s.subrange(0, 7) == "images/"@
    &&& s.subrange(43, 47) == ".png"@
}

/// Relies on uuid::Uuid::new_v4 and its hyphenated display form: a fresh
/// random identifier, printed as 36 characters. Nothing more is assumed
/// of the value: it depends on the generator.
#[verifier::external_body]
pub(crate) fn fresh_id() -> (r: String)
    ensures
        r@.len() == 36,
{
    uuid::Uuid::new_v4().to_string()
}

/// Relies on chrono::Utc::now and DateTime::to_rfc3339: the current
/// instant rendered as an RFC 3339 string. Nothing is assumed of the
/// value: it depends on the clock.
#[verifier::external_body]
pub(crate) fn now_rfc3339() -> String {
    chrono::Utc::now().to_rfc3339()
}

/// Relies on String::from_utf8: it succeeds exactly on valid UTF-8 input
/// and returns the decoded characters.
#[verifier::external_body]
fn utf8_to_string(data: Vec<u8>) -> (r: Option<String>)
    ensures
        r is Some <==> valid_utf8(data@),
        r is Some ==> r->0@ == decode_utf8(data@),
{
    String::from_utf8(data).ok()
}

/// A fresh reference under the media root: "images/", a new identifier,
/// ".png".
fn blob_name() -> (r: String)
    ensures
        is_blob_ref(r@),
{
    let id = fresh_id();
    let mut r: String = "images/".to_owned();
    r.append(id.as_str());
    r.append(".png");
    proof {
        reveal_strlit("images/");
        reveal_strlit(".png");
        assert(r@.subrange(0, 7) =~= "images/"@);
        assert(r@.subrange(43, 47) =~= ".png"@);
    }
    r
}

fn name_is(name: &String, lit: &str) -> (r: bool)
    ensures
        r == (name@ == lit@),
{
    let l = lit.to_owned();
    name.eq(&l)
}

/// Applies one multipart field to the draft post, per the recognized-field
/// table. Returns the materialization the field asks for, if any; the
/// draft's identity and timestamp are never touched, and a rejected field
/// leaves the draft exactly as it was.
pub fn apply_field(post: &mut Blogpost, field: RawField) -> (r: Result<
    Option<BlobAction>,
    AppError,
>)
    ensures
        (match field_step(field@) {
            FieldStep::Reject => (r is Err && r->Err_0 is MalformedSubmission && final(post)@
                == old(post)@),
            FieldStep::SetText(t) => (r is Ok && r->Ok_0 is None && final(post)@ == (PostView {
                text: t,
                ..old(post)@
            })),
            FieldStep::SetUsername(u) => (r is Ok && r->Ok_0 is None && final(post)@ == (PostView {
                username: u,
                ..old(post)@
            })),
            FieldStep::StoreImage(d) => (r is Ok && (r->Ok_0 matches Some(a) && action_matches(
                a@,
                field_step(field@),
            ) && is_blob_ref(a@.blob()) && final(post)@ == (PostView {
                image: Some(a@.blob()),
                ..old(post)@
            }))),
            FieldStep::FetchAvatar(u) => (r is Ok && (r->Ok_0 matches Some(a) && action_matches(
                a@,
                field_step(field@),
            ) && is_blob_ref(a@.blob()) && final(post)@ == (PostView {
                avatar: Some(a@.blob()),
                ..old(post)@
            }))),
            FieldStep::Skip => (r is Ok && r->Ok_0 is None && final(post)@ == old(post)@),
        }),
{
    let RawField { name: field_name, data } = field;
    match field_name {
        None => Err(
            AppError::MalformedSubmission("multipart field without a name".to_owned()),
        ),
        Some(name) => {
            if name_is(&name, "text") {
                match utf8_to_string(data) {
                    Some(s) => {
                        post.text = s;
                        Ok(None)
                    },
                    None => Err(
                        AppError::MalformedSubmission("text field is not valid UTF-8".to_owned()),
                    ),
                }
            } else if name_is(&name, "username") {
                match utf8_to_string(data) {
                    Some(s) => {
                        post.username = s;
                        Ok(None)
                    },
                    None => Err(
                        AppError::MalformedSubmission(
                            "username field is not valid UTF-8".to_owned(),
                        ),
                    ),
                }
            } else if name_is(&name, "image") {
                if data.len() == 0 {
                    Ok(None)
                } else {
                    let n = blob_name();
                    post.image = Some(n.clone());
                    Ok(Some(BlobAction::WriteBlob { name: n, data }))
                }
            } else if name_is(&name, "avatar_url") {
                match utf8_to_string(data) {
                    Some(url) => {
                        if url.as_str().is_empty() {
                            Ok(None)
                        } else {
                            let n = blob_name();
                            post.avatar = Some(n.clone());
                            Ok(Some(BlobAction::FetchBlob { name: n, url }))
                        }
                    },
                    None => Err(
                        AppError::MalformedSubmission(
                            "avatar_url field is not valid UTF-8".to_owned(),
                        ),
                    ),
                }
            } else {
                Ok(None)
            }
        },
    }
}

} // verus!
