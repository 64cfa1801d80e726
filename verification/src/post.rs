use vstd::prelude::*;

verus! {

/// One persisted submission: the record the store holds and the feed
/// serves. `image` and `avatar` are `None` when the corresponding field
/// was never submitted, was empty, or (for the avatar) when no fetch was
/// requested; when present they name a blob that was materialized before
/// the record was committed.
#[derive(Debug)]
pub struct Blogpost {
    pub id: String,
    pub text: String,
    pub date: String,
    pub image: Option<String>,
    pub username: String,
    pub avatar: Option<String>,
}

/// The mathematical value of a post: every field as its character
/// sequence.
#[verifier::ext_equal]
pub struct PostView {
    pub id: Seq<char>,
    pub text: Seq<char>,
    pub date: Seq<char>,
    pub image: Option<Seq<char>>,
    pub username: Seq<char>,
    pub avatar: Option<Seq<char>>,
}

pub open spec fn opt_view(o: Option<String>) -> Option<Seq<char>> {
    match o {
        Some(s) => Some(s@),
        None => None,
    }
}

impl View for Blogpost {
    type V = PostView;

    open spec fn view(&self) -> PostView {
        PostView {
            id: self.id@,
            text: self.text@,
            date: self.date@,
            image: opt_view(self.image),
            username: self.username@,
            avatar: opt_view(self.avatar),
        }
    }
}

/// The views of a sequence of posts, index by index.
pub open spec fn posts_view(s: Seq<Blogpost>) -> Seq<PostView> {
    Seq::new(s.len(), |i: int| s[i]@)
}

fn clone_opt(o: &Option<String>) -> (r: Option<String>)
    ensures
        r == *o,
{
    match o {
        Some(s) => Some(s.clone()),
        None => None,
    }
}

impl Clone for Blogpost {
    fn clone(&self) -> (r: Self)
        ensures
            r == *self,
    {
        Blogpost {
            id: self.id.clone(),
            text: self.text.clone(),
            date: self.date.clone(),
            image: clone_opt(&self.image),
            username: self.username.clone(),
            avatar: clone_opt(&self.avatar),
        }
    }
}

} // verus!
