use vstd::prelude::*;
use vstd::seq_lib::group_to_multiset_ensures;
use crate::errors::AppError;
use crate::order::{date_le, lemma_lex_le_total, lemma_lex_le_trans, lex_le, sorted_desc};
use crate::post::{posts_view, Blogpost, PostView};

verus! {

/// No two records share an id.
pub open spec fn distinct_ids(s: Seq<PostView>) -> bool {
    forall|i: int, j: int| 0 <= i < j < s.len() ==> s[i].id != s[j].id
}

/// Whether some record in `s` carries the id.
pub open spec fn contains_post_id(s: Seq<PostView>, id: Seq<char>) -> bool {
    exists|i: int| 0 <= i < s.len() && s[i].id == id
}

/// The record store: the full set of committed posts, keyed by id. It
/// stands behind the same contract a durable backend satisfies: one
/// atomic, constraint-checked append per accepted submission, and a
/// query that returns every record in display order.
pub struct Store {
    posts: Vec<Blogpost>,
}

impl Store {
    /// The committed records, in commit order.
    pub closed spec fn contents(&self) -> Seq<PostView> {
        posts_view(self.posts@)
    }

    /// The store's invariant: ids are unique. `new` establishes it and
    /// every method preserves it.
    pub closed spec fn wf(&self) -> bool {
        distinct_ids(self.contents())
    }

    /// An empty store: initialization creates no records, and doing it
    /// again changes nothing.
    pub fn new() -> (r: Store)
        ensures
            r.wf(),
            r.contents() == Seq::<PostView>::empty(),
    {
        let r = Store { posts: Vec::new() };
        proof {
            assert(r.contents() =~= Seq::<PostView>::empty());
        }
        r
    }

    pub fn len(&self) -> (n: usize)
        ensures
            n == self.contents().len(),
    {
        self.posts.len()
    }

    /// Whether a record with this id has been committed.
    pub fn contains_id(&self, id: &String) -> (r: bool)
        ensures
            r == contains_post_id(self.contents(), id@),
    {
        let n = self.posts.len();
        let mut i: usize = 0;
        while i < n
            invariant
                i <= n,
                n == self.contents().len(),
                forall|q: int| 0 <= q < i ==> self.contents()[q].id != id@,
            decreases n - i,
        {
            if self.posts[i].id.eq(id) {
                proof {
                    assert(self.contents()[i as int].id == id@);
                }
                return true;
            }
            i = i + 1;
        }
        false
    }

    /// Storage Backend insert: appends one record keyed by its id, whole
    /// or not at all. A duplicate id is a constraint violation: it is
    /// rejected and the store is left unchanged.
    pub fn insert(&mut self, post: Blogpost) -> (r: Result<(), AppError>)
        requires
            old(self).wf(),
        ensures
            final(self).wf(),
            (r is Ok <==> !contains_post_id(old(self).contents(), post@.id)),
            r is Ok ==> final(self).contents() == old(self).contents().push(post@),
            r is Err ==> final(self).contents() == old(self).contents(),
            r is Err ==> r->Err_0 is StorageWriteError,
    {
        if self.contains_id(&post.id) {
            Err(AppError::StorageWriteError("duplicate record id".to_owned()))
        } else {
            self.posts.push(post);
            proof {
                assert(self.contents() =~= old(self).contents().push(post@));
            }
            Ok(())
        }
    }

    /// Feed Reader: every committed record, most recent first. The result
    /// is a permutation of the store's contents, sorted by date
    /// descending; records with equal dates keep no specified order.
    pub fn list_posts(&self) -> (r: Vec<Blogpost>)
        ensures
            posts_view(r@).to_multiset() == self.contents().to_multiset(),
            sorted_desc(posts_view(r@)),
            r@.len() == self.contents().len(),
    {
        broadcast use group_to_multiset_ensures;

        let n = self.posts.len();
        let mut out: Vec<Blogpost> = Vec::new();
        let mut i: usize = 0;
        proof {
            assert(posts_view(out@) =~= Seq::<PostView>::empty());
            assert(self.contents().take(0) =~= Seq::<PostView>::empty());
        }
        while i < n
            invariant
                i <= n,
                n == self.contents().len(),
                out@.len() == i,
                posts_view(out@).to_multiset() == self.contents().take(i as int).to_multiset(),
                sorted_desc(posts_view(out@)),
            decreases n - i,
        {
            let p = self.posts[i].clone();
            let ghost pv = p@;
            let ghost oldv = posts_view(out@);
            let mut j: usize = 0;
            while j < out.len() && !date_le(&out[j].date, &p.date)
                invariant
                    j <= out@.len(),
                    posts_view(out@) == oldv,
                    pv == self.contents()[i as int],
                    p@ == pv,
                    i < n,
                    forall|q: int| 0 <= q < j ==> !lex_le(oldv[q].date, pv.date),
                decreases out@.len() - j,
            {
                j = j + 1;
            }
            proof {
                assert forall|q: int| 0 <= q < j implies lex_le(pv.date, oldv[q].date) by {
                    lemma_lex_le_total(oldv[q].date, pv.date);
                }
            }
            out.insert(j, p);
            proof {
                let newv = posts_view(out@);
                assert(newv =~= oldv.insert(j as int, pv));
                assert forall|x: int, y: int| 0 <= x < y < newv.len() implies lex_le(
                    newv[y].date,
                    newv[x].date,
                ) by {
                    if y < j {
                        assert(newv[x] == oldv[x] && newv[y] == oldv[y]);
                    } else if y == j {
                        assert(newv[y] == pv && newv[x] == oldv[x]);
                    } else if x < j {
                        assert(newv[x] == oldv[x] && newv[y] == oldv[y - 1]);
                    } else if x == j {
                        assert(newv[x] == pv && newv[y] == oldv[y - 1]);
                        assert(lex_le(oldv[j as int].date, pv.date));
                        if j < y - 1 {
                            assert(lex_le(oldv[y - 1].date, oldv[j as int].date));
                            lemma_lex_le_trans(oldv[y - 1].date, oldv[j as int].date, pv.date);
                        }
                    } else {
                        assert(newv[x] == oldv[x - 1] && newv[y] == oldv[y - 1]);
                    }
                }
                vstd::seq_lib::to_multiset_insert(oldv, j as int, pv);
                assert(self.contents().take(i + 1) =~= self.contents().take(i as int).push(
                    self.contents()[i as int],
                ));
                vstd::seq_lib::to_multiset_build(
                    self.contents().take(i as int),
                    self.contents()[i as int],
                );
                assert(newv.to_multiset() == self.contents().take(i + 1).to_multiset());
            }
            i = i + 1;
        }
        proof {
            assert(self.contents().take(n as int) =~= self.contents());
        }
        out
    }
}

} // verus!
