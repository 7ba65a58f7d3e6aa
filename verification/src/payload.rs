//! Request bodies staged ahead of a request: multipart parts, the body a
//! request takes from the staged slot, and form serialization.

use vstd::prelude::*;
use crate::encoding::{form_append_pair, form_body, form_pair};
use crate::headers::pairs_view;

verus! {

/// The plain view of a list of `(field, filename, path)` triples.
pub open spec fn triples_view(v: Seq<(String, String, String)>) -> Seq<(Seq<char>, Seq<char>, Seq<char>)> {
    v.map_values(|t: (String, String, String)| (t.0@, t.1@, t.2@))
}

/// The parts of a `multipart/form-data` body: text fields, and file fields
/// given by field name, file name and path on disk.
pub struct MultipartPayload {
    pub text: Vec<(String, String)>,
    pub files: Vec<(String, String, String)>,
}

pub struct MultipartView {
    pub text: Seq<(Seq<char>, Seq<char>)>,
    pub files: Seq<(Seq<char>, Seq<char>, Seq<char>)>,
}

impl View for MultipartPayload {
    type V = MultipartView;

    open spec fn view(&self) -> MultipartView {
        MultipartView { text: pairs_view(self.text@), files: triples_view(self.files@) }
    }
}

/// A multipart body has no part.
pub open spec fn multipart_empty(m: MultipartView) -> bool {
    m.text.len() == 0 && m.files.len() == 0
}

impl MultipartPayload {
    /// A payload with no part.
    pub fn new() -> (m: MultipartPayload)
        ensures
            multipart_empty(m@),
    {
        let m = MultipartPayload { text: Vec::new(), files: Vec::new() };
        assert(m@.text =~= Seq::<(Seq<char>, Seq<char>)>::empty());
        m
    }

    /// Whether the payload has no part.
    pub fn is_empty(&self) -> (r: bool)
        ensures
            r == multipart_empty(self@),
    {
        self.text.len() == 0 && self.files.len() == 0
    }
}

/// The body that a request takes from the staged slot: nothing, text with the
/// `Content-Type` it implies (if any), or multipart parts.
pub enum PreparedBody {
    NoBody,
    Raw(String, Option<String>),
    Multipart(MultipartPayload),
}

pub enum PreparedView {
    NoBody,
    Raw(Seq<char>, Option<Seq<char>>),
    Multipart(MultipartView),
}

impl View for PreparedBody {
    type V = PreparedView;

    open spec fn view(&self) -> PreparedView {
        match self {
            PreparedBody::NoBody => PreparedView::NoBody,
            PreparedBody::Raw(s, ct) => PreparedView::Raw(s@, match ct {
                Some(c) => Some(c@),
                None => None,
            }),
            PreparedBody::Multipart(m) => PreparedView::Multipart(m@),
        }
    }
}

/// The `Content-Type` of a staged JSON body.
pub open spec fn json_content_type() -> Seq<char> {
    "application/json; charset=utf-8"@
}

/// The `Content-Type` of a staged form body.
pub open spec fn form_content_type() -> Seq<char> {
    "application/x-www-form-urlencoded"@
}

pub fn json_content_type_string() -> (r: String)
    ensures
        r@ == json_content_type(),
{
    "application/json; charset=utf-8".to_owned()
}

pub fn form_content_type_string() -> (r: String)
    ensures
        r@ == form_content_type(),
{
    "application/x-www-form-urlencoded".to_owned()
}

/// A pair's encoding is never empty: it holds at least the `=`.
pub proof fn lemma_form_body_nonempty(s: Seq<(Seq<char>, Seq<char>)>)
    ensures
        (form_body(s).len() > 0) == (s.len() > 0),
{
    if s.len() == 1 {
        assert(form_pair(s[0].0, s[0].1).len() > 0);
    } else if s.len() > 1 {
        assert(form_pair(s.last().0, s.last().1).len() > 0);
    }
}

/// Encoding one more pair appends `&` (unless it is the first) and the pair.
pub proof fn lemma_form_body_push(s: Seq<(Seq<char>, Seq<char>)>, k: Seq<char>, v: Seq<char>)
    ensures
        form_body(s.push((k, v))) == form_body(s) + (if s.len() > 0 {
            seq!['&']
        } else {
            Seq::<char>::empty()
        }) + form_pair(k, v),
{
    let t = s.push((k, v));
    if s.len() == 0 {
        assert(form_body(s) =~= Seq::<char>::empty());
        assert(form_body(t) =~= form_body(s) + Seq::<char>::empty() + form_pair(k, v));
    } else {
        assert(t.drop_last() =~= s);
        assert(t.last() == (k, v));
    }
}

/// The form-urlencoded body of a list of pairs, as `url`'s serializer builds it.
pub fn serialize_form(pairs: &Vec<(String, String)>) -> (r: String)
    ensures
        r@ == form_body(pairs_view(pairs@)),
{
    let ghost ps = pairs_view(pairs@);
    let mut buf = String::new();
    let n = pairs.len();
    let mut i: usize = 0;
    proof {
        assert(ps.take(0) =~= Seq::<(Seq<char>, Seq<char>)>::empty());
    }
    while i < n
        invariant
            n == pairs@.len(),
            ps == pairs_view(pairs@),
            i <= n,
            buf@ == form_body(ps.take(i as int)),
        decreases n - i,
    {
        proof {
            lemma_form_body_nonempty(ps.take(i as int));
            lemma_form_body_push(ps.take(i as int), ps[i as int].0, ps[i as int].1);
            assert(ps.take(i + 1) =~= ps.take(i as int).push((ps[i as int].0, ps[i as int].1)));
        }
        form_append_pair(&mut buf, pairs[i].0.as_str(), pairs[i].1.as_str());
        i = i + 1;
    }
    proof {
        assert(ps.take(n as int) =~= ps);
    }
    buf
}

} // verus!
