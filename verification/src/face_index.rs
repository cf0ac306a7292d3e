//! The in-memory index of the face template store: for each user, the faces
//! that are enrolled and how many embeddings each one holds, with the rules
//! for listing, removing, renaming and clearing them. The files themselves
//! are read and moved by the caller, which hands the outcome back.

use vstd::prelude::*;
use vstd::pervasive::unreached;
use crate::text::{owned, str_eq};
use crate::users::{
    UserDbError, component_error, eviction_count, sort_by_age, strings_view, templates_to_evict,
    validate_face_name, validate_username,
};

verus! {

// ---------------------------------------------------------------------------
// Keyed sequences
// ---------------------------------------------------------------------------

/// No two entries share a key.
pub open spec fn keys_distinct<T>(s: Seq<(Seq<char>, T)>) -> bool {
    forall|i: int, j: int|
        #![trigger s[i], s[j]]
        0 <= i < s.len() && 0 <= j < s.len() && i != j ==> s[i].0 != s[j].0
}

/// Some entry has the key.
pub open spec fn has_key<T>(s: Seq<(Seq<char>, T)>, k: Seq<char>) -> bool {
    exists|i: int| 0 <= i < s.len() && (#[trigger] s[i]).0 == k
}

/// The position of the entry with the key (meaningful when there is one).
pub open spec fn key_pos<T>(s: Seq<(Seq<char>, T)>, k: Seq<char>) -> int {
    choose|i: int| 0 <= i < s.len() && (#[trigger] s[i]).0 == k
}

pub proof fn lemma_key_pos<T>(s: Seq<(Seq<char>, T)>, k: Seq<char>, i: int)
    requires
        keys_distinct(s),
        0 <= i < s.len(),
        s[i].0 == k,
    ensures
        has_key(s, k),
        key_pos(s, k) == i,
{
    assert(has_key(s, k));
    let j = key_pos(s, k);
    assert(s[j].0 == k);
    if j != i {
        assert(s[i].0 != s[j].0);
    }
}

/// The position of the entry whose key is `k`, if any.
pub(crate) fn position<T>(v: &Vec<(String, T)>, k: &str) -> (r: Option<usize>)
    ensures
        match r {
            Some(i) => i < v@.len() && v@[i as int].0@ == k@,
            None => forall|i: int| 0 <= i < v@.len() ==> (#[trigger] v@[i]).0@ != k@,
        },
{
    let mut i: usize = 0;
    while i < v.len()
        invariant
            i <= v@.len(),
            forall|j: int| 0 <= j < i ==> (#[trigger] v@[j]).0@ != k@,
        decreases v.len() - i,
    {
        if str_eq(v[i].0.as_str(), k) {
            return Some(i);
        }
        i = i + 1;
    }
    None
}

// ---------------------------------------------------------------------------
// The index and its view
// ---------------------------------------------------------------------------

/// A user's faces, each with its number of embeddings.
pub open spec fn faces_view(v: Seq<(String, u32)>) -> Seq<(Seq<char>, u32)> {
    v.map_values(|p: (String, u32)| (p.0@, p.1))
}

pub open spec fn users_view(v: Seq<(String, Vec<(String, u32)>)>) -> Seq<
    (Seq<char>, Seq<(Seq<char>, u32)>),
> {
    v.map_values(|p: (String, Vec<(String, u32)>)| (p.0@, faces_view(p.1@)))
}

/// No user occurs twice, and no face occurs twice for a user.
pub open spec fn index_wf(v: Seq<(Seq<char>, Seq<(Seq<char>, u32)>)>) -> bool {
    keys_distinct(v) && forall|i: int| 0 <= i < v.len() ==> keys_distinct(#[trigger] v[i].1)
}

/// The faces of a user (meaningful when the user is known).
pub open spec fn faces_of(v: Seq<(Seq<char>, Seq<(Seq<char>, u32)>)>, u: Seq<char>) -> Seq<
    (Seq<char>, u32),
> {
    v[key_pos(v, u)].1
}

/// A store error, with its texts as sequences.
pub enum DbErrorView {
    UserNotFound(Seq<char>),
    FaceNotFound(Seq<char>),
    FaceExists(Seq<char>),
    InvalidName(Seq<char>),
    Io(Seq<char>),
}

pub open spec fn db_error_view(e: UserDbError) -> DbErrorView {
    match e {
        UserDbError::UserNotFound(s) => DbErrorView::UserNotFound(s@),
        UserDbError::FaceNotFound(s) => DbErrorView::FaceNotFound(s@),
        UserDbError::FaceExists(s) => DbErrorView::FaceExists(s@),
        UserDbError::InvalidName(s) => DbErrorView::InvalidName(s@),
        UserDbError::Io(s) => DbErrorView::Io(s@),
    }
}

/// The error a name is rejected with, if it is.
pub open spec fn name_error(kind: Seq<char>, v: Seq<char>) -> Option<DbErrorView> {
    match component_error(kind, v) {
        Some(m) => Some(DbErrorView::InvalidName(m)),
        None => None,
    }
}

/// The faces the store knows, by user, with the limit on templates per face.
pub struct FaceIndex {
    users: Vec<(String, Vec<(String, u32)>)>,
    max_templates: usize,
}

impl View for FaceIndex {
    type V = Seq<(Seq<char>, Seq<(Seq<char>, u32)>)>;

    closed spec fn view(&self) -> Self::V {
        users_view(self.users@)
    }
}

// ---------------------------------------------------------------------------
// What each operation does
// ---------------------------------------------------------------------------

/// The index with `u` known (added with no faces when it was not).
pub open spec fn with_user(v: Seq<(Seq<char>, Seq<(Seq<char>, u32)>)>, u: Seq<char>) -> Seq<
    (Seq<char>, Seq<(Seq<char>, u32)>),
> {
    if has_key(v, u) {
        v
    } else {
        v.push((u, Seq::empty()))
    }
}

/// The index with face `f` of user `u` holding `n` embeddings.
pub open spec fn with_face(
    v: Seq<(Seq<char>, Seq<(Seq<char>, u32)>)>,
    u: Seq<char>,
    f: Seq<char>,
    n: u32,
) -> Seq<(Seq<char>, Seq<(Seq<char>, u32)>)> {
    let w = with_user(v, u);
    let fs = faces_of(w, u);
    let fs2 = if has_key(fs, f) {
        fs.update(key_pos(fs, f), (f, n))
    } else {
        fs.push((f, n))
    };
    w.update(key_pos(w, u), (u, fs2))
}

/// The index without face `f` of user `u`.
pub open spec fn without_face(v: Seq<(Seq<char>, Seq<(Seq<char>, u32)>)>, u: Seq<char>, f: Seq<char>) -> Seq<
    (Seq<char>, Seq<(Seq<char>, u32)>),
> {
    let fs = faces_of(v, u);
    v.update(key_pos(v, u), (u, fs.remove(key_pos(fs, f))))
}

/// The index with face `a` of user `u` renamed to `b`, keeping its embeddings.
pub open spec fn renamed(
    v: Seq<(Seq<char>, Seq<(Seq<char>, u32)>)>,
    u: Seq<char>,
    a: Seq<char>,
    b: Seq<char>,
) -> Seq<(Seq<char>, Seq<(Seq<char>, u32)>)> {
    let fs = faces_of(v, u);
    let i = key_pos(fs, a);
    v.update(key_pos(v, u), (u, fs.update(i, (b, fs[i].1))))
}

/// The index without user `u`.
pub open spec fn without_user(v: Seq<(Seq<char>, Seq<(Seq<char>, u32)>)>, u: Seq<char>) -> Seq<
    (Seq<char>, Seq<(Seq<char>, u32)>),
> {
    if has_key(v, u) {
        v.remove(key_pos(v, u))
    } else {
        v
    }
}

pub open spec fn load_face_error(u: Seq<char>, f: Seq<char>) -> Option<DbErrorView> {
    if name_error("username"@, u) is Some {
        name_error("username"@, u)
    } else {
        name_error("face name"@, f)
    }
}

/// Why a user's faces cannot be listed, if they can not.
pub open spec fn list_error(v: Seq<(Seq<char>, Seq<(Seq<char>, u32)>)>, u: Seq<char>) -> Option<DbErrorView> {
    if name_error("username"@, u) is Some {
        name_error("username"@, u)
    } else if !has_key(v, u) {
        Some(DbErrorView::UserNotFound(u))
    } else {
        None
    }
}

/// Why a face cannot be removed, if it can not.
pub open spec fn remove_error(v: Seq<(Seq<char>, Seq<(Seq<char>, u32)>)>, u: Seq<char>, f: Seq<char>) -> Option<
    DbErrorView,
> {
    if name_error("username"@, u) is Some {
        name_error("username"@, u)
    } else if name_error("face name"@, f) is Some {
        name_error("face name"@, f)
    } else if !has_key(v, u) {
        Some(DbErrorView::UserNotFound(u))
    } else if !has_key(faces_of(v, u), f) {
        Some(DbErrorView::FaceNotFound(f))
    } else {
        None
    }
}

/// Why face `a` of user `u` cannot be renamed to `b`, if it can not, given
/// whether a file already takes the new face's path and whether the old
/// face's directory is a real directory.
pub open spec fn rename_error(
    v: Seq<(Seq<char>, Seq<(Seq<char>, u32)>)>,
    u: Seq<char>,
    a: Seq<char>,
    b: Seq<char>,
    new_path_taken: bool,
    old_dir_ok: bool,
) -> Option<DbErrorView> {
    if name_error("username"@, u) is Some {
        name_error("username"@, u)
    } else if name_error("face name"@, a) is Some {
        name_error("face name"@, a)
    } else if name_error("face name"@, b) is Some {
        name_error("face name"@, b)
    } else if a == b {
        None
    } else if !has_key(v, u) {
        Some(DbErrorView::UserNotFound(u))
    } else if !has_key(faces_of(v, u), a) {
        Some(DbErrorView::FaceNotFound(a))
    } else if has_key(faces_of(v, u), b) || new_path_taken {
        Some(DbErrorView::FaceExists(b))
    } else if !old_dir_ok {
        Some(DbErrorView::FaceNotFound(a))
    } else {
        None
    }
}

/// Face `a` of user `u` can take the name `b`: the user and the face are
/// known and no face is named `b`.
pub open spec fn rename_ready(
    v: Seq<(Seq<char>, Seq<(Seq<char>, u32)>)>,
    u: Seq<char>,
    a: Seq<char>,
    b: Seq<char>,
) -> bool {
    has_key(v, u) && has_key(faces_of(v, u), a) && !has_key(faces_of(v, u), b)
}

// ---------------------------------------------------------------------------
// Lemmas on keyed sequences
// ---------------------------------------------------------------------------

pub(crate) proof fn lemma_update_key<T>(s: Seq<(Seq<char>, T)>, i: int, x: (Seq<char>, T))
    requires
        keys_distinct(s),
        0 <= i < s.len(),
        forall|j: int| 0 <= j < s.len() && j != i ==> (#[trigger] s[j]).0 != x.0,
    ensures
        keys_distinct(s.update(i, x)),
{
    let t = s.update(i, x);
    assert forall|a: int, b: int| 0 <= a < t.len() && 0 <= b < t.len() && a != b implies #[trigger] t[a].0
        != #[trigger] t[b].0 by {
        if a == i {
            assert(s[b].0 != x.0);
        } else if b == i {
            assert(s[a].0 != x.0);
        } else {
            assert(s[a].0 != s[b].0);
        }
    }
}

pub(crate) proof fn lemma_push_key<T>(s: Seq<(Seq<char>, T)>, x: (Seq<char>, T))
    requires
        keys_distinct(s),
        !has_key(s, x.0),
    ensures
        keys_distinct(s.push(x)),
        s.push(x)[s.len() as int] == x,
{
    let t = s.push(x);
    assert forall|a: int, b: int| 0 <= a < t.len() && 0 <= b < t.len() && a != b implies #[trigger] t[a].0
        != #[trigger] t[b].0 by {
        if a == s.len() {
            if s[b].0 == x.0 {
                assert(s[b].0 == x.0);
            }
        } else if b == s.len() {
            if s[a].0 == x.0 {
                assert(s[a].0 == x.0);
            }
        } else {
            assert(s[a].0 != s[b].0);
        }
    }
}

proof fn lemma_remove_key<T>(s: Seq<(Seq<char>, T)>, i: int)
    requires
        keys_distinct(s),
        0 <= i < s.len(),
    ensures
        keys_distinct(s.remove(i)),
        forall|k: Seq<char>| #[trigger] has_key(s.remove(i), k) <==> (has_key(s, k) && k != s[i].0),
{
    let t = s.remove(i);
    s.remove_ensures(i);
    assert forall|a: int, b: int| 0 <= a < t.len() && 0 <= b < t.len() && a != b implies #[trigger] t[a].0
        != #[trigger] t[b].0 by {
        let a2 = if a < i { a } else { a + 1 };
        let b2 = if b < i { b } else { b + 1 };
        assert(t[a] == s[a2]);
        assert(t[b] == s[b2]);
        assert(s[a2].0 != s[b2].0);
    }
    assert forall|k: Seq<char>| #[trigger] has_key(t, k) <==> (has_key(s, k) && k != s[i].0) by {
        if has_key(t, k) {
            let a = choose|a: int| 0 <= a < t.len() && (#[trigger] t[a]).0 == k;
            let a2 = if a < i { a } else { a + 1 };
            assert(t[a] == s[a2]);
            assert(s[a2].0 != s[i].0 || a2 == i);
        }
        if has_key(s, k) && k != s[i].0 {
            let a = choose|a: int| 0 <= a < s.len() && (#[trigger] s[a]).0 == k;
            if a < i {
                assert(t[a] == s[a]);
            } else {
                assert(t[a - 1] == s[a]);
            }
        }
    }
}

// ---------------------------------------------------------------------------
// Operations
// ---------------------------------------------------------------------------

/// The index after recording, for user `u`, each face found with a safe
/// name, in order.
pub open spec fn with_found_faces(
    v: Seq<(Seq<char>, Seq<(Seq<char>, u32)>)>,
    u: Seq<char>,
    faces: Seq<(Seq<char>, u32)>,
) -> Seq<(Seq<char>, Seq<(Seq<char>, u32)>)>
    decreases faces.len(),
{
    if faces.len() == 0 {
        v
    } else {
        let w = with_found_faces(v, u, faces.drop_last());
        if name_error("face name"@, faces.last().0) is None {
            with_face(w, u, faces.last().0, faces.last().1)
        } else {
            w
        }
    }
}

/// The index built from what was found in the store: starting empty, each
/// user found with a safe name, in order, with each of its faces found with a
/// safe name and its number of embeddings.
pub open spec fn loaded_index(found: Seq<(Seq<char>, Seq<(Seq<char>, u32)>)>) -> Seq<
    (Seq<char>, Seq<(Seq<char>, u32)>),
>
    decreases found.len(),
{
    if found.len() == 0 {
        Seq::empty()
    } else {
        let v = loaded_index(found.drop_last());
        let u = found.last().0;
        if name_error("username"@, u) is None {
            with_found_faces(with_user(v, u), u, found.last().1)
        } else {
            v
        }
    }
}

/// Every user and face name in the index is a safe path component.
pub open spec fn index_names_valid(v: Seq<(Seq<char>, Seq<(Seq<char>, u32)>)>) -> bool {
    forall|i: int|
        0 <= i < v.len() ==> name_error("username"@, (#[trigger] v[i]).0) is None && forall|j: int|
            0 <= j < v[i].1.len() ==> name_error("face name"@, (#[trigger] v[i].1[j]).0) is None
}

proof fn lemma_with_user_valid(v: Seq<(Seq<char>, Seq<(Seq<char>, u32)>)>, u: Seq<char>)
    requires
        index_names_valid(v),
        name_error("username"@, u) is None,
    ensures
        index_names_valid(with_user(v, u)),
        has_key(with_user(v, u), u),
        forall|x: Seq<char>| has_key(v, x) ==> #[trigger] has_key(with_user(v, u), x),
{
    let w = with_user(v, u);
    if !has_key(v, u) {
        assert(w[v.len() as int].0 == u);
        assert forall|i: int| 0 <= i < w.len() implies name_error("username"@, (#[trigger] w[i]).0) is None
            && forall|j: int| 0 <= j < w[i].1.len() ==> name_error("face name"@, (#[trigger] w[i].1[j]).0) is None by {
            if i < v.len() {
                assert(w[i] == v[i]);
            }
        }
        assert forall|x: Seq<char>| has_key(v, x) implies #[trigger] has_key(w, x) by {
            let j = choose|j: int| 0 <= j < v.len() && (#[trigger] v[j]).0 == x;
            assert(w[j] == v[j]);
        }
    }
}

proof fn lemma_with_face_valid(v: Seq<(Seq<char>, Seq<(Seq<char>, u32)>)>, u: Seq<char>, f: Seq<char>, n: u32)
    requires
        index_wf(v),
        index_names_valid(v),
        name_error("username"@, u) is None,
        name_error("face name"@, f) is None,
    ensures
        index_names_valid(with_face(v, u, f, n)),
        forall|x: Seq<char>| has_key(v, x) ==> #[trigger] has_key(with_face(v, u, f, n), x),
{
    lemma_with_user_valid(v, u);
    load_face_law(v, u, f, n);
    let w = with_user(v, u);
    if !has_key(v, u) {
        lemma_push_key(v, (u, Seq::<(Seq<char>, u32)>::empty()));
    }
    let ui = key_pos(w, u);
    assert(w[ui].0 == u);
    let fs = faces_of(w, u);
    let fs2 = if has_key(fs, f) {
        fs.update(key_pos(fs, f), (f, n))
    } else {
        fs.push((f, n))
    };
    let r = with_face(v, u, f, n);
    assert(r == w.update(ui, (u, fs2)));
    assert forall|j: int| 0 <= j < fs2.len() implies name_error("face name"@, (#[trigger] fs2[j]).0) is None by {
        if has_key(fs, f) {
            let k = key_pos(fs, f);
            if j != k {
                assert(fs2[j] == fs[j]);
                assert(fs[j] == w[ui].1[j]);
            }
        } else if j < fs.len() {
            assert(fs2[j] == fs[j]);
            assert(fs[j] == w[ui].1[j]);
        }
    }
    assert forall|i: int| 0 <= i < r.len() implies name_error("username"@, (#[trigger] r[i]).0) is None
        && forall|j: int| 0 <= j < r[i].1.len() ==> name_error("face name"@, (#[trigger] r[i].1[j]).0) is None by {
        if i != ui {
            assert(r[i] == w[i]);
        }
    }
    assert forall|x: Seq<char>| has_key(v, x) implies #[trigger] has_key(r, x) by {
        assert(has_key(w, x));
        let j = choose|j: int| 0 <= j < w.len() && (#[trigger] w[j]).0 == x;
        if j == ui {
            assert(r[ui].0 == u);
        } else {
            assert(r[j] == w[j]);
        }
    }
}

fn owned_faces(faces: &Vec<(String, u32)>) -> (r: Vec<(String, u32)>)
    ensures
        faces_view(r@) == faces_view(faces@),
{
    let mut out: Vec<(String, u32)> = Vec::new();
    let mut i: usize = 0;
    while i < faces.len()
        invariant
            i <= faces@.len(),
            out@.len() == i,
            faces_view(out@) == faces_view(faces@).take(i as int),
        decreases faces.len() - i,
    {
        let ghost before = out@;
        let name = owned(faces[i].0.as_str());
        out.push((name, faces[i].1));
        proof {
            assert(out@ == before.push((name, faces@[i as int].1)));
            assert(faces_view(out@)[i as int] == faces_view(faces@)[i as int]);
            assert(faces_view(out@) =~= faces_view(before).push(faces_view(faces@)[i as int]));
            assert(faces_view(out@) =~= faces_view(faces@).take(i + 1));
        }
        i = i + 1;
    }
    assert(faces_view(faces@).take(faces@.len() as int) =~= faces_view(faces@));
    out
}

impl FaceIndex {
    #[verifier::type_invariant]
    spec fn inv(&self) -> bool {
        index_wf(self@)
    }

    /// The limit on templates per face.
    pub closed spec fn template_limit(&self) -> usize {
        self.max_templates
    }

    /// An empty index.
    pub fn new(max_templates: usize) -> (r: Self)
        ensures
            r@ == Seq::<(Seq<char>, Seq<(Seq<char>, u32)>)>::empty(),
            r.template_limit() == max_templates,
    {
        let r = FaceIndex { users: Vec::new(), max_templates };
        assert(r@ =~= Seq::<(Seq<char>, Seq<(Seq<char>, u32)>)>::empty());
        r
    }

    pub fn max_templates(&self) -> (r: usize)
        ensures
            r == self.template_limit(),
    {
        self.max_templates
    }

    pub fn set_max_templates(&mut self, max: usize)
        ensures
            final(self)@ == old(self)@,
            final(self).template_limit() == max,
    {
        proof {
            use_type_invariant(&*self);
        }
        self.max_templates = max;
    }

    /// Forgets every user, before the store is read again.
    pub fn clear(&mut self)
        ensures
            final(self)@ == Seq::<(Seq<char>, Seq<(Seq<char>, u32)>)>::empty(),
            final(self).template_limit() == old(self).template_limit(),
    {
        self.users = Vec::new();
        assert(self@ =~= Seq::<(Seq<char>, Seq<(Seq<char>, u32)>)>::empty());
    }

    /// The templates to remove before one more is added to a face holding
    /// `template_ids`: the oldest, oldest first, enough to stay under the limit.
    pub fn evictions(&self, template_ids: Vec<String>) -> (r: Vec<String>)
        ensures
            strings_view(r@) == sort_by_age(strings_view(template_ids@)).take(
                eviction_count(template_ids@.len() as int, self.template_limit() as int),
            ),
    {
        templates_to_evict(template_ids, self.max_templates)
    }

    /// Records a user found in the store; a name that is not a safe path
    /// component is refused.
    pub fn load_user(&mut self, username: &str) -> (r: Result<(), UserDbError>)
        ensures
            final(self).template_limit() == old(self).template_limit(),
            match name_error("username"@, username@) {
                Some(e) => r matches Err(x) && db_error_view(x) == e && final(self)@ == old(self)@,
                None => r is Ok && final(self)@ == with_user(old(self)@, username@),
            },
    {
        proof {
            use_type_invariant(&*self);
        }
        if let Err(e) = validate_username(username) {
            return Err(e);
        }
        match position(&self.users, username) {
            Some(i) => {
                proof {
                    lemma_key_pos(self@, username@, i as int);
                }
                Ok(())
            },
            None => {
                let ghost before = self@;
                assert(!has_key(before, username@)) by {
                    if has_key(before, username@) {
                        let j = choose|j: int| 0 <= j < before.len() && (#[trigger] before[j]).0 == username@;
                        assert(self.users@[j].0@ == before[j].0);
                    }
                }
                let mut users = Vec::new();
                std::mem::swap(&mut users, &mut self.users);
                let empty: Vec<(String, u32)> = Vec::new();
                assert(faces_view(empty@) =~= Seq::<(Seq<char>, u32)>::empty());
                users.push((owned(username), empty));
                proof {
                    assert(users_view(users@) =~= before.push((username@, Seq::empty())));
                    lemma_push_key(before, (username@, Seq::<(Seq<char>, u32)>::empty()));
                    let w = before.push((username@, Seq::<(Seq<char>, u32)>::empty()));
                    assert forall|i: int| 0 <= i < w.len() implies keys_distinct(#[trigger] w[i].1) by {
                        if i < before.len() {
                            assert(w[i] == before[i]);
                        }
                    }
                }
                self.users = users;
                Ok(())
            },
        }
    }

    /// Records a face found in the store with its number of embeddings,
    /// adding the user when needed; names that are not safe path components
    /// are refused.
    pub fn load_face(&mut self, username: &str, face_name: &str, embeddings: u32) -> (r: Result<
        (),
        UserDbError,
    >)
        ensures
            final(self).template_limit() == old(self).template_limit(),
            match load_face_error(username@, face_name@) {
                Some(e) => r matches Err(x) && db_error_view(x) == e && final(self)@ == old(self)@,
                None => r is Ok && final(self)@ == with_face(old(self)@, username@, face_name@, embeddings),
            },
    {
        proof {
            use_type_invariant(&*self);
        }
        if let Err(e) = validate_username(username) {
            return Err(e);
        }
        if let Err(e) = validate_face_name(face_name) {
            return Err(e);
        }
        let ghost v0 = self@;
        let r = self.load_user(username);
        assert(r is Ok);
        proof {
            use_type_invariant(&*self);
        }
        let ghost w = self@;
        assert(w == with_user(v0, username@));
        let ui = match position(&self.users, username) {
            Some(i) => i,
            None => {
                proof {
                    if !has_key(v0, username@) {
                        assert(w[v0.len() as int].0 == username@);
                        assert(self.users@[v0.len() as int].0@ == w[v0.len() as int].0);
                    } else {
                        let j = choose|j: int| 0 <= j < v0.len() && (#[trigger] v0[j]).0 == username@;
                        assert(self.users@[j].0@ == w[j].0);
                    }
                }
                unreached()
            },
        };
        proof {
            lemma_key_pos(w, username@, ui as int);
        }
        let mut users = Vec::new();
        std::mem::swap(&mut users, &mut self.users);
        let (name, mut faces) = users.remove(ui);
        let ghost fs = faces_view(faces@);
        assert(fs == faces_of(w, username@));
        let ghost new_fs: Seq<(Seq<char>, u32)>;
        match position(&faces, face_name) {
            Some(fi) => {
                proof {
                    lemma_key_pos(fs, face_name@, fi as int);
                }
                faces.remove(fi);
                faces.insert(fi, (owned(face_name), embeddings));
                proof {
                    new_fs = fs.update(fi as int, (face_name@, embeddings));
                    assert(faces_view(faces@) =~= new_fs);
                    assert forall|j: int| 0 <= j < fs.len() && j != fi implies (#[trigger] fs[j]).0
                        != face_name@ by {
                        assert(fs[j].0 != fs[fi as int].0);
                    }
                    lemma_update_key(fs, fi as int, (face_name@, embeddings));
                }
            },
            None => {
                proof {
                    assert(!has_key(fs, face_name@)) by {
                        if has_key(fs, face_name@) {
                            let j = choose|j: int| 0 <= j < fs.len() && (#[trigger] fs[j]).0 == face_name@;
                            assert(faces@[j].0@ == fs[j].0);
                        }
                    }
                    lemma_push_key(fs, (face_name@, embeddings));
                }
                faces.push((owned(face_name), embeddings));
                proof {
                    new_fs = fs.push((face_name@, embeddings));
                    assert(faces_view(faces@) =~= new_fs);
                }
            },
        }
        users.insert(ui, (name, faces));
        proof {
            let target = w.update(ui as int, (username@, new_fs));
            assert(users_view(users@) =~= target);
            assert(target == with_face(v0, username@, face_name@, embeddings));
            assert forall|j: int| 0 <= j < w.len() && j != ui implies (#[trigger] w[j]).0 != username@ by {
                assert(w[j].0 != w[ui as int].0);
            }
            lemma_update_key(w, ui as int, (username@, new_fs));
            assert forall|i: int| 0 <= i < target.len() implies keys_distinct(#[trigger] target[i].1) by {
                if i != ui {
                    assert(target[i] == w[i]);
                }
            }
        }
        self.users = users;
        Ok(())
    }

    /// Replaces the index with what was found in the store: for each user
    /// directory, its name and the faces found in it with their numbers of
    /// embeddings. Users and faces whose names are not safe path components
    /// are skipped; every other user found is recorded.
    pub fn load_all(&mut self, found: &Vec<(String, Vec<(String, u32)>)>)
        ensures
            final(self).template_limit() == old(self).template_limit(),
            index_names_valid(final(self)@),
            forall|i: int|
                0 <= i < found@.len() && name_error("username"@, (#[trigger] found@[i]).0@) is None
                    ==> has_key(final(self)@, found@[i].0@),
            final(self)@ == loaded_index(users_view(found@)),
    {
        self.clear();
        let mut i: usize = 0;
        while i < found.len()
            invariant
                i <= found@.len(),
                self.template_limit() == old(self).template_limit(),
                index_names_valid(self@),
                forall|k: int|
                    0 <= k < i && name_error("username"@, (#[trigger] found@[k]).0@) is None ==> has_key(
                        self@,
                        found@[k].0@,
                    ),
                self@ == loaded_index(users_view(found@).take(i as int)),
            decreases found.len() - i,
        {
            proof {
                use_type_invariant(&*self);
            }
            let ghost v0 = self@;
            let ghost fv = users_view(found@);
            assert(fv.take(i + 1).drop_last() == fv.take(i as int));
            assert(fv.take(i + 1).last() == fv[i as int]);
            assert(fv[i as int] == (found@[i as int].0@, faces_view(found@[i as int].1@)));
            let user = found[i].0.as_str();
            if self.load_user(user).is_ok() {
                proof {
                    lemma_with_user_valid(v0, user@);
                }
                let faces = &found[i].1;
                let mut j: usize = 0;
                while j < faces.len()
                    invariant
                        j <= faces@.len(),
                        self.template_limit() == old(self).template_limit(),
                        index_names_valid(self@),
                        has_key(self@, user@),
                        forall|x: Seq<char>| has_key(v0, x) ==> #[trigger] has_key(self@, x),
                        self@ == with_found_faces(with_user(v0, user@), user@, faces_view(faces@).take(j as int)),
                    decreases faces.len() - j,
                {
                    proof {
                        use_type_invariant(&*self);
                    }
                    let ghost v1 = self@;
                    let ghost ff = faces_view(faces@);
                    assert(ff.take(j + 1).drop_last() == ff.take(j as int));
                    assert(ff.take(j + 1).last() == ff[j as int]);
                    if self.load_face(user, faces[j].0.as_str(), faces[j].1).is_ok() {
                        proof {
                            lemma_with_face_valid(v1, user@, faces@[j as int].0@, faces@[j as int].1);
                        }
                    }
                    j = j + 1;
                }
                assert(faces_view(faces@).take(faces@.len() as int) == faces_view(faces@));
            }
            i = i + 1;
        }
        assert(users_view(found@).take(found@.len() as int) == users_view(found@));
    }

    /// The faces of a user with their numbers of embeddings.
    pub fn list_faces(&self, username: &str) -> (r: Result<Vec<(String, u32)>, UserDbError>)
        ensures
            match list_error(self@, username@) {
                Some(e) => r matches Err(x) && db_error_view(x) == e,
                None => r matches Ok(v) && faces_view(v@) == faces_of(self@, username@),
            },
    {
        proof {
            use_type_invariant(self);
        }
        if let Err(e) = validate_username(username) {
            return Err(e);
        }
        match position(&self.users, username) {
            Some(i) => {
                proof {
                    lemma_key_pos(self@, username@, i as int);
                }
                Ok(owned_faces(&self.users[i].1))
            },
            None => {
                assert(!has_key(self@, username@)) by {
                    if has_key(self@, username@) {
                        let j = choose|j: int| 0 <= j < self@.len() && (#[trigger] self@[j]).0 == username@;
                        assert(self.users@[j].0@ == self@[j].0);
                    }
                }
                Err(UserDbError::UserNotFound(owned(username)))
            },
        }
    }

    /// Forgets a face of a user; the caller then removes its directory.
    pub fn remove_face(&mut self, username: &str, face_name: &str) -> (r: Result<(), UserDbError>)
        ensures
            final(self).template_limit() == old(self).template_limit(),
            match remove_error(old(self)@, username@, face_name@) {
                Some(e) => r matches Err(x) && db_error_view(x) == e && final(self)@ == old(self)@,
                None => r is Ok && final(self)@ == without_face(old(self)@, username@, face_name@),
            },
    {
        proof {
            use_type_invariant(&*self);
        }
        if let Err(e) = validate_username(username) {
            return Err(e);
        }
        if let Err(e) = validate_face_name(face_name) {
            return Err(e);
        }
        let ghost v = self@;
        let ui = match position(&self.users, username) {
            Some(i) => i,
            None => {
                assert(!has_key(v, username@)) by {
                    if has_key(v, username@) {
                        let j = choose|j: int| 0 <= j < v.len() && (#[trigger] v[j]).0 == username@;
                        assert(self.users@[j].0@ == v[j].0);
                    }
                }
                return Err(UserDbError::UserNotFound(owned(username)));
            },
        };
        proof {
            lemma_key_pos(v, username@, ui as int);
        }
        let ghost fs = faces_view(self.users@[ui as int].1@);
        assert(fs == faces_of(v, username@));
        let fi = match position(&self.users[ui].1, face_name) {
            Some(i) => i,
            None => {
                assert(!has_key(fs, face_name@)) by {
                    if has_key(fs, face_name@) {
                        let j = choose|j: int| 0 <= j < fs.len() && (#[trigger] fs[j]).0 == face_name@;
                        assert(self.users@[ui as int].1@[j].0@ == fs[j].0);
                    }
                }
                return Err(UserDbError::FaceNotFound(owned(face_name)));
            },
        };
        proof {
            lemma_key_pos(fs, face_name@, fi as int);
        }
        let mut users = Vec::new();
        std::mem::swap(&mut users, &mut self.users);
        let (name, mut faces) = users.remove(ui);
        faces.remove(fi);
        users.insert(ui, (name, faces));
        proof {
            let new_fs = fs.remove(fi as int);
            assert(faces_view(faces@) =~= new_fs);
            let target = v.update(ui as int, (username@, new_fs));
            assert(users_view(users@) =~= target);
            assert forall|j: int| 0 <= j < v.len() && j != ui implies (#[trigger] v[j]).0 != username@ by {
                assert(v[j].0 != v[ui as int].0);
            }
            lemma_remove_key(fs, fi as int);
            lemma_update_key(v, ui as int, (username@, new_fs));
            assert forall|i: int| 0 <= i < target.len() implies keys_distinct(#[trigger] target[i].1) by {
                if i != ui {
                    assert(target[i] == v[i]);
                }
            }
        }
        self.users = users;
        Ok(())
    }

    /// Checks a rename of face `old_face` of a user to `new_face` before the
    /// face's directory is moved, given whether something already takes the
    /// new face's path and whether the old face's directory is a real
    /// directory. `Ok(true)`: move the directory, then call `finish_rename`;
    /// `Ok(false)`: the names are the same and nothing is to be done.
    pub fn check_rename(
        &self,
        username: &str,
        old_face: &str,
        new_face: &str,
        new_path_taken: bool,
        old_dir_ok: bool,
    ) -> (r: Result<bool, UserDbError>)
        ensures
            match rename_error(self@, username@, old_face@, new_face@, new_path_taken, old_dir_ok) {
                Some(e) => r matches Err(x) && db_error_view(x) == e,
                None => r matches Ok(m) && m == (old_face@ != new_face@),
            },
            r == Ok::<bool, UserDbError>(true) ==> rename_ready(self@, username@, old_face@, new_face@),
    {
        proof {
            use_type_invariant(self);
        }
        if let Err(e) = validate_username(username) {
            return Err(e);
        }
        if let Err(e) = validate_face_name(old_face) {
            return Err(e);
        }
        if let Err(e) = validate_face_name(new_face) {
            return Err(e);
        }
        if str_eq(old_face, new_face) {
            return Ok(false);
        }
        let ghost v = self@;
        let ui = match position(&self.users, username) {
            Some(i) => i,
            None => {
                assert(!has_key(v, username@)) by {
                    if has_key(v, username@) {
                        let j = choose|j: int| 0 <= j < v.len() && (#[trigger] v[j]).0 == username@;
                        assert(self.users@[j].0@ == v[j].0);
                    }
                }
                return Err(UserDbError::UserNotFound(owned(username)));
            },
        };
        proof {
            lemma_key_pos(v, username@, ui as int);
        }
        let faces = &self.users[ui].1;
        let ghost fs = faces_view(faces@);
        assert(fs == faces_of(v, username@));
        match position(faces, old_face) {
            Some(i) => {
                assert(fs[i as int].0 == old_face@);
            },
            None => {
                assert(!has_key(fs, old_face@)) by {
                    if has_key(fs, old_face@) {
                        let j = choose|j: int| 0 <= j < fs.len() && (#[trigger] fs[j]).0 == old_face@;
                        assert(faces@[j].0@ == fs[j].0);
                    }
                }
                return Err(UserDbError::FaceNotFound(owned(old_face)));
            },
        }
        match position(faces, new_face) {
            Some(j) => {
                assert(fs[j as int].0 == new_face@);
                return Err(UserDbError::FaceExists(owned(new_face)));
            },
            None => {
                assert(!has_key(fs, new_face@)) by {
                    if has_key(fs, new_face@) {
                        let j = choose|j: int| 0 <= j < fs.len() && (#[trigger] fs[j]).0 == new_face@;
                        assert(faces@[j].0@ == fs[j].0);
                    }
                }
            },
        }
        if new_path_taken {
            return Err(UserDbError::FaceExists(owned(new_face)));
        }
        if !old_dir_ok {
            return Err(UserDbError::FaceNotFound(owned(old_face)));
        }
        Ok(true)
    }

    /// Completes a checked rename with the outcome of moving the face's
    /// directory: on success the face takes its new name with its
    /// embeddings; on failure the index is left as it was (the directory did
    /// not move) and the move's error is returned.
    pub fn finish_rename(&mut self, username: &str, old_face: &str, new_face: &str, moved: Result<
        (),
        String,
    >) -> (r: Result<(), UserDbError>)
        requires
            rename_ready(old(self)@, username@, old_face@, new_face@),
        ensures
            final(self).template_limit() == old(self).template_limit(),
            match moved {
                Ok(_) => r is Ok && final(self)@ == renamed(old(self)@, username@, old_face@, new_face@),
                Err(e) => r matches Err(x) && db_error_view(x) == DbErrorView::Io(e@) && final(self)@
                    == old(self)@,
            },
    {
        proof {
            use_type_invariant(&*self);
        }
        if let Err(e) = moved {
            return Err(UserDbError::Io(e));
        }
        let ghost v = self@;
        let ghost u = username@;
        let ghost pu = key_pos(v, u);
        assert(v[pu].0 == u);
        assert(self.users@[pu].0@ == v[pu].0);
        let ui = match position(&self.users, username) {
            Some(i) => i,
            None => unreached(),
        };
        proof {
            lemma_key_pos(v, u, ui as int);
        }
        let ghost fs = faces_view(self.users@[ui as int].1@);
        assert(fs == faces_of(v, u));
        let ghost pa = key_pos(fs, old_face@);
        assert(fs[pa].0 == old_face@);
        assert(self.users@[ui as int].1@[pa].0@ == fs[pa].0);
        let fi = match position(&self.users[ui].1, old_face) {
            Some(i) => i,
            None => unreached(),
        };
        proof {
            lemma_key_pos(fs, old_face@, fi as int);
        }
        let mut users = Vec::new();
        std::mem::swap(&mut users, &mut self.users);
        let (name, mut faces) = users.remove(ui);
        let (_, count) = faces.remove(fi);
        faces.insert(fi, (owned(new_face), count));
        let ghost new_fs = fs.update(fi as int, (new_face@, fs[fi as int].1));
        proof {
            assert(faces_view(faces@) =~= new_fs);
            assert forall|j: int| 0 <= j < fs.len() && j != fi implies (#[trigger] fs[j]).0
                != new_face@ by {
                if fs[j].0 == new_face@ {
                    assert(has_key(fs, new_face@));
                }
            }
            lemma_update_key(fs, fi as int, (new_face@, fs[fi as int].1));
        }
        users.insert(ui, (name, faces));
        proof {
            let target = v.update(ui as int, (u, new_fs));
            assert(users_view(users@) =~= target);
            assert forall|j: int| 0 <= j < v.len() && j != ui implies (#[trigger] v[j]).0 != u by {
                assert(v[j].0 != v[ui as int].0);
            }
            lemma_update_key(v, ui as int, (u, new_fs));
            assert forall|i: int| 0 <= i < target.len() implies keys_distinct(#[trigger] target[i].1) by {
                if i != ui {
                    assert(target[i] == v[i]);
                }
            }
        }
        self.users = users;
        Ok(())
    }

    /// Forgets every face of a user; the caller then removes the user's
    /// directory. Only an unsafe name is refused.
    pub fn clear_user(&mut self, username: &str) -> (r: Result<(), UserDbError>)
        ensures
            final(self).template_limit() == old(self).template_limit(),
            match name_error("username"@, username@) {
                Some(e) => r matches Err(x) && db_error_view(x) == e && final(self)@ == old(self)@,
                None => r is Ok && final(self)@ == without_user(old(self)@, username@),
            },
    {
        proof {
            use_type_invariant(&*self);
        }
        if let Err(e) = validate_username(username) {
            return Err(e);
        }
        let ghost v = self@;
        match position(&self.users, username) {
            Some(ui) => {
                proof {
                    lemma_key_pos(v, username@, ui as int);
                }
                let mut users = Vec::new();
                std::mem::swap(&mut users, &mut self.users);
                users.remove(ui);
                proof {
                    let target = v.remove(ui as int);
                    v.remove_ensures(ui as int);
                    assert(users_view(users@) =~= target);
                    lemma_remove_key(v, ui as int);
                    assert forall|i: int| 0 <= i < target.len() implies keys_distinct(#[trigger] target[i].1) by {
                        if i < ui {
                            assert(target[i] == v[i]);
                        } else {
                            assert(target[i] == v[i + 1]);
                        }
                    }
                }
                self.users = users;
                Ok(())
            },
            None => {
                assert(!has_key(v, username@)) by {
                    if has_key(v, username@) {
                        let j = choose|j: int| 0 <= j < v.len() && (#[trigger] v[j]).0 == username@;
                        assert(self.users@[j].0@ == v[j].0);
                    }
                }
                Ok(())
            },
        }
    }
}

// ---------------------------------------------------------------------------
// Laws
// ---------------------------------------------------------------------------

/// A rename moves a face's embeddings to the new name and leaves no face
/// under the old one; renaming it back then restores the index exactly.
pub proof fn rename_round_trip_law(
    v: Seq<(Seq<char>, Seq<(Seq<char>, u32)>)>,
    u: Seq<char>,
    a: Seq<char>,
    b: Seq<char>,
)
    requires
        index_wf(v),
        rename_ready(v, u, a, b),
    ensures
        index_wf(renamed(v, u, a, b)),
        has_key(faces_of(renamed(v, u, a, b), u), b),
        faces_of(renamed(v, u, a, b), u)[key_pos(faces_of(renamed(v, u, a, b), u), b)].1 == faces_of(
            v,
            u,
        )[key_pos(faces_of(v, u), a)].1,
        !has_key(faces_of(renamed(v, u, a, b), u), a),
        rename_ready(renamed(v, u, a, b), u, b, a),
        renamed(renamed(v, u, a, b), u, b, a) == v,
{
    let ui = key_pos(v, u);
    assert(v[ui].0 == u);
    let fs = faces_of(v, u);
    assert(keys_distinct(fs));
    let i = key_pos(fs, a);
    assert(fs[i].0 == a);
    assert forall|j: int| 0 <= j < fs.len() && j != i implies (#[trigger] fs[j]).0 != b by {
        if fs[j].0 == b {
            assert(has_key(fs, b));
        }
    }
    let fs2 = fs.update(i, (b, fs[i].1));
    lemma_update_key(fs, i, (b, fs[i].1));
    assert forall|j: int| 0 <= j < v.len() && j != ui implies (#[trigger] v[j]).0 != u by {
        assert(v[j].0 != v[ui].0);
    }
    lemma_update_key(v, ui, (u, fs2));
    let w = renamed(v, u, a, b);
    assert(w == v.update(ui, (u, fs2)));
    lemma_key_pos(w, u, ui);
    assert(faces_of(w, u) == fs2);
    lemma_key_pos(fs2, b, i);
    assert(!has_key(fs2, a)) by {
        if has_key(fs2, a) {
            let j = choose|j: int| 0 <= j < fs2.len() && (#[trigger] fs2[j]).0 == a;
            if j == i {
                assert(has_key(fs, b) || a != b);
            } else {
                assert(fs[j].0 != fs[i].0);
            }
        }
    }
    assert(has_key(fs2, b));
    assert forall|k: int| 0 <= k < w.len() implies keys_distinct(#[trigger] w[k].1) by {
        if k != ui {
            assert(w[k] == v[k]);
        }
    }
    assert(fs2.update(i, (a, fs2[i].1)) =~= fs);
    assert(v.update(ui, (u, fs)) =~= v);
}

/// Removing a face leaves the user known and every other face in place.
pub proof fn removed_face_law(v: Seq<(Seq<char>, Seq<(Seq<char>, u32)>)>, u: Seq<char>, f: Seq<char>)
    requires
        index_wf(v),
        has_key(v, u),
        has_key(faces_of(v, u), f),
    ensures
        index_wf(without_face(v, u, f)),
        has_key(without_face(v, u, f), u),
        forall|g: Seq<char>|
            #[trigger] has_key(faces_of(without_face(v, u, f), u), g) <==> (has_key(faces_of(v, u), g)
                && g != f),
{
    let ui = key_pos(v, u);
    assert(v[ui].0 == u);
    let fs = faces_of(v, u);
    let i = key_pos(fs, f);
    assert(fs[i].0 == f);
    lemma_remove_key(fs, i);
    let fs2 = fs.remove(i);
    assert forall|j: int| 0 <= j < v.len() && j != ui implies (#[trigger] v[j]).0 != u by {
        assert(v[j].0 != v[ui].0);
    }
    lemma_update_key(v, ui, (u, fs2));
    let w = without_face(v, u, f);
    lemma_key_pos(w, u, ui);
    assert(faces_of(w, u) == fs2);
    assert forall|k: int| 0 <= k < w.len() implies keys_distinct(#[trigger] w[k].1) by {
        if k != ui {
            assert(w[k] == v[k]);
        }
    }
}

/// Recording a face makes the user known with the face holding the given
/// number of embeddings, and keeps every name unique.
pub proof fn load_face_law(v: Seq<(Seq<char>, Seq<(Seq<char>, u32)>)>, u: Seq<char>, f: Seq<char>, n: u32)
    requires
        index_wf(v),
    ensures
        index_wf(with_face(v, u, f, n)),
        has_key(with_face(v, u, f, n), u),
        has_key(faces_of(with_face(v, u, f, n), u), f),
        faces_of(with_face(v, u, f, n), u)[key_pos(faces_of(with_face(v, u, f, n), u), f)].1 == n,
{
    let w = with_user(v, u);
    if !has_key(v, u) {
        lemma_push_key(v, (u, Seq::<(Seq<char>, u32)>::empty()));
        assert forall|k: int| 0 <= k < w.len() implies keys_distinct(#[trigger] w[k].1) by {
            if k < v.len() {
                assert(w[k] == v[k]);
            }
        }
        assert(w[v.len() as int].0 == u);
    }
    assert(has_key(w, u));
    let ui = key_pos(w, u);
    assert(w[ui].0 == u);
    let fs = faces_of(w, u);
    assert(keys_distinct(fs));
    let fs2 = if has_key(fs, f) {
        fs.update(key_pos(fs, f), (f, n))
    } else {
        fs.push((f, n))
    };
    let fi = if has_key(fs, f) {
        key_pos(fs, f)
    } else {
        fs.len() as int
    };
    if has_key(fs, f) {
        assert(fs[fi].0 == f);
        assert forall|j: int| 0 <= j < fs.len() && j != fi implies (#[trigger] fs[j]).0 != f by {
            assert(fs[j].0 != fs[fi].0);
        }
        lemma_update_key(fs, fi, (f, n));
    } else {
        lemma_push_key(fs, (f, n));
    }
    assert(fs2[fi] == (f, n));
    assert forall|j: int| 0 <= j < w.len() && j != ui implies (#[trigger] w[j]).0 != u by {
        assert(w[j].0 != w[ui].0);
    }
    lemma_update_key(w, ui, (u, fs2));
    let r = with_face(v, u, f, n);
    assert(r == w.update(ui, (u, fs2)));
    lemma_key_pos(r, u, ui);
    assert(faces_of(r, u) == fs2);
    lemma_key_pos(fs2, f, fi);
    assert forall|k: int| 0 <= k < r.len() implies keys_distinct(#[trigger] r[k].1) by {
        if k != ui {
            assert(r[k] == w[k]);
        }
    }
}

/// Clearing a user forgets that user and keeps every other one.
pub proof fn cleared_user_law(v: Seq<(Seq<char>, Seq<(Seq<char>, u32)>)>, u: Seq<char>)
    requires
        index_wf(v),
    ensures
        index_wf(without_user(v, u)),
        forall|x: Seq<char>| #[trigger] has_key(without_user(v, u), x) <==> (has_key(v, x) && x != u),
{
    if has_key(v, u) {
        let ui = key_pos(v, u);
        assert(v[ui].0 == u);
        lemma_remove_key(v, ui);
        v.remove_ensures(ui);
        let t = v.remove(ui);
        assert forall|i: int| 0 <= i < t.len() implies keys_distinct(#[trigger] t[i].1) by {
            if i < ui {
                assert(t[i] == v[i]);
            } else {
                assert(t[i] == v[i + 1]);
            }
        }
    }
}

/// A rename touches nothing but the renamed face: every other user keeps
/// their faces, and every other face of the user keeps its embeddings.
pub proof fn rename_keeps_others_law(
    v: Seq<(Seq<char>, Seq<(Seq<char>, u32)>)>,
    u: Seq<char>,
    a: Seq<char>,
    b: Seq<char>,
)
    requires
        index_wf(v),
        rename_ready(v, u, a, b),
    ensures
        forall|x: Seq<char>| #[trigger] has_key(renamed(v, u, a, b), x) <==> has_key(v, x),
        forall|x: Seq<char>|
            x != u && has_key(v, x) ==> #[trigger] faces_of(renamed(v, u, a, b), x) == faces_of(v, x),
        forall|g: Seq<char>|
            g != a && g != b ==> (#[trigger] has_key(faces_of(renamed(v, u, a, b), u), g) <==> has_key(
                faces_of(v, u),
                g,
            )),
        forall|g: Seq<char>|
            g != a && g != b && has_key(faces_of(v, u), g) ==> #[trigger] faces_of(renamed(v, u, a, b), u)[key_pos(
                faces_of(renamed(v, u, a, b), u),
                g,
            )] == faces_of(v, u)[key_pos(faces_of(v, u), g)],
{
    rename_round_trip_law(v, u, a, b);
    let ui = key_pos(v, u);
    assert(v[ui].0 == u);
    let fs = faces_of(v, u);
    let i = key_pos(fs, a);
    assert(fs[i].0 == a);
    let fs2 = fs.update(i, (b, fs[i].1));
    let w = renamed(v, u, a, b);
    assert(w == v.update(ui, (u, fs2)));
    assert forall|j: int| 0 <= j < v.len() && j != ui implies (#[trigger] v[j]).0 != u by {
        assert(v[j].0 != v[ui].0);
    }
    lemma_update_key(v, ui, (u, fs2));
    lemma_key_pos(w, u, ui);
    assert(faces_of(w, u) == fs2);
    assert forall|x: Seq<char>| #[trigger] has_key(w, x) <==> has_key(v, x) by {
        if has_key(v, x) {
            let j = choose|j: int| 0 <= j < v.len() && (#[trigger] v[j]).0 == x;
            assert(w[j].0 == x);
        }
        if has_key(w, x) {
            let j = choose|j: int| 0 <= j < w.len() && (#[trigger] w[j]).0 == x;
            assert(v[j].0 == x);
        }
    }
    assert forall|x: Seq<char>| x != u && has_key(v, x) implies #[trigger] faces_of(w, x) == faces_of(v, x) by {
        let j = key_pos(v, x);
        assert(v[j].0 == x);
        assert(j != ui);
        assert(w[j] == v[j]);
        lemma_key_pos(w, x, j);
    }
    assert forall|j: int| 0 <= j < fs.len() && j != i implies (#[trigger] fs[j]).0 != b by {
        if fs[j].0 == b {
            assert(has_key(fs, b));
        }
    }
    lemma_update_key(fs, i, (b, fs[i].1));
    assert forall|g: Seq<char>| g != a && g != b implies (#[trigger] has_key(fs2, g) <==> has_key(fs, g)) by {
        if has_key(fs, g) {
            let j = choose|j: int| 0 <= j < fs.len() && (#[trigger] fs[j]).0 == g;
            assert(fs2[j].0 == g);
        }
        if has_key(fs2, g) {
            let j = choose|j: int| 0 <= j < fs2.len() && (#[trigger] fs2[j]).0 == g;
            assert(fs[j].0 == g);
        }
    }
    assert forall|g: Seq<char>| g != a && g != b && has_key(fs, g) implies #[trigger] fs2[key_pos(fs2, g)]
        == fs[key_pos(fs, g)] by {
        let j = key_pos(fs, g);
        assert(fs[j].0 == g);
        assert(j != i);
        assert(fs2[j] == fs[j]);
        lemma_key_pos(fs2, g, j);
    }
}

} // verus!
