//! Rules of the face template store: which user, face and template names are
//! safe path components, and which templates are evicted when a face is full.

use vstd::prelude::*;
use crate::text::{
    chars_of, concat2, concat3, control, has_char, is_control, owned, parse_u64, parse_u64_chars,
    trim, trim_vec, chars_eq,
};

verus! {

/// Why a template-store operation failed.
#[derive(Debug, Clone)]
pub enum UserDbError {
    UserNotFound(String),
    FaceNotFound(String),
    FaceExists(String),
    InvalidName(String),
    /// A filesystem failure, by its message.
    Io(String),
}

pub open spec fn user_db_error_message(e: UserDbError) -> Seq<char> {
    match e {
        UserDbError::UserNotFound(u) => "User '"@ + u@ + "' not found"@,
        UserDbError::FaceNotFound(f) => "Face '"@ + f@ + "' not found"@,
        UserDbError::FaceExists(f) => "Face '"@ + f@ + "' already exists"@,
        UserDbError::InvalidName(m) => m@,
        UserDbError::Io(m) => m@,
    }
}

impl UserDbError {
    /// The error as shown to users.
    pub fn message(&self) -> (r: String)
        ensures
            r@ == user_db_error_message(*self),
    {
        match self {
            UserDbError::UserNotFound(u) => concat3("User '", u.as_str(), "' not found"),
            UserDbError::FaceNotFound(f) => concat3("Face '", f.as_str(), "' not found"),
            UserDbError::FaceExists(f) => concat3("Face '", f.as_str(), "' already exists"),
            UserDbError::InvalidName(m) => owned(m.as_str()),
            UserDbError::Io(m) => owned(m.as_str()),
        }
    }
}

/// A name that cannot be used as a single path component.
pub open spec fn unsafe_component(v: Seq<char>) -> bool {
    v == "."@ || v == ".."@ || has_char(v, '/') || has_char(v, '\\') || has_char(v, '\0') || exists|
        i: int,
    |
        0 <= i < v.len() && is_control(v[i])
}

/// The message a name is rejected with, if it is.
pub open spec fn component_error(kind: Seq<char>, v: Seq<char>) -> Option<Seq<char>> {
    if v.len() == 0 || trim(v) != v {
        Some(kind + " cannot be empty or contain leading/trailing whitespace"@)
    } else if unsafe_component(v) {
        Some(kind + " must be a single safe path component"@)
    } else {
        None
    }
}

fn validate_component(kind: &str, value: &str) -> (r: Result<(), UserDbError>)
    ensures
        match component_error(kind@, value@) {
            None => r is Ok,
            Some(m) => r matches Err(UserDbError::InvalidName(e)) && e@ == m,
        },
{
    let v = chars_of(value);
    let t = trim_vec(&v);
    if v.len() == 0 || !chars_eq(&t, &v) {
        return Err(UserDbError::InvalidName(concat2(
            kind,
            " cannot be empty or contain leading/trailing whitespace",
        )));
    }
    let dot = chars_of(".");
    let dotdot = chars_of("..");
    proof {
        reveal_strlit(".");
        reveal_strlit("..");
    }
    let mut bad = chars_eq(&v, &dot) || chars_eq(&v, &dotdot);
    let mut i: usize = 0;
    while i < v.len()
        invariant
            i <= v.len(),
            bad ==> unsafe_component(v@),
            !bad ==> (v@ != "."@ && v@ != ".."@ && forall|k: int|
                0 <= k < i ==> v@[k] != '/' && v@[k] != '\\' && v@[k] != '\0' && !is_control(
                    v@[k],
                )),
        decreases v.len() - i,
    {
        let c = v[i];
        if c == '/' || c == '\\' || c == '\0' || control(c) {
            assert(v@[i as int] == c);
            bad = true;
        }
        i = i + 1;
    }
    if bad {
        return Err(UserDbError::InvalidName(concat2(kind, " must be a single safe path component")));
    }
    Ok(())
}

pub fn validate_username(username: &str) -> (r: Result<(), UserDbError>)
    ensures
        match component_error("username"@, username@) {
            None => r is Ok,
            Some(m) => r matches Err(UserDbError::InvalidName(e)) && e@ == m,
        },
{
    validate_component("username", username)
}

pub fn validate_face_name(face_name: &str) -> (r: Result<(), UserDbError>)
    ensures
        match component_error("face name"@, face_name@) {
            None => r is Ok,
            Some(m) => r matches Err(UserDbError::InvalidName(e)) && e@ == m,
        },
{
    validate_component("face name", face_name)
}

pub fn validate_template_id(template_id: &str) -> (r: Result<(), UserDbError>)
    ensures
        match component_error("template id"@, template_id@) {
            None => r is Ok,
            Some(m) => r matches Err(UserDbError::InvalidName(e)) && e@ == m,
        },
{
    validate_component("template id", template_id)
}

// ---------------------------------------------------------------------------
// Template order and eviction
// ---------------------------------------------------------------------------

/// The age key of a template id: its decimal value, or 0 when it is not a
/// number.
pub open spec fn template_key(id: Seq<char>) -> nat {
    match parse_u64(id) {
        Some(v) => v as nat,
        None => 0,
    }
}

/// Where a stable insertion places `x` in the ordered `t`: after every entry
/// whose key does not exceed `x`'s.
pub open spec fn insert_pos(t: Seq<Seq<char>>, x: Seq<char>) -> int
    decreases t.len(),
{
    if t.len() == 0 {
        0
    } else if template_key(t[0]) > template_key(x) {
        0
    } else {
        1 + insert_pos(t.drop_first(), x)
    }
}

/// The ids ordered by age key, ties in their original order (a stable sort).
pub open spec fn sort_by_age(s: Seq<Seq<char>>) -> Seq<Seq<char>>
    decreases s.len(),
{
    if s.len() == 0 {
        Seq::empty()
    } else {
        let t = sort_by_age(s.drop_last());
        t.insert(insert_pos(t, s.last()), s.last())
    }
}

pub open spec fn strings_view(v: Seq<String>) -> Seq<Seq<char>> {
    v.map_values(|s: String| s@)
}

proof fn lemma_insert_pos(t: Seq<Seq<char>>, x: Seq<char>, p: int)
    requires
        0 <= p <= t.len(),
        forall|k: int| 0 <= k < p ==> template_key(#[trigger] t[k]) <= template_key(x),
        p < t.len() ==> template_key(t[p]) > template_key(x),
    ensures
        insert_pos(t, x) == p,
    decreases t.len(),
{
    if p > 0 {
        assert forall|k: int| 0 <= k < p - 1 implies template_key(#[trigger] t.drop_first()[k])
            <= template_key(x) by {
            assert(t.drop_first()[k] == t[k + 1]);
        }
        lemma_insert_pos(t.drop_first(), x, p - 1);
    }
}

fn template_key_exec(id: &str) -> (r: u64)
    ensures
        r as nat == template_key(id@),
{
    match parse_u64_chars(&chars_of(id)) {
        Some(v) => v,
        None => 0,
    }
}

/// Template ids from oldest to newest.
pub fn sort_template_ids(ids: Vec<String>) -> (r: Vec<String>)
    ensures
        strings_view(r@) == sort_by_age(strings_view(ids@)),
{
    let mut out: Vec<String> = Vec::new();
    let mut keys: Vec<u64> = Vec::new();
    let mut i: usize = 0;
    assert(strings_view(ids@).take(0) == Seq::<Seq<char>>::empty());
    while i < ids.len()
        invariant
            i <= ids.len(),
            strings_view(out@) == sort_by_age(strings_view(ids@).take(i as int)),
            keys@.len() == out@.len(),
            forall|k: int| 0 <= k < keys@.len() ==> keys@[k] as nat == template_key(#[trigger] out@[k]@),
        decreases ids.len() - i,
    {
        let ghost prefix = strings_view(ids@).take(i + 1);
        assert(prefix.drop_last() == strings_view(ids@).take(i as int));
        assert(prefix.last() == ids@[i as int]@);
        let key = template_key_exec(ids[i].as_str());
        let mut p: usize = 0;
        while p < keys.len() && keys[p] <= key
            invariant
                p <= keys@.len(),
                keys@.len() == out@.len(),
                forall|k: int| 0 <= k < p ==> keys@[k] <= key,
            decreases keys.len() - p,
        {
            p = p + 1;
        }
        proof {
            let t = strings_view(out@);
            assert forall|k: int| 0 <= k < p implies template_key(#[trigger] t[k]) <= template_key(
                ids@[i as int]@,
            ) by {
                assert(t[k] == out@[k]@);
                assert(keys@[k] as nat == template_key(out@[k]@));
            }
            if p < t.len() {
                assert(t[p as int] == out@[p as int]@);
                assert(keys@[p as int] as nat == template_key(out@[p as int]@));
            }
            lemma_insert_pos(t, ids@[i as int]@, p as int);
        }
        let ghost before = out@;
        let ghost kbefore = keys@;
        out.insert(p, ids[i].clone());
        keys.insert(p, key);
        assert(strings_view(out@) =~= strings_view(before).insert(p as int, ids@[i as int]@));
        assert forall|k: int| 0 <= k < keys@.len() implies keys@[k] as nat == template_key(
            #[trigger] out@[k]@,
        ) by {
            if k < p {
                assert(keys@[k] == kbefore[k] && out@[k] == before[k]);
            } else if k > p {
                assert(keys@[k] == kbefore[k - 1] && out@[k] == before[k - 1]);
            }
        }
        i = i + 1;
    }
    assert(strings_view(ids@).take(ids.len() as int) == strings_view(ids@));
    out
}

/// How many of a face's `count` templates are evicted before another is
/// added: enough to leave room under a positive limit.
pub open spec fn eviction_count(count: int, max_templates: int) -> int {
    if max_templates > 0 && count >= max_templates {
        count - max_templates + 1
    } else {
        0
    }
}

/// The templates to remove before adding a new one to a face holding `ids`
/// (in any order) under `max_templates`: the oldest, oldest first.
pub fn templates_to_evict(ids: Vec<String>, max_templates: usize) -> (r: Vec<String>)
    ensures
        strings_view(r@) == sort_by_age(strings_view(ids@)).take(
            eviction_count(ids@.len() as int, max_templates as int),
        ),
{
    let sorted = sort_template_ids(ids);
    proof {
        lemma_sort_len(strings_view(ids@));
    }
    let n = if max_templates > 0 && sorted.len() >= max_templates {
        sorted.len() - max_templates + 1
    } else {
        0
    };
    let mut out: Vec<String> = Vec::new();
    let mut i: usize = 0;
    while i < n
        invariant
            i <= n <= sorted@.len(),
            strings_view(out@) == strings_view(sorted@).take(i as int),
        decreases n - i,
    {
        let ghost before = out@;
        let c = sorted[i].clone();
        assert(c@ == sorted@[i as int]@);
        out.push(c);
        assert(strings_view(out@) =~= strings_view(before).push(c@));
        i = i + 1;
        assert(strings_view(sorted@).take(i as int) =~= strings_view(sorted@).take(i - 1).push(
            strings_view(sorted@)[i - 1],
        ));
    }
    out
}

proof fn lemma_sort_len(s: Seq<Seq<char>>)
    ensures
        sort_by_age(s).len() == s.len(),
    decreases s.len(),
{
    if s.len() > 0 {
        lemma_sort_len(s.drop_last());
        lemma_insert_pos_bound(sort_by_age(s.drop_last()), s.last());
    }
}

proof fn lemma_insert_pos_bound(t: Seq<Seq<char>>, x: Seq<char>)
    ensures
        0 <= insert_pos(t, x) <= t.len(),
    decreases t.len(),
{
    if t.len() > 0 {
        lemma_insert_pos_bound(t.drop_first(), x);
    }
}

/// Ordered by age key: no id comes before an id with a smaller key.
pub open spec fn ordered_by_age(s: Seq<Seq<char>>) -> bool {
    forall|i: int, j: int| 0 <= i < j < s.len() ==> template_key(s[i]) <= template_key(s[j])
}

proof fn lemma_insert_pos_props(t: Seq<Seq<char>>, x: Seq<char>)
    ensures
        0 <= insert_pos(t, x) <= t.len(),
        forall|k: int| 0 <= k < insert_pos(t, x) ==> template_key(#[trigger] t[k]) <= template_key(x),
        insert_pos(t, x) < t.len() ==> template_key(t[insert_pos(t, x)]) > template_key(x),
    decreases t.len(),
{
    if t.len() > 0 && template_key(t[0]) <= template_key(x) {
        let rest = t.drop_first();
        lemma_insert_pos_props(rest, x);
        assert forall|k: int| 0 <= k < insert_pos(t, x) implies template_key(#[trigger] t[k])
            <= template_key(x) by {
            if k > 0 {
                assert(t[k] == rest[k - 1]);
            }
        }
        if insert_pos(t, x) < t.len() {
            assert(t[insert_pos(t, x)] == rest[insert_pos(rest, x)]);
        }
    }
}

proof fn lemma_insert_sorted(t: Seq<Seq<char>>, x: Seq<char>)
    requires
        ordered_by_age(t),
    ensures
        ordered_by_age(t.insert(insert_pos(t, x), x)),
        t.insert(insert_pos(t, x), x).to_multiset() == t.to_multiset().insert(x),
{
    lemma_insert_pos_props(t, x);
    let p = insert_pos(t, x);
    let r = t.insert(p, x);
    assert forall|i: int, j: int| 0 <= i < j < r.len() implies template_key(r[i]) <= template_key(
        r[j],
    ) by {
        if j < p {
            assert(r[i] == t[i] && r[j] == t[j]);
        } else if j == p {
            assert(r[i] == t[i] && r[j] == x);
        } else if i < p {
            assert(r[i] == t[i] && r[j] == t[j - 1]);
        } else if i == p {
            assert(r[i] == x && r[j] == t[j - 1]);
            assert(template_key(t[p]) > template_key(x));
            if j - 1 > p {
                assert(template_key(t[p]) <= template_key(t[j - 1]));
            }
        } else {
            assert(r[i] == t[i - 1] && r[j] == t[j - 1]);
        }
    }
    vstd::seq_lib::to_multiset_insert(t, p, x);
}

/// Sorting templates by age orders them from oldest to newest and keeps
/// every id exactly as often as it was given, so eviction removes the
/// oldest templates and nothing else.
pub proof fn sort_by_age_law(s: Seq<Seq<char>>)
    ensures
        ordered_by_age(sort_by_age(s)),
        sort_by_age(s).to_multiset() == s.to_multiset(),
    decreases s.len(),
{
    if s.len() == 0 {
        assert(sort_by_age(s) =~= s);
    } else {
        sort_by_age_law(s.drop_last());
        lemma_insert_sorted(sort_by_age(s.drop_last()), s.last());
        assert(s =~= s.drop_last().push(s.last()));
        vstd::seq_lib::to_multiset_build(s.drop_last(), s.last());
    }
}

/// After the evictions a face has room for one more template under a
/// positive limit, and no limit evicts nothing.
pub proof fn eviction_law(count: int, max_templates: int)
    requires
        count >= 0,
        max_templates >= 0,
    ensures
        0 <= eviction_count(count, max_templates) <= count,
        max_templates > 0 ==> count - eviction_count(count, max_templates) + 1 <= max_templates
            || count < max_templates,
        max_templates > 0 && count >= max_templates ==> count - eviction_count(count, max_templates)
            + 1 == max_templates,
        max_templates == 0 ==> eviction_count(count, max_templates) == 0,
{
}

} // verus!
