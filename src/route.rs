use vstd::prelude::*;

use crate::text::same_text;
use crate::todo::{spec_parse_todo_type, TodoTypes};

verus! {

/// The pieces of a text between the separators `/`, from left to right; a
/// text without a separator is one piece.
pub open spec fn split_slash(s: Seq<char>) -> Seq<Seq<char>>
    decreases s.len(),
{
    if s.len() == 0 {
        seq![Seq::empty()]
    } else if s.last() == '/' {
        split_slash(s.drop_last()).push(Seq::empty())
    } else {
        let p = split_slash(s.drop_last());
        p.update(p.len() - 1, p.last().push(s.last()))
    }
}

/// The pieces without the empty ones at their start.
pub open spec fn drop_leading_empty(p: Seq<Seq<char>>) -> Seq<Seq<char>>
    decreases p.len(),
{
    if p.len() > 0 && p[0].len() == 0 {
        drop_leading_empty(p.drop_first())
    } else {
        p
    }
}

/// The pieces of a request path after its first two non-empty ones: for
/// `/v1/types/daily/todos`, `daily` and `todos`.
pub open spec fn path_tail(s: Seq<char>) -> Seq<Seq<char>> {
    let p = drop_leading_empty(split_slash(s));
    if p.len() >= 2 {
        p.skip(2)
    } else {
        Seq::empty()
    }
}

/// What the service does with a request.
#[derive(Debug)]
pub enum Route {
    /// Not a GET request.
    MethodNotAllowed,
    Healthz,
    /// The path is not below `/v1`.
    InvalidPath,
    /// The names of the task kinds.
    TypeNames,
    /// The tasks of one kind.
    TodosOfType(TodoTypes),
    /// The names of the labels.
    LabelNames,
    /// The tasks that carry the label of that name.
    TodosWithLabel(String),
    /// Every task.
    AllTodos,
    /// The path has fewer pieces than needed; the number it has.
    WrongLength(usize),
    /// The piece where `todos` was expected.
    UnrecognizedWord(String),
    /// A kind name that no kind has.
    TypeNotSupported(String),
    /// A path below `/v1/todos` other than `/v1/todos` itself.
    PathNotRecognized,
    NotFound,
}

/// The route of a request for the pieces after a collection's name: the
/// route for a well-formed pair, or the failure that the pieces show.
pub open spec fn tail_route_ok(r: Route, tail: Seq<Seq<char>>, kinds: bool) -> bool {
    if tail.len() < 2 {
        r matches Route::WrongLength(n) && n == tail.len()
    } else if tail[1] != "todos"@ {
        r matches Route::UnrecognizedWord(w) && w@ == tail[1]
    } else if kinds {
        match spec_parse_todo_type(tail[0]) {
            Ok(k) => r == Route::TodosOfType(k),
            Err(_) => r matches Route::TypeNotSupported(w) && w@ == tail[0],
        }
    } else {
        r matches Route::TodosWithLabel(l) && l@ == tail[0]
    }
}

/// The route of a request, by its method and its path.
pub open spec fn routed(r: Route, is_get: bool, p: Seq<char>) -> bool {
    if !is_get {
        r is MethodNotAllowed
    } else if p == "/healthz"@ {
        r is Healthz
    } else if !"/v1"@.is_prefix_of(p) {
        r is InvalidPath
    } else if "/v1/types"@.is_prefix_of(p) {
        if p == "/v1/types"@ {
            r is TypeNames
        } else {
            tail_route_ok(r, path_tail(p), true)
        }
    } else if "/v1/labels"@.is_prefix_of(p) {
        if p == "/v1/labels"@ {
            r is LabelNames
        } else {
            tail_route_ok(r, path_tail(p), false)
        }
    } else if "/v1/todos"@.is_prefix_of(p) {
        if p == "/v1/todos"@ {
            r is AllTodos
        } else {
            r is PathNotRecognized
        }
    } else {
        r is NotFound
    }
}

/// Whether `s` begins with `p`.
pub fn starts_with_text(s: &str, p: &str) -> (r: bool)
    ensures
        r == p@.is_prefix_of(s@),
{
    let n = s.unicode_len();
    let m = p.unicode_len();
    if m > n {
        return false;
    }
    let head = s.substring_char(0, m);
    let r = same_text(head, p);
    assert(r == (p@ =~= s@.subrange(0, m as int)));
    r
}

/// The pieces of a text between the separators `/`.
pub fn split_on_slash(s: &str) -> (r: Vec<String>)
    ensures
        r@.map_values(|x: String| x@) == split_slash(s@),
{
    let n = s.unicode_len();
    let mut r: Vec<String> = Vec::new();
    let mut start: usize = 0;
    let mut i: usize = 0;
    proof {
        assert(s@.subrange(0, 0) =~= Seq::<char>::empty());
        assert(r@.map_values(|x: String| x@).push(s@.subrange(0, 0)) =~= seq![Seq::<char>::empty()]);
    }
    while i < n
        invariant
            n == s@.len(),
            start <= i <= n,
            r@.map_values(|x: String| x@).push(s@.subrange(start as int, i as int)) == split_slash(
                s@.subrange(0, i as int),
            ),
        decreases n - i,
    {
        let c = s.get_char(i);
        let ghost before = r@.map_values(|x: String| x@);
        proof {
            let sub = s@.subrange(0, i + 1);
            assert(sub.drop_last() =~= s@.subrange(0, i as int));
            assert(sub.last() == c);
        }
        if c == '/' {
            let piece = s.substring_char(start, i);
            r.push(piece.to_string());
            start = i + 1;
            proof {
                assert(r@.map_values(|x: String| x@) =~= before.push(piece@));
                assert(s@.subrange(start as int, i + 1) =~= Seq::<char>::empty());
            }
        } else {
            proof {
                assert(s@.subrange(start as int, i + 1) =~= s@.subrange(start as int, i as int).push(
                    c,
                ));
                let p = before.push(s@.subrange(start as int, i as int));
                assert(p.update(p.len() - 1, p.last().push(c)) =~= before.push(
                    s@.subrange(start as int, i + 1),
                ));
            }
        }
        i = i + 1;
    }
    let last = s.substring_char(start, n);
    let ghost before = r@.map_values(|x: String| x@);
    r.push(last.to_string());
    proof {
        assert(r@.map_values(|x: String| x@) =~= before.push(last@));
        assert(s@.subrange(0, n as int) =~= s@);
    }
    r
}

proof fn lemma_drop_leading_empty(p: Seq<Seq<char>>, k: int)
    requires
        0 <= k <= p.len(),
        forall|j: int| 0 <= j < k ==> (#[trigger] p[j]).len() == 0,
        k < p.len() ==> p[k].len() != 0,
    ensures
        drop_leading_empty(p) == p.skip(k),
    decreases k,
{
    if k == 0 {
        assert(p.skip(0) =~= p);
    } else {
        let q = p.drop_first();
        assert forall|j: int| 0 <= j < k - 1 implies (#[trigger] q[j]).len() == 0 by {
            assert(q[j] == p[j + 1]);
        }
        lemma_drop_leading_empty(q, k - 1);
        assert(q.skip(k - 1) =~= p.skip(k));
    }
}

/// The pieces of a request path after its first two non-empty ones.
pub fn path_tail_of(path: &str) -> (r: Vec<String>)
    ensures
        r@.map_values(|x: String| x@) == path_tail(path@),
{
    let pieces = split_on_slash(path);
    let ghost pv = pieces@.map_values(|x: String| x@);
    let mut k: usize = 0;
    while k < pieces.len() && pieces[k].unicode_len() == 0
        invariant
            k <= pieces@.len(),
            pv == pieces@.map_values(|x: String| x@),
            forall|j: int| 0 <= j < k ==> (#[trigger] pv[j]).len() == 0,
        decreases pieces@.len() - k,
    {
        k = k + 1;
    }
    proof {
        lemma_drop_leading_empty(pv, k as int);
    }
    let mut r: Vec<String> = Vec::new();
    if pieces.len() - k < 2 {
        return r;
    }
    let mut i: usize = k + 2;
    while i < pieces.len()
        invariant
            k + 2 <= i <= pieces@.len(),
            pv == pieces@.map_values(|x: String| x@),
            r@.map_values(|x: String| x@) == pv.subrange(k + 2, i as int),
        decreases pieces@.len() - i,
    {
        let ghost before = r@.map_values(|x: String| x@);
        r.push(pieces[i].clone());
        proof {
            assert(r@.map_values(|x: String| x@) =~= before.push(pv[i as int]));
            assert(pv.subrange(k + 2, i + 1) =~= pv.subrange(k + 2, i as int).push(pv[i as int]));
        }
        i = i + 1;
    }
    proof {
        assert(pv.skip(k as int).skip(2) =~= pv.subrange(k + 2, pv.len() as int));
    }
    r
}

fn tail_route(tail: Vec<String>, kinds: bool) -> (r: Route)
    ensures
        tail_route_ok(r, tail@.map_values(|x: String| x@), kinds),
{
    let ghost tv = tail@.map_values(|x: String| x@);
    if tail.len() < 2 {
        return Route::WrongLength(tail.len());
    }
    assert(tv[1] == tail@[1]@);
    assert(tv[0] == tail@[0]@);
    if !same_text(tail[1].as_str(), "todos") {
        return Route::UnrecognizedWord(tail[1].clone());
    }
    if kinds {
        match TodoTypes::parse(tail[0].as_str()) {
            Ok(k) => Route::TodosOfType(k),
            Err(_) => Route::TypeNotSupported(tail[0].clone()),
        }
    } else {
        Route::TodosWithLabel(tail[0].clone())
    }
}

/// Decides what the service does with a request: only GET is served; the
/// health check; the task kinds and the tasks of a kind below `/v1/types`;
/// the labels and the tasks of a label below `/v1/labels`; every task at
/// `/v1/todos`.
pub fn route(is_get: bool, path: &str) -> (r: Route)
    ensures
        routed(r, is_get, path@),
{
    if !is_get {
        return Route::MethodNotAllowed;
    }
    if same_text(path, "/healthz") {
        return Route::Healthz;
    }
    if !starts_with_text(path, "/v1") {
        return Route::InvalidPath;
    }
    if starts_with_text(path, "/v1/types") {
        if same_text(path, "/v1/types") {
            Route::TypeNames
        } else {
            tail_route(path_tail_of(path), true)
        }
    } else if starts_with_text(path, "/v1/labels") {
        if same_text(path, "/v1/labels") {
            Route::LabelNames
        } else {
            tail_route(path_tail_of(path), false)
        }
    } else if starts_with_text(path, "/v1/todos") {
        if same_text(path, "/v1/todos") {
            Route::AllTodos
        } else {
            Route::PathNotRecognized
        }
    } else {
        Route::NotFound
    }
}

} // verus!
