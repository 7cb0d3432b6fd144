use vstd::prelude::*;
use vstd::string::*;

verus! {

/// Where the text of a path's last segment begins: just after its last `/`,
/// or at the start when it holds none.
pub open spec fn segment_start(s: Seq<char>) -> int
    decreases s.len(),
{
    if s.len() == 0 {
        0
    } else if s.last() == '/' {
        s.len() as int
    } else {
        segment_start(s.drop_last())
    }
}

/// The part of `s` after its last `/` (all of `s` when it holds no `/`):
/// the last item that `s.split('/')` yields.
pub open spec fn last_segment(s: Seq<char>) -> Seq<char> {
    s.subrange(segment_start(s), s.len() as int)
}

/// Where a function fetched from the object store is kept while it runs.
pub open spec fn cache_path_spec(name: Seq<char>) -> Seq<char> {
    "./src/cache/"@ + name
}

/// Where the bundled sample functions live; their size stands for the
/// memory a run uses.
pub open spec fn saved_function_path_spec(name: Seq<char>) -> Seq<char> {
    "./src/savedWasmFunctions/"@ + name
}

/// `Path::new("./src/cache").join(name)` on Unix: an absolute name replaces
/// the directory, any other name is placed inside it.
pub open spec fn upload_path_spec(name: Seq<char>) -> Seq<char> {
    if name.len() > 0 && name[0] == '/' {
        name
    } else {
        "./src/cache/"@ + name
    }
}

proof fn lemma_segment_start_bounds(s: Seq<char>)
    ensures
        0 <= segment_start(s) <= s.len(),
        segment_start(s) > 0 ==> s[segment_start(s) - 1] == '/',
        forall|k: int| segment_start(s) <= k < s.len() ==> s[k] != '/',
    decreases s.len(),
{
    if s.len() > 0 && s.last() != '/' {
        lemma_segment_start_bounds(s.drop_last());
        assert forall|k: int| segment_start(s) <= k < s.len() implies s[k] != '/' by {
            if k < s.len() - 1 {
                assert(s[k] == s.drop_last()[k]);
            }
        }
        if segment_start(s) > 0 {
            assert(s[segment_start(s) - 1] == s.drop_last()[segment_start(s) - 1]);
        }
    }
}

/// The name under which a run of `addr` is recorded holds no `/`, ends `addr`,
/// and what comes before it in `addr` is empty or ends with `/`.
pub proof fn lemma_last_segment_shape(s: Seq<char>)
    ensures
        forall|k: int| 0 <= k < last_segment(s).len() ==> last_segment(s)[k] != '/',
        s =~= s.subrange(0, segment_start(s)) + last_segment(s),
        segment_start(s) == 0 || s[segment_start(s) - 1] == '/',
{
    lemma_segment_start_bounds(s);
}

/// A text without `/` is its own last segment.
pub proof fn lemma_last_segment_of_plain_name(s: Seq<char>)
    requires
        forall|k: int| 0 <= k < s.len() ==> s[k] != '/',
    ensures
        last_segment(s) == s,
    decreases s.len(),
{
    if s.len() > 0 {
        assert(s.last() == s[s.len() - 1]);
        assert forall|k: int| 0 <= k < s.drop_last().len() implies s.drop_last()[k] != '/' by {
            assert(s.drop_last()[k] == s[k]);
        }
        lemma_last_segment_of_plain_name(s.drop_last());
        lemma_segment_start_bounds(s.drop_last());
    }
    assert(s.subrange(0, s.len() as int) =~= s);
}

/// Taking the last segment twice gives the same name as taking it once.
pub proof fn lemma_last_segment_idempotent(s: Seq<char>)
    ensures
        last_segment(last_segment(s)) == last_segment(s),
{
    lemma_last_segment_shape(s);
    lemma_last_segment_of_plain_name(last_segment(s));
}

/// The function name that a run of the module at `addr` is recorded under:
/// what `addr.split('/').last()` gives.
pub fn function_name(addr: &str) -> (name: String)
    ensures
        name@ == last_segment(addr@),
{
    let len = addr.unicode_len();
    let mut start: usize = 0;
    let mut i: usize = 0;
    while i < len
        invariant
            i <= len,
            len == addr@.len(),
            start as int == segment_start(addr@.subrange(0, i as int)),
        decreases len - i,
    {
        let c = addr.get_char(i);
        let ghost next = addr@.subrange(0, i + 1);
        assert(next.drop_last() =~= addr@.subrange(0, i as int));
        if c == '/' {
            start = i + 1;
        }
        i = i + 1;
    }
    assert(addr@.subrange(0, len as int) =~= addr@);
    proof { lemma_segment_start_bounds(addr@); }
    String::from_str(addr.substring_char(start, len))
}

/// Where the module `addr` is fetched to before it runs.
pub fn cache_path(addr: &str) -> (path: String)
    ensures
        path@ == cache_path_spec(addr@),
{
    let mut path = String::from_str("./src/cache/");
    path.append(addr);
    path
}

/// Where the bundled copy of the function `name` lies.
pub fn saved_function_path(name: &str) -> (path: String)
    ensures
        path@ == saved_function_path_spec(name@),
{
    let mut path = String::from_str("./src/savedWasmFunctions/");
    path.append(name);
    path
}

/// Where an uploaded module is written before it goes to the object store.
pub fn upload_path(name: &str) -> (path: String)
    ensures
        path@ == upload_path_spec(name@),
{
    if name.unicode_len() > 0 && name.get_char(0) == '/' {
        String::from_str(name)
    } else {
        cache_path(name)
    }
}

} // verus!
