use vstd::prelude::*;

use crate::http::HttpStatus;

verus! {

/// Number of `'.'` characters in `s`.
pub open spec fn dot_count(s: Seq<char>) -> nat
    decreases s.len(),
{
    if s.len() == 0 {
        0
    } else {
        dot_count(s.drop_last()) + if s.last() == '.' { 1nat } else { 0nat }
    }
}

/// The characters of `s` before its first `'.'` (all of `s` when it has none).
pub open spec fn first_segment(s: Seq<char>) -> Seq<char>
    decreases s.len(),
{
    if s.len() == 0 {
        s
    } else if s[0] == '.' {
        Seq::empty()
    } else {
        seq![s[0]].add(first_segment(s.drop_first()))
    }
}

/// `String::push`: appends the character `c` to `s`; the contract says just that.
#[verifier::external_body]
fn push_char(s: &mut String, c: char)
    ensures
        final(s)@ == old(s)@.push(c),
{
    s.push(c);
}

/// Past a prefix without `'.'`, the first segment continues in the rest of the sequence.
proof fn lemma_first_segment_split(s: Seq<char>, i: int)
    requires
        0 <= i <= s.len(),
        forall|j: int| 0 <= j < i ==> s[j] != '.',
    ensures
        first_segment(s) == s.take(i) + first_segment(s.skip(i)),
    decreases i,
{
    if i > 0 {
        lemma_first_segment_split(s.drop_first(), i - 1);
        assert(s.drop_first().take(i - 1) =~= s.take(i).drop_first());
        assert(s.drop_first().skip(i - 1) =~= s.skip(i));
        assert(s.take(i) =~= seq![s[0]] + s.take(i).drop_first());
    } else {
        assert(s.skip(0) =~= s);
    }
}

/// Takes a repository name as it appears in a URL (`name` or `name.git`) and returns the
/// name under which the repository is stored: everything before the first `'.'`.
/// A name with more than one `'.'` is refused with `BadRequest`.
pub fn strip_dot_git_from_repo_name(n: String) -> (res: Result<String, HttpStatus>)
    ensures
        dot_count(n@) <= 1 ==> (res matches Ok(s) && s@ == first_segment(n@)),
        dot_count(n@) > 1 ==> res == Err::<String, HttpStatus>(HttpStatus::BadRequest),
{
    let mut dots: usize = 0;
    let mut prefix = String::new();
    let mut seen_dot = false;
    let ghost s = n@;
    for c in it: n.chars()
        invariant
            it.seq() == s,
            0 <= it.index() <= s.len(),
            dots <= 2,
            dots as int == if dot_count(s.take(it.index())) < 2 { dot_count(s.take(it.index())) as int } else { 2 },
            !seen_dot ==> prefix@ == s.take(it.index()),
            !seen_dot ==> forall|j: int| 0 <= j < it.index() ==> s[j] != '.',
            seen_dot ==> prefix@ == first_segment(s),
    {
        let ghost i = it.index();
        assert(s.take(i + 1).drop_last() =~= s.take(i));
        assert(s.take(i + 1).last() == c);
        if c == '.' {
            if dots < 2 {
                dots = dots + 1;
            }
            if !seen_dot {
                proof {
                    lemma_first_segment_split(s, i);
                    assert(s.skip(i)[0] == '.');
                    assert(first_segment(s.skip(i)) =~= Seq::<char>::empty());
                }
                seen_dot = true;
            }
        } else if !seen_dot {
            push_char(&mut prefix, c);
            assert(s.take(i + 1) =~= s.take(i).push(c));
        }
    }
    proof {
        assert(s.take(s.len() as int) =~= s);
        if !seen_dot {
            lemma_first_segment_split(s, s.len() as int);
            assert(s.skip(s.len() as int) =~= Seq::<char>::empty());
        }
    }
    if dots > 1 {
        Err(HttpStatus::BadRequest)
    } else {
        Ok(prefix)
    }
}


/// `".git"`, the suffix a client may put after a repository name.
pub open spec fn dot_git() -> Seq<char> {
    seq!['.', 'g', 'i', 't']
}

/// `dot_count` adds up over concatenation.
pub proof fn lemma_dot_count_concat(a: Seq<char>, b: Seq<char>)
    ensures
        dot_count(a + b) == dot_count(a) + dot_count(b),
    decreases b.len(),
{
    if b.len() == 0 {
        assert(a + b =~= a);
    } else {
        lemma_dot_count_concat(a, b.drop_last());
        assert((a + b).drop_last() =~= a + b.drop_last());
    }
}

/// A sequence has no `'.'` exactly when its dot count is zero.
pub proof fn lemma_dot_count_zero(s: Seq<char>)
    ensures
        dot_count(s) == 0 <==> forall|j: int| 0 <= j < s.len() ==> s[j] != '.',
    decreases s.len(),
{
    if s.len() > 0 {
        lemma_dot_count_zero(s.drop_last());
        if dot_count(s) == 0 {
            assert forall|j: int| 0 <= j < s.len() implies s[j] != '.' by {
                if j < s.len() - 1 {
                    assert(s.drop_last()[j] == s[j]);
                }
            }
        }
        if forall|j: int| 0 <= j < s.len() ==> s[j] != '.' {
            assert forall|j: int| 0 <= j < s.drop_last().len() implies s.drop_last()[j] != '.' by {
                assert(s.drop_last()[j] == s[j]);
            }
        }
    }
}

/// The first segment of a name is a prefix of it without any `'.'`; it is the whole
/// name when the name has no `'.'`.
pub proof fn lemma_first_segment_shape(s: Seq<char>)
    ensures
        forall|j: int| 0 <= j < first_segment(s).len() ==> first_segment(s)[j] != '.',
        first_segment(s).is_prefix_of(s),
        (forall|j: int| 0 <= j < s.len() ==> s[j] != '.') ==> first_segment(s) == s,
    decreases s.len(),
{
    if s.len() > 0 && s[0] != '.' {
        lemma_first_segment_shape(s.drop_first());
        let r = first_segment(s.drop_first());
        assert forall|j: int| 0 <= j < first_segment(s).len() implies first_segment(s)[j] != '.' by {
            if j > 0 {
                assert(first_segment(s)[j] == r[j - 1]);
            }
        }
        assert forall|j: int| 0 <= j < first_segment(s).len() implies first_segment(s)[j] == s[j] by {
            if j > 0 {
                assert(first_segment(s)[j] == r[j - 1]);
                assert(r[j - 1] == s.drop_first()[j - 1]);
            }
        }
        if forall|j: int| 0 <= j < s.len() ==> s[j] != '.' {
            assert forall|j: int| 0 <= j < s.drop_first().len() implies s.drop_first()[j] != '.' by {
                assert(s.drop_first()[j] == s[j + 1]);
            }
            assert(s =~= seq![s[0]] + s.drop_first());
        }
    }
}

/// A stripped name contains no `'.'`, so stripping it again is accepted and changes
/// nothing.
pub proof fn lemma_strip_idempotent(s: Seq<char>)
    ensures
        dot_count(first_segment(s)) == 0,
        first_segment(first_segment(s)) == first_segment(s),
{
    lemma_first_segment_shape(s);
    lemma_first_segment_shape(first_segment(s));
    lemma_dot_count_zero(first_segment(s));
}

/// A name without `'.'` is kept as it is, and the same name followed by `".git"` is
/// stored under that name too.
pub proof fn lemma_dot_git_suffix_dropped(s: Seq<char>)
    requires
        forall|j: int| 0 <= j < s.len() ==> s[j] != '.',
    ensures
        dot_count(s) == 0,
        first_segment(s) == s,
        dot_count(s + dot_git()) == 1,
        first_segment(s + dot_git()) == s,
{
    lemma_dot_count_zero(s);
    lemma_first_segment_shape(s);
    lemma_dot_count_concat(s, dot_git());
    let g = dot_git();
    assert(dot_count(g) == 1) by {
        let g1 = g.drop_last().drop_last().drop_last();
        assert(g1 =~= seq!['.']);
        assert(g1.drop_last() =~= Seq::<char>::empty());
        assert(dot_count(g1.drop_last()) == 0);
        assert(dot_count(g1) == 1);
        assert(dot_count(g.drop_last().drop_last()) == 1);
        assert(dot_count(g.drop_last()) == 1);
    }
    let t = s + g;
    assert forall|j: int| 0 <= j < s.len() implies t[j] != '.' by {
        assert(t[j] == s[j]);
    }
    lemma_first_segment_split(t, s.len() as int);
    assert(t.take(s.len() as int) =~= s);
    assert(t.skip(s.len() as int) =~= g);
    assert(first_segment(g) =~= Seq::<char>::empty());
}

/// Largest request body, in bytes, that the pack endpoints keep in memory.
pub const MAX_SIZE: usize = 524288000;

/// The query of a smart-HTTP ref discovery request (`?service=...`).
pub struct GitSmartHttpRequest {
    pub service: Option<String>,
}

/// Content type of a ref advertisement for `service`: `application/x-<service>-advertisement`.
pub fn advertisement_content_type(service: &str) -> (res: String)
    ensures
        res@ == "application/x-"@ + service@ + "-advertisement"@,
{
    let mut res = String::from_str("application/x-");
    res.append(service);
    res.append("-advertisement");
    res
}

/// Content type of the answer to a pack request for `service`: `application/x-<service>-result`.
pub fn result_content_type(service: &str) -> (res: String)
    ensures
        res@ == "application/x-"@ + service@ + "-result"@,
{
    let mut res = String::from_str("application/x-");
    res.append(service);
    res.append("-result");
    res
}

/// Where the repository `repo_name` of `user` lives on disk for the git endpoints.
pub fn served_repo_path(user: &str, repo_name: &str) -> (res: String)
    ensures
        res@ == "/home/alfredo/kidney-stones/tests/"@ + user@ + "/"@ + repo_name@,
{
    let mut res = String::from_str("/home/alfredo/kidney-stones/tests/");
    res.append(user);
    res.append("/");
    res.append(repo_name);
    res
}

/// The `git` subcommand that answers ref discovery for `service`. Only the literal
/// service name `git-recieve-pack` selects `receive-pack`; every other name, the
/// correctly spelt `git-receive-pack` included, selects `upload-pack`.
pub fn advertised_command(service: &String) -> (cmd: &'static str)
    ensures
        service@ == "git-recieve-pack"@ ==> cmd@ == "receive-pack"@,
        service@ != "git-recieve-pack"@ ==> cmd@ == "upload-pack"@,
{
    let receive = String::from_str("git-recieve-pack");
    if *service == receive {
        "receive-pack"
    } else {
        "upload-pack"
    }
}

/// One step of reading a pack request body: `Some` of the body with the chunk appended
/// while that stays within `MAX_SIZE`, `None` (the request is refused) otherwise.
pub open spec fn absorb_step(body: Seq<u8>, chunk: Seq<u8>) -> Option<Seq<u8>> {
    if body.len() + chunk.len() <= MAX_SIZE {
        Some(body + chunk)
    } else {
        None
    }
}

/// Reading a whole body chunk by chunk, starting from nothing: the body kept at the end,
/// or `None` when some step refused.
pub open spec fn absorb_all(chunks: Seq<Seq<u8>>) -> Option<Seq<u8>>
    decreases chunks.len(),
{
    if chunks.len() == 0 {
        Some(Seq::empty())
    } else {
        match absorb_all(chunks.drop_last()) {
            Some(body) => absorb_step(body, chunks.last()),
            None => None,
        }
    }
}

/// One step of reading a pack request body: the chunk is appended when the body stays
/// within `MAX_SIZE`; otherwise the request is to be refused and the body is left as it was.
pub fn absorb_chunk(body: &mut Vec<u8>, chunk: &[u8]) -> (accepted: bool)
    ensures
        accepted == (old(body)@.len() + chunk@.len() <= MAX_SIZE),
        accepted ==> final(body)@ == old(body)@ + chunk@,
        !accepted ==> final(body)@ == old(body)@,
        accepted <==> absorb_step(old(body)@, chunk@) is Some,
        accepted ==> absorb_step(old(body)@, chunk@) == Some(final(body)@),
        old(body)@.len() <= MAX_SIZE ==> final(body)@.len() <= MAX_SIZE,
{
    if body.len() > MAX_SIZE || chunk.len() > MAX_SIZE - body.len() {
        false
    } else {
        body.extend_from_slice(chunk);
        assert(body@ =~= old(body)@ + chunk@);
        true
    }
}

/// Reading a body chunk by chunk keeps exactly what was sent, in order, when all of it
/// fits in `MAX_SIZE`, and refuses the request otherwise.
pub proof fn lemma_absorb_all(chunks: Seq<Seq<u8>>)
    ensures
        chunks.flatten().len() <= MAX_SIZE ==> absorb_all(chunks) == Some(chunks.flatten()),
        chunks.flatten().len() > MAX_SIZE ==> absorb_all(chunks) is None,
    decreases chunks.len(),
{
    if chunks.len() > 0 {
        let init = chunks.drop_last();
        lemma_absorb_all(init);
        chunks.lemma_flatten_and_flatten_alt_are_equivalent();
        init.lemma_flatten_and_flatten_alt_are_equivalent();
        assert(chunks.flatten() == init.flatten() + chunks.last());
    }
}

} // verus!
