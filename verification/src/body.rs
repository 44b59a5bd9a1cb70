use vstd::prelude::*;

use crate::json::{json_quote, json_string_encode, render_value, rendered_value};
use crate::strutil::{concat3, concat4, has_eq, split_at_eq, split_key, split_val};

verus! {

/// What the body resolver decided from the command line alone: either a
/// finished payload, or the one read (stdin or a named file) still owed.
pub enum BodyPlan {
    Resolved(Option<String>),
    FromStdin,
    FromFile(String),
}

/// Inserts a key/value pair into an ordered pair list: a present key keeps
/// its position and takes the new value, a new key goes to the end.
pub open spec fn upsert(
    ps: Seq<(Seq<char>, Seq<char>)>,
    k: Seq<char>,
    v: Seq<char>,
) -> Seq<(Seq<char>, Seq<char>)>
    decreases ps.len(),
{
    if ps.len() == 0 {
        seq![(k, v)]
    } else if ps[0].0 == k {
        seq![(k, v)] + ps.drop_first()
    } else {
        seq![ps[0]] + upsert(ps.drop_first(), k, v)
    }
}

/// The ordered key/value pairs that a token list yields: each token split at
/// its first `=`, the value rendered as JSON, later duplicates of a key
/// replacing its value in place.
pub open spec fn pairs_model(toks: Seq<Seq<char>>) -> Seq<(Seq<char>, Seq<char>)>
    decreases toks.len(),
{
    if toks.len() == 0 {
        Seq::empty()
    } else {
        upsert(
            pairs_model(toks.drop_last()),
            split_key(toks.last()),
            rendered_value(split_val(toks.last())),
        )
    }
}

/// One serialized JSON object member.
pub open spec fn entry_text(p: (Seq<char>, Seq<char>)) -> Seq<char> {
    json_string_encode(p.0) + seq![':'] + p.1
}

/// The serialized members of a JSON object, comma-separated.
pub open spec fn entries_text(ps: Seq<(Seq<char>, Seq<char>)>) -> Seq<char>
    decreases ps.len(),
{
    if ps.len() == 0 {
        Seq::empty()
    } else if ps.len() == 1 {
        entry_text(ps[0])
    } else {
        entries_text(ps.drop_last()) + seq![','] + entry_text(ps.last())
    }
}

/// A serialized JSON object.
pub open spec fn object_text(ps: Seq<(Seq<char>, Seq<char>)>) -> Seq<char> {
    seq!['{'] + entries_text(ps) + seq!['}']
}

/// The JSON object text that a key=value token list yields.
pub open spec fn kv_body_text(toks: Seq<Seq<char>>) -> Seq<char> {
    object_text(pairs_model(toks))
}

/// The error text for a token without `=`.
pub open spec fn invalid_pair_text(t: Seq<char>) -> Seq<char> {
    "Invalid key=value pair: '"@ + t + "'"@
}

/// Every token holds a `=`.
pub open spec fn all_have_eq(toks: Seq<Seq<char>>) -> bool {
    forall|i: int| 0 <= i < toks.len() ==> has_eq(#[trigger] toks[i])
}

/// `m` names the first token without `=`.
pub open spec fn first_bad_token(toks: Seq<Seq<char>>, m: Seq<char>) -> bool {
    exists|i: int|
        0 <= i < toks.len() && !has_eq(#[trigger] toks[i]) && (forall|j: int|
            0 <= j < i ==> has_eq(#[trigger] toks[j])) && m == invalid_pair_text(toks[i])
}

/// When the key sits at position `j` (and nowhere earlier), `upsert` updates
/// that position.
proof fn lemma_upsert_at(ps: Seq<(Seq<char>, Seq<char>)>, k: Seq<char>, v: Seq<char>, j: int)
    requires
        0 <= j < ps.len(),
        ps[j].0 == k,
        forall|i: int| 0 <= i < j ==> ps[i].0 != k,
    ensures
        upsert(ps, k, v) == ps.update(j, (k, v)),
    decreases j,
{
    if j == 0 {
        assert(upsert(ps, k, v) =~= ps.update(0, (k, v)));
    } else {
        assert(ps[0].0 != k);
        assert(ps.drop_first()[j - 1].0 == k);
        lemma_upsert_at(ps.drop_first(), k, v, j - 1);
        assert(upsert(ps, k, v) =~= ps.update(j, (k, v)));
    }
}

/// When the key is absent, `upsert` appends.
proof fn lemma_upsert_absent(ps: Seq<(Seq<char>, Seq<char>)>, k: Seq<char>, v: Seq<char>)
    requires
        forall|i: int| 0 <= i < ps.len() ==> ps[i].0 != k,
    ensures
        upsert(ps, k, v) == ps.push((k, v)),
    decreases ps.len(),
{
    if ps.len() == 0 {
        assert(upsert(ps, k, v) =~= ps.push((k, v)));
    } else {
        assert(ps[0].0 != k);
        lemma_upsert_absent(ps.drop_first(), k, v);
        assert(upsert(ps, k, v) =~= ps.push((k, v)));
    }
}

/// Inserts a rendered pair, replacing the value of an already-present key in
/// place and appending a new key.
fn upsert_pairs(pairs: &mut Vec<(String, String)>, k: String, v: String)
    ensures
        final(pairs).deep_view() == upsert(old(pairs).deep_view(), k@, v@),
{
    let ghost orig = pairs.deep_view();
    let mut j: usize = 0;
    while j < pairs.len()
        invariant
            j <= pairs@.len(),
            pairs.deep_view() == orig,
            orig == old(pairs).deep_view(),
            orig.len() == pairs@.len(),
            forall|i: int| 0 <= i < j ==> orig[i].0 != k@,
        decreases pairs@.len() - j,
    {
        let hit = crate::strutil::str_eq(pairs[j].0.as_str(), k.as_str());
        proof {
            assert(orig[j as int] == pairs@[j as int].deep_view());
        }
        if hit {
            proof {
                lemma_upsert_at(orig, k@, v@, j as int);
            }
            pairs.set(j, (k, v));
            proof {
                assert(pairs.deep_view() =~= orig.update(j as int, (k@, v@)));
            }
            return;
        }
        j += 1;
    }
    proof {
        lemma_upsert_absent(orig, k@, v@);
    }
    pairs.push((k, v));
    proof {
        assert(pairs.deep_view() =~= orig.push((k@, v@)));
    }
}

/// Turns two or more key=value tokens into one compact JSON object, keys in
/// first-appearance order, or fails naming the first token without `=`.
pub fn pairs_to_json(tokens: &Vec<String>) -> (r: Result<String, String>)
    ensures
        match r {
            Ok(s) => all_have_eq(tokens.deep_view()) && s@ == kv_body_text(tokens.deep_view()),
            Err(m) => first_bad_token(tokens.deep_view(), m@),
        },
{
    let ghost toks = tokens.deep_view();
    let mut pairs: Vec<(String, String)> = Vec::new();
    let mut idx: usize = 0;
    proof {
        assert(toks.subrange(0, 0) =~= Seq::<Seq<char>>::empty());
    }
    while idx < tokens.len()
        invariant
            idx <= tokens@.len(),
            toks == tokens.deep_view(),
            toks.len() == tokens@.len(),
            forall|j: int| 0 <= j < idx ==> has_eq(#[trigger] toks[j]),
            pairs.deep_view() == pairs_model(toks.subrange(0, idx as int)),
        decreases tokens@.len() - idx,
    {
        let tok: &String = &tokens[idx];
        proof {
            assert(toks[idx as int] == tok@);
        }
        match split_at_eq(tok.as_str()) {
            None => {
                let msg = concat3("Invalid key=value pair: '", tok.as_str(), "'");
                proof {
                    assert(!has_eq(toks[idx as int]) && msg@ == invalid_pair_text(
                        toks[idx as int],
                    ));
                }
                return Err(msg);
            },
            Some((k, v)) => {
                let rv = render_value(v.as_str());
                upsert_pairs(&mut pairs, k, rv);
                proof {
                    let upto = toks.subrange(0, (idx + 1) as int);
                    assert(upto.drop_last() =~= toks.subrange(0, idx as int));
                    assert(upto.last() == toks[idx as int]);
                }
            },
        }
        idx += 1;
    }
    proof {
        assert(toks.subrange(0, toks.len() as int) =~= toks);
    }
    let ghost ps = pairs_model(toks);
    let mut out = String::from_str("{");
    proof {
        reveal_strlit("{");
        assert(ps.subrange(0, 0) =~= Seq::<(Seq<char>, Seq<char>)>::empty());
        assert(out@ =~= seq!['{'] + entries_text(ps.subrange(0, 0)));
    }
    let mut j: usize = 0;
    while j < pairs.len()
        invariant
            j <= pairs@.len(),
            ps == pairs.deep_view(),
            ps.len() == pairs@.len(),
            out@ == seq!['{'] + entries_text(ps.subrange(0, j as int)),
        decreases pairs@.len() - j,
    {
        if j > 0 {
            out.append(",");
            proof {
                reveal_strlit(",");
            }
        }
        let q = json_quote(pairs[j].0.as_str());
        out.append(q.as_str());
        out.append(":");
        out.append(pairs[j].1.as_str());
        proof {
            reveal_strlit(":");
            let upto = ps.subrange(0, (j + 1) as int);
            assert(ps[j as int] == pairs@[j as int].deep_view());
            assert(upto.drop_last() =~= ps.subrange(0, j as int));
            assert(upto.last() == ps[j as int]);
            if j == 0 {
                assert(entries_text(upto) == entry_text(ps[0]));
            }
            assert(out@ =~= seq!['{'] + entries_text(upto));
        }
        j += 1;
    }
    out.append("}");
    proof {
        reveal_strlit("}");
        assert(ps.subrange(0, ps.len() as int) =~= ps);
        assert(out@ =~= object_text(ps));
    }
    Ok(out)
}

/// What the body resolver owes for given inputs: the explicit flag wins
/// verbatim; with no tokens stdin is still owed; one token is a file
/// reference or a raw body; several tokens form a JSON object.
pub open spec fn body_resolution(
    flag_body: Option<String>,
    toks: Seq<Seq<char>>,
    r: Result<BodyPlan, String>,
) -> bool {
    &&& (flag_body is Some ==> r == Ok::<BodyPlan, String>(BodyPlan::Resolved(flag_body)))
    &&& (flag_body is None ==> {
        if toks.len() == 0 {
            r == Ok::<BodyPlan, String>(BodyPlan::FromStdin)
        } else if toks.len() == 1 {
            if toks[0].len() >= 1 && toks[0][0] == '@' {
                r matches Ok(BodyPlan::FromFile(p)) && p@ == toks[0].skip(1)
            } else {
                r matches Ok(BodyPlan::Resolved(Some(s))) && s@ == toks[0]
            }
        } else {
            match r {
                Ok(plan) => all_have_eq(toks) && (plan matches BodyPlan::Resolved(b)
                    && b matches Some(s) && s@ == kv_body_text(toks)),
                Err(m) => first_bad_token(toks, m@),
            }
        }
    })
}

/// An explicit body flag resolves verbatim, whatever the positional tokens
/// hold.
pub proof fn lemma_flag_body_wins(
    flag_body: Option<String>,
    toks: Seq<Seq<char>>,
    r: Result<BodyPlan, String>,
)
    requires
        flag_body is Some,
        body_resolution(flag_body, toks, r),
    ensures
        r == Ok::<BodyPlan, String>(BodyPlan::Resolved(flag_body)),
{
}

/// Resolves the request body as far as the command line alone determines it.
pub fn parse_body(flag_body: Option<String>, body_data: &Vec<String>) -> (r: Result<
    BodyPlan,
    String,
>)
    ensures
        body_resolution(flag_body, body_data.deep_view(), r),
{
    if flag_body.is_some() {
        return Ok(BodyPlan::Resolved(flag_body));
    }
    if body_data.len() == 0 {
        return Ok(BodyPlan::FromStdin);
    }
    if body_data.len() == 1 {
        let arg: &String = &body_data[0];
        proof {
            assert(body_data.deep_view()[0] == arg@);
        }
        let n: usize = arg.as_str().unicode_len();
        if n >= 1 && arg.as_str().get_char(0) == '@' {
            let path = String::from_str(arg.as_str().substring_char(1, n));
            proof {
                assert(path@ =~= body_data.deep_view()[0].skip(1));
            }
            return Ok(BodyPlan::FromFile(path));
        }
        return Ok(BodyPlan::Resolved(Some(arg.clone())));
    }
    match pairs_to_json(body_data) {
        Ok(s) => Ok(BodyPlan::Resolved(Some(s))),
        Err(m) => Err(m),
    }
}

/// A piped stdin body counts only when it is non-empty.
pub fn body_from_stdin(contents: String) -> (r: Option<String>)
    ensures
        contents@.len() == 0 ==> r is None,
        contents@.len() > 0 ==> r == Some(contents),
{
    if contents.as_str().unicode_len() == 0 {
        None
    } else {
        Some(contents)
    }
}

/// The error text for an unreadable body file, naming its path.
pub open spec fn file_error_text(path: Seq<char>, detail: Seq<char>) -> Seq<char> {
    "Failed to read file '"@ + path + "': "@ + detail
}

/// The error text for an unreadable stdin.
pub open spec fn stdin_error_text(detail: Seq<char>) -> Seq<char> {
    "Failed to read from stdin: "@ + detail
}

/// Accepts the contents read from a body file, or wraps the reported failure
/// in an error that names the path.
pub fn body_from_file(path: &str, read: Result<String, String>) -> (r: Result<String, String>)
    ensures
        read is Ok ==> r == read,
        read matches Err(e) ==> r matches Err(m) && m@ == file_error_text(path@, e@),
{
    match read {
        Ok(contents) => Ok(contents),
        Err(detail) => Err(concat4("Failed to read file '", path, "': ", detail.as_str())),
    }
}

/// Wraps a reported stdin failure in its error text.
pub fn stdin_failure(detail: &str) -> (r: String)
    ensures
        r@ == stdin_error_text(detail@),
{
    let mut s = String::from_str("Failed to read from stdin: ");
    s.append(detail);
    s
}

} // verus!
