//! The status probe's data side: building the status snapshot from the
//! upstream payload the host fetched, and reading model names out of the
//! service's tabular list output.

use vstd::prelude::*;
use vstd::string::StringExecFns;
use crate::frame::{complete_lines, LineFramer};
use crate::text::{first_token, first_token_str};
use crate::upstream::{models_of, parse_models_payload};

verus! {

/// The ephemeral status snapshot: whether the upstream service answered,
/// and which models it reports installed.
pub struct StatusResponse {
    pub running: bool,
    pub models: Vec<String>,
}

/// Build the status snapshot from the body the upstream status endpoint
/// returned, or from its absence. A transport failure is a normal outcome:
/// it reads as a stopped service with no models, never as an error.
pub fn status_from_payload(payload: Option<&str>) -> (r: StatusResponse)
    ensures
        r.running == payload is Some,
        match payload {
            Some(b) => r.models.deep_view() == models_of(b@),
            None => r.models.deep_view() == Seq::<Seq<char>>::empty(),
        },
{
    match payload {
        Some(b) => StatusResponse { running: true, models: parse_models_payload(b) },
        None => {
            let r = StatusResponse { running: false, models: Vec::new() };
            proof {
                assert(r.models.deep_view() =~= Seq::<Seq<char>>::empty());
            }
            r
        },
    }
}

/// The first token of a line, as a sequence of zero or one entries.
pub open spec fn token_seq(l: Seq<char>) -> Seq<Seq<char>> {
    match first_token(l) {
        Some(t) => seq![t],
        None => Seq::empty(),
    }
}

/// The first token of every line that has one, in order.
pub open spec fn tokens_of_lines(ls: Seq<Seq<char>>) -> Seq<Seq<char>>
    decreases ls.len(),
{
    if ls.len() == 0 {
        Seq::empty()
    } else {
        token_seq(ls[0]) + tokens_of_lines(ls.drop_first())
    }
}

proof fn lemma_tokens_push(ls: Seq<Seq<char>>, l: Seq<char>)
    ensures
        tokens_of_lines(ls.push(l)) == tokens_of_lines(ls) + token_seq(l),
    decreases ls.len(),
{
    if ls.len() == 0 {
        assert(ls.push(l)[0] == l);
        assert(ls.push(l).drop_first() =~= Seq::<Seq<char>>::empty());
        assert(tokens_of_lines(Seq::<Seq<char>>::empty()) == Seq::<Seq<char>>::empty());
        assert(tokens_of_lines(ls.push(l)) == token_seq(l) + Seq::<Seq<char>>::empty());
        assert(token_seq(l) + Seq::<Seq<char>>::empty() =~= token_seq(l));
        assert(tokens_of_lines(ls) + token_seq(l) =~= token_seq(l));
    } else {
        assert(ls.push(l)[0] == ls[0]);
        assert(ls.push(l).drop_first() =~= ls.drop_first().push(l));
        lemma_tokens_push(ls.drop_first(), l);
        assert(tokens_of_lines(ls.push(l)) == token_seq(ls[0]) + tokens_of_lines(
            ls.drop_first().push(l),
        ));
        assert(token_seq(ls[0]) + (tokens_of_lines(ls.drop_first()) + token_seq(l)) =~= (token_seq(
            ls[0],
        ) + tokens_of_lines(ls.drop_first())) + token_seq(l));
        assert(tokens_of_lines(ls) == token_seq(ls[0]) + tokens_of_lines(ls.drop_first()));
    }
}

/// The model names in the service's tabular list output: the first token
/// of every line after the header line.
pub open spec fn models_from_list_view(out: Seq<char>) -> Seq<Seq<char>> {
    tokens_of_lines(complete_lines(out.push('\n')).drop_first())
}

/// Read the installed model names out of the service's tabular list output:
/// the header line is skipped, and each later line contributes its first
/// whitespace-separated token.
pub fn models_from_list_output(out: &str) -> (r: Vec<String>)
    ensures
        r.deep_view() == models_from_list_view(out@),
{
    let mut framer = LineFramer::new();
    let mut s = String::from_str(out);
    s.append("\n");
    let lines = framer.push(s.as_str());
    proof {
        reveal_strlit("\n");
        assert("\n"@ =~= seq!['\n']);
        assert(Seq::<char>::empty() + (out@ + "\n"@) =~= out@.push('\n'));
        assert(lines.deep_view() == complete_lines(out@.push('\n')));
        assert(out@.push('\n')[out@.len() as int] == '\n');
        assert(out@.push('\n').contains('\n'));
        assert(complete_lines(out@.push('\n')).len() >= 1);
    }
    let n = lines.len();
    let mut models: Vec<String> = Vec::new();
    let mut i: usize = 1;
    proof {
        assert(lines.deep_view().subrange(1, 1) =~= Seq::<Seq<char>>::empty());
        assert(models.deep_view() =~= Seq::<Seq<char>>::empty());
    }
    while i < n
        invariant
            n == lines@.len(),
            1 <= i <= n,
            models.deep_view() == tokens_of_lines(lines.deep_view().subrange(1, i as int)),
        decreases n - i,
    {
        let ghost pre = models.deep_view();
        let ghost dv = lines.deep_view();
        match first_token_str(lines[i].as_str()) {
            Some(t) => {
                models.push(t);
                proof {
                    assert(models.deep_view() =~= pre + token_seq(dv[i as int]));
                }
            },
            None => {
                proof {
                    assert(models.deep_view() =~= pre + token_seq(dv[i as int]));
                }
            },
        }
        proof {
            lemma_tokens_push(dv.subrange(1, i as int), dv[i as int]);
            assert(dv.subrange(1, i as int).push(dv[i as int]) =~= dv.subrange(1, i as int + 1));
        }
        i = i + 1;
    }
    proof {
        assert(lines.deep_view().subrange(1, n as int) =~= lines.deep_view().drop_first());
    }
    models
}

} // verus!
