//! The generation relay: reframes the upstream newline-delimited generation
//! stream as push events. Every non-empty token fragment becomes one token
//! event, carried verbatim; a chunk with the completion flag ends the relay
//! with exactly one sentinel event; malformed lines are skipped and neither
//! emit nor terminate.

use vstd::prelude::*;
use vstd::string::StringExecFns;
use crate::upstream::{gen_chunk_of, parse_gen_chunk, GenChunk, GenChunkView};

verus! {

/// One event of the relay stream: a token fragment, or the terminal
/// sentinel.
pub enum RelayEvent {
    Token(String),
    End,
}

/// The mathematical value of a [`RelayEvent`].
pub enum RelayEventView {
    Token(Seq<char>),
    End,
}

impl View for RelayEvent {
    type V = RelayEventView;

    open spec fn view(&self) -> RelayEventView {
        match self {
            RelayEvent::Token(s) => RelayEventView::Token(s@),
            RelayEvent::End => RelayEventView::End,
        }
    }
}

impl DeepView for RelayEvent {
    type V = RelayEventView;

    open spec fn deep_view(&self) -> RelayEventView {
        self.view()
    }
}

/// The wire payload of an event: the fragment itself, or the reserved
/// sentinel text.
pub open spec fn payload_view(e: RelayEventView) -> Seq<char> {
    match e {
        RelayEventView::Token(s) => s,
        RelayEventView::End => "__END__"@,
    }
}

impl RelayEvent {
    /// The wire payload of this event, as [`payload_view`] states it.
    pub fn payload(&self) -> (r: String)
        ensures
            r@ == payload_view(self@),
    {
        match self {
            RelayEvent::Token(s) => s.clone(),
            RelayEvent::End => String::from_str("__END__"),
        }
    }
}

/// The events one parsed chunk contributes: its token fragment when present
/// and non-empty, then the sentinel when it carries the completion flag.
pub open spec fn chunk_events(c: GenChunkView) -> Seq<RelayEventView> {
    let toks: Seq<RelayEventView> = if c.response is Some && c.response->0.len() > 0 {
        seq![RelayEventView::Token(c.response->0)]
    } else {
        Seq::empty()
    };
    if c.done {
        toks + seq![RelayEventView::End]
    } else {
        toks
    }
}

/// The events one upstream line contributes; a line that does not parse
/// contributes nothing.
pub open spec fn line_events(l: Seq<char>) -> Seq<RelayEventView> {
    match gen_chunk_of(l) {
        Some(c) => chunk_events(c),
        None => Seq::empty(),
    }
}

/// The line parses and carries the completion flag.
pub open spec fn line_finishes(l: Seq<char>) -> bool {
    gen_chunk_of(l) matches Some(c) && c.done
}

/// The full event stream for a run of upstream lines: each line's events in
/// order, stopping after the first line that completes the generation.
pub open spec fn relay_events_spec(lines: Seq<Seq<char>>) -> Seq<RelayEventView>
    decreases lines.len(),
{
    if lines.len() == 0 {
        Seq::empty()
    } else {
        let rest: Seq<RelayEventView> = if line_finishes(lines[0]) {
            Seq::empty()
        } else {
            relay_events_spec(lines.drop_first())
        };
        line_events(lines[0]) + rest
    }
}

fn append_chunk_events(out: &mut Vec<RelayEvent>, chunk: &GenChunk)
    ensures
        final(out).deep_view() == old(out).deep_view() + chunk_events(chunk@),
{
    let ghost base = out.deep_view();
    let ghost cv = chunk@;
    match &chunk.response {
        Some(s) => {
            if s.unicode_len() > 0 {
                out.push(RelayEvent::Token(s.clone()));
                proof {
                    assert(out.deep_view() =~= base + seq![RelayEventView::Token(cv.response->0)]);
                }
            }
        },
        None => {},
    }
    let ghost mid = out.deep_view();
    proof {
        if !(cv.response is Some && cv.response->0.len() > 0) {
            assert(mid =~= base + Seq::<RelayEventView>::empty());
        }
    }
    if chunk.done {
        out.push(RelayEvent::End);
        proof {
            assert(out.deep_view() =~= mid + seq![RelayEventView::End]);
            assert(out.deep_view() =~= base + chunk_events(cv));
        }
    } else {
        proof {
            assert(out.deep_view() =~= base + chunk_events(cv));
        }
    }
}

/// The relay's progress through one generation stream: whether the
/// terminating sentinel has been emitted.
pub struct RelayState {
    finished: bool,
}

impl RelayState {
    /// The sentinel has been emitted and the relay stream is over.
    pub closed spec fn is_finished(self) -> bool {
        self.finished
    }

    /// Whether the relay stream is over, for the host's read loop.
    pub fn finished(&self) -> (r: bool)
        ensures
            r == self.is_finished(),
    {
        self.finished
    }

    /// A relay at the start of a stream.
    pub fn new() -> (r: Self)
        ensures
            !r.is_finished(),
    {
        RelayState { finished: false }
    }

    /// Relay one upstream line: returns the events it contributes, in
    /// order. After the completing line the relay is finished and emits
    /// nothing further.
    pub fn push_line(&mut self, line: &str) -> (events: Vec<RelayEvent>)
        ensures
            old(self).is_finished() ==> final(self).is_finished() && events.deep_view()
                == Seq::<RelayEventView>::empty(),
            !old(self).is_finished() ==> events.deep_view() == line_events(line@)
                && final(self).is_finished() == line_finishes(line@),
    {
        let mut events: Vec<RelayEvent> = Vec::new();
        proof {
            assert(events.deep_view() =~= Seq::<RelayEventView>::empty());
        }
        if self.finished {
            return events;
        }
        match parse_gen_chunk(line) {
            None => {},
            Some(chunk) => {
                append_chunk_events(&mut events, &chunk);
                if chunk.done {
                    self.finished = true;
                }
                proof {
                    assert(Seq::<RelayEventView>::empty() + chunk_events(chunk@) =~= chunk_events(
                        chunk@,
                    ));
                }
            },
        }
        events
    }
}

/// Relay a whole run of upstream lines at once, as [`relay_events_spec`]
/// states it.
pub fn relay_lines(lines: &Vec<String>) -> (events: Vec<RelayEvent>)
    ensures
        events.deep_view() == relay_events_spec(lines.deep_view()),
{
    let mut out: Vec<RelayEvent> = Vec::new();
    let n = lines.len();
    let mut i: usize = 0;
    let mut finished = false;
    proof {
        assert(lines.deep_view().skip(0) =~= lines.deep_view());
        assert(out.deep_view() =~= Seq::<RelayEventView>::empty());
    }
    while i < n
        invariant
            n == lines@.len(),
            0 <= i <= n,
            !finished ==> relay_events_spec(lines.deep_view()) == out.deep_view()
                + relay_events_spec(lines.deep_view().skip(i as int)),
            finished ==> relay_events_spec(lines.deep_view()) == out.deep_view(),
        decreases n - i,
    {
        if !finished {
            let ghost dv = lines.deep_view();
            let ghost pre = out.deep_view();
            proof {
                assert(dv[i as int] == lines@[i as int]@);
                assert(dv.skip(i as int).len() > 0);
                assert(dv.skip(i as int)[0] == dv[i as int]);
                assert(dv.skip(i as int).drop_first() =~= dv.skip(i as int + 1));
            }
            match parse_gen_chunk(lines[i].as_str()) {
                None => {
                    proof {
                        assert(line_events(dv[i as int]) =~= Seq::<RelayEventView>::empty());
                        assert(pre + (Seq::<RelayEventView>::empty() + relay_events_spec(
                            dv.skip(i as int + 1),
                        )) =~= pre + relay_events_spec(dv.skip(i as int + 1)));
                    }
                },
                Some(chunk) => {
                    append_chunk_events(&mut out, &chunk);
                    if chunk.done {
                        finished = true;
                        proof {
                            assert(pre + relay_events_spec(dv.skip(i as int)) =~= pre + (
                            line_events(dv[i as int]) + Seq::<RelayEventView>::empty()));
                            assert(pre + (line_events(dv[i as int])
                                + Seq::<RelayEventView>::empty()) =~= pre + line_events(
                                dv[i as int],
                            ));
                        }
                    } else {
                        proof {
                            assert(pre + relay_events_spec(dv.skip(i as int)) =~= (pre
                                + line_events(dv[i as int])) + relay_events_spec(
                                dv.skip(i as int + 1),
                            ));
                        }
                    }
                },
            }
        }
        i = i + 1;
    }
    proof {
        if !finished {
            assert(lines.deep_view().skip(n as int) =~= Seq::<Seq<char>>::empty());
            assert(out.deep_view() + relay_events_spec(Seq::<Seq<char>>::empty()) =~= out
                .deep_view());
        }
    }
    out
}

} // verus!
