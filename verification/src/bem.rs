//! Channel detection for streamed messages: a message is buffered until its
//! leading channel header is known, then released unchanged.

use vstd::prelude::*;
use crate::text::{chars_of, seq_starts_with, append_str, string_of};
use crate::realtime::joined;

verus! {

/// The phase that a message's channel gives it.
#[derive(Clone, Copy, Debug, PartialEq, Eq)]
pub enum MessagePhase {
    Commentary,
    FinalAnswer,
}

/// Prefixes configured per channel name. A channel that has an entry uses
/// exactly those prefixes (empty ones never match); one without uses its
/// default prefix.
#[derive(Debug)]
pub struct ChannelPrefixes {
    entries: Vec<(String, Vec<String>)>,
}

/// The character views of a list of strings.
pub open spec fn strings_view(v: Seq<String>) -> Seq<Seq<char>> {
    Seq::new(v.len(), |i: int| v[i]@)
}

impl ChannelPrefixes {
    /// Channel names map to their prefixes.
    pub closed spec fn prefix_map(&self) -> Map<Seq<char>, Seq<Seq<char>>> {
        Map::new(
            |k: Seq<char>| exists|i: int| 0 <= i < self.entries@.len() && self.entries@[i].0@ == k,
            |k: Seq<char>| strings_view(self.entries@[choose|i: int| 0 <= i < self.entries@.len() && self.entries@[i].0@ == k].1@),
        )
    }

    /// No channel name has two entries.
    pub closed spec fn well_formed(&self) -> bool {
        forall|i: int, j: int| 0 <= i < j < self.entries@.len() ==> self.entries@[i].0@ != self.entries@[j].0@
    }

    /// No prefixes configured.
    pub fn new() -> (r: ChannelPrefixes)
        ensures
            r.well_formed(),
            r.prefix_map() == Map::<Seq<char>, Seq<Seq<char>>>::empty(),
    {
        let r = ChannelPrefixes { entries: Vec::new() };
        assert(r.prefix_map() =~= Map::<Seq<char>, Seq<Seq<char>>>::empty());
        r
    }

    fn find(&self, channel: &str) -> (r: Option<usize>)
        requires
            self.well_formed(),
        ensures
            match r {
                Some(i) => i < self.entries@.len() && self.entries@[i as int].0@ == channel@,
                None => forall|i: int| 0 <= i < self.entries@.len() ==> self.entries@[i].0@ != channel@,
            },
    {
        let mut i: usize = 0;
        while i < self.entries.len()
            invariant
                i <= self.entries@.len(),
                forall|j: int| 0 <= j < i ==> self.entries@[j].0@ != channel@,
            decreases self.entries@.len() - i,
        {
            if crate::text::str_equal(self.entries[i].0.as_str(), channel) {
                return Some(i);
            }
            i = i + 1;
        }
        None
    }

    proof fn lemma_lookup(&self, i: int)
        requires
            self.well_formed(),
            0 <= i < self.entries@.len(),
        ensures
            self.prefix_map().contains_key(self.entries@[i].0@),
            self.prefix_map()[self.entries@[i].0@] == strings_view(self.entries@[i].1@),
    {
        let k = self.entries@[i].0@;
        let j = choose|j: int| 0 <= j < self.entries@.len() && self.entries@[j].0@ == k;
        if j != i {
            assert(self.entries@[j].0@ == self.entries@[i].0@);
        }
    }

    /// Sets the prefixes of `channel`, replacing any it had.
    pub fn insert(&mut self, channel: String, prefixes: Vec<String>)
        requires
            old(self).well_formed(),
        ensures
            final(self).well_formed(),
            final(self).prefix_map() == old(self).prefix_map().insert(channel@, strings_view(prefixes@)),
    {
        let ghost before = self.prefix_map();
        let ghost key = channel@;
        let ghost value = strings_view(prefixes@);
        match self.find(channel.as_str()) {
            Some(i) => {
                let ghost old_entries = self.entries@;
                self.entries.set(i, (channel, prefixes));
                proof {
                    assert forall|a: int, b: int| 0 <= a < b < self.entries@.len() implies
                        self.entries@[a].0@ != self.entries@[b].0@ by {
                        assert(self.entries@[a].0@ == old_entries[a].0@);
                        assert(self.entries@[b].0@ == old_entries[b].0@);
                    }
                    assert forall|k: Seq<char>| #[trigger] self.prefix_map().contains_key(k) <==> before.insert(key, value).contains_key(k) by {
                        if self.prefix_map().contains_key(k) {
                            let j = choose|j: int| 0 <= j < self.entries@.len() && self.entries@[j].0@ == k;
                            if j != i { assert(old_entries[j].0@ == k); }
                        }
                        if before.contains_key(k) {
                            let j = choose|j: int| 0 <= j < old_entries.len() && old_entries[j].0@ == k;
                            assert(self.entries@[j].0@ == k);
                        }
                    }
                    assert forall|k: Seq<char>| self.prefix_map().contains_key(k) implies
                        #[trigger] self.prefix_map()[k] == before.insert(key, value)[k] by {
                        let j = choose|j: int| 0 <= j < self.entries@.len() && self.entries@[j].0@ == k;
                        self.lemma_lookup(j);
                        if j != i {
                            assert(old_entries[j] == self.entries@[j]);
                            let jj = choose|jj: int| 0 <= jj < old_entries.len() && old_entries[jj].0@ == k;
                            if jj != j {
                                assert(old_entries[jj].0@ == old_entries[j].0@);
                            }
                        }
                    }
                    assert(self.prefix_map() =~= before.insert(key, value));
                }
            },
            None => {
                let ghost old_entries = self.entries@;
                self.entries.push((channel, prefixes));
                proof {
                    let n = old_entries.len() as int;
                    assert forall|k: Seq<char>| #[trigger] self.prefix_map().contains_key(k) <==> before.insert(key, value).contains_key(k) by {
                        if self.prefix_map().contains_key(k) {
                            let j = choose|j: int| 0 <= j < self.entries@.len() && self.entries@[j].0@ == k;
                            if j != n { assert(old_entries[j].0@ == k); }
                        }
                        if before.contains_key(k) {
                            let j = choose|j: int| 0 <= j < old_entries.len() && old_entries[j].0@ == k;
                            assert(self.entries@[j].0@ == k);
                        }
                        if k == key {
                            assert(self.entries@[n].0@ == k);
                        }
                    }
                    assert forall|k: Seq<char>| self.prefix_map().contains_key(k) implies
                        #[trigger] self.prefix_map()[k] == before.insert(key, value)[k] by {
                        let j = choose|j: int| 0 <= j < self.entries@.len() && self.entries@[j].0@ == k;
                        self.lemma_lookup(j);
                        if j != n {
                            let jj = choose|jj: int| 0 <= jj < old_entries.len() && old_entries[jj].0@ == k;
                            if jj != j {
                                assert(old_entries[jj].0@ == old_entries[j].0@);
                            }
                        }
                    }
                    assert(self.prefix_map() =~= before.insert(key, value));
                }
            },
        }
    }
}

/// `text` opens with one of the non-empty `prefixes`.
pub open spec fn starts_with_any(text: Seq<char>, prefixes: Seq<Seq<char>>) -> bool {
    exists|i: int| 0 <= i < prefixes.len() && prefixes[i].len() > 0 && #[trigger] seq_starts_with(text, prefixes[i])
}

/// `text` opens with a prefix of `channel`: the configured ones when the
/// channel has an entry, else `default_prefix`.
pub open spec fn matches_channel(
    text: Seq<char>,
    prefixes: Map<Seq<char>, Seq<Seq<char>>>,
    channel: Seq<char>,
    default_prefix: Seq<char>,
) -> bool {
    if prefixes.contains_key(channel) {
        starts_with_any(text, prefixes[channel])
    } else {
        seq_starts_with(text, default_prefix)
    }
}

/// The phase of a message that starts with `text`: the first of the
/// channels `analysis`, `commentary`, `final` whose prefix it opens with.
pub open spec fn message_phase_of(text: Seq<char>, prefixes: Map<Seq<char>, Seq<Seq<char>>>) -> Option<MessagePhase> {
    if matches_channel(text, prefixes, "analysis"@, "[ANALYSIS]"@) {
        Some(MessagePhase::Commentary)
    } else if matches_channel(text, prefixes, "commentary"@, "[COMMENTARY]"@) {
        Some(MessagePhase::Commentary)
    } else if matches_channel(text, prefixes, "final"@, "[FINAL]"@) {
        Some(MessagePhase::FinalAnswer)
    } else {
        None
    }
}

fn chars_start_with(text: &Vec<char>, prefix: &Vec<char>) -> (r: bool)
    ensures
        r == seq_starts_with(text@, prefix@),
{
    if prefix.len() > text.len() {
        return false;
    }
    let mut i: usize = 0;
    while i < prefix.len()
        invariant
            prefix@.len() <= text@.len(),
            i <= prefix@.len(),
            forall|j: int| 0 <= j < i ==> text@[j] == prefix@[j],
        decreases prefix@.len() - i,
    {
        if text[i] != prefix[i] {
            assert(text@.subrange(0, prefix@.len() as int)[i as int] != prefix@[i as int]);
            return false;
        }
        i = i + 1;
    }
    assert(text@.subrange(0, prefix@.len() as int) =~= prefix@);
    true
}

fn channel_matches(text: &Vec<char>, prefixes: &ChannelPrefixes, channel: &str, default_prefix: &str) -> (r: bool)
    requires
        prefixes.well_formed(),
    ensures
        r == matches_channel(text@, prefixes.prefix_map(), channel@, default_prefix@),
{
    match prefixes.find(channel) {
        None => {
            proof {
                if prefixes.prefix_map().contains_key(channel@) {
                    let j = choose|j: int| 0 <= j < prefixes.entries@.len() && prefixes.entries@[j].0@ == channel@;
                }
            }
            let d = chars_of(default_prefix);
            chars_start_with(text, &d)
        },
        Some(idx) => {
            proof {
                prefixes.lemma_lookup(idx as int);
            }
            let list = &prefixes.entries[idx].1;
            let ghost views = strings_view(list@);
            let mut k: usize = 0;
            while k < list.len()
                invariant
                    k <= list@.len(),
                    views == strings_view(list@),
                    prefixes.prefix_map().contains_key(channel@),
                    prefixes.prefix_map()[channel@] == views,
                    forall|j: int| 0 <= j < k ==> !(views[j].len() > 0 && #[trigger] seq_starts_with(text@, views[j])),
                decreases list@.len() - k,
            {
                let p = chars_of(list[k].as_str());
                if p.len() > 0 && chars_start_with(text, &p) {
                    assert(views[k as int] == p@);
                    assert(seq_starts_with(text@, views[k as int]));
                    return true;
                }
                assert(views[k as int] == p@);
                k = k + 1;
            }
            false
        },
    }
}

/// The phase that the channel header at the start of `text` gives, if any.
pub fn message_phase(text: &str, channel_prefixes: &ChannelPrefixes) -> (r: Option<MessagePhase>)
    requires
        channel_prefixes.well_formed(),
    ensures
        r == message_phase_of(text@, channel_prefixes.prefix_map()),
{
    let t = chars_of(text);
    if channel_matches(&t, channel_prefixes, "analysis", "[ANALYSIS]") {
        return Some(MessagePhase::Commentary);
    }
    if channel_matches(&t, channel_prefixes, "commentary", "[COMMENTARY]") {
        return Some(MessagePhase::Commentary);
    }
    if channel_matches(&t, channel_prefixes, "final", "[FINAL]") {
        return Some(MessagePhase::FinalAnswer);
    }
    None
}

/// What a parser holds between pushes: the text not yet released and the
/// phase once known.
pub struct ParserState {
    pub buffered: Seq<char>,
    pub phase: Option<MessagePhase>,
}

/// One push of `text`: the state after it and what it releases.
pub open spec fn push_step(
    prefixes: Map<Seq<char>, Seq<Seq<char>>>,
    state: ParserState,
    text: Seq<char>,
) -> (ParserState, Option<Seq<char>>) {
    if state.phase is Some {
        (state, Some(text))
    } else {
        let buffered = state.buffered + text;
        match message_phase_of(buffered, prefixes) {
            Some(phase) => (ParserState { buffered: Seq::empty(), phase: Some(phase) }, Some(buffered)),
            None => (ParserState { buffered, phase: None }, None),
        }
    }
}

/// Buffers a streamed message until its channel header is complete, then
/// passes the text through unchanged.
pub struct ChannelParser {
    channel_prefixes: ChannelPrefixes,
    buffered_text: String,
    phase: Option<MessagePhase>,
}

impl ChannelParser {
    /// The prefixes this parser matches against.
    pub closed spec fn prefixes(&self) -> Map<Seq<char>, Seq<Seq<char>>> {
        self.channel_prefixes.prefix_map()
    }

    /// The buffered text and the phase.
    pub closed spec fn state(&self) -> ParserState {
        ParserState { buffered: self.buffered_text@, phase: self.phase }
    }

    pub closed spec fn well_formed(&self) -> bool {
        &&& self.channel_prefixes.well_formed()
        &&& self.phase is Some ==> self.buffered_text@.len() == 0
    }

    /// A parser with nothing buffered and no phase yet.
    pub fn new(channel_prefixes: ChannelPrefixes) -> (r: ChannelParser)
        requires
            channel_prefixes.well_formed(),
        ensures
            r.well_formed(),
            r.prefixes() == channel_prefixes.prefix_map(),
            r.state() == (ParserState { buffered: Seq::empty(), phase: None }),
    {
        ChannelParser { channel_prefixes, buffered_text: String::new(), phase: None }
    }

    /// Takes the next piece of streamed text; returns the text to release now, if any.
    pub fn push(&mut self, text: &str) -> (released: Option<String>)
        requires
            old(self).well_formed(),
        ensures
            final(self).well_formed(),
            final(self).prefixes() == old(self).prefixes(),
            (final(self).state(), crate::text::opt_view(released)) == push_step(old(self).prefixes(), old(self).state(), text@),
    {
        if self.phase.is_some() {
            return Some(string_of(text));
        }
        append_str(&mut self.buffered_text, text);
        self.phase = message_phase(self.buffered_text.as_str(), &self.channel_prefixes);
        if self.phase.is_none() {
            return None;
        }
        let mut released = String::new();
        std::mem::swap(&mut released, &mut self.buffered_text);
        Some(released)
    }

    /// The phase, once the channel header has been seen.
    pub fn phase(&self) -> (r: Option<MessagePhase>)
        ensures
            r == self.state().phase,
    {
        self.phase
    }

    /// Releases whatever is still buffered.
    pub fn finish(&mut self) -> (rest: String)
        requires
            old(self).well_formed(),
        ensures
            final(self).well_formed(),
            final(self).prefixes() == old(self).prefixes(),
            rest@ == old(self).state().buffered,
            final(self).state() == (ParserState { buffered: Seq::empty(), phase: old(self).state().phase }),
    {
        let mut rest = String::new();
        std::mem::swap(&mut rest, &mut self.buffered_text);
        rest
    }
}

/// Feeding `inputs` in order, from `state`: the final state and the released pieces.
pub open spec fn run_pushes(
    prefixes: Map<Seq<char>, Seq<Seq<char>>>,
    state: ParserState,
    inputs: Seq<Seq<char>>,
) -> (ParserState, Seq<Seq<char>>)
    decreases inputs.len(),
{
    if inputs.len() == 0 {
        (state, Seq::empty())
    } else {
        let (before, released) = run_pushes(prefixes, state, inputs.drop_last());
        let (after, out) = push_step(prefixes, before, inputs.last());
        (after, match out {
            Some(t) => released.push(t),
            None => released,
        })
    }
}

/// Once a phase is known it never changes, and every later push is released
/// unchanged at once.
pub proof fn lemma_channel_phase_is_stable(
    prefixes: Map<Seq<char>, Seq<Seq<char>>>,
    state: ParserState,
    text: Seq<char>,
)
    requires
        state.phase is Some,
    ensures
        push_step(prefixes, state, text).0 == state,
        push_step(prefixes, state, text).1 == Some(text),
{
}

/// Nothing is lost or reordered: what the pushes release, followed by what is
/// still buffered, is exactly what was pushed, in order. Once a phase is known
/// nothing stays buffered.
pub proof fn lemma_channel_parser_preserves_text(
    prefixes: Map<Seq<char>, Seq<Seq<char>>>,
    inputs: Seq<Seq<char>>,
)
    ensures
        joined(run_pushes(prefixes, ParserState { buffered: Seq::empty(), phase: None }, inputs).1)
            + run_pushes(prefixes, ParserState { buffered: Seq::empty(), phase: None }, inputs).0.buffered
            == joined(inputs),
        run_pushes(prefixes, ParserState { buffered: Seq::empty(), phase: None }, inputs).0.phase is Some
            ==> run_pushes(prefixes, ParserState { buffered: Seq::empty(), phase: None }, inputs).0.buffered.len() == 0,
    decreases inputs.len(),
{
    let init = ParserState { buffered: Seq::empty(), phase: None };
    if inputs.len() == 0 {
        assert(joined(Seq::<Seq<char>>::empty()) + Seq::<char>::empty() =~= joined(inputs));
    } else {
        lemma_channel_parser_preserves_text(prefixes, inputs.drop_last());
        let (before, released) = run_pushes(prefixes, init, inputs.drop_last());
        let (after, out) = push_step(prefixes, before, inputs.last());
        match out {
            Some(t) => {
                assert(released.push(t).drop_last() =~= released);
                assert(joined(released.push(t)) == joined(released) + t);
                if before.phase is Some {
                    assert(joined(released.push(t)) + after.buffered =~= joined(inputs));
                } else {
                    assert(joined(released.push(t)) + after.buffered =~= joined(inputs));
                }
            },
            None => {
                assert(joined(released) + after.buffered =~= joined(inputs));
            },
        }
    }
}


/// A parser state in which, once the phase is known, nothing is buffered.
pub open spec fn settled(state: ParserState) -> bool {
    state.phase is Some ==> state.buffered.len() == 0
}

/// The state of a well-formed parser is settled.
pub proof fn lemma_parser_state_is_settled(parser: &ChannelParser)
    requires
        parser.well_formed(),
    ensures
        settled(parser.state()),
{
}

/// From any settled state, what the pushes release, followed by what stays
/// buffered (what `finish` then returns), is what was buffered followed by
/// everything pushed, in order: nothing is lost, duplicated or reordered. The
/// state stays settled.
pub proof fn lemma_pushes_then_finish_give_back_the_input(
    prefixes: Map<Seq<char>, Seq<Seq<char>>>,
    state: ParserState,
    inputs: Seq<Seq<char>>,
)
    requires
        settled(state),
    ensures
        joined(run_pushes(prefixes, state, inputs).1) + run_pushes(prefixes, state, inputs).0.buffered
            == state.buffered + joined(inputs),
        settled(run_pushes(prefixes, state, inputs).0),
    decreases inputs.len(),
{
    if inputs.len() == 0 {
        assert(joined(Seq::<Seq<char>>::empty()) + state.buffered =~= state.buffered + joined(inputs));
    } else {
        lemma_pushes_then_finish_give_back_the_input(prefixes, state, inputs.drop_last());
        let (before, released) = run_pushes(prefixes, state, inputs.drop_last());
        let (after, out) = push_step(prefixes, before, inputs.last());
        let a = state.buffered;
        let d = joined(inputs.drop_last());
        let l = inputs.last();
        assert(joined(inputs) == d + l);
        assert(joined(released) + before.buffered == a + d);
        if before.phase is Some {
            assert(before.buffered =~= Seq::<char>::empty());
            assert(joined(released) =~= a + d);
            assert(released.push(l).drop_last() =~= released);
            assert(joined(released.push(l)) == joined(released) + l);
            assert(joined(released.push(l)) + after.buffered =~= a + joined(inputs));
        } else {
            let buffered = before.buffered + l;
            assert(joined(released) + buffered =~= (joined(released) + before.buffered) + l);
            match out {
                Some(t) => {
                    assert(t == buffered);
                    assert(released.push(t).drop_last() =~= released);
                    assert(joined(released.push(t)) == joined(released) + t);
                    assert(joined(released.push(t)) + after.buffered =~= a + joined(inputs));
                },
                None => {
                    assert(after.buffered == buffered);
                    assert(joined(released) + after.buffered =~= a + joined(inputs));
                },
            }
        }
    }
}


/// A channel with configured prefixes matches text that starts with any
/// non-empty one of them, and only such text; a channel without configured
/// prefixes matches text that starts with its default prefix.
pub proof fn lemma_any_configured_prefix_matches(
    text: Seq<char>,
    prefixes: Map<Seq<char>, Seq<Seq<char>>>,
    channel: Seq<char>,
    default_prefix: Seq<char>,
    i: int,
)
    ensures
        prefixes.contains_key(channel) && 0 <= i < prefixes[channel].len() && prefixes[channel][i].len() > 0
            && prefixes[channel][i].len() <= text.len()
            && text.subrange(0, prefixes[channel][i].len() as int) == prefixes[channel][i]
            ==> matches_channel(text, prefixes, channel, default_prefix),
        prefixes.contains_key(channel) && matches_channel(text, prefixes, channel, default_prefix)
            ==> exists|j: int| 0 <= j < prefixes[channel].len() && prefixes[channel][j].len() > 0
                && prefixes[channel][j].len() <= text.len()
                && #[trigger] text.subrange(0, prefixes[channel][j].len() as int) == prefixes[channel][j],
        !prefixes.contains_key(channel) ==> (matches_channel(text, prefixes, channel, default_prefix)
            <==> default_prefix.len() <= text.len() && text.subrange(0, default_prefix.len() as int) == default_prefix),
{
    if prefixes.contains_key(channel) && 0 <= i < prefixes[channel].len() && prefixes[channel][i].len() > 0
        && prefixes[channel][i].len() <= text.len()
        && text.subrange(0, prefixes[channel][i].len() as int) == prefixes[channel][i] {
        assert(seq_starts_with(text, prefixes[channel][i]));
    }
}

} // verus!
