//! Whole documents: from a sequence of events, or from the bytes of the
//! text, to the lines of the records.

use vstd::prelude::*;
use crate::error::ExtractError;
use crate::error::StreamError;
use crate::event::models;
use crate::event::Event;
use crate::event::EventModel;
use crate::extractor::Extractor;
use crate::extractor::Step;
use crate::session::lemma_eof_settles;
use crate::session::lemma_play_prefix;
use crate::session::lemma_play_push;
use crate::session::lemma_respond_depth;
use crate::session::lemma_respond_verdict;
use crate::session::play;
use crate::session::verdict;
use crate::source::document_events;
use crate::source::new_parser;
use crate::source::parse_next;
use crate::source::pending;

verus! {

/// The events of a slice, with the end of the stream after them.
pub open spec fn with_eof(events: Seq<Event>) -> Seq<EventModel> {
    models(events).push(EventModel::Eof)
}

/// Extracts the records of the collection under `target_key` from the
/// events of a document. The slice's end is the end of the stream. The
/// line of every record that was completed is appended to `out`, also
/// where the extraction then fails; the result says how it ended.
pub fn extract_events(events: &[Event], target_key: &str, out: &mut Vec<u8>) -> (r: Result<
    (),
    ExtractError,
>)
    ensures
        final(out)@ == old(out)@ + play(target_key@, with_eof(events@)).output,
        verdict(play(target_key@, with_eof(events@)).state) == Some(r),
{
    let ghost before = out@;
    let ghost target = target_key@;
    let ghost all = with_eof(events@);
    let mut extractor = Extractor::new(target_key);
    let mut i: usize = 0;
    proof {
        assert(all.take(0) =~= Seq::<EventModel>::empty());
        assert(before + play(target, all.take(0)).output =~= before);
    }
    while i < events.len()
        invariant
            extractor.wf(),
            extractor@.target == target,
            target == target_key@,
            before == old(out)@,
            all == with_eof(events@),
            i <= events.len(),
            extractor@.state == play(target, all.take(i as int)).state,
            out@ == before + play(target, all.take(i as int)).output,
            verdict(extractor@.state) is None,
            extractor@.state.phase.depth() <= i,
            i > 0 ==> extractor@.state.phase.depth() < i,
        decreases events.len() - i,
    {
        let ghost seen = all.take(i as int);
        proof {
            assert(all.take(i + 1) =~= seen.push(events[i as int]@));
            lemma_play_push(target, seen, events[i as int]@);
            lemma_respond_depth(target, extractor@.state, events[i as int]@);
            lemma_respond_verdict(target, extractor@.state, events[i as int]@);
        }
        match extractor.feed(&events[i]) {
            Ok(Step::Pending) => {},
            Ok(Step::Line(mut line)) => {
                out.append(&mut line);
                assert(out@ =~= before + play(target, all.take(i + 1)).output);
            },
            Ok(Step::Finished) => {
                proof {
                    lemma_play_prefix(target, all, i + 1);
                }
                return Ok(());
            },
            Err(error) => {
                proof {
                    lemma_play_prefix(target, all, i + 1);
                }
                return Err(error);
            },
        }
        i += 1;
    }
    proof {
        assert(all =~= all.take(i as int).push(EventModel::Eof));
        lemma_play_push(target, all.take(i as int), EventModel::Eof);
        lemma_eof_settles(target, extractor@.state);
        lemma_respond_verdict(target, extractor@.state, EventModel::Eof);
    }
    match extractor.feed(&Event::Eof) {
        Ok(_) => Ok(()),
        Err(error) => Err(error),
    }
}

/// Extracts the records of the collection under `target_key` from the
/// text of a document. The text is tokenized event by event; what comes
/// of the events is what `play` says, and a syntax error that the
/// tokenizer reports before the extraction has ended is the result. The
/// line of every record that was completed is appended to `out`, also
/// where the extraction then fails.
pub fn extract_records(input: &[u8], target_key: &str, out: &mut Vec<u8>) -> (r: Result<
    (),
    ExtractError,
>)
    ensures
        final(out)@ == old(out)@ + play(target_key@, document_events(input@)).output,
        r == match verdict(play(target_key@, document_events(input@)).state) {
            Some(result) => result,
            None => Err(ExtractError::Stream(StreamError::Syntax)),
        },
{
    let ghost before = out@;
    let ghost target = target_key@;
    let ghost all = document_events(input@);
    let ghost mut taken: int = 0;
    let mut parser = new_parser(input);
    let mut extractor = Extractor::new(target_key);
    proof {
        assert(input@.len() == input.len());
        assert(all.take(0) =~= Seq::<EventModel>::empty());
        assert(all.skip(0) =~= all);
        assert(before + play(target, all.take(0)).output =~= before);
    }
    loop
        invariant
            extractor.wf(),
            extractor@.target == target,
            target == target_key@,
            before == old(out)@,
            all == document_events(input@),
            all.len() <= input@.len() + 1,
            input@.len() <= usize::MAX,
            0 <= taken <= all.len(),
            pending(parser) == all.skip(taken),
            extractor@.state == play(target, all.take(taken)).state,
            out@ == before + play(target, all.take(taken)).output,
            verdict(extractor@.state) is None,
            extractor@.state.phase.depth() <= taken,
            taken > 0 ==> extractor@.state.phase.depth() < taken,
        decreases all.len() - taken,
    {
        let event = match parse_next(&mut parser) {
            Ok(event) => event,
            Err(_) => {
                proof {
                    assert(all.take(taken) =~= all);
                }
                return Err(ExtractError::Stream(StreamError::Syntax));
            },
        };
        proof {
            assert(all.take(taken + 1) =~= all.take(taken).push(event@));
            assert(all.skip(taken).skip(1) =~= all.skip(taken + 1));
            lemma_play_push(target, all.take(taken), event@);
            lemma_respond_depth(target, extractor@.state, event@);
            lemma_respond_verdict(target, extractor@.state, event@);
            lemma_eof_settles(target, extractor@.state);
        }
        match extractor.feed(&event) {
            Ok(Step::Pending) => {},
            Ok(Step::Line(mut line)) => {
                out.append(&mut line);
                assert(out@ =~= before + play(target, all.take(taken + 1)).output);
            },
            Ok(Step::Finished) => {
                proof {
                    lemma_play_prefix(target, all, taken + 1);
                }
                return Ok(());
            },
            Err(error) => {
                proof {
                    lemma_play_prefix(target, all, taken + 1);
                }
                return Err(error);
            },
        }
        proof {
            taken = taken + 1;
        }
    }
}

} // verus!
