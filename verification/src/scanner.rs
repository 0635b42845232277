//! The segment scanner: a finite-state machine over a character stream.
//!
//! The response body alternates
//! `"<translated>","<original>",,,0],["<translated>","<original>",,,0],...]]`.
//! The scanner emits characters only while it is reading the first
//! (translated) literal of an element. The closing quote of that literal
//! puts it into a skip region, where it watches for the sentinel `,,,0]`:
//! followed by `]` the whole translatable region is over, followed by
//! anything else the next element begins and scanning resumes after two
//! separator characters are swallowed.

use vstd::prelude::*;

verus! {

/// One operating mode of the scanner.
///
/// `Normal` reads a translated literal and emits what it sees; `escape`
/// records that the previous character was an unconsumed backslash.
/// `Skip` consumes a discarded region (the original-language literal and
/// the structural filler after it) while `progress` tracks how much of the
/// sentinel `,,,0]` has been seen, from 0 to 5.
/// `Post` swallows the two separator characters that follow an
/// element-boundary sentinel; `second` is set once the first is consumed.
/// `Done` means the end-of-stream sentinel `,,,0]]` fired: every remaining
/// character is ignored.
#[derive(Clone, Copy, Debug, PartialEq, Eq, Structural)]
pub enum ScanState {
    Normal { escape: bool },
    Skip { progress: u8 },
    Post { second: bool },
    Done,
}

/// The outcome of one scanner step: the state to continue in and the
/// character emitted to the output, if any.
pub struct Transition {
    pub next: ScanState,
    pub emit: Option<char>,
}

impl ScanState {
    /// The mode the scanner starts in: reading a translated literal, no
    /// escape pending.
    pub open spec fn initial() -> ScanState {
        ScanState::Normal { escape: false }
    }
}

/// What the scanner does with one character `c` read in state `s`.
///
/// The modes take effect in a fixed priority order: a finished scan absorbs
/// everything; a post-sentinel skip consumes the character unexamined; a
/// skip region advances the sentinel matcher; a pending escape emits the
/// character verbatim; otherwise a backslash arms the escape, a quote ends
/// the literal, and any other character is emitted unchanged.
pub open spec fn spec_step(s: ScanState, c: char) -> Transition {
    match s {
        ScanState::Done => Transition { next: ScanState::Done, emit: None },
        ScanState::Post { second } => if second {
            Transition { next: ScanState::Normal { escape: false }, emit: None }
        } else {
            Transition { next: ScanState::Post { second: true }, emit: None }
        },
        ScanState::Skip { progress } => {
            let next = if progress == 0 && c == ',' {
                ScanState::Skip { progress: 1 }
            } else if progress == 1 && c == ',' {
                ScanState::Skip { progress: 2 }
            } else if progress == 2 && c == ',' {
                ScanState::Skip { progress: 3 }
            } else if progress == 3 && c == '0' {
                ScanState::Skip { progress: 4 }
            } else if progress == 4 && c == ']' {
                ScanState::Skip { progress: 5 }
            } else if progress == 5 && c == ']' {
                ScanState::Done
            } else if progress == 5 {
                ScanState::Post { second: false }
            } else {
                ScanState::Skip { progress: 0 }
            };
            Transition { next, emit: None }
        },
        ScanState::Normal { escape } => if escape {
            Transition { next: ScanState::Normal { escape: false }, emit: Some(c) }
        } else if c == '\\' {
            Transition { next: ScanState::Normal { escape: true }, emit: None }
        } else if c == '"' {
            Transition { next: ScanState::Skip { progress: 0 }, emit: None }
        } else {
            Transition { next: ScanState::Normal { escape: false }, emit: Some(c) }
        },
    }
}

/// The characters the scanner emits when started in state `s` on `input`,
/// consuming the input left to right until it ends or the end-of-stream
/// sentinel fires.
pub open spec fn scan_emit(s: ScanState, input: Seq<char>) -> Seq<char>
    decreases input.len(),
{
    if s is Done || input.len() == 0 {
        Seq::empty()
    } else {
        let t = spec_step(s, input[0]);
        match t.emit {
            Some(c) => seq![c] + scan_emit(t.next, input.drop_first()),
            None => scan_emit(t.next, input.drop_first()),
        }
    }
}

/// The translated text extracted from a raw response body: the first four
/// characters are structural prefix and are dropped unexamined, the rest is
/// scanned from the initial state.
pub open spec fn extract_spec(input: Seq<char>) -> Seq<char> {
    if input.len() <= 4 {
        Seq::empty()
    } else {
        scan_emit(ScanState::initial(), input.skip(4))
    }
}

/// One step of the scanner in executable form.
pub fn step(s: ScanState, c: char) -> (t: Transition)
    ensures
        t == spec_step(s, c),
{
    match s {
        ScanState::Done => Transition { next: ScanState::Done, emit: None },
        ScanState::Post { second } => if second {
            Transition { next: ScanState::Normal { escape: false }, emit: None }
        } else {
            Transition { next: ScanState::Post { second: true }, emit: None }
        },
        ScanState::Skip { progress } => {
            let next = if progress == 0 && c == ',' {
                ScanState::Skip { progress: 1 }
            } else if progress == 1 && c == ',' {
                ScanState::Skip { progress: 2 }
            } else if progress == 2 && c == ',' {
                ScanState::Skip { progress: 3 }
            } else if progress == 3 && c == '0' {
                ScanState::Skip { progress: 4 }
            } else if progress == 4 && c == ']' {
                ScanState::Skip { progress: 5 }
            } else if progress == 5 && c == ']' {
                ScanState::Done
            } else if progress == 5 {
                ScanState::Post { second: false }
            } else {
                ScanState::Skip { progress: 0 }
            };
            Transition { next, emit: None }
        },
        ScanState::Normal { escape } => if escape {
            Transition { next: ScanState::Normal { escape: false }, emit: Some(c) }
        } else if c == '\\' {
            Transition { next: ScanState::Normal { escape: true }, emit: None }
        } else if c == '"' {
            Transition { next: ScanState::Skip { progress: 0 }, emit: None }
        } else {
            Transition { next: ScanState::Normal { escape: false }, emit: Some(c) }
        },
    }
}

/// Relies on `String::push`: appends the given character to the end of the
/// string.
#[verifier::external_body]
fn push_char(s: &mut String, c: char)
    ensures
        final(s)@ == old(s)@.push(c),
{
    s.push(c);
}

/// Extract every translated segment of a raw response body, appending their
/// concatenation to `translation`.
///
/// The first four characters of the response are structural prefix and are
/// dropped without inspection, whatever they hold. After that the scanner
/// emits the first literal of each element with its backslash escapes
/// resolved, skips the second literal and the structural filler, and stops
/// for good once the end-of-stream sentinel `,,,0]]` is seen. Malformed or
/// truncated input is never an error: whatever was accumulated up to the
/// end of the input is the result.
pub fn parse_message(input: &str, translation: &mut String)
    ensures
        final(translation)@ == old(translation)@ + extract_spec(input@),
{
    let n: usize = input.unicode_len();
    if n <= 4 {
        proof {
            assert(translation@ + extract_spec(input@) =~= translation@);
        }
        return;
    }
    let mut state = ScanState::Normal { escape: false };
    let mut i: usize = 4;
    while i < n && state != ScanState::Done
        invariant
            4 <= i <= n,
            n == input@.len(),
            old(translation)@ + extract_spec(input@) == translation@ + scan_emit(
                state,
                input@.skip(i as int),
            ),
        decreases n - i,
    {
        let c = input.get_char(i);
        let ghost s0 = state;
        let ghost rest = input@.skip(i as int);
        let ghost pre = translation@;
        let t = step(state, c);
        match t.emit {
            Some(ch) => push_char(translation, ch),
            None => (),
        }
        state = t.next;
        proof {
            assert(rest[0] == c);
            assert(rest.drop_first() =~= input@.skip(i as int + 1));
            match spec_step(s0, c).emit {
                Some(ch) => {
                    assert(translation@ =~= pre + seq![ch]);
                    assert(pre + scan_emit(s0, rest) =~= translation@ + scan_emit(
                        state,
                        rest.drop_first(),
                    ));
                },
                None => {
                    assert(pre + scan_emit(s0, rest) == translation@ + scan_emit(
                        state,
                        rest.drop_first(),
                    ));
                },
            }
        }
        i = i + 1;
    }
    proof {
        assert(scan_emit(state, input@.skip(i as int)) =~= Seq::<char>::empty());
        assert(translation@ + Seq::<char>::empty() =~= translation@);
    }
}

/// A backslash escape resolves to the escaped character itself, whatever it
/// is: in normal scanning mode with no escape pending, a backslash followed
/// by a character `c` emits exactly `c` and scanning goes on as if the pair
/// had been `c` alone. In particular an escaped quote becomes a literal
/// quote in the output instead of closing the literal; the escape is
/// neither left doubled nor dropped.
pub proof fn lemma_escape_resolved(c: char, rest: Seq<char>)
    ensures
        scan_emit(ScanState::Normal { escape: false }, seq!['\\', c] + rest) == seq![c]
            + scan_emit(ScanState::Normal { escape: false }, rest),
{
    let s = seq!['\\', c] + rest;
    assert(s[0] == '\\');
    assert(s.drop_first() =~= seq![c] + rest);
    assert((seq![c] + rest)[0] == c);
    assert((seq![c] + rest).drop_first() =~= rest);
    assert(scan_emit(ScanState::Normal { escape: false }, s) == scan_emit(
        ScanState::Normal { escape: true },
        seq![c] + rest,
    ));
}

/// The extractor is a pure function of the input text: two extractions of
/// the same response, each into an initially empty buffer, leave
/// byte-identical output, with no hidden state carried between calls.
pub proof fn lemma_extract_deterministic(input: Seq<char>, first: Seq<char>, second: Seq<char>)
    requires
        first == extract_spec(input),
        second == extract_spec(input),
    ensures
        first == second,
{
}

} // verus!
