//! The hunk accumulator: groups the diff engine's flat line-event
//! stream into hunks. The engine gives no end-of-hunk signal, so a
//! boundary is inferred wherever the hunk-header grouping key of an
//! event differs from the tracked one; a headerless event is dropped.

use crate::types::classify_spec;
use crate::types::classify_origin;
use crate::types::Diff;
use crate::types::DiffEvent;
use crate::types::DiffLine;
use crate::types::DiffLineV;
use crate::types::EventV;
use crate::types::Hunk;
use crate::types::HunkHeader;
use vstd::prelude::*;

verus! {

/// What `String::from_utf8_lossy` returns for the given bytes,
/// a function of the bytes alone.
pub uninterp spec fn lossy_of(bytes: Seq<u8>) -> Seq<char>;

/// Relies on `String::from_utf8_lossy`: decodes bytes to text,
/// replacing invalid sequences with a marker instead of failing;
/// the result is a function of the bytes alone.
#[verifier::external_body]
fn decode_lossy(bytes: &Vec<u8>) -> (s: String)
    ensures
        s@ == lossy_of(bytes@),
{
    String::from_utf8_lossy(bytes.as_slice()).to_string()
}

/// The line a single stream event contributes: permissively decoded
/// content, and the role classified from the origin marker.
pub open spec fn line_of(ev: EventV) -> DiffLineV {
    DiffLineV { content: lossy_of(ev.content), line_type: classify_spec(ev.origin) }
}

/// State of the accumulation: the finished hunks, the header being
/// tracked, and the lines of the hunk still being built.
#[verifier::ext_equal]
pub ghost struct AccV {
    pub hunks: Seq<Seq<DiffLineV>>,
    pub current_header: Option<HunkHeader>,
    pub current_lines: Seq<DiffLineV>,
}

/// Before any event: nothing tracked, nothing built.
pub open spec fn acc_init() -> AccV {
    AccV {
        hunks: Seq::empty(),
        current_header: Option::None,
        current_lines: Seq::empty(),
    }
}

/// A tracked header and a different incoming one signal a hunk
/// boundary; the very first header, or an identical one, does not.
pub open spec fn boundary(current: Option<HunkHeader>, h: HunkHeader) -> bool {
    match current {
        Option::None => false,
        Option::Some(ch) => ch != h,
    }
}

/// One step of the accumulation. A headerless event is dropped. An
/// event under a header first flushes the hunk being built if the
/// header signals a boundary, then adopts the header and appends the
/// event's line to the hunk being built.
pub open spec fn acc_step(st: AccV, ev: EventV) -> AccV {
    match ev.header {
        Option::None => st,
        Option::Some(h) => {
            let flushed = if boundary(st.current_header, h) {
                AccV {
                    hunks: st.hunks.push(st.current_lines),
                    current_header: Option::Some(h),
                    current_lines: Seq::empty(),
                }
            } else {
                AccV {
                    hunks: st.hunks,
                    current_header: Option::Some(h),
                    current_lines: st.current_lines,
                }
            };
            AccV {
                hunks: flushed.hunks,
                current_header: flushed.current_header,
                current_lines: flushed.current_lines.push(line_of(ev)),
            }
        },
    }
}

/// The accumulation state after a whole event stream.
pub open spec fn acc_fold(st: AccV, events: Seq<EventV>) -> AccV
    decreases events.len(),
{
    if events.len() == 0 {
        st
    } else {
        acc_fold(acc_step(st, events.first()), events.drop_first())
    }
}

/// End of stream: a non-empty hunk still being built becomes the
/// last hunk of the result; an empty one is not flushed.
pub open spec fn acc_finish(st: AccV) -> Seq<Seq<DiffLineV>> {
    if st.current_lines.len() > 0 {
        st.hunks.push(st.current_lines)
    } else {
        st.hunks
    }
}

/// The hunks that a whole event stream groups into.
pub open spec fn hunks_of(events: Seq<EventV>) -> Seq<Seq<DiffLineV>> {
    acc_finish(acc_fold(acc_init(), events))
}

/// Sum of the lengths of a sequence of hunks.
pub open spec fn sum_lens(hunks: Seq<Seq<DiffLineV>>) -> int
    decreases hunks.len(),
{
    if hunks.len() == 0 {
        0
    } else {
        sum_lens(hunks.drop_last()) + hunks.last().len()
    }
}

/// The total-line counter saturates at the 16-bit maximum.
pub open spec fn clip_total(n: int) -> int {
    if n > 65535 {
        65535
    } else {
        n
    }
}

/// The views of a sequence of stream events.
pub open spec fn events_view(events: Seq<DiffEvent>) -> Seq<EventV> {
    events.map_values(|e: DiffEvent| e@)
}

/// Every hunk of the sequence has at least one line.
pub open spec fn all_hunks_nonempty(hunks: Seq<Seq<DiffLineV>>) -> bool {
    forall|i: int| 0 <= i < hunks.len() ==> hunks[i].len() > 0
}

/// A tracked header always has a line under it, and nothing flushed
/// so far is empty.
pub open spec fn acc_inv(st: AccV) -> bool {
    &&& all_hunks_nonempty(st.hunks)
    &&& st.current_header is Some ==> st.current_lines.len() > 0
}

/// Appending one hunk adds its length to the sum.
pub proof fn lemma_sum_lens_push(hunks: Seq<Seq<DiffLineV>>, h: Seq<DiffLineV>)
    ensures
        sum_lens(hunks.push(h)) == sum_lens(hunks) + h.len(),
{
    assert(hunks.push(h).drop_last() =~= hunks);
    assert(hunks.push(h).last() == h);
}

/// Folding one more event steps the fold once.
pub proof fn lemma_fold_push(st: AccV, events: Seq<EventV>, ev: EventV)
    ensures
        acc_fold(st, events.push(ev)) == acc_step(acc_fold(st, events), ev),
    decreases events.len(),
{
    if events.len() == 0 {
        assert(events.push(ev).first() == ev);
        assert(events.push(ev).drop_first() =~= Seq::<EventV>::empty());
        assert(acc_fold(st, events.push(ev))
            == acc_fold(acc_step(st, ev), Seq::<EventV>::empty()));
        assert(acc_fold(acc_step(st, ev), Seq::<EventV>::empty()) == acc_step(st, ev));
    } else {
        assert(events.push(ev).first() == events.first());
        assert(events.push(ev).drop_first() =~= events.drop_first().push(ev));
        assert(acc_fold(st, events.push(ev))
            == acc_fold(acc_step(st, events.first()), events.drop_first().push(ev)));
        lemma_fold_push(acc_step(st, events.first()), events.drop_first(), ev);
        assert(acc_fold(st, events)
            == acc_fold(acc_step(st, events.first()), events.drop_first()));
    }
}

/// One step keeps the invariant: a flush only ever moves the lines
/// of a tracked header, which are never empty.
proof fn lemma_step_preserves_inv(st: AccV, ev: EventV)
    requires
        acc_inv(st),
    ensures
        acc_inv(acc_step(st, ev)),
{
    match ev.header {
        Option::None => {},
        Option::Some(h) => {
            if boundary(st.current_header, h) {
                assert(st.current_lines.len() > 0);
                assert forall|i: int| 0 <= i < st.hunks.push(st.current_lines).len()
                    implies st.hunks.push(st.current_lines)[i].len() > 0 by {
                    if i < st.hunks.len() {
                        assert(st.hunks[i].len() > 0);
                    }
                }
            }
        },
    }
}

/// The whole fold keeps the invariant.
proof fn lemma_fold_preserves_inv(st: AccV, events: Seq<EventV>)
    requires
        acc_inv(st),
    ensures
        acc_inv(acc_fold(st, events)),
    decreases events.len(),
{
    if events.len() > 0 {
        lemma_step_preserves_inv(st, events.first());
        lemma_fold_preserves_inv(acc_step(st, events.first()), events.drop_first());
    }
}

/// No hunk that the grouping of any event stream yields is
/// empty.
pub proof fn lemma_no_empty_hunks(events: Seq<EventV>)
    ensures
        all_hunks_nonempty(hunks_of(events)),
{
    lemma_fold_preserves_inv(acc_init(), events);
    let st = acc_fold(acc_init(), events);
    if st.current_lines.len() > 0 {
        assert forall|i: int| 0 <= i < st.hunks.push(st.current_lines).len()
            implies st.hunks.push(st.current_lines)[i].len() > 0 by {
            if i < st.hunks.len() {
                assert(st.hunks[i].len() > 0);
            }
        }
    }
}

/// An empty event stream — an untouched file — groups into no
/// hunks at all.
pub proof fn lemma_empty_stream()
    ensures
        hunks_of(Seq::<EventV>::empty()) == Seq::<Seq<DiffLineV>>::empty(),
{
}

/// An event whose header equals the tracked one starts no new
/// hunk — the finished hunks stay as they are, and the event's line
/// joins the hunk being built.
pub proof fn lemma_same_header_no_boundary(st: AccV, ev: EventV, h: HunkHeader)
    requires
        st.current_header == Option::Some(h),
        ev.header == Option::Some(h),
    ensures
        acc_step(st, ev).hunks == st.hunks,
        acc_step(st, ev).current_header == st.current_header,
        acc_step(st, ev).current_lines == st.current_lines.push(line_of(ev)),
{
}

/// Streaming accumulator over line events. Feed every event of the
/// stream in order with `push_event`, then take the result with
/// `finish`.
pub struct HunkAccumulator {
    hunks: Vec<Hunk>,
    current_header: Option<HunkHeader>,
    current_lines: Vec<DiffLine>,
    total: u16,
}

impl View for HunkAccumulator {
    type V = AccV;

    closed spec fn view(&self) -> AccV {
        AccV {
            hunks: self.hunks@.map_values(|h: Hunk| h@),
            current_header: self.current_header,
            current_lines: self.current_lines@.map_values(|l: DiffLine| l@),
        }
    }
}

impl HunkAccumulator {
    /// The running counter always equals the clipped sum of the
    /// lengths of the hunks flushed so far.
    pub closed spec fn wf(&self) -> bool {
        self.total as int == clip_total(sum_lens(self@.hunks))
    }

    pub fn new() -> (a: Self)
        ensures
            a.wf(),
            a@ == acc_init(),
    {
        let a = HunkAccumulator {
            hunks: Vec::new(),
            current_header: Option::None,
            current_lines: Vec::new(),
            total: 0,
        };
        proof {
            assert(a@ =~= acc_init());
        }
        a
    }

    /// Flush the hunk being built, adding its length to the counter,
    /// saturating at the 16-bit maximum.
    fn flush(&mut self)
        requires
            old(self).wf(),
        ensures
            final(self).wf(),
            final(self)@.hunks == old(self)@.hunks.push(old(self)@.current_lines),
            final(self)@.current_header == old(self)@.current_header,
            final(self)@.current_lines == Seq::<DiffLineV>::empty(),
    {
        let mut taken: Vec<DiffLine> = Vec::new();
        core::mem::swap(&mut taken, &mut self.current_lines);
        let n = taken.len();
        proof {
            assert(Hunk(taken)@ == old(self)@.current_lines);
            lemma_sum_lens_push(old(self)@.hunks, old(self)@.current_lines);
        }
        self.hunks.push(Hunk(taken));
        let room = (65535u16 - self.total) as usize;
        if n > room {
            self.total = 65535;
        } else {
            self.total = self.total + (n as u16);
        }
        proof {
            assert(self@.hunks =~= old(self)@.hunks.push(old(self)@.current_lines));
            assert(self@.current_lines =~= Seq::<DiffLineV>::empty());
        }
    }

    /// Feed one event of the stream: drop it if it has no header,
    /// else flush at a header boundary, adopt the header, and append
    /// the event's classified, permissively decoded line.
    pub fn push_event(&mut self, header: Option<HunkHeader>, origin: char, content: &Vec<u8>)
        requires
            old(self).wf(),
        ensures
            final(self).wf(),
            final(self)@ == acc_step(old(self)@, (EventV { header, origin, content: content@ })),
    {
        if let Option::Some(h) = header {
            match self.current_header {
                Option::None => {
                    self.current_header = Option::Some(h);
                },
                Option::Some(ch) => {
                    if ch != h {
                        self.flush();
                        self.current_header = Option::Some(h);
                    }
                },
            }
            let line = DiffLine { content: decode_lossy(content), line_type: classify_origin(origin) };
            proof {
                assert(line@ == line_of(EventV { header, origin, content: content@ }));
            }
            self.current_lines.push(line);
            proof {
                assert(self@.current_lines =~= old(self)@.current_lines.push(line@)
                    || self@.current_lines =~= Seq::<DiffLineV>::empty().push(line@));
                assert(self@ =~= acc_step(old(self)@, EventV { header, origin, content: content@ }));
            }
        }
    }

    /// End of stream: flush the hunk still being built, if any, and
    /// return the finished diff. The total equals the sum of the
    /// hunks' lengths wherever that sum stays in the 16-bit range,
    /// and saturates above it.
    pub fn finish(self) -> (d: Diff)
        requires
            self.wf(),
        ensures
            d@.hunks == acc_finish(self@),
            d@.total == clip_total(sum_lens(d@.hunks)),
            sum_lens(d@.hunks) <= 65535 ==> d@.total == sum_lens(d@.hunks),
    {
        let mut a = self;
        if a.current_lines.len() > 0 {
            a.flush();
        }
        let d = Diff(a.hunks, a.total);
        proof {
            assert(d@.hunks =~= acc_finish(self@));
        }
        d
    }
}

/// Group a whole stream of line events into hunks. The result holds
/// exactly the hunks the step rule yields; its total is the sum of
/// the hunks' lengths, saturating at the 16-bit maximum; and no hunk
/// of it is empty.
pub fn accumulate_events(events: &Vec<DiffEvent>) -> (d: Diff)
    ensures
        d@.hunks == hunks_of(events_view(events@)),
        d@.total == clip_total(sum_lens(d@.hunks)),
        sum_lens(d@.hunks) <= 65535 ==> d@.total == sum_lens(d@.hunks),
        all_hunks_nonempty(d@.hunks),
{
    let ghost evs = events_view(events@);
    let mut acc = HunkAccumulator::new();
    let mut i: usize = 0;
    while i < events.len()
        invariant
            i <= events.len(),
            acc.wf(),
            evs == events_view(events@),
            acc@ == acc_fold(acc_init(), evs.take(i as int)),
        decreases events.len() - i,
    {
        let ev = &events[i];
        acc.push_event(ev.header, ev.origin, &ev.content);
        proof {
            assert(evs[i as int] == events@[i as int]@);
            assert(evs.take(i as int + 1) =~= evs.take(i as int).push(evs[i as int]));
            lemma_fold_push(acc_init(), evs.take(i as int), evs[i as int]);
        }
        i = i + 1;
    }
    proof {
        assert(evs.take(events@.len() as int) =~= evs);
        lemma_no_empty_hunks(evs);
    }
    acc.finish()
}

} // verus!
