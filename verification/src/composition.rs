//! Composition events, which expose input methods and dead-key sequences,
//! and the order in which a composition session issues them.

use vstd::prelude::*;

verus! {

/// Describes the state of a composition session.
#[derive(Copy, Clone, Debug, Eq, Hash, PartialEq, PartialOrd, Ord, Structural)]
pub enum CompositionState {
    /// The `compositionstart` event.
    Start,
    /// The `compositionupdate` event.
    Update,
    /// The `compositionend` event.
    ///
    /// In a text editor, in this state the data should be added to the input.
    End,
}

impl CompositionState {
    /// The event type name as a sequence of characters.
    pub open spec fn event_type_text(self) -> Seq<char> {
        match self {
            CompositionState::Start => "compositionstart"@,
            CompositionState::Update => "compositionupdate"@,
            CompositionState::End => "compositionend"@,
        }
    }

    /// The type name of the corresponding composition event:
    /// `"compositionstart"`, `"compositionupdate"` or `"compositionend"`.
    pub fn event_type(self) -> (name: &'static str)
        ensures
            name@ == self.event_type_text(),
    {
        match self {
            CompositionState::Start => "compositionstart",
            CompositionState::Update => "compositionupdate",
            CompositionState::End => "compositionend",
        }
    }
}

/// Event to expose input methods to program logic.
///
/// Provides information about entered sequences from
/// dead key combinations and IMEs.
///
/// A composition session is always started by a [`CompositionState::Start`]
/// event followed by zero or more [`CompositionState::Update`] events
/// and terminated by a single [`CompositionState::End`] event.
#[derive(Debug, Eq, Hash, PartialOrd, Ord)]
pub struct CompositionEvent {
    /// Describes the event kind.
    pub state: CompositionState,
    /// Current composition data. May be empty.
    pub data: String,
}

impl Clone for CompositionEvent {
    fn clone(&self) -> (copy: CompositionEvent)
        ensures
            copy == *self,
    {
        CompositionEvent { state: self.state, data: self.data.clone() }
    }
}

impl PartialEq for CompositionEvent {
    fn eq(&self, other: &CompositionEvent) -> (equal: bool) {
        self.state == other.state && self.data == other.data
    }
}

impl vstd::std_specs::cmp::PartialEqSpecImpl for CompositionEvent {
    open spec fn obeys_eq_spec() -> bool {
        true
    }

    open spec fn eq_spec(&self, other: &CompositionEvent) -> bool {
        self.state == other.state && self.data@ == other.data@
    }
}

/// Where a stream of composition events stands: inside a session or
/// outside of one.
#[derive(Copy, Clone, Debug, Eq, Hash, PartialEq, PartialOrd, Ord, Structural)]
pub enum CompositionPhase {
    /// No session is open. Only a start event may follow.
    NotComposing,
    /// A session is open. Only an update or an end event may follow.
    Composing,
}

impl CompositionPhase {
    /// The phase after `event`, or none if `event` may not occur in this
    /// phase.
    pub open spec fn after(self, event: CompositionState) -> Option<CompositionPhase> {
        match (self, event) {
            (CompositionPhase::NotComposing, CompositionState::Start) => Some(
                CompositionPhase::Composing,
            ),
            (CompositionPhase::Composing, CompositionState::Update) => Some(
                CompositionPhase::Composing,
            ),
            (CompositionPhase::Composing, CompositionState::End) => Some(
                CompositionPhase::NotComposing,
            ),
            _ => None,
        }
    }

    /// The phase after all of `events` in turn, or none if one of them may
    /// not occur where it stands.
    pub open spec fn after_all(self, events: Seq<CompositionState>) -> Option<CompositionPhase>
        decreases events.len(),
    {
        if events.len() == 0 {
            Some(self)
        } else {
            match self.after(events[0]) {
                Some(next) => next.after_all(events.drop_first()),
                None => None,
            }
        }
    }

    /// Follows one event: returns the phase after it, or none if the event
    /// violates the order of a session.
    pub fn advance(self, event: CompositionState) -> (next: Option<CompositionPhase>)
        ensures
            next == self.after(event),
    {
        match self {
            CompositionPhase::NotComposing => match event {
                CompositionState::Start => Some(CompositionPhase::Composing),
                _ => None,
            },
            CompositionPhase::Composing => match event {
                CompositionState::Update => Some(CompositionPhase::Composing),
                CompositionState::End => Some(CompositionPhase::NotComposing),
                CompositionState::Start => None,
            },
        }
    }

    /// Follows a stream of events from this phase: returns the phase after
    /// the last one, or none if an event violates the order of a session.
    pub fn advance_all(self, events: &[CompositionState]) -> (last: Option<CompositionPhase>)
        ensures
            last == self.after_all(events@),
    {
        let mut phase = self;
        let mut done: usize = 0;
        assert(events@.skip(0) =~= events@);
        while done < events.len()
            invariant
                done <= events@.len(),
                self.after_all(events@) == phase.after_all(events@.skip(done as int)),
            decreases events@.len() - done,
        {
            let ghost rest = events@.skip(done as int);
            assert(rest[0] == events@[done as int]);
            assert(rest.drop_first() =~= events@.skip(done + 1));
            match phase.advance(events[done]) {
                Some(next) => {
                    phase = next;
                },
                None => {
                    return None;
                },
            }
            done += 1;
        }
        assert(events@.skip(done as int).len() == 0);
        Some(phase)
    }
}

/// Whether `events` is one whole composition session: a start event first,
/// an end event last, and only update events between them.
pub open spec fn is_session(events: Seq<CompositionState>) -> bool {
    &&& events.len() >= 2
    &&& events.first() == CompositionState::Start
    &&& events.last() == CompositionState::End
    &&& forall|i: int| 0 < i < events.len() - 1 ==> events[i] == CompositionState::Update
}

/// Checks whether `events` is one whole composition session.
pub fn is_well_formed_session(events: &[CompositionState]) -> (well_formed: bool)
    ensures
        well_formed == is_session(events@),
{
    let n = events.len();
    if n < 2 {
        return false;
    }
    if !matches!(events[0], CompositionState::Start) || !matches!(
        events[n - 1],
        CompositionState::End
    ) {
        return false;
    }
    let mut i: usize = 1;
    while i < n - 1
        invariant
            n == events@.len(),
            1 <= i <= n - 1,
            forall|j: int| 0 < j < i ==> events@[j] == CompositionState::Update,
        decreases n - i,
    {
        if !matches!(events[i], CompositionState::Update) {
            return false;
        }
        i += 1;
    }
    true
}

/// From inside a session, update events followed by one end event close
/// the session.
proof fn lemma_updates_then_end(events: Seq<CompositionState>)
    requires
        events.len() >= 1,
        events.last() == CompositionState::End,
        forall|i: int| 0 <= i < events.len() - 1 ==> events[i] == CompositionState::Update,
    ensures
        CompositionPhase::Composing.after_all(events) == Some(CompositionPhase::NotComposing),
    decreases events.len(),
{
    let rest = events.drop_first();
    if events.len() == 1 {
        assert(rest.len() == 0);
        assert(CompositionPhase::NotComposing.after_all(rest) == Some(
            CompositionPhase::NotComposing,
        ));
    } else {
        assert(rest.last() == events.last());
        lemma_updates_then_end(rest);
    }
}

/// An open session that returns to rest went through update events only
/// and then one end event.
proof fn lemma_closed_by_updates_then_end(events: Seq<CompositionState>)
    requires
        events.len() >= 1,
        CompositionPhase::Composing.after_all(events) == Some(CompositionPhase::NotComposing),
        forall|i: int| 0 <= i < events.len() - 1 ==> events[i] != CompositionState::End,
    ensures
        events.last() == CompositionState::End,
        forall|i: int| 0 <= i < events.len() - 1 ==> events[i] == CompositionState::Update,
    decreases events.len(),
{
    let rest = events.drop_first();
    if events.len() == 1 {
        assert(rest.len() == 0);
        assert(CompositionPhase::NotComposing.after_all(rest) == Some(
            CompositionPhase::NotComposing,
        ));
        assert(CompositionPhase::Composing.after_all(rest) == Some(CompositionPhase::Composing));
    } else {
        assert(events[0] != CompositionState::End);
        assert(events[0] == CompositionState::Update);
        assert forall|i: int| 0 <= i < rest.len() - 1 implies rest[i] != CompositionState::End by {
            assert(rest[i] == events[i + 1]);
        }
        lemma_closed_by_updates_then_end(rest);
        assert(rest.last() == events.last());
        assert forall|i: int| 0 <= i < events.len() - 1 implies events[i]
            == CompositionState::Update by {
            if i > 0 {
                assert(rest[i - 1] == events[i]);
            }
        }
    }
}

/// A whole session is accepted from rest and returns to rest.
pub proof fn lemma_session_is_accepted(events: Seq<CompositionState>)
    requires
        is_session(events),
    ensures
        CompositionPhase::NotComposing.after_all(events) == Some(CompositionPhase::NotComposing),
{
    let rest = events.drop_first();
    assert(rest.last() == events.last());
    assert forall|i: int| 0 <= i < rest.len() - 1 implies rest[i] == CompositionState::Update by {
        assert(rest[i] == events[i + 1]);
    }
    lemma_updates_then_end(rest);
}

/// A stream that is accepted from rest, returns to rest and holds its only
/// end event in the last place is a whole session.
pub proof fn lemma_accepted_single_session(events: Seq<CompositionState>)
    requires
        events.len() >= 1,
        CompositionPhase::NotComposing.after_all(events) == Some(CompositionPhase::NotComposing),
        forall|i: int| 0 <= i < events.len() - 1 ==> events[i] != CompositionState::End,
    ensures
        is_session(events),
{
    let rest = events.drop_first();
    assert(events[0] == CompositionState::Start);
    if rest.len() == 0 {
        assert(CompositionPhase::Composing.after_all(rest) == Some(CompositionPhase::Composing));
    } else {
        assert forall|i: int| 0 <= i < rest.len() - 1 implies rest[i] != CompositionState::End by {
            assert(rest[i] == events[i + 1]);
        }
        lemma_closed_by_updates_then_end(rest);
        assert(rest.last() == events.last());
        assert forall|i: int| 0 < i < events.len() - 1 implies events[i]
            == CompositionState::Update by {
            assert(rest[i - 1] == events[i]);
        }
    }
}

/// An update or an end event outside of a session is a violation, and so is
/// a start event inside of one.
pub proof fn lemma_out_of_order_is_rejected(
    phase: CompositionPhase,
    event: CompositionState,
    rest: Seq<CompositionState>,
)
    requires
        phase == CompositionPhase::NotComposing ==> event != CompositionState::Start,
        phase == CompositionPhase::Composing ==> event == CompositionState::Start,
    ensures
        phase.after(event) is None,
        phase.after_all(seq![event] + rest) is None,
{
    assert((seq![event] + rest)[0] == event);
}

} // verus!
