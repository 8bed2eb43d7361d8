//! The reference emitter: it records every call it receives, and can be
//! configured to refuse exactly one call of the sequence.

use vstd::prelude::*;
use crate::Sculptor;
use crate::err::SculptureError;
use crate::event::Event;
use crate::field_type::FieldType;
use crate::modifier::Modifier;
use crate::shape::{Shape, events_of, traversal_failed_at};

verus! {

/// One call as the recording emitter keeps it, with owned copies of the
/// arguments it received.
#[derive(Debug, PartialEq)]
pub enum CallRecord {
    Start(Modifier, String),
    Field(Modifier, String, FieldType),
    End,
}

impl View for CallRecord {
    type V = Event;

    open spec fn view(&self) -> Event {
        match self {
            CallRecord::Start(modifier, name) => Event::Start(*modifier, name@),
            CallRecord::Field(modifier, name, ty) => Event::Field(*modifier, name@, ty@),
            CallRecord::End => Event::End,
        }
    }
}

/// Whether a recorder configured with `plan` accepts the call that
/// arrives when `i` calls were already received: every call is accepted
/// except the one whose 1-indexed number the plan names.
pub open spec fn plan_accepts(plan: Option<usize>, i: int) -> bool {
    match plan {
        Option::Some(k) => i + 1 != k as int,
        Option::None => true,
    }
}

/// An emitter that records the calls made to it, in order, and otherwise
/// does nothing. `fail_at` is its failure plan: `Some(k)` makes it refuse
/// its k-th call (1-indexed) and accept every other; `None` makes it
/// accept them all.
#[derive(Debug)]
pub struct RecordingSculptor {
    pub calls: Vec<CallRecord>,
    pub fail_at: Option<usize>,
}

impl RecordingSculptor {
    /// A fresh recorder that accepts every call.
    pub fn new() -> (r: Self)
        ensures
            r.calls@.len() == 0,
            r.fail_at is None,
    {
        RecordingSculptor { calls: Vec::new(), fail_at: Option::None }
    }

    /// A fresh recorder that refuses its `k`-th call (1-indexed) and
    /// accepts every other.
    pub fn failing_at(k: usize) -> (r: Self)
        ensures
            r.calls@.len() == 0,
            r.fail_at == Option::Some(k),
    {
        RecordingSculptor { calls: Vec::new(), fail_at: Option::Some(k) }
    }

    /// Answers the call just recorded: `Err` exactly when its 1-indexed
    /// number is the planned one.
    fn respond(&self) -> (r: Result<(), SculptureError>)
        requires
            self.calls@.len() > 0,
        ensures
            r is Ok <==> plan_accepts(self.fail_at, self.calls@.len() - 1),
            r is Err ==> r == Result::<(), SculptureError>::Err(SculptureError::Refused),
    {
        let failed = match self.fail_at {
            Option::Some(k) => k == self.calls.len(),
            Option::None => false,
        };
        if failed {
            Err(SculptureError::Refused)
        } else {
            Ok(())
        }
    }
}

impl Sculptor for RecordingSculptor {
    type Ok = ();

    type Error = SculptureError;

    open spec fn log(&self) -> Seq<Event> {
        self.calls@.map_values(|c: CallRecord| c@)
    }

    open spec fn accepts(&self, i: int, ev: Event) -> bool {
        plan_accepts(self.fail_at, i)
    }

    open spec fn rejects(&self, i: int, ev: Event) -> bool {
        !plan_accepts(self.fail_at, i)
    }

    fn start(&mut self, modifier: Modifier, name: &str) -> (r: Result<(), SculptureError>) {
        self.calls.push(CallRecord::Start(modifier, name.to_owned()));
        proof {
            assert(self.log() =~= old(self).log().push(Event::Start(modifier, name@)));
        }
        self.respond()
    }

    fn field(&mut self, modifier: Modifier, name: &str, field_type: &FieldType) -> (r: Result<
        (),
        SculptureError,
    >) {
        self.calls.push(CallRecord::Field(modifier, name.to_owned(), field_type.clone()));
        proof {
            assert(self.log() =~= old(self).log().push(
                Event::Field(modifier, name@, field_type@),
            ));
        }
        self.respond()
    }

    fn end(&mut self) -> (r: Result<(), SculptureError>) {
        self.calls.push(CallRecord::End);
        proof {
            assert(self.log() =~= old(self).log().push(Event::End));
        }
        self.respond()
    }
}

/// Replays `shape` against a fresh recorder and pins down the whole
/// outcome: with no failure planned, or one planned beyond the sequence,
/// the traversal succeeds and the recorder holds exactly the canonical
/// call sequence of the shape; with the k-th call planned to fail, the
/// traversal stops at that very call — the recorder holds exactly the
/// first k canonical calls, no later call ever reaches it — and the
/// traversal reports the recorder's own error.
pub fn sculpt_recorded(shape: &Shape, rec: &mut RecordingSculptor) -> (r: Result<
    (),
    SculptureError,
>)
    requires
        old(rec).calls@.len() == 0,
    ensures
        ({
            let evs = events_of(shape@);
            match old(rec).fail_at {
                Option::Some(k) => if 1 <= k && k as int <= evs.len() {
                    &&& r == Result::<(), SculptureError>::Err(SculptureError::Refused)
                    &&& final(rec).log() == evs.take(k as int)
                    &&& final(rec).calls@.len() == k
                } else {
                    &&& r is Ok
                    &&& final(rec).log() == evs
                    &&& final(rec).calls@.len() == evs.len()
                },
                Option::None => {
                    &&& r is Ok
                    &&& final(rec).log() == evs
                    &&& final(rec).calls@.len() == evs.len()
                },
            }
        }),
{
    let ghost pre: RecordingSculptor = *rec;
    proof {
        assert(pre.log() =~= Seq::<Event>::empty());
    }
    let r = shape.sculpt(rec);
    proof {
        let evs = events_of(shape@);
        let post: RecordingSculptor = *rec;
        assert(post.calls@.len() == post.log().len());
        match pre.fail_at {
            Option::Some(k) => {
                if 1 <= k && k as int <= evs.len() {
                    if r is Ok {
                        assert(!pre.rejects(k - 1, evs[k - 1]));
                        assert(false);
                    }
                    let j = choose|j: int| traversal_failed_at(shape@, pre, post, j);
                    assert(traversal_failed_at(shape@, pre, post, j));
                    assert(j == k - 1);
                    assert(post.log() =~= evs.take(k as int));
                    assert(r is Err);
                    assert(r->Err_0 == SculptureError::Refused);
                    assert(r == Result::<(), SculptureError>::Err(SculptureError::Refused));
                } else {
                    assert(forall|i: int|
                        0 <= i < evs.len() ==> pre.accepts(i, #[trigger] evs[i]));
                    assert(r is Ok);
                    assert(post.log() =~= evs);
                }
            },
            Option::None => {
                assert(forall|i: int| 0 <= i < evs.len() ==> pre.accepts(i, #[trigger] evs[i]));
                assert(r is Ok);
                assert(post.log() =~= evs);
            },
        }
    }
    r
}

} // verus!
