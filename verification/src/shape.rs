//! The runtime description of a declaration's shape, and the traversal
//! that replays it against an emitter.

use vstd::prelude::*;
use crate::Sculptor;
use crate::event::Event;
use crate::field_type::{FieldType, FieldTypeView};
use crate::modifier::Modifier;

verus! {

/// One declared field of a shape: its exposure, its name, and the
/// descriptor of its declared type.
#[derive(Debug)]
pub struct Field {
    pub modifier: Modifier,
    pub name: String,
    pub ty: FieldType,
}

/// The mathematical model of a `Field`.
pub struct FieldView {
    pub modifier: Modifier,
    pub name: Seq<char>,
    pub ty: FieldTypeView,
}

impl View for Field {
    type V = FieldView;

    open spec fn view(&self) -> FieldView {
        FieldView { modifier: self.modifier, name: self.name@, ty: self.ty@ }
    }
}

/// The shape of one record-like declaration: its own exposure modifier
/// and name, and its named fields in declaration order.
#[derive(Debug)]
pub struct Shape {
    pub modifier: Modifier,
    pub name: String,
    pub fields: Vec<Field>,
}

/// The mathematical model of a `Shape`.
pub struct ShapeView {
    pub modifier: Modifier,
    pub name: Seq<char>,
    pub fields: Seq<FieldView>,
}

/// The views of a sequence of fields, in order.
pub open spec fn fields_view(s: Seq<Field>) -> Seq<FieldView> {
    s.map_values(|f: Field| f@)
}

impl View for Shape {
    type V = ShapeView;

    open spec fn view(&self) -> ShapeView {
        ShapeView { modifier: self.modifier, name: self.name@, fields: fields_view(self.fields@) }
    }
}

/// The protocol call that announces one field.
pub open spec fn field_event(f: FieldView) -> Event {
    Event::Field(f.modifier, f.name, f.ty)
}

/// The canonical call sequence of a shape: one `start`, one `field` per
/// declared field in declaration order, one `end`.
pub open spec fn events_of(sh: ShapeView) -> Seq<Event> {
    seq![Event::Start(sh.modifier, sh.name)] + sh.fields.map_values(|f: FieldView| field_event(f))
        + seq![Event::End]
}

/// A traversal of `sh` that began with the emitter in state `pre` failed
/// at the call of index `j`: the emitter received the canonical calls up
/// to and including `j` and nothing further, every earlier call was one
/// the emitter had not promised to reject, and call `j` was one it had
/// not promised to accept.
pub open spec fn traversal_failed_at<S: Sculptor>(sh: ShapeView, pre: S, post: S, j: int) -> bool {
    let evs = events_of(sh);
    let base = pre.log().len() as int;
    &&& 0 <= j < evs.len()
    &&& post.log() == pre.log() + evs.take(j + 1)
    &&& !pre.accepts(base + j, evs[j])
    &&& (forall|i: int| 0 <= i < j ==> !pre.rejects(base + i, #[trigger] evs[i]))
}

/// Everything a finished traversal of `sh` guarantees about the emitter,
/// which went from state `pre` to state `post`, and about its own result.
///
/// On success the emitter received exactly the canonical call sequence of
/// `sh`, appended to whatever it had received before. On failure it
/// received a strict prefix of that sequence ending at the first call it
/// refused, and nothing after — the traversal is fail-fast. Either way
/// the emitter's own promises are left as they were, and a traversal owes
/// success whenever the emitter promised to accept every canonical call.
pub open spec fn traversal_post<S: Sculptor>(sh: ShapeView, pre: S, post: S, ok: bool) -> bool {
    let evs = events_of(sh);
    let base = pre.log().len() as int;
    &&& (forall|i: int, ev: Event| #[trigger] post.accepts(i, ev) == pre.accepts(i, ev))
    &&& (forall|i: int, ev: Event| #[trigger] post.rejects(i, ev) == pre.rejects(i, ev))
    &&& (ok ==> {
        &&& post.log() == pre.log() + evs
        &&& (forall|i: int| 0 <= i < evs.len() ==> !pre.rejects(base + i, #[trigger] evs[i]))
    })
    &&& (!ok ==> exists|j: int| traversal_failed_at(sh, pre, post, j))
    &&& ((forall|i: int| 0 <= i < evs.len() ==> pre.accepts(base + i, #[trigger] evs[i])) ==> ok)
}

/// The sequencing law: for a shape with any number of fields, including
/// none, the canonical call sequence holds exactly one `start` call
/// carrying the shape's own modifier and name, then exactly one `field`
/// call per declared field with that field's modifier, name and type
/// descriptor, in declaration order, then exactly one `end` call —
/// nothing else and in no other order.
pub proof fn lemma_events_structure(sh: ShapeView)
    ensures
        events_of(sh).len() == sh.fields.len() + 2,
        events_of(sh)[0] == Event::Start(sh.modifier, sh.name),
        events_of(sh)[sh.fields.len() as int + 1] == Event::End,
        forall|i: int|
            0 <= i < sh.fields.len() ==> events_of(sh)[1 + i] == field_event(
                #[trigger] sh.fields[i],
            ),
{
}

/// The zero-field case: a shape with no fields produces the two-call
/// sequence `start`, `end` with no `field` call in between. It is no
/// error — a traversal of it owes success whenever the emitter promised
/// to accept those two calls, as `traversal_post` states for every
/// shape.
pub proof fn lemma_zero_field_events(sh: ShapeView)
    requires
        sh.fields.len() == 0,
    ensures
        events_of(sh).len() == 2,
        events_of(sh)[0] == Event::Start(sh.modifier, sh.name),
        events_of(sh)[1] == Event::End,
{
}

/// Two successful traversals of the same shape, begun from the same
/// emitter state, leave the emitter with the same log: the shape-only
/// adapter, the instance adapter and the direct traversal entry point
/// are observably interchangeable wherever they succeed, whatever input
/// drove them.
pub proof fn lemma_successful_traversals_agree<S: Sculptor>(
    sh: ShapeView,
    pre: S,
    post1: S,
    post2: S,
)
    requires
        traversal_post(sh, pre, post1, true),
        traversal_post(sh, pre, post2, true),
    ensures
        post1.log() == post2.log(),
{
}

impl Shape {
    /// Replays this shape against `sculptor`: one `start` call, one
    /// `field` call per declared field in declaration order, one `end`
    /// call, stopping at the first error and propagating it unchanged.
    pub fn sculpt<S: Sculptor>(&self, sculptor: &mut S) -> (r: Result<S::Ok, S::Error>)
        ensures
            traversal_post(self@, *old(sculptor), *final(sculptor), r is Ok),
    {
        let ghost evs = events_of(self@);
        let ghost pre: S = *sculptor;
        let ghost base = pre.log().len() as int;
        proof {
            assert(evs[0] == Event::Start(self@.modifier, self@.name));
            assert(evs.take(1) =~= seq![evs[0]]);
        }
        match sculptor.start(self.modifier, self.name.as_str()) {
            Err(e) => {
                proof {
                    assert(sculptor.log() =~= pre.log() + evs.take(1));
                    assert(traversal_failed_at(self@, pre, *sculptor, 0));
                }
                return Err(e);
            },
            Ok(_) => {},
        }
        let n = self.fields.len();
        let mut i: usize = 0;
        while i < n
            invariant
                n == self.fields@.len(),
                i <= n,
                pre == *old(sculptor),
                evs == events_of(self@),
                base == pre.log().len() as int,
                evs.len() == n + 2,
                sculptor.log() == pre.log() + evs.take(1 + i),
                forall|l: int, ev: Event| #[trigger]
                    sculptor.accepts(l, ev) == pre.accepts(l, ev),
                forall|l: int, ev: Event| #[trigger]
                    sculptor.rejects(l, ev) == pre.rejects(l, ev),
                forall|k: int| 0 <= k < 1 + i ==> !pre.rejects(base + k, #[trigger] evs[k]),
            decreases n - i,
        {
            let f = &self.fields[i];
            proof {
                assert(evs[1 + i] == field_event(self@.fields[i as int]));
                assert(self@.fields[i as int] == self.fields@[i as int]@);
            }
            match sculptor.field(f.modifier, f.name.as_str(), &f.ty) {
                Err(e) => {
                    proof {
                        assert(evs.take(2 + i) =~= evs.take(1 + i).push(evs[1 + i]));
                        assert(sculptor.log() =~= pre.log() + evs.take(2 + i));
                        assert(!pre.accepts(base + 1 + i, evs[1 + i]));
                        let jj: int = 1 + i as int;
                        assert(forall|k: int| 0 <= k < jj ==> !pre.rejects(base + k, #[trigger] evs[k]));
                        assert(traversal_failed_at(self@, pre, *sculptor, jj));
                        assert(exists|j: int| traversal_failed_at(self@, pre, *sculptor, j));
                    }
                    return Err(e);
                },
                Ok(_) => {
                    proof {
                        assert(evs.take(2 + i) =~= evs.take(1 + i).push(evs[1 + i]));
                        assert(sculptor.log() =~= pre.log() + evs.take(2 + i));
                    }
                },
            }
            i = i + 1;
        }
        proof {
            assert(evs[n as int + 1] == Event::End);
        }
        let r = sculptor.end();
        proof {
            assert(evs.take(n as int + 2) =~= evs.take(n as int + 1).push(evs[n as int + 1]));
            assert(evs.take(n as int + 2) =~= evs);
            if r is Ok {
                assert(sculptor.log() =~= pre.log() + evs);
            } else {
                assert(sculptor.log() =~= pre.log() + evs.take(n as int + 2));
                assert(!pre.accepts(base + n + 1, evs[n as int + 1]));
                assert(traversal_failed_at(self@, pre, *sculptor, n as int + 1));
            }
        }
        r
    }
}

} // verus!
