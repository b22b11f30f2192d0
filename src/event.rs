//! What every event offers, whatever its kind.
use vstd::prelude::*;

verus! {

/// A capability shared by every event kind: its content and its type tag.
pub trait Event<C> {
    /// The content that `content` returns.
    spec fn spec_content(&self) -> C;

    /// The type tag that `event_type` returns.
    spec fn spec_event_type(&self) -> Seq<char>;

    /// The event's content.
    fn content(&self) -> (r: &C)
        ensures
            *r == self.spec_content(),
    ;

    /// The event's type tag, the same for every event of a kind.
    fn event_type(&self) -> (r: &'static str)
        ensures
            r@ == self.spec_event_type(),
    ;
}

} // verus!
