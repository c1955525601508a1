use vstd::prelude::*;

verus! {

/// A UI element that can be hosted by the layout containers of this crate.
pub trait Component {
    /// The height this component asks for at `width` (`0` asks to stretch).
    spec fn spec_desired_height(&self, width: u16) -> u16;

    /// Height requested at `width`; `0` means "stretch to fill".
    fn desired_height(&self, width: u16) -> (h: u16)
        ensures
            h == self.spec_desired_height(width),
    ;

    /// Whether `after` is what destroying `self` leaves behind.
    spec fn spec_destroys(&self, after: &Self) -> bool;

    /// Release whatever the component holds before it is dropped.
    fn destroy(&mut self)
        ensures
            old(self).spec_destroys(&*final(self)),
    ;
}

/// Whether `after` is what destroying each of `before`, in place, leaves.
pub open spec fn all_destroyed<C: Component>(before: Seq<C>, after: Seq<C>) -> bool {
    &&& after.len() == before.len()
    &&& forall|i: int| 0 <= i < before.len() ==> #[trigger] before[i].spec_destroys(&after[i])
}

/// Destroys every component of `children`, in order.
pub fn destroy_all<C: Component>(children: &mut Vec<C>)
    ensures
        all_destroyed(old(children)@, final(children)@),
{
    let ghost before = children@;
    let mut i: usize = 0;
    while i < children.len()
        invariant
            i <= children@.len(),
            children@.len() == before.len(),
            forall|k: int| 0 <= k < i ==> #[trigger] before[k].spec_destroys(&children@[k]),
            forall|k: int| i <= k < children@.len() ==> children@[k] == before[k],
        decreases children@.len() - i,
    {
        children[i].destroy();
        i = i + 1;
    }
}

/// The heights `children` ask for at `width`, in order.
pub open spec fn asked_heights<C: Component>(children: Seq<C>, width: u16) -> Seq<u16> {
    Seq::new(children.len(), |i: int| children[i].spec_desired_height(width))
}

/// The heights `children` ask for at `width`, in order.
pub fn desired_heights<C: Component>(children: &Vec<C>, width: u16) -> (r: Vec<u16>)
    ensures
        r@ == asked_heights(children@, width),
{
    let mut out: Vec<u16> = Vec::new();
    let mut i: usize = 0;
    while i < children.len()
        invariant
            i <= children@.len(),
            out@ == asked_heights(children@.take(i as int), width),
        decreases children@.len() - i,
    {
        let h = children[i].desired_height(width);
        out.push(h);
        i = i + 1;
        proof {
            assert(out@ =~= asked_heights(children@.take(i as int), width));
        }
    }
    proof {
        assert(children@.take(i as int) =~= children@);
    }
    out
}

} // verus!
