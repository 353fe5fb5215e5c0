//! Binding indices for the resource references that a drawable declares.
//!
//! A reference may contribute a bind-group layout entry, a bind-group entry
//! and/or a vertex-buffer layout. Binding indices are never chosen by the
//! reference itself: they are the positions of the contributing references in
//! declaration order, after the others are filtered out.
use vstd::prelude::*;

verus! {

/// The kind of descriptor that a reference may contribute.
#[derive(Clone, Copy, Debug, PartialEq, Eq, Structural)]
pub enum Descriptor {
    Layout,
    Entry,
    Vertex,
}

/// Which descriptors one resource reference contributes.
#[derive(Clone, Copy, Debug, PartialEq, Eq, Structural)]
pub struct ReferenceShape {
    pub has_layout: bool,
    pub has_entry: bool,
    pub has_vertex: bool,
}

impl ReferenceShape {
    pub open spec fn spec_provides(&self, part: Descriptor) -> bool {
        match part {
            Descriptor::Layout => self.has_layout,
            Descriptor::Entry => self.has_entry,
            Descriptor::Vertex => self.has_vertex,
        }
    }

    /// A layout is declared exactly when an entry is.
    pub open spec fn spec_consistent(&self) -> bool {
        self.has_layout == self.has_entry
    }

    #[verifier::when_used_as_spec(spec_provides)]
    pub fn provides(&self, part: Descriptor) -> (r: bool)
        ensures
            r == self.spec_provides(part),
    {
        match part {
            Descriptor::Layout => self.has_layout,
            Descriptor::Entry => self.has_entry,
            Descriptor::Vertex => self.has_vertex,
        }
    }
}

/// A binding index together with the position of the reference that fills it.
#[derive(Clone, Copy, Debug, PartialEq, Eq, Structural)]
pub struct BindingSlot {
    pub binding: u32,
    pub reference: usize,
}

/// Why a reference list cannot be turned into a binding table.
#[derive(Clone, Copy, Debug, PartialEq, Eq, Structural)]
pub enum BindingError {
    /// The reference at this position declares a layout but no entry.
    LayoutWithoutEntry { reference: usize },
    /// The reference at this position declares an entry but no layout.
    EntryWithoutLayout { reference: usize },
    /// There are more references than binding indices.
    TooManyReferences,
}

/// Positions, in declaration order, of the references that contribute `part`.
pub open spec fn positions(refs: Seq<ReferenceShape>, part: Descriptor) -> Seq<int>
    decreases refs.len(),
{
    if refs.len() == 0 {
        Seq::empty()
    } else {
        let before = positions(refs.drop_last(), part);
        if refs.last().provides(part) {
            before.push(refs.len() - 1)
        } else {
            before
        }
    }
}

/// `slots` numbers the positions `pos` from zero, keeping their order.
pub open spec fn numbers(slots: Seq<BindingSlot>, pos: Seq<int>) -> bool {
    &&& slots.len() == pos.len()
    &&& forall|k: int|
        0 <= k < slots.len() ==> #[trigger] slots[k].binding == k && slots[k].reference == pos[k]
}

/// Every reference declares a layout exactly when it declares an entry.
pub open spec fn consistent(refs: Seq<ReferenceShape>) -> bool {
    forall|i: int| 0 <= i < refs.len() ==> refs[i].spec_consistent()
}

/// `i` is the first position whose reference is not consistent.
pub open spec fn first_mismatch(refs: Seq<ReferenceShape>, i: int) -> bool {
    &&& 0 <= i < refs.len()
    &&& !refs[i].spec_consistent()
    &&& forall|j: int| 0 <= j < i ==> refs[j].spec_consistent()
}

/// What the consistency check reports for `refs`.
pub open spec fn check_result(refs: Seq<ReferenceShape>, r: Result<(), BindingError>) -> bool {
    match r {
        Ok(()) => consistent(refs),
        Err(BindingError::LayoutWithoutEntry { reference }) => first_mismatch(
            refs,
            reference as int,
        ) && refs[reference as int].has_layout,
        Err(BindingError::EntryWithoutLayout { reference }) => first_mismatch(
            refs,
            reference as int,
        ) && refs[reference as int].has_entry,
        Err(BindingError::TooManyReferences) => false,
    }
}

/// Each position lies within the list and names a reference that contributes
/// `part`.
pub proof fn lemma_positions_contribute(refs: Seq<ReferenceShape>, part: Descriptor)
    ensures
        positions(refs, part).len() <= refs.len(),
        forall|k: int|
            0 <= k < positions(refs, part).len() ==> 0 <= #[trigger] positions(refs, part)[k]
                < refs.len() && refs[positions(refs, part)[k]].provides(part),
    decreases refs.len(),
{
    if refs.len() > 0 {
        lemma_positions_contribute(refs.drop_last(), part);
    }
}

/// Assigns binding indices `0..n` to the references that contribute `part`, in
/// declaration order.
pub fn binding_slots(refs: &Vec<ReferenceShape>, part: Descriptor) -> (slots: Vec<BindingSlot>)
    requires
        refs@.len() <= u32::MAX,
    ensures
        numbers(slots@, positions(refs@, part)),
        forall|k: int|
            0 <= k < slots@.len() ==> (#[trigger] slots@[k]).reference < refs@.len()
                && refs@[slots@[k].reference as int].provides(part),
{
    let mut slots: Vec<BindingSlot> = Vec::new();
    let mut i: usize = 0;
    while i < refs.len()
        invariant
            i <= refs@.len(),
            refs@.len() <= u32::MAX,
            slots@.len() <= i,
            numbers(slots@, positions(refs@.take(i as int), part)),
        decreases refs@.len() - i,
    {
        assert(refs@.take(i + 1).drop_last() =~= refs@.take(i as int));
        assert(refs@.take(i + 1).last() == refs@[i as int]);
        let ghost prev = positions(refs@.take(i as int), part);
        if refs[i].provides(part) {
            let binding = slots.len() as u32;
            let ghost before = slots@;
            slots.push(BindingSlot { binding, reference: i });
            assert forall|k: int| 0 <= k < slots@.len() implies slots@[k].binding == k
                && slots@[k].reference == prev.push(i as int)[k] by {
                if k < before.len() {
                    assert(slots@[k] == before[k]);
                } else {
                    assert(k == before.len());
                    assert(slots@[k].binding == k);
                    assert(slots@[k].reference == i);
                    assert(prev.push(i as int)[k] == i);
                }
            }
            assert(positions(refs@.take(i + 1), part) == prev.push(i as int));
        } else {
            assert(positions(refs@.take(i + 1), part) == prev);
        }
        i += 1;
    }
    assert(refs@.take(refs@.len() as int) =~= refs@);
    proof {
        lemma_positions_contribute(refs@, part);
        assert forall|k: int| 0 <= k < slots@.len() implies (#[trigger] slots@[k]).reference
            < refs@.len() && refs@[slots@[k].reference as int].provides(part) by {
            assert(slots@[k].binding == k);
            assert(slots@[k].reference == positions(refs@, part)[k]);
        }
    }
    slots
}

/// Positions of the references that contribute a vertex-buffer layout, in
/// declaration order. These take no binding index.
pub fn vertex_references(refs: &Vec<ReferenceShape>) -> (r: Vec<usize>)
    ensures
        r@.len() == positions(refs@, Descriptor::Vertex).len(),
        forall|k: int| 0 <= k < r@.len() ==> r@[k] == positions(refs@, Descriptor::Vertex)[k],
        forall|k: int|
            0 <= k < r@.len() ==> #[trigger] r@[k] < refs@.len() && refs@[r@[k] as int].has_vertex,
{
    let mut r: Vec<usize> = Vec::new();
    let mut i: usize = 0;
    while i < refs.len()
        invariant
            i <= refs@.len(),
            r@.len() == positions(refs@.take(i as int), Descriptor::Vertex).len(),
            forall|k: int|
                0 <= k < r@.len() ==> r@[k] == positions(refs@.take(i as int), Descriptor::Vertex)[k],
        decreases refs@.len() - i,
    {
        assert(refs@.take(i + 1).drop_last() =~= refs@.take(i as int));
        if refs[i].has_vertex {
            r.push(i);
        }
        i += 1;
    }
    assert(refs@.take(refs@.len() as int) =~= refs@);
    proof {
        lemma_positions_contribute(refs@, Descriptor::Vertex);
    }
    r
}

/// Finds the first reference that declares a layout without an entry, or an
/// entry without a layout.
pub fn check_references(refs: &Vec<ReferenceShape>) -> (r: Result<(), BindingError>)
    ensures
        check_result(refs@, r),
        r is Ok <==> consistent(refs@),
{
    let mut i: usize = 0;
    while i < refs.len()
        invariant
            i <= refs@.len(),
            forall|j: int| 0 <= j < i ==> refs@[j].spec_consistent(),
        decreases refs@.len() - i,
    {
        let shape = refs[i];
        if shape.has_layout && !shape.has_entry {
            return Err(BindingError::LayoutWithoutEntry { reference: i });
        }
        if shape.has_entry && !shape.has_layout {
            return Err(BindingError::EntryWithoutLayout { reference: i });
        }
        i += 1;
    }
    Ok(())
}

/// If every reference declares a layout exactly when it declares an entry, the
/// references that contribute a layout are the ones that contribute an entry,
/// in the same order, so the layout and the bind group number them alike.
pub proof fn lemma_consistent_layouts_match_entries(refs: Seq<ReferenceShape>)
    requires
        consistent(refs),
    ensures
        positions(refs, Descriptor::Layout) == positions(refs, Descriptor::Entry),
    decreases refs.len(),
{
    if refs.len() > 0 {
        let init = refs.drop_last();
        assert(refs.last().spec_consistent());
        assert(consistent(init)) by {
            assert forall|i: int| 0 <= i < init.len() implies init[i].spec_consistent() by {
                assert(init[i] == refs[i]);
            }
        }
        lemma_consistent_layouts_match_entries(init);
    }
}

/// The binding table of a drawable: one slot for each reference that
/// contributes a layout, which is also each reference that contributes an
/// entry. Fails on the first reference whose layout and entry disagree.
pub fn binding_plan(refs: &Vec<ReferenceShape>) -> (r: Result<Vec<BindingSlot>, BindingError>)
    ensures
        refs@.len() > u32::MAX ==> r == Err::<Vec<BindingSlot>, BindingError>(
            BindingError::TooManyReferences,
        ),
        refs@.len() <= u32::MAX ==> match r {
            Ok(slots) => {
                &&& consistent(refs@)
                &&& numbers(slots@, positions(refs@, Descriptor::Layout))
                &&& numbers(slots@, positions(refs@, Descriptor::Entry))
                &&& forall|k: int|
                    0 <= k < slots@.len() ==> (#[trigger] slots@[k]).reference < refs@.len()
                        && refs@[slots@[k].reference as int].has_layout
                        && refs@[slots@[k].reference as int].has_entry
            },
            Err(e) => check_result(refs@, Err(e)),
        },
{
    if refs.len() > u32::MAX as usize {
        return Err(BindingError::TooManyReferences);
    }
    match check_references(refs) {
        Ok(()) => {
            let slots = binding_slots(refs, Descriptor::Layout);
            proof {
                lemma_consistent_layouts_match_entries(refs@);
            }
            Ok(slots)
        },
        Err(e) => Err(e),
    }
}

} // verus!
