//! Typed, ordered description of the numeric parameter slots a shape
//! function consumes, and its rendering as WGSL argument lists.
//!
//! A schema is an ordered list of slots; each slot is a small index together
//! with a kind (float or unsigned integer). Indices need not be contiguous,
//! but within one kind each index may appear at most once, and every index is
//! strictly below [`crate::MAX_PARAM_SLOTS`]. A slot `(3, Float)` is rendered
//! as the WGSL field `param_f_3: f32`, a slot `(1, UInt)` as `param_u_1:
//! u32`.

use vstd::prelude::*;

use crate::text::dec_of;
use crate::text::push_dec_u32;
use crate::MAX_PARAM_SLOTS;

verus! {

/// The kind of value carried in one parameter slot.
#[derive(Debug, Clone, Copy, PartialEq, Eq, Hash, Structural)]
pub enum ParameterKind {
    /// A 32-bit float, rendered as WGSL `f32`.
    Float,
    /// A 32-bit unsigned integer, rendered as WGSL `u32`.
    UInt,
}

/// One typed parameter slot: an index and a kind.
#[derive(Debug, Clone, Copy, PartialEq, Eq, Hash, Structural)]
pub struct ParameterSlot {
    /// Which numbered slot of its kind this is.
    pub index: u32,
    /// Whether the slot carries a float or an unsigned integer.
    pub kind: ParameterKind,
}

impl ParameterSlot {
    /// A float slot at `index`.
    pub fn float(index: u32) -> (r: Self)
        ensures
            r == (ParameterSlot { index, kind: ParameterKind::Float }),
    {
        ParameterSlot { index, kind: ParameterKind::Float }
    }

    /// An unsigned-integer slot at `index`.
    pub fn uint(index: u32) -> (r: Self)
        ensures
            r == (ParameterSlot { index, kind: ParameterKind::UInt }),
    {
        ParameterSlot { index, kind: ParameterKind::UInt }
    }
}

/// Why a parameter schema was rejected at construction.
#[derive(Debug, Clone, Copy, PartialEq, Eq, Structural)]
pub enum SchemaError {
    /// A slot index is not below [`crate::MAX_PARAM_SLOTS`].
    IndexTooLarge {
        /// The offending index.
        index: u32,
    },
    /// Two slots of the same kind share an index.
    DuplicateIndex {
        /// The index that appears more than once.
        index: u32,
    },
}

/// Every slot index is below the fixed maximum.
pub open spec fn slots_in_range(slots: Seq<ParameterSlot>) -> bool {
    forall|i: int| 0 <= i < slots.len() ==> (#[trigger] slots[i]).index < MAX_PARAM_SLOTS
}

/// No two slots of the same kind share an index.
pub open spec fn slots_distinct(slots: Seq<ParameterSlot>) -> bool {
    forall|i: int, j: int|
        0 <= i < j < slots.len() ==> !(#[trigger] slots[i] == #[trigger] slots[j])
}

/// A well-formed slot list: in range and without duplicates.
pub open spec fn slots_valid(slots: Seq<ParameterSlot>) -> bool {
    slots_in_range(slots) && slots_distinct(slots)
}

/// The WGSL type name for a slot kind.
pub open spec fn wgsl_type_name(kind: ParameterKind) -> Seq<char> {
    match kind {
        ParameterKind::Float => "f32"@,
        ParameterKind::UInt => "u32"@,
    }
}

/// The generated struct-field name for a slot: `param_f_<i>` or
/// `param_u_<i>`.
pub open spec fn slot_field_name(slot: ParameterSlot) -> Seq<char> {
    (match slot.kind {
        ParameterKind::Float => "param_f_"@,
        ParameterKind::UInt => "param_u_"@,
    }) + dec_of(slot.index as nat)
}

/// The function-definition argument text for one slot:
/// `, param_<kind>_<index>: <type>`.
pub open spec fn def_piece(slot: ParameterSlot) -> Seq<char> {
    ", "@ + slot_field_name(slot) + ": "@ + wgsl_type_name(slot.kind)
}

/// The function-definition argument text for a slot list.
pub open spec fn def_string(slots: Seq<ParameterSlot>) -> Seq<char>
    decreases slots.len(),
{
    if slots.len() == 0 {
        Seq::<char>::empty()
    } else {
        def_piece(slots.first()) + def_string(slots.drop_first())
    }
}

/// The call-site argument text for one slot, pulling the value out of the
/// interpolated fragment input struct: `, in.param_<kind>_<index>`.
pub open spec fn call_piece(slot: ParameterSlot) -> Seq<char> {
    ", in."@ + slot_field_name(slot)
}

/// The call-site argument text for a slot list.
pub open spec fn call_string(slots: Seq<ParameterSlot>) -> Seq<char>
    decreases slots.len(),
{
    if slots.len() == 0 {
        Seq::<char>::empty()
    } else {
        call_piece(slots.first()) + call_string(slots.drop_first())
    }
}

/// Typed, ordered description of which numeric slots a shape function
/// consumes. Immutable once constructed; compared by content, order
/// included.
#[derive(Debug)]
pub struct ParameterSchema {
    slots: Vec<ParameterSlot>,
}

impl View for ParameterSchema {
    type V = Seq<ParameterSlot>;

    closed spec fn view(&self) -> Seq<ParameterSlot> {
        self.slots@
    }
}

impl ParameterSchema {
    /// All values of this type are well formed.
    #[verifier::type_invariant]
    pub closed spec fn wf(self) -> bool {
        slots_valid(self.slots@)
    }

    /// An empty schema: the function takes no parameters.
    pub fn empty() -> (r: Self)
        ensures
            r@ == Seq::<ParameterSlot>::empty(),
    {
        ParameterSchema { slots: Vec::new() }
    }

    /// Builds a schema from an ordered slot list.
    ///
    /// Rejected exactly when a slot index is out of range (reported first) or
    /// two slots of the same kind share an index; accepted otherwise, keeping
    /// the given order.
    pub fn try_new(slots: Vec<ParameterSlot>) -> (r: Result<Self, SchemaError>)
        ensures
            r is Ok <==> slots_valid(slots@),
            r matches Ok(s) ==> s@ == slots@,
            r matches Err(e) ==> match e {
                SchemaError::IndexTooLarge { index } => !slots_in_range(slots@) && index
                    >= MAX_PARAM_SLOTS && (exists|k: int|
                    0 <= k < slots@.len() && (#[trigger] slots@[k]).index == index),
                SchemaError::DuplicateIndex { index } => slots_in_range(slots@)
                    && !slots_distinct(slots@) && (exists|k: int|
                    0 <= k < slots@.len() && (#[trigger] slots@[k]).index == index),
            },
    {
        let n = slots.len();
        let mut i: usize = 0;
        while i < n
            invariant
                n == slots@.len(),
                i <= n,
                forall|k: int| 0 <= k < i ==> (#[trigger] slots@[k]).index < MAX_PARAM_SLOTS,
            decreases n - i,
        {
            if slots[i].index >= MAX_PARAM_SLOTS {
                proof {
                    let ghost ii = i as int;
                    assert(0 <= ii < slots@.len() && slots@[ii].index == slots@[ii].index);
                }
                return Err(SchemaError::IndexTooLarge { index: slots[i].index });
            }
            i = i + 1;
        }
        let mut a: usize = 0;
        while a < n
            invariant
                n == slots@.len(),
                a <= n,
                slots_in_range(slots@),
                forall|i: int, j: int| 0 <= i < j < slots@.len() && i < a ==> !(#[trigger] slots@[i]
                    == #[trigger] slots@[j]),
            decreases n - a,
        {
            let mut b: usize = a + 1;
            while b < n
                invariant
                    n == slots@.len(),
                    a < n,
                    a + 1 <= b <= n,
                    slots_in_range(slots@),
                    forall|j: int| a < j < b ==> !(slots@[a as int] == #[trigger] slots@[j]),
                decreases n - b,
            {
                if slots[a].index == slots[b].index && kind_eq(slots[a].kind, slots[b].kind) {
                    proof {
                        let ghost ai = a as int;
                        assert(slots@[ai] == slots@[b as int]);
                        assert(!slots_distinct(slots@));
                        assert(0 <= ai < slots@.len() && slots@[ai].index == slots@[ai].index);
                    }
                    return Err(SchemaError::DuplicateIndex { index: slots[a].index });
                }
                b = b + 1;
            }
            a = a + 1;
        }
        Ok(ParameterSchema { slots })
    }

    /// How many slots the schema declares.
    pub fn len(&self) -> (r: usize)
        ensures
            r == self@.len(),
    {
        self.slots.len()
    }

    /// The slot at position `i`.
    pub fn slot(&self, i: usize) -> (r: ParameterSlot)
        requires
            i < self@.len(),
        ensures
            r == self@[i as int],
    {
        self.slots[i]
    }

    /// A copy of this schema with the same slots.
    pub fn duplicate(&self) -> (r: Self)
        ensures
            r@ == self@,
    {
        proof {
            use_type_invariant(self);
        }
        let mut slots: Vec<ParameterSlot> = Vec::new();
        let mut i: usize = 0;
        while i < self.slots.len()
            invariant
                i <= self.slots@.len(),
                slots@ == self.slots@.take(i as int),
            decreases self.slots@.len() - i,
        {
            slots.push(self.slots[i]);
            proof {
                assert(slots@ =~= self.slots@.take(i + 1 as int));
            }
            i = i + 1;
        }
        proof {
            assert(slots@ =~= self.slots@);
        }
        ParameterSchema { slots }
    }

    /// Renders the schema as the argument list appended to a generated
    /// function definition.
    pub fn func_def_arguments(&self) -> (r: String)
        ensures
            r@ == def_string(self@),
    {
        let mut ret = String::new();
        let n = self.slots.len();
        let mut i: usize = 0;
        proof {
            assert(self.slots@.skip(0) =~= self.slots@);
            assert(ret@ + def_string(self.slots@) =~= def_string(self.slots@));
        }
        while i < n
            invariant
                n == self.slots@.len(),
                i <= n,
                ret@ + def_string(self.slots@.skip(i as int)) == def_string(self.slots@),
            decreases n - i,
        {
            let slot = self.slots[i];
            proof {
                let rest = self.slots@.skip(i as int);
                assert(rest.first() == self.slots@[i as int]);
                assert(rest.drop_first() =~= self.slots@.skip(i + 1 as int));
                assert(def_string(rest) == def_piece(slot) + def_string(
                    self.slots@.skip(i + 1 as int),
                ));
            }
            let ghost mid0 = ret@;
            push_slot_def(&mut ret, slot);
            proof {
                assert(ret@ + def_string(self.slots@.skip(i + 1 as int)) =~= mid0 + def_string(
                    self.slots@.skip(i as int),
                ));
            }
            i = i + 1;
        }
        proof {
            assert(self.slots@.skip(n as int) =~= Seq::<ParameterSlot>::empty());
            assert(ret@ =~= ret@ + def_string(Seq::<ParameterSlot>::empty()));
        }
        ret
    }

    /// Renders the schema as the argument list of a call that pulls each
    /// parameter out of the interpolated fragment input struct.
    pub fn call_arguments(&self) -> (r: String)
        ensures
            r@ == call_string(self@),
    {
        let mut ret = String::new();
        let n = self.slots.len();
        let mut i: usize = 0;
        proof {
            assert(self.slots@.skip(0) =~= self.slots@);
            assert(ret@ + call_string(self.slots@) =~= call_string(self.slots@));
        }
        while i < n
            invariant
                n == self.slots@.len(),
                i <= n,
                ret@ + call_string(self.slots@.skip(i as int)) == call_string(self.slots@),
            decreases n - i,
        {
            let slot = self.slots[i];
            proof {
                let rest = self.slots@.skip(i as int);
                assert(rest.first() == self.slots@[i as int]);
                assert(rest.drop_first() =~= self.slots@.skip(i + 1 as int));
                assert(call_string(rest) == call_piece(slot) + call_string(
                    self.slots@.skip(i + 1 as int),
                ));
            }
            let ghost mid0 = ret@;
            proof {
                reveal_strlit(", in.");
            }
            ret.append(", in.");
            push_slot_name(&mut ret, slot);
            proof {
                assert(ret@ =~= mid0 + call_piece(slot));
                assert(ret@ + call_string(self.slots@.skip(i + 1 as int)) =~= mid0 + call_string(
                    self.slots@.skip(i as int),
                ));
            }
            i = i + 1;
        }
        proof {
            assert(self.slots@.skip(n as int) =~= Seq::<ParameterSlot>::empty());
            assert(ret@ =~= ret@ + call_string(Seq::<ParameterSlot>::empty()));
        }
        ret
    }
}

impl PartialEq for ParameterSchema {
    /// Structural equality: same slots in the same order.
    fn eq(&self, other: &Self) -> (r: bool) {
        if self.slots.len() != other.slots.len() {
            return false;
        }
        let n = self.slots.len();
        let mut i: usize = 0;
        while i < n
            invariant
                n == self.slots@.len(),
                n == other.slots@.len(),
                i <= n,
                forall|k: int| 0 <= k < i ==> self.slots@[k] == other.slots@[k],
            decreases n - i,
        {
            if !slot_eq(self.slots[i], other.slots[i]) {
                return false;
            }
            i = i + 1;
        }
        proof {
            assert(self.slots@ =~= other.slots@);
        }
        true
    }
}

impl Eq for ParameterSchema {

}

impl vstd::std_specs::cmp::PartialEqSpecImpl for ParameterSchema {
    open spec fn obeys_eq_spec() -> bool {
        true
    }

    open spec fn eq_spec(&self, other: &Self) -> bool {
        self@ == other@
    }
}

/// Compares two slot kinds.
pub fn kind_eq(a: ParameterKind, b: ParameterKind) -> (r: bool)
    ensures
        r == (a == b),
{
    match (a, b) {
        (ParameterKind::Float, ParameterKind::Float) => true,
        (ParameterKind::UInt, ParameterKind::UInt) => true,
        _ => false,
    }
}

/// Compares two slots for structural equality.
pub fn slot_eq(a: ParameterSlot, b: ParameterSlot) -> (r: bool)
    ensures
        r == (a == b),
{
    a.index == b.index && kind_eq(a.kind, b.kind)
}

/// Appends a slot's generated field name to `out`.
pub fn push_slot_name(out: &mut String, slot: ParameterSlot)
    ensures
        final(out)@ == old(out)@ + slot_field_name(slot),
{
    proof {
        reveal_strlit("param_f_");
        reveal_strlit("param_u_");
    }
    match slot.kind {
        ParameterKind::Float => out.append("param_f_"),
        ParameterKind::UInt => out.append("param_u_"),
    }
    push_dec_u32(out, slot.index);
    proof {
        assert(out@ =~= old(out)@ + slot_field_name(slot));
    }
}

/// Appends a slot's function-definition argument text to `out`.
pub fn push_slot_def(out: &mut String, slot: ParameterSlot)
    ensures
        final(out)@ == old(out)@ + def_piece(slot),
{
    proof {
        reveal_strlit(", ");
        reveal_strlit(": ");
        reveal_strlit("f32");
        reveal_strlit("u32");
    }
    out.append(", ");
    push_slot_name(out, slot);
    out.append(": ");
    match slot.kind {
        ParameterKind::Float => out.append("f32"),
        ParameterKind::UInt => out.append("u32"),
    }
    proof {
        assert(out@ =~= old(out)@ + def_piece(slot));
    }
}

} // verus!
