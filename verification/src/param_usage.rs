//! Bit-mask description of which numeric parameter slots a shader function
//! consumes.
//!
//! This is the compact, untyped form: bit `i` set means slot `i` is passed to
//! the function, and every slot read this way is a 32-bit word reinterpreted
//! as `f32` at the call site. The typed, ordered form is
//! [`crate::schema::ParameterSchema`], which distinguishes float and integer
//! slots; this mask remains as the compact encoding for callers that only use
//! float slots.

use vstd::prelude::*;

use crate::text::dec_of;
use crate::text::push_dec_u32;

verus! {

/// True when bit `i` of `mask` is set.
pub open spec fn uses_bit(mask: u32, i: u32) -> bool {
    i < 32 && (mask >> i) & 1 == 1
}

/// Setting bit `index` leaves exactly the old bits plus `index` set.
proof fn lemma_with_param_bits(mask: u32, index: u32, i: u32)
    requires
        index < 32,
    ensures
        uses_bit(mask | (1u32 << index), i) <==> (uses_bit(mask, i) || i == index),
{
    let m = mask;
    let idx = index;
    assert(idx < 32 && i < 32 ==> ((((m | (1u32 << idx)) >> i) & 1 == 1) <==> (((m >> i) & 1 == 1)
        || i == idx))) by (bit_vector);
}

/// The indices of the set bits of `mask` that are at least `i`, in ascending
/// order.
pub open spec fn indices_from(mask: u32, i: nat) -> Seq<u32>
    decreases 32 - i,
{
    if i >= 32 {
        Seq::<u32>::empty()
    } else if uses_bit(mask, i as u32) {
        seq![i as u32] + indices_from(mask, i + 1)
    } else {
        indices_from(mask, i + 1)
    }
}

/// The indices of the set bits of `mask`, in ascending order.
pub open spec fn mask_indices(mask: u32) -> Seq<u32> {
    indices_from(mask, 0)
}

/// The fragment-shader call-site argument text for one slot index:
/// `, bitcast<f32>(in.param_<i>)`.
pub open spec fn in_param_piece(i: u32) -> Seq<char> {
    ", bitcast<f32>(in.param_"@ + dec_of(i as nat) + ")"@
}

/// The call-site argument text for a sequence of slot indices.
pub open spec fn in_params_string(idxs: Seq<u32>) -> Seq<char>
    decreases idxs.len(),
{
    if idxs.len() == 0 {
        Seq::<char>::empty()
    } else {
        in_param_piece(idxs.first()) + in_params_string(idxs.drop_first())
    }
}

/// The function-definition argument text for one slot index:
/// `,param_<i>: f32`.
pub open spec fn def_param_piece(i: u32) -> Seq<char> {
    ",param_"@ + dec_of(i as nat) + ": f32"@
}

/// The function-definition argument text for a sequence of slot indices.
pub open spec fn def_params_string(idxs: Seq<u32>) -> Seq<char>
    decreases idxs.len(),
{
    if idxs.len() == 0 {
        Seq::<char>::empty()
    } else {
        def_param_piece(idxs.first()) + def_params_string(idxs.drop_first())
    }
}

/// Indicates which parameter slots are used by a shape function. If bit `i`
/// is set, slot `i` is passed to that function, in ascending slot order.
#[derive(Debug, Clone, Copy, PartialEq, Eq, Hash, Default, Structural)]
pub struct ShaderParamUsage(u32);

impl View for ShaderParamUsage {
    type V = u32;

    closed spec fn view(&self) -> u32 {
        self.0
    }
}

impl ShaderParamUsage {
    /// A usage that passes no parameters at all.
    pub fn no_params() -> (r: Self)
        ensures
            r@ == 0u32,
    {
        ShaderParamUsage(0)
    }

    /// Returns a copy which also uses the slot at `index`.
    #[must_use]
    pub fn with_param(self, index: u32) -> (r: Self)
        requires
            index < 32,
        ensures
            r@ == self@ | (1u32 << index),
    {
        let mask: u32 = 1u32 << index;
        ShaderParamUsage(self.0 | mask)
    }

    /// Returns a usage of all slots below `count`.
    pub fn all_params(count: u32) -> (r: Self)
        requires
            count <= 32,
        ensures
            forall|i: u32| uses_bit(r@, i) <==> i < count,
    {
        let inner: u32 = if count == 32 {
            u32::MAX
        } else {
            !(u32::MAX << count)
        };
        proof {
            assert forall|i: u32| uses_bit(inner, i) <==> i < count by {
                let c = count;
                if count == 32 {
                    assert((0xffff_ffffu32 >> i) & 1 == 1 ==> i < 32) by (bit_vector);
                    assert(i < 32 ==> (0xffff_ffffu32 >> i) & 1 == 1) by (bit_vector);
                } else {
                    assert(c < 32 && (((!(0xffff_ffffu32 << c)) >> i) & 1 == 1) ==> (i < c && i
                        < 32)) by (bit_vector);
                    assert(c < 32 && i < c && i < 32 ==> (((!(0xffff_ffffu32 << c)) >> i) & 1 == 1))
                        by (bit_vector);
                }
            }
        }
        ShaderParamUsage(inner)
    }

    /// Returns a usage of exactly the slots listed in `indices`.
    #[must_use]
    pub fn from_params(indices: &[u32]) -> (r: Self)
        requires
            forall|j: int| 0 <= j < indices@.len() ==> indices@[j] < 32,
        ensures
            forall|i: u32|
                uses_bit(r@, i) <==> exists|j: int| 0 <= j < indices@.len() && indices@[j] == i,
    {
        let mut result = ShaderParamUsage(0);
        let mut array_index: usize = 0;
        proof {
            assert(forall|i: u32| !uses_bit(0u32, i)) by {
                assert(forall|i: u32| i < 32 ==> (0u32 >> i) & 1 == 0) by (bit_vector);
            }
        }
        while array_index < indices.len()
            invariant
                array_index <= indices@.len(),
                forall|j: int| 0 <= j < indices@.len() ==> indices@[j] < 32,
                forall|i: u32|
                    uses_bit(result@, i) <==> exists|j: int|
                        0 <= j < array_index && indices@[j] == i,
            decreases indices@.len() - array_index,
        {
            let index = indices[array_index];
            let ghost prev = result@;
            let ghost old_ai = array_index as int;
            result = result.with_param(index);
            array_index = array_index + 1;
            proof {
                assert forall|i: u32| uses_bit(result@, i) implies (exists|j: int|
                    0 <= j < array_index && indices@[j] == i) by {
                    lemma_with_param_bits(prev, index, i);
                    if uses_bit(prev, i) {
                        let j = choose|j: int| 0 <= j < old_ai && indices@[j] == i;
                        assert(0 <= j < array_index && indices@[j] == i);
                    } else {
                        assert(indices@[old_ai] == i);
                    }
                }
                assert forall|i: u32| (exists|j: int| 0 <= j < array_index && indices@[j] == i)
                    implies uses_bit(result@, i) by {
                    lemma_with_param_bits(prev, index, i);
                    let j = choose|j: int| 0 <= j < array_index && indices@[j] == i;
                    if j < old_ai {
                        assert(exists|k: int| 0 <= k < old_ai && indices@[k] == i);
                    } else {
                        assert(indices@[j] == index);
                    }
                }
            }
        }
        result
    }

    /// Creates the call-site parameter text passed to the sdf or fill
    /// function inside the generated fragment shader.
    pub fn in_params_str(self) -> (r: String)
        ensures
            r@ == in_params_string(mask_indices(self@)),
    {
        let mut ret = String::new();
        let mut iter = ParamsIter::new(self);
        loop
            invariant
                ret@ + in_params_string(iter_indices(iter)) == in_params_string(
                    mask_indices(self@),
                ),
            ensures
                ret@ == in_params_string(mask_indices(self@)),
            decreases iter_indices(iter).len(),
        {
            let ghost before = iter_indices(iter);
            match iter.next() {
                Some(param) => {
                    proof {
                        reveal_strlit(", bitcast<f32>(in.param_");
                        reveal_strlit(")");
                        assert(in_params_string(before) == in_param_piece(param)
                            + in_params_string(before.drop_first()));
                    }
                    let ghost mid0 = ret@;
                    ret.append(", bitcast<f32>(in.param_");
                    push_dec_u32(&mut ret, param);
                    ret.append(")");
                    proof {
                        assert(ret@ =~= mid0 + in_param_piece(param));
                        assert(ret@ + in_params_string(iter_indices(iter)) =~= mid0
                            + in_params_string(before));
                    }
                },
                None => {
                    proof {
                        assert(ret@ =~= ret@ + in_params_string(Seq::<u32>::empty()));
                    }
                    break ;
                },
            }
        }
        ret
    }

    /// Creates the argument list inserted into the generated sdf or fill
    /// function definition.
    pub fn func_def_arguments(self) -> (r: String)
        ensures
            r@ == def_params_string(mask_indices(self@)),
    {
        let mut ret = String::new();
        let mut iter = ParamsIter::new(self);
        loop
            invariant
                ret@ + def_params_string(iter_indices(iter)) == def_params_string(
                    mask_indices(self@),
                ),
            ensures
                ret@ == def_params_string(mask_indices(self@)),
            decreases iter_indices(iter).len(),
        {
            let ghost before = iter_indices(iter);
            match iter.next() {
                Some(param) => {
                    proof {
                        reveal_strlit(",param_");
                        reveal_strlit(": f32");
                        assert(def_params_string(before) == def_param_piece(param)
                            + def_params_string(before.drop_first()));
                    }
                    let ghost mid0 = ret@;
                    ret.append(",param_");
                    push_dec_u32(&mut ret, param);
                    ret.append(": f32");
                    proof {
                        assert(ret@ =~= mid0 + def_param_piece(param));
                        assert(ret@ + def_params_string(iter_indices(iter)) =~= mid0
                            + def_params_string(before));
                    }
                },
                None => {
                    proof {
                        assert(ret@ =~= ret@ + def_params_string(Seq::<u32>::empty()));
                    }
                    break ;
                },
            }
        }
        ret
    }
}

/// The slot indices an iterator has yet to yield, in ascending order.
pub closed spec fn iter_indices(it: ParamsIter) -> Seq<u32> {
    indices_from(it.mask, it.cursor as nat)
}

/// Yields the indices of the set bits of a [`ShaderParamUsage`] in ascending
/// order.
#[derive(Copy, Clone, Debug)]
pub struct ParamsIter {
    mask: u32,
    cursor: u32,
}

impl ParamsIter {
    /// An iterator over all slot indices used by `params_usage`.
    pub fn new(params_usage: ShaderParamUsage) -> (r: Self)
        ensures
            iter_indices(r) == mask_indices(params_usage@),
    {
        ParamsIter { mask: params_usage.0, cursor: 0 }
    }

    /// The lowest slot index not yet yielded, if any.
    pub fn next(&mut self) -> (r: Option<u32>)
        ensures
            match r {
                Option::Some(i) => iter_indices(*old(self)).len() > 0 && i == iter_indices(
                    *old(self),
                ).first() && iter_indices(*final(self)) == iter_indices(*old(self)).drop_first(),
                Option::None => iter_indices(*old(self)) == Seq::<u32>::empty() && iter_indices(
                    *final(self),
                ) == Seq::<u32>::empty(),
            },
    {
        while self.cursor < 32 && (self.mask >> self.cursor) & 1 != 1
            invariant
                self.mask == old(self).mask,
                self.cursor >= old(self).cursor,
                indices_from(self.mask, self.cursor as nat) == iter_indices(*old(self)),
            decreases 32 - self.cursor,
        {
            self.cursor = self.cursor + 1;
        }
        if self.cursor >= 32 {
            None
        } else {
            let i = self.cursor;
            self.cursor = self.cursor + 1;
            proof {
                assert(iter_indices(*old(self)) == seq![i] + indices_from(
                    self.mask,
                    self.cursor as nat,
                ));
                assert(iter_indices(*old(self)).first() == i);
                assert((seq![i] + indices_from(self.mask, self.cursor as nat)).drop_first()
                    =~= indices_from(self.mask, self.cursor as nat));
            }
            Some(i)
        }
    }
}

} // verus!
