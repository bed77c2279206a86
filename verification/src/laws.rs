//! Laws of the passes, stated over the models and proved for all inputs.
use vstd::prelude::*;

use crate::cil_node::{nv_simplified, opt_nv, shed_nv, CILNodeV};
use crate::cil_root::{
    alloc_rv, opt_rv, rv_fixed_for_handler, rv_is_branch, rv_sub_target, rv_target, shed_rv,
    CILRootV, LocalV,
};
use crate::descriptors::FieldDescriptorV;

verus! {

/// Temp resolution: allocating a pending-temporary store under an active
/// index `k` yields exactly a store to local `k` with the same value
/// expression, and leaves the local table unchanged.
pub proof fn lemma_temp_resolution(value: CILNodeV, k: u32, locals: Seq<LocalV>)
    ensures
        alloc_rv(CILRootV::SetTMPLocal { value }, Some(k), locals) == (
            CILRootV::STLoc { local: k, tree: value },
            locals,
        ),
{
}

/// Handler fold is one-shot: folding a branching statement whose target is
/// not zero leaves a non-zero sub-target behind, so the precondition of a
/// second fold no longer holds of the result.
pub proof fn lemma_handler_fold_one_shot(r: CILRootV, id: u32)
    requires
        rv_is_branch(r),
        rv_sub_target(r) == 0,
        rv_target(r) != 0,
    ensures
        rv_is_branch(rv_fixed_for_handler(r, id)),
        rv_sub_target(rv_fixed_for_handler(r, id)) != 0,
{
}

/// Peephole correctness: a field-store whose address is a pointer-width
/// extension of a "load local address" expression has the extension dropped
/// and the inner expression kept unchanged, while one whose address extends
/// an unrelated expression (here: an argument load) keeps its address as it
/// was.
pub proof fn lemma_peephole(local: u32, value: CILNodeV, desc: FieldDescriptorV)
    ensures
        opt_rv(CILRootV::SetField {
            addr: CILNodeV::ZeroExtendToUSize(Box::new(CILNodeV::LDLocA(local))),
            value,
            desc,
        }) == (CILRootV::SetField { addr: CILNodeV::LDLocA(local), value: opt_nv(value), desc }),
        opt_rv(CILRootV::SetField {
            addr: CILNodeV::ZeroExtendToUSize(Box::new(CILNodeV::LDArg(local))),
            value,
            desc,
        }) == (CILRootV::SetField {
            addr: CILNodeV::ZeroExtendToUSize(Box::new(CILNodeV::LDArg(local))),
            value: opt_nv(value),
            desc,
        }),
{
    assert(opt_nv(CILNodeV::LDLocA(local)) == CILNodeV::LDLocA(local));
    assert(opt_nv(CILNodeV::LDArg(local)) == CILNodeV::LDArg(local));
    assert(opt_nv(CILNodeV::ZeroExtendToUSize(Box::new(CILNodeV::LDLocA(local))))
        == CILNodeV::ZeroExtendToUSize(Box::new(CILNodeV::LDLocA(local))));
    assert(opt_nv(CILNodeV::ZeroExtendToUSize(Box::new(CILNodeV::LDArg(local))))
        == CILNodeV::ZeroExtendToUSize(Box::new(CILNodeV::LDArg(local))));
}

/// Evaluation-order preservation, shown for the two-position field store:
/// the statements shed from the address position come strictly before those
/// shed from the value position, and the statement itself, with both
/// positions cleaned, comes last.
pub proof fn lemma_shed_order_set_field(addr: CILNodeV, value: CILNodeV, desc: FieldDescriptorV)
    ensures
        shed_rv(CILRootV::SetField { addr, value, desc }) == shed_nv(addr).0 + shed_nv(value).0
            + seq![
            CILRootV::SetField { addr: shed_nv(addr).1, value: shed_nv(value).1, desc },
        ],
{
    assert(shed_rv(CILRootV::SetField { addr, value, desc }) =~= shed_nv(addr).0 + shed_nv(
        value,
    ).0 + seq![CILRootV::SetField { addr: shed_nv(addr).1, value: shed_nv(value).1, desc }]);
}

} // verus!
