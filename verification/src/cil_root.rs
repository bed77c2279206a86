//! The statement side of the IR, and the passes that canonicalize a
//! statement tree: the optimizer, the linearizer ("tree shedding"), the
//! temporary allocator, and the branch-target utilities used when folding
//! statements into exception-handler entry blocks.
use vstd::prelude::*;
use vstd::string::StringExecFns;

use crate::cil_node::{
    alloc_nv, alloc_nvs, nodes_view, node_view, nv_flat, nv_resolved, nv_rewrites, nv_simplified,
    nv_size, nv_tmp_locals, nv_tmps_ok, nvs_rewrites, nvs_size, nvs_tmp_locals, opt_nv, opt_nvs,
    rvs_tmp_locals, shed_nv, shed_nvs, CILNode, CILNodeV,
};
use crate::descriptors::{
    types_view, CallSite, CallSiteV, DotnetTypeRef, DotnetTypeRefV, FieldDescriptor,
    FieldDescriptorV, FnSig, FnSigV, StaticFieldDescriptor, StaticFieldDescriptorV, Type, TypeV,
};

verus! {

/// The width of an untyped indirect store.
#[derive(Clone, Copy, Debug, PartialEq, Eq)]
pub enum IndStoreWidth {
    I8,
    I16,
    I32,
    I64,
    ISize,
    F32,
    F64,
}

/// One executable statement of the IR.
#[derive(Debug, PartialEq)]
pub enum CILRoot {
    /// Write the value of `tree` to the numbered local slot.
    STLoc { local: u32, tree: CILNode },
    /// Branch to (`target`, `sub_target`) if `cond` is non-zero.
    BTrue { target: u32, sub_target: u32, cond: CILNode },
    /// Jump to (`target`, `sub_target`).
    GoTo { target: u32, sub_target: u32 },
    /// Invoke a static method and discard the result.
    Call { site: CallSite, args: Vec<CILNode> },
    /// Invoke a virtual method and discard the result.
    CallVirt { site: CallSite, args: Vec<CILNode> },
    /// Invoke through a function pointer and discard the result.
    CallI { sig: FnSig, fn_ptr: CILNode, args: Vec<CILNode> },
    /// Write `value` to a field of the object `addr` points at.
    SetField { addr: CILNode, value: CILNode, desc: FieldDescriptor },
    /// Write `value` to a static field.
    SetStaticField { descr: StaticFieldDescriptor, value: CILNode },
    /// Store into the currently active pending temporary; a placeholder that
    /// the temporary allocator must resolve before output is valid.
    SetTMPLocal { value: CILNode },
    /// Copy `len` bytes from `src` to `dst`.
    CpBlk { dst: CILNode, src: CILNode, len: CILNode },
    /// Fill `count` bytes at `dst` with `val`.
    InitBlk { dst: CILNode, val: CILNode, count: CILNode },
    /// Untyped memory write of the given width.
    STInd { width: IndStoreWidth, addr: CILNode, val: CILNode },
    /// Write a structured value through a pointer.
    STObj { tpe: Box<Type>, addr_calc: CILNode, value_calc: CILNode },
    /// Overwrite the incoming parameter slot with the given index.
    STArg { arg: u32, tree: CILNode },
    /// A breakpoint marker.
    Break,
    /// No operation.
    Nop,
    /// Exit the method, returning the value of `tree`.
    Ret { tree: CILNode },
    /// Discard a value.
    Pop { tree: CILNode },
    /// Exit a void method.
    VoidRet,
    /// Raise the given exception object.
    Throw(CILNode),
    /// Re-raise the exception being handled.
    ReThrow,
    /// Synthetic marker inserted when handler blocks are folded into a
    /// merged entry point.
    JumpingPad { source: u32, target: u32 },
    /// Non-executable source-location metadata; the column range is half-open
    /// and never empty.
    SourceFileInfo {
        line_start: u64,
        line_end: u64,
        col_start: u64,
        col_end: u64,
        file: String,
    },
}

/// The mathematical model of a statement.
#[verifier::ext_equal]
pub enum CILRootV {
    STLoc { local: u32, tree: CILNodeV },
    BTrue { target: u32, sub_target: u32, cond: CILNodeV },
    GoTo { target: u32, sub_target: u32 },
    Call { site: CallSiteV, args: Seq<CILNodeV> },
    CallVirt { site: CallSiteV, args: Seq<CILNodeV> },
    CallI { sig: FnSigV, fn_ptr: CILNodeV, args: Seq<CILNodeV> },
    SetField { addr: CILNodeV, value: CILNodeV, desc: FieldDescriptorV },
    SetStaticField { descr: StaticFieldDescriptorV, value: CILNodeV },
    SetTMPLocal { value: CILNodeV },
    CpBlk { dst: CILNodeV, src: CILNodeV, len: CILNodeV },
    InitBlk { dst: CILNodeV, val: CILNodeV, count: CILNodeV },
    STInd { width: IndStoreWidth, addr: CILNodeV, val: CILNodeV },
    STObj { tpe: TypeV, addr_calc: CILNodeV, value_calc: CILNodeV },
    STArg { arg: u32, tree: CILNodeV },
    Break,
    Nop,
    Ret { tree: CILNodeV },
    Pop { tree: CILNodeV },
    VoidRet,
    Throw(CILNodeV),
    ReThrow,
    JumpingPad { source: u32, target: u32 },
    SourceFileInfo {
        line_start: u64,
        line_end: u64,
        col_start: u64,
        col_end: u64,
        file: Seq<char>,
    },
}

/// The model of a statement.
pub open spec fn root_view(r: CILRoot) -> CILRootV
    decreases r,
{
    match r {
        CILRoot::STLoc { local, tree } => CILRootV::STLoc { local, tree: node_view(tree) },
        CILRoot::BTrue { target, sub_target, cond } => CILRootV::BTrue {
            target,
            sub_target,
            cond: node_view(cond),
        },
        CILRoot::GoTo { target, sub_target } => CILRootV::GoTo { target, sub_target },
        CILRoot::Call { site, args } => CILRootV::Call { site: site@, args: nodes_view(args@) },
        CILRoot::CallVirt { site, args } => CILRootV::CallVirt {
            site: site@,
            args: nodes_view(args@),
        },
        CILRoot::CallI { sig, fn_ptr, args } => CILRootV::CallI {
            sig: sig@,
            fn_ptr: node_view(fn_ptr),
            args: nodes_view(args@),
        },
        CILRoot::SetField { addr, value, desc } => CILRootV::SetField {
            addr: node_view(addr),
            value: node_view(value),
            desc: desc@,
        },
        CILRoot::SetStaticField { descr, value } => CILRootV::SetStaticField {
            descr: descr@,
            value: node_view(value),
        },
        CILRoot::SetTMPLocal { value } => CILRootV::SetTMPLocal { value: node_view(value) },
        CILRoot::CpBlk { dst, src, len } => CILRootV::CpBlk {
            dst: node_view(dst),
            src: node_view(src),
            len: node_view(len),
        },
        CILRoot::InitBlk { dst, val, count } => CILRootV::InitBlk {
            dst: node_view(dst),
            val: node_view(val),
            count: node_view(count),
        },
        CILRoot::STInd { width, addr, val } => CILRootV::STInd {
            width,
            addr: node_view(addr),
            val: node_view(val),
        },
        CILRoot::STObj { tpe, addr_calc, value_calc } => CILRootV::STObj {
            tpe: tpe@,
            addr_calc: node_view(addr_calc),
            value_calc: node_view(value_calc),
        },
        CILRoot::STArg { arg, tree } => CILRootV::STArg { arg, tree: node_view(tree) },
        CILRoot::Break => CILRootV::Break,
        CILRoot::Nop => CILRootV::Nop,
        CILRoot::Ret { tree } => CILRootV::Ret { tree: node_view(tree) },
        CILRoot::Pop { tree } => CILRootV::Pop { tree: node_view(tree) },
        CILRoot::VoidRet => CILRootV::VoidRet,
        CILRoot::Throw(tree) => CILRootV::Throw(node_view(tree)),
        CILRoot::ReThrow => CILRootV::ReThrow,
        CILRoot::JumpingPad { source, target } => CILRootV::JumpingPad { source, target },
        CILRoot::SourceFileInfo { line_start, line_end, col_start, col_end, file } => {
            CILRootV::SourceFileInfo {
                line_start,
                line_end,
                col_start,
                col_end,
                file: file@,
            }
        },
    }
}

/// The model of a list of statements, elementwise.
pub open spec fn roots_view(s: Seq<CILRoot>) -> Seq<CILRootV>
    decreases s,
{
    if s.len() == 0 {
        Seq::empty()
    } else {
        seq![root_view(s.first())] + roots_view(s.drop_first())
    }
}

impl View for CILRoot {
    type V = CILRootV;

    open spec fn view(&self) -> CILRootV {
        root_view(*self)
    }
}

pub broadcast proof fn lemma_roots_view_len(s: Seq<CILRoot>)
    ensures
        #[trigger] roots_view(s).len() == s.len(),
    decreases s,
{
    if s.len() > 0 {
        lemma_roots_view_len(s.drop_first());
    }
}

pub broadcast proof fn lemma_roots_view_index(s: Seq<CILRoot>, i: int)
    requires
        0 <= i < s.len(),
    ensures
        roots_view(s).len() == s.len(),
        #[trigger] roots_view(s)[i] == root_view(s[i]),
    decreases s,
{
    lemma_roots_view_len(s);
    if i > 0 {
        lemma_roots_view_index(s.drop_first(), i - 1);
    }
}

pub broadcast proof fn lemma_roots_view_push(s: Seq<CILRoot>, x: CILRoot)
    ensures
        #[trigger] roots_view(s.push(x)) == roots_view(s).push(root_view(x)),
    decreases s,
{
    if s.len() == 0 {
        assert(s.push(x).drop_first() =~= Seq::<CILRoot>::empty());
        assert(roots_view(Seq::<CILRoot>::empty()) =~= Seq::<CILRootV>::empty());
        assert(roots_view(s.push(x)) =~= roots_view(s).push(root_view(x)));
    } else {
        assert(s.push(x).drop_first() =~= s.drop_first().push(x));
        lemma_roots_view_push(s.drop_first(), x);
        assert(s.push(x).first() == s.first());
        assert(roots_view(s.push(x)) == seq![root_view(s.first())] + roots_view(
            s.drop_first(),
        ).push(root_view(x)));
        assert(roots_view(s.push(x)) =~= roots_view(s).push(root_view(x)));
    }
}

/// One entry of the local-variable table's model: an optional name and a
/// type.
pub type LocalV = (Option<Seq<char>>, TypeV);

/// The model of one local-table entry.
pub open spec fn local_view(p: (Option<String>, Type)) -> LocalV {
    (
        match p.0 {
            Some(n) => Some(n@),
            None => None,
        },
        p.1@,
    )
}

/// The model of the local-variable table, elementwise.
pub open spec fn locals_view(s: Seq<(Option<String>, Type)>) -> Seq<LocalV> {
    Seq::new(s.len(), |i: int| local_view(s[i]))
}

/// The structural size of a statement's model, used as the measure for the
/// recursive passes.
pub open spec fn rv_size(r: CILRootV) -> nat
    decreases r,
{
    match r {
        CILRootV::STLoc { tree, .. } => 1 + nv_size(tree),
        CILRootV::BTrue { cond, .. } => 1 + nv_size(cond),
        CILRootV::Call { args, .. } => 1 + nvs_size(args),
        CILRootV::CallVirt { args, .. } => 1 + nvs_size(args),
        CILRootV::CallI { fn_ptr, args, .. } => 1 + nv_size(fn_ptr) + nvs_size(args),
        CILRootV::SetField { addr, value, .. } => 1 + nv_size(addr) + nv_size(value),
        CILRootV::SetStaticField { value, .. } => 1 + nv_size(value),
        CILRootV::SetTMPLocal { value } => 1 + nv_size(value),
        CILRootV::CpBlk { src, dst, len } => 1 + nv_size(src) + nv_size(dst) + nv_size(len),
        CILRootV::InitBlk { dst, val, count } => 1 + nv_size(dst) + nv_size(val) + nv_size(count),
        CILRootV::STInd { addr, val, .. } => 1 + nv_size(addr) + nv_size(val),
        CILRootV::STObj { addr_calc, value_calc, .. } => 1 + nv_size(addr_calc) + nv_size(value_calc),
        CILRootV::STArg { tree, .. } => 1 + nv_size(tree),
        CILRootV::Ret { tree } => 1 + nv_size(tree),
        CILRootV::Pop { tree } => 1 + nv_size(tree),
        CILRootV::Throw(t0) => 1 + nv_size(t0),
        _ => 1,
    }
}

pub open spec fn rvs_size(s: Seq<CILRootV>) -> nat
    decreases s,
{
    if s.len() == 0 {
        0
    } else {
        1 + rv_size(s.first()) + rvs_size(s.drop_first())
    }
}

/// The optimizer's result on a statement: every owned expression is
/// simplified in place, then one statement-level peephole applies: a
/// field-store whose address is a pointer-width extension of a load of a
/// local's or a field's address drops the redundant extension.
pub open spec fn opt_rv(r: CILRootV) -> CILRootV
    decreases r,
{
    match r {
        CILRootV::STLoc { local, tree } => CILRootV::STLoc { local, tree: opt_nv(tree) },
        CILRootV::BTrue { target, sub_target, cond } => CILRootV::BTrue { target, sub_target, cond: opt_nv(cond) },
        CILRootV::Call { site, args } => CILRootV::Call { site, args: opt_nvs(args) },
        CILRootV::CallVirt { site, args } => CILRootV::CallVirt { site, args: opt_nvs(args) },
        CILRootV::CallI { sig, fn_ptr, args } => CILRootV::CallI { sig, fn_ptr: opt_nv(fn_ptr), args: opt_nvs(args) },
        CILRootV::SetField { desc, addr, value } => {
            let a = opt_nv(addr);
            let new_addr = match a {
                CILNodeV::ZeroExtendToUSize(inner) => if *inner is LDLocA || *inner
                    is LDFieldAdress {
                    *inner
                } else {
                    CILNodeV::ZeroExtendToUSize(inner)
                },
                _ => a,
            };
            CILRootV::SetField { desc, addr: new_addr, value: opt_nv(value) }
        },
        CILRootV::SetStaticField { descr, value } => CILRootV::SetStaticField { descr, value: opt_nv(value) },
        CILRootV::SetTMPLocal { value } => CILRootV::SetTMPLocal { value: opt_nv(value) },
        CILRootV::CpBlk { src, dst, len } => CILRootV::CpBlk { src: opt_nv(src), dst: opt_nv(dst), len: opt_nv(len) },
        CILRootV::InitBlk { dst, val, count } => CILRootV::InitBlk { dst: opt_nv(dst), val: opt_nv(val), count: opt_nv(count) },
        CILRootV::STInd { width, addr, val } => CILRootV::STInd { width, addr: opt_nv(addr), val: opt_nv(val) },
        CILRootV::STObj { tpe, addr_calc, value_calc } => CILRootV::STObj { tpe, addr_calc: opt_nv(addr_calc), value_calc: opt_nv(value_calc) },
        CILRootV::STArg { arg, tree } => CILRootV::STArg { arg, tree: opt_nv(tree) },
        CILRootV::Ret { tree } => CILRootV::Ret { tree: opt_nv(tree) },
        CILRootV::Pop { tree } => CILRootV::Pop { tree: opt_nv(tree) },
        CILRootV::Throw(t0) => CILRootV::Throw(opt_nv(t0)),
        _ => r,
    }
}

pub open spec fn opt_rvs(s: Seq<CILRootV>) -> Seq<CILRootV>
    decreases s,
{
    if s.len() == 0 {
        Seq::empty()
    } else {
        seq![opt_rv(s.first())] + opt_rvs(s.drop_first())
    }
}

/// How many rewrites the expression simplifier reports for a statement's
/// owned expressions. The statement-level peephole is not counted, as it is
/// the statement pass's own rewrite, not one the expression subsystem
/// reports.
pub open spec fn rv_rewrites(r: CILRootV) -> nat
    decreases r,
{
    match r {
        CILRootV::STLoc { tree, .. } => nv_rewrites(tree),
        CILRootV::BTrue { cond, .. } => nv_rewrites(cond),
        CILRootV::Call { args, .. } => nvs_rewrites(args),
        CILRootV::CallVirt { args, .. } => nvs_rewrites(args),
        CILRootV::CallI { fn_ptr, args, .. } => nv_rewrites(fn_ptr) + nvs_rewrites(args),
        CILRootV::SetField { addr, value, .. } => nv_rewrites(addr) + nv_rewrites(value),
        CILRootV::SetStaticField { value, .. } => nv_rewrites(value),
        CILRootV::SetTMPLocal { value } => nv_rewrites(value),
        CILRootV::CpBlk { src, dst, len } => nv_rewrites(src) + nv_rewrites(dst) + nv_rewrites(len),
        CILRootV::InitBlk { dst, val, count } => nv_rewrites(dst) + nv_rewrites(val) + nv_rewrites(count),
        CILRootV::STInd { addr, val, .. } => nv_rewrites(addr) + nv_rewrites(val),
        CILRootV::STObj { addr_calc, value_calc, .. } => nv_rewrites(addr_calc) + nv_rewrites(value_calc),
        CILRootV::STArg { tree, .. } => nv_rewrites(tree),
        CILRootV::Ret { tree } => nv_rewrites(tree),
        CILRootV::Pop { tree } => nv_rewrites(tree),
        CILRootV::Throw(t0) => nv_rewrites(t0),
        _ => 0,
    }
}

pub open spec fn rvs_rewrites(s: Seq<CILRootV>) -> nat
    decreases s,
{
    if s.len() == 0 {
        0
    } else {
        rv_rewrites(s.first()) + rvs_rewrites(s.drop_first())
    }
}

/// The statement is a fixpoint of the optimizer: its expressions are
/// simplified and the field-store peephole no longer applies.
pub open spec fn rv_simplified(r: CILRootV) -> bool
    decreases r,
{
    match r {
        CILRootV::STLoc { tree, .. } => nv_simplified(tree),
        CILRootV::BTrue { cond, .. } => nv_simplified(cond),
        CILRootV::Call { args, .. } => (forall|i: int| 0 <= i < args.len() ==> nv_simplified(#[trigger] args[i])),
        CILRootV::CallVirt { args, .. } => (forall|i: int| 0 <= i < args.len() ==> nv_simplified(#[trigger] args[i])),
        CILRootV::CallI { fn_ptr, args, .. } => nv_simplified(fn_ptr) && (forall|i: int| 0 <= i < args.len() ==> nv_simplified(#[trigger] args[i])),
        CILRootV::SetField { addr, value, .. } => nv_simplified(addr) && nv_simplified(value)
            && !(addr matches CILNodeV::ZeroExtendToUSize(inner) && (*inner is LDLocA
            || *inner is LDFieldAdress)),
        CILRootV::SetStaticField { value, .. } => nv_simplified(value),
        CILRootV::SetTMPLocal { value } => nv_simplified(value),
        CILRootV::CpBlk { src, dst, len } => nv_simplified(src) && nv_simplified(dst) && nv_simplified(len),
        CILRootV::InitBlk { dst, val, count } => nv_simplified(dst) && nv_simplified(val) && nv_simplified(count),
        CILRootV::STInd { addr, val, .. } => nv_simplified(addr) && nv_simplified(val),
        CILRootV::STObj { addr_calc, value_calc, .. } => nv_simplified(addr_calc) && nv_simplified(value_calc),
        CILRootV::STArg { tree, .. } => nv_simplified(tree),
        CILRootV::Ret { tree } => nv_simplified(tree),
        CILRootV::Pop { tree } => nv_simplified(tree),
        CILRootV::Throw(t0) => nv_simplified(t0),
        _ => true,
    }
}

/// The linearizer's result on one statement: the statements shed from its
/// owned expressions, in left-to-right evaluation order, followed by the
/// statement itself with its expressions now free of embedded statements.
pub open spec fn shed_rv(r: CILRootV) -> Seq<CILRootV>
    decreases r,
{
    match r {
        CILRootV::STLoc { local, tree } => {
            let p0 = shed_nv(tree);
            (p0.0).push(CILRootV::STLoc { local, tree: p0.1 })
        },
        CILRootV::BTrue { target, sub_target, cond } => {
            let p0 = shed_nv(cond);
            (p0.0).push(CILRootV::BTrue { target, sub_target, cond: p0.1 })
        },
        CILRootV::Call { site, args } => {
            let p0 = shed_nvs(args);
            (p0.0).push(CILRootV::Call { site, args: p0.1 })
        },
        CILRootV::CallVirt { site, args } => {
            let p0 = shed_nvs(args);
            (p0.0).push(CILRootV::CallVirt { site, args: p0.1 })
        },
        CILRootV::CallI { sig, fn_ptr, args } => {
            let p0 = shed_nv(fn_ptr);
            let p1 = shed_nvs(args);
            (p0.0 + p1.0).push(CILRootV::CallI { sig, fn_ptr: p0.1, args: p1.1 })
        },
        CILRootV::SetField { desc, addr, value } => {
            let p0 = shed_nv(addr);
            let p1 = shed_nv(value);
            (p0.0 + p1.0).push(CILRootV::SetField { desc, addr: p0.1, value: p1.1 })
        },
        CILRootV::SetStaticField { descr, value } => {
            let p0 = shed_nv(value);
            (p0.0).push(CILRootV::SetStaticField { descr, value: p0.1 })
        },
        CILRootV::CpBlk { src, dst, len } => {
            let p0 = shed_nv(src);
            let p1 = shed_nv(dst);
            let p2 = shed_nv(len);
            (p0.0 + p1.0 + p2.0).push(CILRootV::CpBlk { src: p0.1, dst: p1.1, len: p2.1 })
        },
        CILRootV::InitBlk { dst, val, count } => {
            let p0 = shed_nv(dst);
            let p1 = shed_nv(val);
            let p2 = shed_nv(count);
            (p0.0 + p1.0 + p2.0).push(CILRootV::InitBlk { dst: p0.1, val: p1.1, count: p2.1 })
        },
        CILRootV::STInd { width, addr, val } => {
            let p0 = shed_nv(addr);
            let p1 = shed_nv(val);
            (p0.0 + p1.0).push(CILRootV::STInd { width, addr: p0.1, val: p1.1 })
        },
        CILRootV::STObj { tpe, addr_calc, value_calc } => {
            let p0 = shed_nv(addr_calc);
            let p1 = shed_nv(value_calc);
            (p0.0 + p1.0).push(CILRootV::STObj { tpe, addr_calc: p0.1, value_calc: p1.1 })
        },
        CILRootV::STArg { arg, tree } => {
            let p0 = shed_nv(tree);
            (p0.0).push(CILRootV::STArg { arg, tree: p0.1 })
        },
        CILRootV::Ret { tree } => {
            let p0 = shed_nv(tree);
            (p0.0).push(CILRootV::Ret { tree: p0.1 })
        },
        CILRootV::Pop { tree } => {
            let p0 = shed_nv(tree);
            (p0.0).push(CILRootV::Pop { tree: p0.1 })
        },
        CILRootV::Throw(t0) => {
            let p0 = shed_nv(t0);
            (p0.0).push(CILRootV::Throw(p0.1))
        },
        _ => seq![r],
    }
}

pub open spec fn shed_rvs(s: Seq<CILRootV>) -> Seq<CILRootV>
    decreases s,
{
    if s.len() == 0 {
        Seq::empty()
    } else {
        shed_rv(s.first()) + shed_rvs(s.drop_first())
    }
}

/// The temporary allocator's result on one statement and the local table:
/// a pending-temporary store becomes a store to the active local with the
/// same value expression; every other statement has its owned expressions
/// resolved in evaluation order, threading the table through.
pub open spec fn alloc_rv(r: CILRootV, cur: Option<u32>, locals: Seq<LocalV>) -> (
    CILRootV,
    Seq<LocalV>,
)
    decreases r,
{
    match r {
        CILRootV::SetTMPLocal { value } => match cur {
            Some(k) => (CILRootV::STLoc { local: k, tree: value }, locals),
            None => (r, locals),
        },
        CILRootV::STLoc { local, tree } => {
            let p0 = alloc_nv(tree, cur, locals);
            (CILRootV::STLoc { local, tree: p0.0 }, p0.1)
        },
        CILRootV::BTrue { target, sub_target, cond } => {
            let p0 = alloc_nv(cond, cur, locals);
            (CILRootV::BTrue { target, sub_target, cond: p0.0 }, p0.1)
        },
        CILRootV::Call { site, args } => {
            let p0 = alloc_nvs(args, cur, locals);
            (CILRootV::Call { site, args: p0.0 }, p0.1)
        },
        CILRootV::CallVirt { site, args } => {
            let p0 = alloc_nvs(args, cur, locals);
            (CILRootV::CallVirt { site, args: p0.0 }, p0.1)
        },
        CILRootV::CallI { sig, fn_ptr, args } => {
            let p0 = alloc_nv(fn_ptr, cur, locals);
            let p1 = alloc_nvs(args, cur, p0.1);
            (CILRootV::CallI { sig, fn_ptr: p0.0, args: p1.0 }, p1.1)
        },
        CILRootV::SetField { desc, addr, value } => {
            let p0 = alloc_nv(addr, cur, locals);
            let p1 = alloc_nv(value, cur, p0.1);
            (CILRootV::SetField { desc, addr: p0.0, value: p1.0 }, p1.1)
        },
        CILRootV::SetStaticField { descr, value } => {
            let p0 = alloc_nv(value, cur, locals);
            (CILRootV::SetStaticField { descr, value: p0.0 }, p0.1)
        },
        CILRootV::CpBlk { src, dst, len } => {
            let p0 = alloc_nv(src, cur, locals);
            let p1 = alloc_nv(dst, cur, p0.1);
            let p2 = alloc_nv(len, cur, p1.1);
            (CILRootV::CpBlk { src: p0.0, dst: p1.0, len: p2.0 }, p2.1)
        },
        CILRootV::InitBlk { dst, val, count } => {
            let p0 = alloc_nv(dst, cur, locals);
            let p1 = alloc_nv(val, cur, p0.1);
            let p2 = alloc_nv(count, cur, p1.1);
            (CILRootV::InitBlk { dst: p0.0, val: p1.0, count: p2.0 }, p2.1)
        },
        CILRootV::STInd { width, addr, val } => {
            let p0 = alloc_nv(addr, cur, locals);
            let p1 = alloc_nv(val, cur, p0.1);
            (CILRootV::STInd { width, addr: p0.0, val: p1.0 }, p1.1)
        },
        CILRootV::STObj { tpe, addr_calc, value_calc } => {
            let p0 = alloc_nv(addr_calc, cur, locals);
            let p1 = alloc_nv(value_calc, cur, p0.1);
            (CILRootV::STObj { tpe, addr_calc: p0.0, value_calc: p1.0 }, p1.1)
        },
        CILRootV::STArg { arg, tree } => {
            let p0 = alloc_nv(tree, cur, locals);
            (CILRootV::STArg { arg, tree: p0.0 }, p0.1)
        },
        CILRootV::Ret { tree } => {
            let p0 = alloc_nv(tree, cur, locals);
            (CILRootV::Ret { tree: p0.0 }, p0.1)
        },
        CILRootV::Pop { tree } => {
            let p0 = alloc_nv(tree, cur, locals);
            (CILRootV::Pop { tree: p0.0 }, p0.1)
        },
        CILRootV::Throw(t0) => {
            let p0 = alloc_nv(t0, cur, locals);
            (CILRootV::Throw(p0.0), p0.1)
        },
        _ => (r, locals),
    }
}

pub open spec fn alloc_rvs(s: Seq<CILRootV>, cur: Option<u32>, locals: Seq<LocalV>) -> (
    Seq<CILRootV>,
    Seq<LocalV>,
)
    decreases s,
{
    if s.len() == 0 {
        (Seq::empty(), locals)
    } else {
        let p = alloc_rv(s.first(), cur, locals);
        let q = alloc_rvs(s.drop_first(), cur, p.1);
        (seq![p.0] + q.0, q.1)
    }
}


/// No pending-temporary construct remains anywhere in the statement.
pub open spec fn rv_resolved(r: CILRootV) -> bool
    decreases r,
{
    match r {
        CILRootV::SetTMPLocal { .. } => false,
        CILRootV::STLoc { tree, .. } => nv_resolved(tree),
        CILRootV::BTrue { cond, .. } => nv_resolved(cond),
        CILRootV::Call { args, .. } => forall|i: int|
            0 <= i < args.len() ==> nv_resolved(#[trigger] args[i]),
        CILRootV::CallVirt { args, .. } => forall|i: int|
            0 <= i < args.len() ==> nv_resolved(#[trigger] args[i]),
        CILRootV::CallI { fn_ptr, args, .. } => nv_resolved(fn_ptr) && forall|i: int|
            0 <= i < args.len() ==> nv_resolved(#[trigger] args[i]),
        CILRootV::SetField { addr, value, .. } => nv_resolved(addr) && nv_resolved(value),
        CILRootV::SetStaticField { value, .. } => nv_resolved(value),
        CILRootV::CpBlk { dst, src, len } => nv_resolved(src) && nv_resolved(dst)
            && nv_resolved(len),
        CILRootV::InitBlk { dst, val, count } => nv_resolved(dst) && nv_resolved(val)
            && nv_resolved(count),
        CILRootV::STInd { addr, val, .. } => nv_resolved(addr) && nv_resolved(val),
        CILRootV::STObj { addr_calc, value_calc, .. } => nv_resolved(addr_calc) && nv_resolved(
            value_calc,
        ),
        CILRootV::STArg { tree, .. } => nv_resolved(tree),
        CILRootV::Ret { tree } => nv_resolved(tree),
        CILRootV::Pop { tree } => nv_resolved(tree),
        CILRootV::Throw(tree) => nv_resolved(tree),
        _ => true,
    }
}

/// The statement is ready for the encoder: it is no placeholder and none of
/// its expressions carries an embedded pending statement or a
/// pending-temporary construct.
pub open spec fn rv_flat(r: CILRootV) -> bool
    decreases r,
{
    match r {
        CILRootV::SetTMPLocal { .. } => false,
        CILRootV::STLoc { tree, .. } => nv_flat(tree),
        CILRootV::BTrue { cond, .. } => nv_flat(cond),
        CILRootV::Call { args, .. } => forall|i: int|
            0 <= i < args.len() ==> nv_flat(#[trigger] args[i]),
        CILRootV::CallVirt { args, .. } => forall|i: int|
            0 <= i < args.len() ==> nv_flat(#[trigger] args[i]),
        CILRootV::CallI { fn_ptr, args, .. } => nv_flat(fn_ptr) && forall|i: int|
            0 <= i < args.len() ==> nv_flat(#[trigger] args[i]),
        CILRootV::SetField { addr, value, .. } => nv_flat(addr) && nv_flat(value),
        CILRootV::SetStaticField { value, .. } => nv_flat(value),
        CILRootV::CpBlk { dst, src, len } => nv_flat(src) && nv_flat(dst) && nv_flat(len),
        CILRootV::InitBlk { dst, val, count } => nv_flat(dst) && nv_flat(val) && nv_flat(count),
        CILRootV::STInd { addr, val, .. } => nv_flat(addr) && nv_flat(val),
        CILRootV::STObj { addr_calc, value_calc, .. } => nv_flat(addr_calc) && nv_flat(value_calc),
        CILRootV::STArg { tree, .. } => nv_flat(tree),
        CILRootV::Ret { tree } => nv_flat(tree),
        CILRootV::Pop { tree } => nv_flat(tree),
        CILRootV::Throw(tree) => nv_flat(tree),
        _ => true,
    }
}

/// Every pending-temporary marker in the statement sits under an active
/// temporary. A pending store's own value must already be resolved: the
/// allocator moves it into a local store unchanged.
pub open spec fn rv_tmps_ok(r: CILRootV, have: bool) -> bool
    decreases r,
{
    match r {
        CILRootV::SetTMPLocal { value } => have && nv_resolved(value),
        CILRootV::STLoc { tree, .. } => nv_tmps_ok(tree, have),
        CILRootV::BTrue { cond, .. } => nv_tmps_ok(cond, have),
        CILRootV::Call { args, .. } => forall|i: int|
            0 <= i < args.len() ==> nv_tmps_ok(#[trigger] args[i], have),
        CILRootV::CallVirt { args, .. } => forall|i: int|
            0 <= i < args.len() ==> nv_tmps_ok(#[trigger] args[i], have),
        CILRootV::CallI { fn_ptr, args, .. } => nv_tmps_ok(fn_ptr, have) && forall|i: int|
            0 <= i < args.len() ==> nv_tmps_ok(#[trigger] args[i], have),
        CILRootV::SetField { addr, value, .. } => nv_tmps_ok(addr, have) && nv_tmps_ok(
            value,
            have,
        ),
        CILRootV::SetStaticField { value, .. } => nv_tmps_ok(value, have),
        CILRootV::CpBlk { dst, src, len } => nv_tmps_ok(src, have) && nv_tmps_ok(dst, have)
            && nv_tmps_ok(len, have),
        CILRootV::InitBlk { dst, val, count } => nv_tmps_ok(dst, have) && nv_tmps_ok(val, have)
            && nv_tmps_ok(count, have),
        CILRootV::STInd { addr, val, .. } => nv_tmps_ok(addr, have) && nv_tmps_ok(val, have),
        CILRootV::STObj { addr_calc, value_calc, .. } => nv_tmps_ok(addr_calc, have)
            && nv_tmps_ok(value_calc, have),
        CILRootV::STArg { tree, .. } => nv_tmps_ok(tree, have),
        CILRootV::Ret { tree } => nv_tmps_ok(tree, have),
        CILRootV::Pop { tree } => nv_tmps_ok(tree, have),
        CILRootV::Throw(tree) => nv_tmps_ok(tree, have),
        _ => true,
    }
}

/// How many locals the temporary allocator will append for this statement.
pub open spec fn rv_tmp_locals(r: CILRootV) -> nat
    decreases r,
{
    match r {
        CILRootV::SetTMPLocal { .. } => 0,
        CILRootV::STLoc { tree, .. } => nv_tmp_locals(tree),
        CILRootV::BTrue { cond, .. } => nv_tmp_locals(cond),
        CILRootV::Call { args, .. } => crate::cil_node::nvs_tmp_locals(args),
        CILRootV::CallVirt { args, .. } => crate::cil_node::nvs_tmp_locals(args),
        CILRootV::CallI { fn_ptr, args, .. } => nv_tmp_locals(fn_ptr)
            + crate::cil_node::nvs_tmp_locals(args),
        CILRootV::SetField { addr, value, .. } => nv_tmp_locals(addr) + nv_tmp_locals(value),
        CILRootV::SetStaticField { value, .. } => nv_tmp_locals(value),
        CILRootV::CpBlk { dst, src, len } => nv_tmp_locals(src) + nv_tmp_locals(dst)
            + nv_tmp_locals(len),
        CILRootV::InitBlk { dst, val, count } => nv_tmp_locals(dst) + nv_tmp_locals(val)
            + nv_tmp_locals(count),
        CILRootV::STInd { addr, val, .. } => nv_tmp_locals(addr) + nv_tmp_locals(val),
        CILRootV::STObj { addr_calc, value_calc, .. } => nv_tmp_locals(addr_calc)
            + nv_tmp_locals(value_calc),
        CILRootV::STArg { tree, .. } => nv_tmp_locals(tree),
        CILRootV::Ret { tree } => nv_tmp_locals(tree),
        CILRootV::Pop { tree } => nv_tmp_locals(tree),
        CILRootV::Throw(tree) => nv_tmp_locals(tree),
        _ => 0,
    }
}

/// The (target, sub-target) pairs a statement contributes to control flow:
/// one pair for the branching statements, none for the rest.
pub open spec fn rv_targets(r: CILRootV) -> Seq<(u32, u32)> {
    match r {
        CILRootV::BTrue { target, sub_target, .. } => seq![(target, sub_target)],
        CILRootV::GoTo { target, sub_target } => seq![(target, sub_target)],
        _ => Seq::empty(),
    }
}

/// Whether the statement is a branch or a jump.
pub open spec fn rv_is_branch(r: CILRootV) -> bool {
    r is BTrue || r is GoTo
}

/// The sub-target of a branching statement.
pub open spec fn rv_sub_target(r: CILRootV) -> u32 {
    match r {
        CILRootV::BTrue { sub_target, .. } => sub_target,
        CILRootV::GoTo { sub_target, .. } => sub_target,
        _ => 0,
    }
}

/// The target of a branching statement.
pub open spec fn rv_target(r: CILRootV) -> u32 {
    match r {
        CILRootV::BTrue { target, .. } => target,
        CILRootV::GoTo { target, .. } => target,
        _ => 0,
    }
}

/// A branching statement redirected into the merged entry block `id` of an
/// exception handler: the original target moves into the sub-target, and the
/// target becomes the handler's entry id. Every other statement is left
/// unchanged.
pub open spec fn rv_fixed_for_handler(r: CILRootV, id: u32) -> CILRootV {
    match r {
        CILRootV::BTrue { target, sub_target, cond } => CILRootV::BTrue {
            target: id,
            sub_target: target,
            cond,
        },
        CILRootV::GoTo { target, sub_target } => CILRootV::GoTo {
            target: id,
            sub_target: target,
        },
        _ => r,
    }
}

impl CILRoot {
    /// Appends this statement's branch targets to the accumulator: the
    /// (target, sub-target) pair for branches and jumps, nothing otherwise.
    pub fn targets(&self, targets: &mut Vec<(u32, u32)>)
        ensures
            final(targets)@ == old(targets)@ + rv_targets(self@),
    {
        match self {
            CILRoot::BTrue { target, sub_target, .. } => {
                targets.push((*target, *sub_target));
            },
            CILRoot::GoTo { target, sub_target } => {
                targets.push((*target, *sub_target));
            },
            _ => {
                proof {
                    assert(final(targets)@ =~= old(targets)@ + rv_targets(self@));
                }
            },
        }
        proof {
            assert(final(targets)@ =~= old(targets)@ + rv_targets(self@));
        }
    }

    /// Folds a branching statement into the exception-handler entry block
    /// `id`: the sub-target records the original target, and the target is
    /// redirected to `id`. A non-zero sub-target would mean the statement was
    /// folded already — handlers do not nest through this mechanism — so such
    /// a statement is never handed to this pass.
    pub fn fix_for_exception_handler(&mut self, id: u32)
        requires
            rv_is_branch(old(self)@) ==> rv_sub_target(old(self)@) == 0,
        ensures
            final(self)@ == rv_fixed_for_handler(old(self)@, id),
    {
        match self {
            CILRoot::BTrue { target, sub_target, .. } => {
                *sub_target = *target;
                *target = id;
            },
            CILRoot::GoTo { target, sub_target } => {
                *sub_target = *target;
                *target = id;
            },
            _ => {},
        }
    }

    /// Builds the non-executable source-location statement for the given
    /// file, line range and column range. Column ranges are half-open and
    /// must contain at least one column.
    pub fn source_info(
        file: &str,
        line: core::ops::Range<u64>,
        column: core::ops::Range<u64>,
    ) -> (r: Self)
        requires
            column.start < column.end,
        ensures
            r@ == (CILRootV::SourceFileInfo {
                line_start: line.start,
                line_end: line.end,
                col_start: column.start,
                col_end: column.end,
                file: file@,
            }),
    {
        CILRoot::SourceFileInfo {
            line_start: line.start,
            line_end: line.end,
            col_start: column.start,
            col_end: column.end,
            file: String::from_str(file),
        }
    }

    /// The worker behind `opt`, consuming and rebuilding the statement.
    pub(crate) fn opt_owned(self, opt_count: &mut usize) -> (r: Self)
        requires
            *old(opt_count) + rv_rewrites(root_view(self)) <= usize::MAX,
        ensures
            root_view(r) == opt_rv(root_view(self)),
            *final(opt_count) == *old(opt_count) + rv_rewrites(root_view(self)),
        decreases rv_size(root_view(self)),
    {
        match self {
            CILRoot::STLoc { local, tree } => CILRoot::STLoc { local, tree: tree.opt(opt_count) },
            CILRoot::BTrue { target, sub_target, cond } => CILRoot::BTrue { target, sub_target, cond: cond.opt(opt_count) },
            CILRoot::Call { site, args } => {
                let x0 = crate::cil_node::opt_nodes(args, opt_count);
                CILRoot::Call { site, args: x0 }
            },
            CILRoot::CallVirt { site, args } => {
                let x0 = crate::cil_node::opt_nodes(args, opt_count);
                CILRoot::CallVirt { site, args: x0 }
            },
            CILRoot::CallI { sig, fn_ptr, args } => {
                let x0 = fn_ptr.opt(opt_count);
                let x1 = crate::cil_node::opt_nodes(args, opt_count);
                CILRoot::CallI { sig, fn_ptr: x0, args: x1 }
            },
            CILRoot::SetField { desc, addr, value } => {
                let a = addr.opt(opt_count);
                let v = value.opt(opt_count);
                let new_addr = match a {
                    CILNode::ZeroExtendToUSize(inner) => {
                        if matches!(&*inner, CILNode::LDLocA(_) | CILNode::LDFieldAdress { .. }) {
                            *inner
                        } else {
                            CILNode::ZeroExtendToUSize(inner)
                        }
                    },
                    other_addr => other_addr,
                };
                CILRoot::SetField { desc, addr: new_addr, value: v }
            },
            CILRoot::SetStaticField { descr, value } => CILRoot::SetStaticField { descr, value: value.opt(opt_count) },
            CILRoot::SetTMPLocal { value } => CILRoot::SetTMPLocal { value: value.opt(opt_count) },
            CILRoot::CpBlk { src, dst, len } => {
                let x0 = src.opt(opt_count);
                let x1 = dst.opt(opt_count);
                let x2 = len.opt(opt_count);
                CILRoot::CpBlk { src: x0, dst: x1, len: x2 }
            },
            CILRoot::InitBlk { dst, val, count } => {
                let x0 = dst.opt(opt_count);
                let x1 = val.opt(opt_count);
                let x2 = count.opt(opt_count);
                CILRoot::InitBlk { dst: x0, val: x1, count: x2 }
            },
            CILRoot::STInd { width, addr, val } => {
                let x0 = addr.opt(opt_count);
                let x1 = val.opt(opt_count);
                CILRoot::STInd { width, addr: x0, val: x1 }
            },
            CILRoot::STObj { tpe, addr_calc, value_calc } => {
                let x0 = addr_calc.opt(opt_count);
                let x1 = value_calc.opt(opt_count);
                CILRoot::STObj { tpe, addr_calc: x0, value_calc: x1 }
            },
            CILRoot::STArg { arg, tree } => CILRoot::STArg { arg, tree: tree.opt(opt_count) },
            CILRoot::Ret { tree } => CILRoot::Ret { tree: tree.opt(opt_count) },
            CILRoot::Pop { tree } => CILRoot::Pop { tree: tree.opt(opt_count) },
            CILRoot::Throw(t0) => CILRoot::Throw(t0.opt(opt_count)),
            other => other,
        }
    }

    /// The worker behind `shed_trees`: appends the statements shed from the
    /// owned expressions, in evaluation order, then the statement itself.
    #[verifier::rlimit(100)]
    pub(crate) fn shed_into(self, out: &mut Vec<CILRoot>)
        requires
            rv_resolved(root_view(self)),
        ensures
            roots_view(final(out)@) == roots_view(old(out)@) + shed_rv(root_view(self)),
        decreases rv_size(root_view(self)),
    {
        broadcast use lemma_roots_view_push;

        let ghost selfv = root_view(self);
        match self {
            CILRoot::STLoc { local, tree } => {
                let x0 = tree.shed_trees(out);
                out.push(CILRoot::STLoc { local, tree: x0 });
            },
            CILRoot::BTrue { target, sub_target, cond } => {
                let x0 = cond.shed_trees(out);
                out.push(CILRoot::BTrue { target, sub_target, cond: x0 });
            },
            CILRoot::Call { site, args } => {
                let x0 = crate::cil_node::shed_nodes(args, out);
                out.push(CILRoot::Call { site, args: x0 });
            },
            CILRoot::CallVirt { site, args } => {
                let x0 = crate::cil_node::shed_nodes(args, out);
                out.push(CILRoot::CallVirt { site, args: x0 });
            },
            CILRoot::CallI { sig, fn_ptr, args } => {
                let x0 = fn_ptr.shed_trees(out);
                let x1 = crate::cil_node::shed_nodes(args, out);
                out.push(CILRoot::CallI { sig, fn_ptr: x0, args: x1 });
            },
            CILRoot::SetField { desc, addr, value } => {
                let x0 = addr.shed_trees(out);
                let x1 = value.shed_trees(out);
                out.push(CILRoot::SetField { desc, addr: x0, value: x1 });
            },
            CILRoot::SetStaticField { descr, value } => {
                let x0 = value.shed_trees(out);
                out.push(CILRoot::SetStaticField { descr, value: x0 });
            },
            CILRoot::CpBlk { src, dst, len } => {
                let x0 = src.shed_trees(out);
                let x1 = dst.shed_trees(out);
                let x2 = len.shed_trees(out);
                out.push(CILRoot::CpBlk { src: x0, dst: x1, len: x2 });
            },
            CILRoot::InitBlk { dst, val, count } => {
                let x0 = dst.shed_trees(out);
                let x1 = val.shed_trees(out);
                let x2 = count.shed_trees(out);
                out.push(CILRoot::InitBlk { dst: x0, val: x1, count: x2 });
            },
            CILRoot::STInd { width, addr, val } => {
                let x0 = addr.shed_trees(out);
                let x1 = val.shed_trees(out);
                out.push(CILRoot::STInd { width, addr: x0, val: x1 });
            },
            CILRoot::STObj { tpe, addr_calc, value_calc } => {
                let x0 = addr_calc.shed_trees(out);
                let x1 = value_calc.shed_trees(out);
                out.push(CILRoot::STObj { tpe, addr_calc: x0, value_calc: x1 });
            },
            CILRoot::STArg { arg, tree } => {
                let x0 = tree.shed_trees(out);
                out.push(CILRoot::STArg { arg, tree: x0 });
            },
            CILRoot::Ret { tree } => {
                let x0 = tree.shed_trees(out);
                out.push(CILRoot::Ret { tree: x0 });
            },
            CILRoot::Pop { tree } => {
                let x0 = tree.shed_trees(out);
                out.push(CILRoot::Pop { tree: x0 });
            },
            CILRoot::Throw(t0) => {
                let x0 = t0.shed_trees(out);
                out.push(CILRoot::Throw(x0));
            },
            other => {
                out.push(other);
            },
        }
        proof {
            assert(roots_view(out@) =~= roots_view(old(out)@) + shed_rv(selfv));
        }
    }

    /// The worker behind `allocate_tmps`, consuming and rebuilding the
    /// statement while extending the local table.
    pub(crate) fn allocate_tmps_owned(
        self,
        curr_local: Option<u32>,
        locals: &mut Vec<(Option<String>, Type)>,
    ) -> (r: Self)
        requires
            rv_tmps_ok(root_view(self), curr_local is Some),
            old(locals)@.len() + rv_tmp_locals(root_view(self)) <= u32::MAX,
        ensures
            root_view(r) == alloc_rv(root_view(self), curr_local, locals_view(old(locals)@)).0,
            locals_view(final(locals)@) == alloc_rv(
                root_view(self),
                curr_local,
                locals_view(old(locals)@),
            ).1,
            final(locals)@.len() == old(locals)@.len() + rv_tmp_locals(root_view(self)),
        decreases rv_size(root_view(self)),
    {
        match self {
            CILRoot::SetTMPLocal { value } => {
                match curr_local {
                    Some(k) => CILRoot::STLoc { local: k, tree: value },
                    None => CILRoot::SetTMPLocal { value },
                }
            },
            CILRoot::STLoc { local, tree } => {
                let x0 = tree.allocate_tmps(curr_local, locals);
                CILRoot::STLoc { local, tree: x0 }
            },
            CILRoot::BTrue { target, sub_target, cond } => {
                let x0 = cond.allocate_tmps(curr_local, locals);
                CILRoot::BTrue { target, sub_target, cond: x0 }
            },
            CILRoot::Call { site, args } => {
                let x0 = crate::cil_node::alloc_nodes(args, curr_local, locals);
                CILRoot::Call { site, args: x0 }
            },
            CILRoot::CallVirt { site, args } => {
                let x0 = crate::cil_node::alloc_nodes(args, curr_local, locals);
                CILRoot::CallVirt { site, args: x0 }
            },
            CILRoot::CallI { sig, fn_ptr, args } => {
                let x0 = fn_ptr.allocate_tmps(curr_local, locals);
                let x1 = crate::cil_node::alloc_nodes(args, curr_local, locals);
                CILRoot::CallI { sig, fn_ptr: x0, args: x1 }
            },
            CILRoot::SetField { desc, addr, value } => {
                let x0 = addr.allocate_tmps(curr_local, locals);
                let x1 = value.allocate_tmps(curr_local, locals);
                CILRoot::SetField { desc, addr: x0, value: x1 }
            },
            CILRoot::SetStaticField { descr, value } => {
                let x0 = value.allocate_tmps(curr_local, locals);
                CILRoot::SetStaticField { descr, value: x0 }
            },
            CILRoot::CpBlk { src, dst, len } => {
                let x0 = src.allocate_tmps(curr_local, locals);
                let x1 = dst.allocate_tmps(curr_local, locals);
                let x2 = len.allocate_tmps(curr_local, locals);
                CILRoot::CpBlk { src: x0, dst: x1, len: x2 }
            },
            CILRoot::InitBlk { dst, val, count } => {
                let x0 = dst.allocate_tmps(curr_local, locals);
                let x1 = val.allocate_tmps(curr_local, locals);
                let x2 = count.allocate_tmps(curr_local, locals);
                CILRoot::InitBlk { dst: x0, val: x1, count: x2 }
            },
            CILRoot::STInd { width, addr, val } => {
                let x0 = addr.allocate_tmps(curr_local, locals);
                let x1 = val.allocate_tmps(curr_local, locals);
                CILRoot::STInd { width, addr: x0, val: x1 }
            },
            CILRoot::STObj { tpe, addr_calc, value_calc } => {
                let x0 = addr_calc.allocate_tmps(curr_local, locals);
                let x1 = value_calc.allocate_tmps(curr_local, locals);
                CILRoot::STObj { tpe, addr_calc: x0, value_calc: x1 }
            },
            CILRoot::STArg { arg, tree } => {
                let x0 = tree.allocate_tmps(curr_local, locals);
                CILRoot::STArg { arg, tree: x0 }
            },
            CILRoot::Ret { tree } => {
                let x0 = tree.allocate_tmps(curr_local, locals);
                CILRoot::Ret { tree: x0 }
            },
            CILRoot::Pop { tree } => {
                let x0 = tree.allocate_tmps(curr_local, locals);
                CILRoot::Pop { tree: x0 }
            },
            CILRoot::Throw(t0) => {
                let x0 = t0.allocate_tmps(curr_local, locals);
                CILRoot::Throw(x0)
            },
            other => other,
        }
    }

    /// Simplifies every owned expression subtree in place, adding each
    /// rewrite the expression subsystem reports to `opt_count`; then one
    /// statement-level peephole applies: a field-store whose address is a
    /// pointer-width extension of a "load local address" or "load field
    /// address" expression keeps the inner expression directly.
    pub fn opt(&mut self, opt_count: &mut usize)
        requires
            *old(opt_count) + rv_rewrites(old(self)@) <= usize::MAX,
        ensures
            final(self)@ == opt_rv(old(self)@),
            *final(opt_count) == *old(opt_count) + rv_rewrites(old(self)@),
    {
        let mut tmp = CILRoot::Nop;
        core::mem::swap(self, &mut tmp);
        let r = tmp.opt_owned(opt_count);
        *self = r;
    }

    /// Linearizes one statement: the statements shed from its owned
    /// expressions come first, in left-to-right, depth-first evaluation
    /// order, and the statement itself, now free of embedded pending
    /// statements, comes last. The temporary allocator must have run first,
    /// so no pending-temporary construct remains.
    pub fn shed_trees(self) -> (res: Vec<CILRoot>)
        requires
            rv_resolved(self@),
        ensures
            roots_view(res@) == shed_rv(self@),
    {
        broadcast use lemma_roots_view_push;

        let mut out: Vec<CILRoot> = Vec::new();
        proof {
            assert(roots_view(out@) =~= Seq::<CILRootV>::empty());
        }
        let ghost selfv = self@;
        self.shed_into(&mut out);
        proof {
            assert(roots_view(out@) =~= shed_rv(selfv));
        }
        out
    }

    /// Resolves every pending-temporary construct in the statement against
    /// the local table: a pending-temporary store becomes a store to the
    /// active local (`curr_local`, which must be supplied whenever such a
    /// placeholder is present), and the owned expressions are resolved
    /// recursively, appending one local per temporary.
    pub fn allocate_tmps(
        &mut self,
        curr_local: Option<u32>,
        locals: &mut Vec<(Option<String>, Type)>,
    )
        requires
            rv_tmps_ok(old(self)@, curr_local is Some),
            old(locals)@.len() + rv_tmp_locals(old(self)@) <= u32::MAX,
        ensures
            final(self)@ == alloc_rv(old(self)@, curr_local, locals_view(old(locals)@)).0,
            locals_view(final(locals)@) == alloc_rv(
                old(self)@,
                curr_local,
                locals_view(old(locals)@),
            ).1,
            final(locals)@.len() == old(locals)@.len() + rv_tmp_locals(old(self)@),
    {
        let mut tmp = CILRoot::Nop;
        core::mem::swap(self, &mut tmp);
        let r = tmp.allocate_tmps_owned(curr_local, locals);
        *self = r;
    }

    /// Builds a statement that throws a `System.Exception` constructed from
    /// the given literal message.
    pub fn throw(msg: &str) -> (r: Self)
        ensures
            r@ == (CILRootV::Throw(CILNodeV::NewObj {
                site: throw_site_view(),
                args: seq![CILNodeV::LdStr(msg@)],
            })),
    {
        let class = exception_class();
        let name = String::from_str(".ctor");
        let mut inputs: Vec<Type> = Vec::new();
        inputs.push(Type::DotnetType(exception_class()));
        inputs.push(Type::DotnetType(DotnetTypeRef::string_type()));
        proof {
            assert(types_view(inputs@) =~= seq![
                TypeV::DotnetType(exception_class_view()),
                TypeV::DotnetType(string_class_view()),
            ]);
        }
        let signature = FnSig::new(inputs, Type::Void);
        let site = CallSite::new(Some(class), name, signature, false);
        let mut args: Vec<CILNode> = Vec::new();
        args.push(CILNode::LdStr(String::from_str(msg)));
        proof {
            assert(args@.drop_first() =~= Seq::<CILNode>::empty());
            assert(nodes_view(Seq::<CILNode>::empty()) =~= Seq::<CILNodeV>::empty());
            assert(node_view(args@.first()) == CILNodeV::LdStr(msg@));
            assert(nodes_view(args@) =~= seq![CILNodeV::LdStr(msg@)]);
        }
        CILRoot::Throw(CILNode::NewObj { site: Box::new(site), args })
    }

    /// Builds a statement that prints the given literal message. When the
    /// process-wide "memory checks" switch is on — threaded here as the
    /// explicit `mem_checks` flag — the message expression first runs the
    /// global consistency check, as an embedded pending statement that the
    /// linearizer will hoist out right before the print.
    #[verifier::rlimit(50)]
    pub fn debug(msg: &str, mem_checks: bool) -> (r: Self)
        ensures
            r@ == (CILRootV::Call {
                site: debug_site_view(),
                args: seq![
                    if mem_checks {
                        CILNodeV::SubTrees(
                            seq![mcheck_call_view()],
                            Box::new(CILNodeV::LdStr(msg@)),
                        )
                    } else {
                        CILNodeV::LdStr(msg@)
                    },
                ],
            }),
    {
        let class = console_class();
        let name = String::from_str("WriteLine");
        let mut inputs: Vec<Type> = Vec::new();
        inputs.push(Type::DotnetType(DotnetTypeRef::string_type()));
        proof {
            assert(types_view(inputs@) =~= seq![TypeV::DotnetType(string_class_view())]);
        }
        let signature = FnSig::new(inputs, Type::Void);
        let message_or_check = if mem_checks {
            let mut checks: Vec<CILRoot> = Vec::new();
            checks.push(mcheck_call());
            proof {
                assert(checks@.drop_first() =~= Seq::<CILRoot>::empty());
                assert(roots_view(Seq::<CILRoot>::empty()) =~= Seq::<CILRootV>::empty());
                assert(roots_view(checks@) =~= seq![mcheck_call_view()]);
            }
            let inner = CILNode::LdStr(String::from_str(msg));
            proof {
                assert(node_view(inner) == CILNodeV::LdStr(msg@));
            }
            let moc = CILNode::SubTrees(checks, Box::new(inner));
            proof {
                assert(node_view(moc) == CILNodeV::SubTrees(
                    seq![mcheck_call_view()],
                    Box::new(CILNodeV::LdStr(msg@)),
                ));
            }
            moc
        } else {
            let moc = CILNode::LdStr(String::from_str(msg));
            proof {
                assert(node_view(moc) == CILNodeV::LdStr(msg@));
            }
            moc
        };
        let mut args: Vec<CILNode> = Vec::new();
        args.push(message_or_check);
        proof {
            assert(args@.drop_first() =~= Seq::<CILNode>::empty());
            assert(nodes_view(Seq::<CILNode>::empty()) =~= Seq::<CILNodeV>::empty());
            assert(nodes_view(args@) =~= seq![node_view(args@.first())]);
        }
        CILRoot::Call { site: CallSite::new_extern(class, name, signature, true), args }
    }

}

/// The embedded call statement to the global memory-consistency checker.
fn mcheck_call() -> (r: CILRoot)
    ensures
        root_view(r) == mcheck_call_view(),
{
    let r = CILRoot::Call { site: CallSite::mcheck_check_all(), args: Vec::new() };
    proof {
        assert(nodes_view(r->Call_args@) =~= Seq::<CILNodeV>::empty());
    }
    r
}

/// A reference to the `System.Exception` class.
fn exception_class() -> (c: DotnetTypeRef)
    ensures
        c@ == exception_class_view(),
{
    let mut c = DotnetTypeRef::new(Some("System.Runtime"), "System.Exception");
    c.set_valuetype(false);
    c
}

/// A reference to the `System.Console` class.
fn console_class() -> (c: DotnetTypeRef)
    ensures
        c@ == console_class_view(),
{
    let mut c = DotnetTypeRef::new(Some("System.Console"), "System.Console");
    c.set_valuetype(false);
    c
}

/// The model of the call site `throw` builds: the `System.Exception`
/// constructor taking the message string.
pub open spec fn throw_site_view() -> CallSiteV {
    CallSiteV {
        class: Some(exception_class_view()),
        name: ".ctor"@,
        signature: FnSigV {
            inputs: seq![
                TypeV::DotnetType(exception_class_view()),
                TypeV::DotnetType(string_class_view()),
            ],
            output: TypeV::Void,
        },
        is_static: false,
    }
}

/// The model of the call site `debug` builds: `System.Console.WriteLine`
/// taking the message string.
pub open spec fn debug_site_view() -> CallSiteV {
    CallSiteV {
        class: Some(console_class_view()),
        name: "WriteLine"@,
        signature: FnSigV {
            inputs: seq![TypeV::DotnetType(string_class_view())],
            output: TypeV::Void,
        },
        is_static: true,
    }
}

/// The model of the embedded call to the global memory-consistency checker.
pub open spec fn mcheck_call_view() -> CILRootV {
    CILRootV::Call {
        site: CallSiteV {
            class: None,
            name: "mcheck_check_all"@,
            signature: FnSigV { inputs: Seq::empty(), output: TypeV::Void },
            is_static: true,
        },
        args: Seq::empty(),
    }
}

/// The model of the `System.Exception` class reference.
pub open spec fn exception_class_view() -> DotnetTypeRefV {
    DotnetTypeRefV {
        assembly: Some("System.Runtime"@),
        name_path: "System.Exception"@,
        is_valuetype: false,
    }
}

/// The model of the `System.Console` class reference.
pub open spec fn console_class_view() -> DotnetTypeRefV {
    DotnetTypeRefV {
        assembly: Some("System.Console"@),
        name_path: "System.Console"@,
        is_valuetype: false,
    }
}

/// The model of the `System.String` class reference.
pub open spec fn string_class_view() -> DotnetTypeRefV {
    DotnetTypeRefV {
        assembly: Some("System.Runtime"@),
        name_path: "System.String"@,
        is_valuetype: false,
    }
}

} // verus!
