//! The expression side of the IR: value-producing trees that may carry
//! embedded pending statements (`SubTrees`) and pending-temporary markers
//! (`TemporaryLocal`, `LoadTMPLocal`, `LoadAddresOfTMPLocal`). The statement
//! passes in `cil_root` call into the capabilities defined here: simplify,
//! shed embedded statements, and allocate temporaries.
use vstd::prelude::*;

use crate::cil_root::{
    alloc_rvs, locals_view, opt_rvs, roots_view, rv_resolved, rv_tmps_ok, rvs_rewrites, rvs_size,
    shed_rvs, CILRoot, CILRootV, LocalV,
};
use crate::descriptors::{CallSite, CallSiteV, FieldDescriptor, FieldDescriptorV, Type, TypeV};

verus! {

/// A value-producing expression node.
#[derive(Debug, PartialEq)]
pub enum CILNode {
    /// Load the argument with the given index.
    LDArg(u32),
    /// Load the local with the given index.
    LDLoc(u32),
    /// Load the address of the local with the given index.
    LDLocA(u32),
    /// A 32-bit integer constant.
    LdcI32(i32),
    /// A string literal.
    LdStr(String),
    /// Zero-extend the inner value to the width of a pointer.
    ZeroExtendToUSize(Box<CILNode>),
    /// The address of a field of the value `addr` points at.
    LDFieldAdress { addr: Box<CILNode>, field: Box<FieldDescriptor> },
    /// Load a structured value through a pointer.
    LdObj { ptr: Box<CILNode>, obj: Box<Type> },
    /// Construct an object, passing the given arguments.
    NewObj { site: Box<CallSite>, args: Vec<CILNode> },
    /// Pending statements that must run before the inner value is produced;
    /// the linearizer hoists them out.
    SubTrees(Vec<CILRoot>, Box<CILNode>),
    /// A value computed through a scratch local that is yet to be allocated:
    /// the statements store into the pending temporary, the inner expression
    /// reads it back.
    TemporaryLocal { tpe: Box<Type>, roots: Vec<CILRoot>, main: Box<CILNode> },
    /// Read the currently active pending temporary.
    LoadTMPLocal,
    /// The address of the currently active pending temporary.
    LoadAddresOfTMPLocal,
}

/// The mathematical model of an expression node.
#[verifier::ext_equal]
pub enum CILNodeV {
    LDArg(u32),
    LDLoc(u32),
    LDLocA(u32),
    LdcI32(i32),
    LdStr(Seq<char>),
    ZeroExtendToUSize(Box<CILNodeV>),
    LDFieldAdress { addr: Box<CILNodeV>, field: FieldDescriptorV },
    LdObj { ptr: Box<CILNodeV>, obj: TypeV },
    NewObj { site: CallSiteV, args: Seq<CILNodeV> },
    SubTrees(Seq<CILRootV>, Box<CILNodeV>),
    TemporaryLocal { tpe: TypeV, roots: Seq<CILRootV>, main: Box<CILNodeV> },
    LoadTMPLocal,
    LoadAddresOfTMPLocal,
}

/// The model of an expression node.
pub open spec fn node_view(n: CILNode) -> CILNodeV
    decreases n,
{
    match n {
        CILNode::LDArg(i) => CILNodeV::LDArg(i),
        CILNode::LDLoc(i) => CILNodeV::LDLoc(i),
        CILNode::LDLocA(i) => CILNodeV::LDLocA(i),
        CILNode::LdcI32(c) => CILNodeV::LdcI32(c),
        CILNode::LdStr(s) => CILNodeV::LdStr(s@),
        CILNode::ZeroExtendToUSize(inner) => CILNodeV::ZeroExtendToUSize(
            Box::new(node_view(*inner)),
        ),
        CILNode::LDFieldAdress { addr, field } => CILNodeV::LDFieldAdress {
            addr: Box::new(node_view(*addr)),
            field: field@,
        },
        CILNode::LdObj { ptr, obj } => CILNodeV::LdObj { ptr: Box::new(node_view(*ptr)), obj: obj@ },
        CILNode::NewObj { site, args } => CILNodeV::NewObj { site: site@, args: nodes_view(args@) },
        CILNode::SubTrees(roots, main) => CILNodeV::SubTrees(
            roots_view(roots@),
            Box::new(node_view(*main)),
        ),
        CILNode::TemporaryLocal { tpe, roots, main } => CILNodeV::TemporaryLocal {
            tpe: tpe@,
            roots: roots_view(roots@),
            main: Box::new(node_view(*main)),
        },
        CILNode::LoadTMPLocal => CILNodeV::LoadTMPLocal,
        CILNode::LoadAddresOfTMPLocal => CILNodeV::LoadAddresOfTMPLocal,
    }
}

/// The model of a list of expression nodes, elementwise.
pub open spec fn nodes_view(s: Seq<CILNode>) -> Seq<CILNodeV>
    decreases s,
{
    if s.len() == 0 {
        Seq::empty()
    } else {
        seq![node_view(s.first())] + nodes_view(s.drop_first())
    }
}

impl View for CILNode {
    type V = CILNodeV;

    open spec fn view(&self) -> CILNodeV {
        node_view(*self)
    }
}

pub broadcast proof fn lemma_nodes_view_index(s: Seq<CILNode>, i: int)
    requires
        0 <= i < s.len(),
    ensures
        nodes_view(s).len() == s.len(),
        #[trigger] nodes_view(s)[i] == node_view(s[i]),
    decreases s,
{
    lemma_nodes_view_len(s);
    if i > 0 {
        lemma_nodes_view_index(s.drop_first(), i - 1);
    }
}

pub broadcast proof fn lemma_nodes_view_len(s: Seq<CILNode>)
    ensures
        #[trigger] nodes_view(s).len() == s.len(),
    decreases s,
{
    if s.len() > 0 {
        lemma_nodes_view_len(s.drop_first());
    }
}

/// The structural size of a node's model, used as the measure for the
/// recursive passes.
pub open spec fn nv_size(n: CILNodeV) -> nat
    decreases n,
{
    match n {
        CILNodeV::ZeroExtendToUSize(inner) => 1 + nv_size(*inner),
        CILNodeV::LDFieldAdress { addr, .. } => 1 + nv_size(*addr),
        CILNodeV::LdObj { ptr, .. } => 1 + nv_size(*ptr),
        CILNodeV::NewObj { args, .. } => 1 + nvs_size(args),
        CILNodeV::SubTrees(roots, main) => 1 + rvs_size(roots) + nv_size(*main),
        CILNodeV::TemporaryLocal { roots, main, .. } => 1 + rvs_size(roots) + nv_size(*main),
        _ => 1,
    }
}

pub open spec fn nvs_size(s: Seq<CILNodeV>) -> nat
    decreases s,
{
    if s.len() == 0 {
        0
    } else {
        1 + nv_size(s.first()) + nvs_size(s.drop_first())
    }
}

/// No pending-temporary construct remains anywhere in the node: the
/// temporary allocator has already run over it.
pub open spec fn nv_resolved(n: CILNodeV) -> bool
    decreases n,
{
    match n {
        CILNodeV::ZeroExtendToUSize(inner) => nv_resolved(*inner),
        CILNodeV::LDFieldAdress { addr, .. } => nv_resolved(*addr),
        CILNodeV::LdObj { ptr, .. } => nv_resolved(*ptr),
        CILNodeV::NewObj { args, .. } => forall|i: int|
            0 <= i < args.len() ==> nv_resolved(#[trigger] args[i]),
        CILNodeV::SubTrees(roots, main) => nv_resolved(*main) && forall|i: int|
            0 <= i < roots.len() ==> rv_resolved(#[trigger] roots[i]),
        CILNodeV::TemporaryLocal { .. } => false,
        CILNodeV::LoadTMPLocal => false,
        CILNodeV::LoadAddresOfTMPLocal => false,
        _ => true,
    }
}

/// The node carries no embedded pending statements and no pending-temporary
/// construct: it is ready for the downstream encoder.
pub open spec fn nv_flat(n: CILNodeV) -> bool
    decreases n,
{
    match n {
        CILNodeV::ZeroExtendToUSize(inner) => nv_flat(*inner),
        CILNodeV::LDFieldAdress { addr, .. } => nv_flat(*addr),
        CILNodeV::LdObj { ptr, .. } => nv_flat(*ptr),
        CILNodeV::NewObj { args, .. } => forall|i: int|
            0 <= i < args.len() ==> nv_flat(#[trigger] args[i]),
        CILNodeV::SubTrees(..) => false,
        CILNodeV::TemporaryLocal { .. } => false,
        CILNodeV::LoadTMPLocal => false,
        CILNodeV::LoadAddresOfTMPLocal => false,
        _ => true,
    }
}

/// Every pending-temporary marker in the node sits under an active
/// temporary: either one is already active (`have`) or an enclosing
/// `TemporaryLocal` introduces it. A pending store's own value must already
/// be resolved.
pub open spec fn nv_tmps_ok(n: CILNodeV, have: bool) -> bool
    decreases n,
{
    match n {
        CILNodeV::ZeroExtendToUSize(inner) => nv_tmps_ok(*inner, have),
        CILNodeV::LDFieldAdress { addr, .. } => nv_tmps_ok(*addr, have),
        CILNodeV::LdObj { ptr, .. } => nv_tmps_ok(*ptr, have),
        CILNodeV::NewObj { args, .. } => forall|i: int|
            0 <= i < args.len() ==> nv_tmps_ok(#[trigger] args[i], have),
        CILNodeV::SubTrees(roots, main) => nv_tmps_ok(*main, have) && forall|i: int|
            0 <= i < roots.len() ==> rv_tmps_ok(#[trigger] roots[i], have),
        CILNodeV::TemporaryLocal { roots, main, .. } => nv_tmps_ok(*main, true) && forall|i: int|
            0 <= i < roots.len() ==> rv_tmps_ok(#[trigger] roots[i], true),
        CILNodeV::LoadTMPLocal => have,
        CILNodeV::LoadAddresOfTMPLocal => have,
        _ => true,
    }
}

/// How many locals the temporary allocator will append for this node: one
/// for each `TemporaryLocal` in it.
pub open spec fn nv_tmp_locals(n: CILNodeV) -> nat
    decreases n,
{
    match n {
        CILNodeV::ZeroExtendToUSize(inner) => nv_tmp_locals(*inner),
        CILNodeV::LDFieldAdress { addr, .. } => nv_tmp_locals(*addr),
        CILNodeV::LdObj { ptr, .. } => nv_tmp_locals(*ptr),
        CILNodeV::NewObj { args, .. } => nvs_tmp_locals(args),
        CILNodeV::SubTrees(roots, main) => rvs_tmp_locals(roots) + nv_tmp_locals(*main),
        CILNodeV::TemporaryLocal { roots, main, .. } => 1 + rvs_tmp_locals(roots) + nv_tmp_locals(
            *main,
        ),
        _ => 0,
    }
}

pub open spec fn nvs_tmp_locals(s: Seq<CILNodeV>) -> nat
    decreases s,
{
    if s.len() == 0 {
        0
    } else {
        nv_tmp_locals(s.first()) + nvs_tmp_locals(s.drop_first())
    }
}

pub open spec fn rvs_tmp_locals(s: Seq<CILRootV>) -> nat
    decreases s,
{
    if s.len() == 0 {
        0
    } else {
        crate::cil_root::rv_tmp_locals(s.first()) + rvs_tmp_locals(s.drop_first())
    }
}

/// The simplifier's result on a node: children are simplified first, then a
/// zero-extension wrapped directly around another zero-extension is dropped
/// (extending an already pointer-wide value again changes nothing).
pub open spec fn opt_nv(n: CILNodeV) -> CILNodeV
    decreases n,
{
    match n {
        CILNodeV::ZeroExtendToUSize(inner) => {
            let i = opt_nv(*inner);
            if i is ZeroExtendToUSize {
                i
            } else {
                CILNodeV::ZeroExtendToUSize(Box::new(i))
            }
        },
        CILNodeV::LDFieldAdress { addr, field } => CILNodeV::LDFieldAdress {
            addr: Box::new(opt_nv(*addr)),
            field,
        },
        CILNodeV::LdObj { ptr, obj } => CILNodeV::LdObj { ptr: Box::new(opt_nv(*ptr)), obj },
        CILNodeV::NewObj { site, args } => CILNodeV::NewObj { site, args: opt_nvs(args) },
        CILNodeV::SubTrees(roots, main) => CILNodeV::SubTrees(
            opt_rvs(roots),
            Box::new(opt_nv(*main)),
        ),
        CILNodeV::TemporaryLocal { tpe, roots, main } => CILNodeV::TemporaryLocal {
            tpe,
            roots: opt_rvs(roots),
            main: Box::new(opt_nv(*main)),
        },
        _ => n,
    }
}

pub open spec fn opt_nvs(s: Seq<CILNodeV>) -> Seq<CILNodeV>
    decreases s,
{
    if s.len() == 0 {
        Seq::empty()
    } else {
        seq![opt_nv(s.first())] + opt_nvs(s.drop_first())
    }
}

/// How many rewrites the simplifier reports for this node.
pub open spec fn nv_rewrites(n: CILNodeV) -> nat
    decreases n,
{
    match n {
        CILNodeV::ZeroExtendToUSize(inner) => nv_rewrites(*inner) + if opt_nv(
            *inner,
        ) is ZeroExtendToUSize {
            1nat
        } else {
            0nat
        },
        CILNodeV::LDFieldAdress { addr, .. } => nv_rewrites(*addr),
        CILNodeV::LdObj { ptr, .. } => nv_rewrites(*ptr),
        CILNodeV::NewObj { args, .. } => nvs_rewrites(args),
        CILNodeV::SubTrees(roots, main) => rvs_rewrites(roots) + nv_rewrites(*main),
        CILNodeV::TemporaryLocal { roots, main, .. } => rvs_rewrites(roots) + nv_rewrites(*main),
        _ => 0,
    }
}

pub open spec fn nvs_rewrites(s: Seq<CILNodeV>) -> nat
    decreases s,
{
    if s.len() == 0 {
        0
    } else {
        nv_rewrites(s.first()) + nvs_rewrites(s.drop_first())
    }
}

/// The node is a fixpoint of the simplifier: no zero-extension directly
/// wraps another one, anywhere.
pub open spec fn nv_simplified(n: CILNodeV) -> bool
    decreases n,
{
    match n {
        CILNodeV::ZeroExtendToUSize(inner) => !(*inner is ZeroExtendToUSize) && nv_simplified(
            *inner,
        ),
        CILNodeV::LDFieldAdress { addr, .. } => nv_simplified(*addr),
        CILNodeV::LdObj { ptr, .. } => nv_simplified(*ptr),
        CILNodeV::NewObj { args, .. } => forall|i: int|
            0 <= i < args.len() ==> nv_simplified(#[trigger] args[i]),
        CILNodeV::SubTrees(roots, main) => nv_simplified(*main) && forall|i: int|
            0 <= i < roots.len() ==> crate::cil_root::rv_simplified(#[trigger] roots[i]),
        CILNodeV::TemporaryLocal { roots, main, .. } => nv_simplified(*main) && forall|i: int|
            0 <= i < roots.len() ==> crate::cil_root::rv_simplified(#[trigger] roots[i]),
        _ => true,
    }
}

/// The linearizer's result on a node: the statements shed from it, in
/// left-to-right evaluation order, and the node they leave behind, free of
/// embedded pending statements.
pub open spec fn shed_nv(n: CILNodeV) -> (Seq<CILRootV>, CILNodeV)
    decreases n,
{
    match n {
        CILNodeV::ZeroExtendToUSize(inner) => {
            let p = shed_nv(*inner);
            (p.0, CILNodeV::ZeroExtendToUSize(Box::new(p.1)))
        },
        CILNodeV::LDFieldAdress { addr, field } => {
            let p = shed_nv(*addr);
            (p.0, CILNodeV::LDFieldAdress { addr: Box::new(p.1), field })
        },
        CILNodeV::LdObj { ptr, obj } => {
            let p = shed_nv(*ptr);
            (p.0, CILNodeV::LdObj { ptr: Box::new(p.1), obj })
        },
        CILNodeV::NewObj { site, args } => {
            let p = shed_nvs(args);
            (p.0, CILNodeV::NewObj { site, args: p.1 })
        },
        CILNodeV::SubTrees(roots, main) => {
            let rs = shed_rvs(roots);
            let p = shed_nv(*main);
            (rs + p.0, p.1)
        },
        _ => (Seq::empty(), n),
    }
}

pub open spec fn shed_nvs(s: Seq<CILNodeV>) -> (Seq<CILRootV>, Seq<CILNodeV>)
    decreases s,
{
    if s.len() == 0 {
        (Seq::empty(), Seq::empty())
    } else {
        let p = shed_nv(s.first());
        let q = shed_nvs(s.drop_first());
        (p.0 + q.0, seq![p.1] + q.1)
    }
}

/// The temporary allocator's result on a node: each `TemporaryLocal` turns
/// into plain embedded statements over a fresh local appended to the table,
/// and each marker reads the local that is active where it stands.
pub open spec fn alloc_nv(n: CILNodeV, cur: Option<u32>, locals: Seq<LocalV>) -> (
    CILNodeV,
    Seq<LocalV>,
)
    decreases n,
{
    match n {
        CILNodeV::ZeroExtendToUSize(inner) => {
            let p = alloc_nv(*inner, cur, locals);
            (CILNodeV::ZeroExtendToUSize(Box::new(p.0)), p.1)
        },
        CILNodeV::LDFieldAdress { addr, field } => {
            let p = alloc_nv(*addr, cur, locals);
            (CILNodeV::LDFieldAdress { addr: Box::new(p.0), field }, p.1)
        },
        CILNodeV::LdObj { ptr, obj } => {
            let p = alloc_nv(*ptr, cur, locals);
            (CILNodeV::LdObj { ptr: Box::new(p.0), obj }, p.1)
        },
        CILNodeV::NewObj { site, args } => {
            let p = alloc_nvs(args, cur, locals);
            (CILNodeV::NewObj { site, args: p.0 }, p.1)
        },
        CILNodeV::SubTrees(roots, main) => {
            let p = alloc_rvs(roots, cur, locals);
            let q = alloc_nv(*main, cur, p.1);
            (CILNodeV::SubTrees(p.0, Box::new(q.0)), q.1)
        },
        CILNodeV::TemporaryLocal { tpe, roots, main } => {
            let idx = locals.len() as u32;
            let l1 = locals.push((None, tpe));
            let p = alloc_rvs(roots, Some(idx), l1);
            let q = alloc_nv(*main, Some(idx), p.1);
            (CILNodeV::SubTrees(p.0, Box::new(q.0)), q.1)
        },
        CILNodeV::LoadTMPLocal => (
            match cur {
                Some(k) => CILNodeV::LDLoc(k),
                None => n,
            },
            locals,
        ),
        CILNodeV::LoadAddresOfTMPLocal => (
            match cur {
                Some(k) => CILNodeV::LDLocA(k),
                None => n,
            },
            locals,
        ),
        _ => (n, locals),
    }
}

pub open spec fn alloc_nvs(s: Seq<CILNodeV>, cur: Option<u32>, locals: Seq<LocalV>) -> (
    Seq<CILNodeV>,
    Seq<LocalV>,
)
    decreases s,
{
    if s.len() == 0 {
        (Seq::empty(), locals)
    } else {
        let p = alloc_nv(s.first(), cur, locals);
        let q = alloc_nvs(s.drop_first(), cur, p.1);
        (seq![p.0] + q.0, q.1)
    }
}

impl CILNode {
    /// Simplifies the node in evaluation order, reporting each rewrite on
    /// the shared counter: a zero-extension wrapped directly around another
    /// zero-extension is dropped.
    pub fn opt(self, opt_count: &mut usize) -> (r: Self)
        requires
            *old(opt_count) + nv_rewrites(node_view(self)) <= usize::MAX,
        ensures
            node_view(r) == opt_nv(node_view(self)),
            *final(opt_count) == *old(opt_count) + nv_rewrites(node_view(self)),
        decreases nv_size(node_view(self)),
    {
        match self {
            CILNode::ZeroExtendToUSize(inner) => {
                let i = (*inner).opt(opt_count);
                if matches!(&i, CILNode::ZeroExtendToUSize(_)) {
                    *opt_count = *opt_count + 1;
                    i
                } else {
                    CILNode::ZeroExtendToUSize(Box::new(i))
                }
            },
            CILNode::LDFieldAdress { addr, field } => CILNode::LDFieldAdress {
                addr: Box::new((*addr).opt(opt_count)),
                field,
            },
            CILNode::LdObj { ptr, obj } => CILNode::LdObj {
                ptr: Box::new((*ptr).opt(opt_count)),
                obj,
            },
            CILNode::NewObj { site, args } => CILNode::NewObj {
                site,
                args: opt_nodes(args, opt_count),
            },
            CILNode::SubTrees(roots, main) => {
                let new_roots = opt_roots(roots, opt_count);
                CILNode::SubTrees(new_roots, Box::new((*main).opt(opt_count)))
            },
            CILNode::TemporaryLocal { tpe, roots, main } => {
                let new_roots = opt_roots(roots, opt_count);
                CILNode::TemporaryLocal {
                    tpe,
                    roots: new_roots,
                    main: Box::new((*main).opt(opt_count)),
                }
            },
            other => other,
        }
    }

    /// Sheds the pending statements embedded in this node, appending them to
    /// `out` in left-to-right, depth-first evaluation order, and returns the
    /// node itself with no embedding left.
    pub fn shed_trees(self, out: &mut Vec<CILRoot>) -> (r: Self)
        requires
            nv_resolved(node_view(self)),
        ensures
            roots_view(final(out)@) == roots_view(old(out)@) + shed_nv(node_view(self)).0,
            node_view(r) == shed_nv(node_view(self)).1,
        decreases nv_size(node_view(self)),
    {
        match self {
            CILNode::ZeroExtendToUSize(inner) => CILNode::ZeroExtendToUSize(
                Box::new((*inner).shed_trees(out)),
            ),
            CILNode::LDFieldAdress { addr, field } => CILNode::LDFieldAdress {
                addr: Box::new((*addr).shed_trees(out)),
                field,
            },
            CILNode::LdObj { ptr, obj } => CILNode::LdObj {
                ptr: Box::new((*ptr).shed_trees(out)),
                obj,
            },
            CILNode::NewObj { site, args } => CILNode::NewObj {
                site,
                args: shed_nodes(args, out),
            },
            CILNode::SubTrees(roots, main) => {
                shed_roots(roots, out);
                (*main).shed_trees(out)
            },
            other => {
                proof {
                    assert(roots_view(out@) =~= roots_view(out@) + Seq::<CILRootV>::empty());
                }
                other
            },
        }
    }

    /// Resolves every pending-temporary construct in this node: each
    /// `TemporaryLocal` allocates a fresh local in `locals` and becomes plain
    /// embedded statements over it, and each marker reads the local active
    /// where it stands (`curr_local` outside any `TemporaryLocal`).
    pub fn allocate_tmps(self, curr_local: Option<u32>, locals: &mut Vec<(Option<String>, Type)>) -> (r: Self)
        requires
            nv_tmps_ok(node_view(self), curr_local is Some),
            old(locals)@.len() + nv_tmp_locals(node_view(self)) <= u32::MAX,
        ensures
            node_view(r) == alloc_nv(
                node_view(self),
                curr_local,
                locals_view(old(locals)@),
            ).0,
            locals_view(final(locals)@) == alloc_nv(
                node_view(self),
                curr_local,
                locals_view(old(locals)@),
            ).1,
            final(locals)@.len() == old(locals)@.len() + nv_tmp_locals(node_view(self)),
        decreases nv_size(node_view(self)),
    {
        match self {
            CILNode::ZeroExtendToUSize(inner) => CILNode::ZeroExtendToUSize(
                Box::new((*inner).allocate_tmps(curr_local, locals)),
            ),
            CILNode::LDFieldAdress { addr, field } => CILNode::LDFieldAdress {
                addr: Box::new((*addr).allocate_tmps(curr_local, locals)),
                field,
            },
            CILNode::LdObj { ptr, obj } => CILNode::LdObj {
                ptr: Box::new((*ptr).allocate_tmps(curr_local, locals)),
                obj,
            },
            CILNode::NewObj { site, args } => CILNode::NewObj {
                site,
                args: alloc_nodes(args, curr_local, locals),
            },
            CILNode::SubTrees(roots, main) => {
                let new_roots = alloc_roots(roots, curr_local, locals);
                CILNode::SubTrees(new_roots, Box::new((*main).allocate_tmps(curr_local, locals)))
            },
            CILNode::TemporaryLocal { tpe, roots, main } => {
                let idx: u32 = locals.len() as u32;
                let ghost tpev = tpe@;
                locals.push((None, *tpe));
                proof {
                    assert(locals_view(locals@) =~= locals_view(old(locals)@).push(
                        (None, tpev),
                    ));
                }
                let new_roots = alloc_roots(roots, Some(idx), locals);
                CILNode::SubTrees(
                    new_roots,
                    Box::new((*main).allocate_tmps(Some(idx), locals)),
                )
            },
            CILNode::LoadTMPLocal => {
                match curr_local {
                    Some(k) => CILNode::LDLoc(k),
                    None => CILNode::LoadTMPLocal,
                }
            },
            CILNode::LoadAddresOfTMPLocal => {
                match curr_local {
                    Some(k) => CILNode::LDLocA(k),
                    None => CILNode::LoadAddresOfTMPLocal,
                }
            },
            other => other,
        }
    }
}

/// Simplifies every node of a list in order, accumulating the rewrite count.
pub(crate) fn opt_nodes(nodes: Vec<CILNode>, opt_count: &mut usize) -> (r: Vec<CILNode>)
    requires
        *old(opt_count) + nvs_rewrites(nodes_view(nodes@)) <= usize::MAX,
    ensures
        nodes_view(r@) == opt_nvs(nodes_view(nodes@)),
        *final(opt_count) == *old(opt_count) + nvs_rewrites(nodes_view(nodes@)),
    decreases nvs_size(nodes_view(nodes@)),
{
    let mut nodes = nodes;
    if nodes.len() == 0 {
        proof {
            assert(nodes_view(nodes@) =~= Seq::<CILNodeV>::empty());
        }
        nodes
    } else {
        let ghost whole = nodes@;
        let first = nodes.remove(0);
        proof {
            assert(nodes@ =~= whole.drop_first());
            assert(nodes_view(whole).drop_first() =~= nodes_view(whole.drop_first()));
        }
        let first_opt = first.opt(opt_count);
        let rest = opt_nodes(nodes, opt_count);
        let ghost restv = rest@;
        let mut out = rest;
        out.insert(0, first_opt);
        proof {
            assert(out@.drop_first() =~= restv);
            assert(out@.first() == first_opt);
            assert(nodes_view(whole).first() == node_view(whole.first()));
            assert(nodes_view(out@) =~= opt_nvs(nodes_view(whole)));
        }
        out
    }
}

/// Simplifies every statement of a list in order.
pub(crate) fn opt_roots(roots: Vec<CILRoot>, opt_count: &mut usize) -> (r: Vec<CILRoot>)
    requires
        *old(opt_count) + rvs_rewrites(roots_view(roots@)) <= usize::MAX,
    ensures
        roots_view(r@) == opt_rvs(roots_view(roots@)),
        *final(opt_count) == *old(opt_count) + rvs_rewrites(roots_view(roots@)),
    decreases rvs_size(roots_view(roots@)),
{
    let mut roots = roots;
    if roots.len() == 0 {
        proof {
            assert(roots_view(roots@) =~= Seq::<CILRootV>::empty());
        }
        roots
    } else {
        let ghost whole = roots@;
        let first = roots.remove(0);
        proof {
            assert(roots@ =~= whole.drop_first());
            assert(roots_view(whole).drop_first() =~= roots_view(whole.drop_first()));
        }
        let first_opt = first.opt_owned(opt_count);
        let rest = opt_roots(roots, opt_count);
        let ghost restv = rest@;
        let ghost firstv = crate::cil_root::root_view(first_opt);
        let mut out = rest;
        out.insert(0, first_opt);
        proof {
            assert(out@.drop_first() =~= restv);
            assert(crate::cil_root::root_view(out@.first()) == firstv);
            assert(roots_view(whole).first() == crate::cil_root::root_view(whole.first()));
            assert(roots_view(out@) =~= opt_rvs(roots_view(whole)));
        }
        out
    }
}

/// Sheds the pending statements of every node of a list, in order.
pub(crate) fn shed_nodes(nodes: Vec<CILNode>, out: &mut Vec<CILRoot>) -> (r: Vec<CILNode>)
    requires
        forall|i: int|
            0 <= i < nodes_view(nodes@).len() ==> nv_resolved(#[trigger] nodes_view(nodes@)[i]),
    ensures
        roots_view(final(out)@) == roots_view(old(out)@) + shed_nvs(nodes_view(nodes@)).0,
        nodes_view(r@) == shed_nvs(nodes_view(nodes@)).1,
    decreases nvs_size(nodes_view(nodes@)),
{
    let mut nodes = nodes;
    if nodes.len() == 0 {
        proof {
            assert(nodes_view(nodes@) =~= Seq::<CILNodeV>::empty());
            assert(roots_view(out@) =~= roots_view(out@) + Seq::<CILRootV>::empty());
        }
        nodes
    } else {
        let ghost whole = nodes@;
        let first = nodes.remove(0);
        proof {
            assert(nodes@ =~= whole.drop_first());
            assert(nodes_view(whole).drop_first() =~= nodes_view(whole.drop_first()));
        }
        let first_shed = first.shed_trees(out);
        let rest = shed_nodes(nodes, out);
        let ghost restv = rest@;
        let mut r = rest;
        r.insert(0, first_shed);
        proof {
            assert(r@.drop_first() =~= restv);
            assert(r@.first() == first_shed);
            assert(nodes_view(whole).first() == node_view(whole.first()));
            assert(nodes_view(r@) =~= shed_nvs(nodes_view(whole)).1);
            assert(roots_view(out@) =~= roots_view(old(out)@) + shed_nvs(nodes_view(whole)).0);
        }
        r
    }
}

/// Sheds every statement of a list into `out`, in order; each statement's
/// own shed statements come right before it.
pub(crate) fn shed_roots(roots: Vec<CILRoot>, out: &mut Vec<CILRoot>)
    requires
        forall|i: int|
            0 <= i < roots_view(roots@).len() ==> rv_resolved(#[trigger] roots_view(roots@)[i]),
    ensures
        roots_view(final(out)@) == roots_view(old(out)@) + shed_rvs(roots_view(roots@)),
    decreases rvs_size(roots_view(roots@)),
{
    let mut roots = roots;
    if roots.len() == 0 {
        proof {
            assert(roots_view(roots@) =~= Seq::<CILRootV>::empty());
            assert(roots_view(out@) =~= roots_view(out@) + Seq::<CILRootV>::empty());
        }
    } else {
        let ghost whole = roots@;
        let first = roots.remove(0);
        proof {
            assert(roots@ =~= whole.drop_first());
            assert(roots_view(whole).drop_first() =~= roots_view(whole.drop_first()));
        }
        first.shed_into(out);
        shed_roots(roots, out);
        proof {
            assert(roots_view(whole).first() == crate::cil_root::root_view(whole.first()));
            assert(roots_view(out@) =~= roots_view(old(out)@) + shed_rvs(roots_view(whole)));
        }
    }
}

/// Resolves the pending temporaries of every node of a list, in order,
/// threading the local table through.
pub(crate) fn alloc_nodes(nodes: Vec<CILNode>, curr_local: Option<u32>, locals: &mut Vec<(Option<String>, Type)>) -> (r: Vec<CILNode>)
    requires
        forall|i: int|
            0 <= i < nodes_view(nodes@).len() ==> nv_tmps_ok(
                #[trigger] nodes_view(nodes@)[i],
                curr_local is Some,
            ),
        old(locals)@.len() + nvs_tmp_locals(nodes_view(nodes@)) <= u32::MAX,
    ensures
        nodes_view(r@) == alloc_nvs(nodes_view(nodes@), curr_local, locals_view(old(locals)@)).0,
        locals_view(final(locals)@) == alloc_nvs(
            nodes_view(nodes@),
            curr_local,
            locals_view(old(locals)@),
        ).1,
        final(locals)@.len() == old(locals)@.len() + nvs_tmp_locals(nodes_view(nodes@)),
    decreases nvs_size(nodes_view(nodes@)),
{
    let mut nodes = nodes;
    if nodes.len() == 0 {
        proof {
            assert(nodes_view(nodes@) =~= Seq::<CILNodeV>::empty());
        }
        nodes
    } else {
        let ghost whole = nodes@;
        let first = nodes.remove(0);
        proof {
            assert(nodes@ =~= whole.drop_first());
            assert(nodes_view(whole).drop_first() =~= nodes_view(whole.drop_first()));
        }
        let first_alloc = first.allocate_tmps(curr_local, locals);
        let rest = alloc_nodes(nodes, curr_local, locals);
        let ghost restv = rest@;
        let mut r = rest;
        r.insert(0, first_alloc);
        proof {
            assert(r@.drop_first() =~= restv);
            assert(r@.first() == first_alloc);
            assert(nodes_view(whole).first() == node_view(whole.first()));
            assert(nodes_view(r@) =~= alloc_nvs(
                nodes_view(whole),
                curr_local,
                locals_view(old(locals)@),
            ).0);
        }
        r
    }
}

/// Resolves the pending temporaries of every statement of a list, in order,
/// threading the local table through.
pub(crate) fn alloc_roots(roots: Vec<CILRoot>, curr_local: Option<u32>, locals: &mut Vec<(Option<String>, Type)>) -> (r: Vec<CILRoot>)
    requires
        forall|i: int|
            0 <= i < roots_view(roots@).len() ==> rv_tmps_ok(
                #[trigger] roots_view(roots@)[i],
                curr_local is Some,
            ),
        old(locals)@.len() + rvs_tmp_locals(roots_view(roots@)) <= u32::MAX,
    ensures
        roots_view(r@) == crate::cil_root::alloc_rvs(
            roots_view(roots@),
            curr_local,
            locals_view(old(locals)@),
        ).0,
        locals_view(final(locals)@) == crate::cil_root::alloc_rvs(
            roots_view(roots@),
            curr_local,
            locals_view(old(locals)@),
        ).1,
        final(locals)@.len() == old(locals)@.len() + rvs_tmp_locals(roots_view(roots@)),
    decreases rvs_size(roots_view(roots@)),
{
    let mut roots = roots;
    if roots.len() == 0 {
        proof {
            assert(roots_view(roots@) =~= Seq::<CILRootV>::empty());
        }
        roots
    } else {
        let ghost whole = roots@;
        let first = roots.remove(0);
        proof {
            assert(roots@ =~= whole.drop_first());
            assert(roots_view(whole).drop_first() =~= roots_view(whole.drop_first()));
        }
        let first_alloc = first.allocate_tmps_owned(curr_local, locals);
        let rest = alloc_roots(roots, curr_local, locals);
        let ghost restv = rest@;
        let ghost firstv = crate::cil_root::root_view(first_alloc);
        let mut r = rest;
        r.insert(0, first_alloc);
        proof {
            assert(r@.drop_first() =~= restv);
            assert(crate::cil_root::root_view(r@.first()) == firstv);
            assert(roots_view(whole).first() == crate::cil_root::root_view(whole.first()));
            assert(roots_view(r@) =~= crate::cil_root::alloc_rvs(
                roots_view(whole),
                curr_local,
                locals_view(old(locals)@),
            ).0);
        }
        r
    }
}

} // verus!
