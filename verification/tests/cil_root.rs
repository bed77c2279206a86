use cilly::cil_node::CILNode;
use cilly::cil_root::{CILRoot, IndStoreWidth};
use cilly::descriptors::{CallSite, DotnetTypeRef, FieldDescriptor, FnSig, Type};

fn ptr_components_type() -> Type {
    Type::DotnetType(DotnetTypeRef::new(
        None,
        "core.ptr.metadata.PtrComponents.h2b679e9941d88b2f",
    ))
}

#[test]
fn allocating_tmps() {
    let mut original_value = CILRoot::STLoc {
        local: 11,
        tree: CILNode::SubTrees(
            vec![CILRoot::STLoc {
                local: 14,
                tree: CILNode::TemporaryLocal {
                    tpe: Box::new(ptr_components_type()),
                    roots: vec![CILRoot::SetTMPLocal {
                        value: CILNode::LDArg(0),
                    }],
                    main: Box::new(CILNode::LdObj {
                        ptr: Box::new(CILNode::LoadAddresOfTMPLocal),
                        obj: Box::new(ptr_components_type()),
                    }),
                },
            }],
            Box::new(CILNode::LdObj {
                ptr: Box::new(CILNode::LDLocA(14)),
                obj: Box::new(ptr_components_type()),
            }),
        ),
    };
    original_value.allocate_tmps(None, &mut vec![]);
    let _trees = original_value.shed_trees();
}

#[test]
fn allocating_tmps_resolves_and_extends_table() {
    let mut stmt = CILRoot::STLoc {
        local: 14,
        tree: CILNode::TemporaryLocal {
            tpe: Box::new(ptr_components_type()),
            roots: vec![CILRoot::SetTMPLocal {
                value: CILNode::LDArg(0),
            }],
            main: Box::new(CILNode::LdObj {
                ptr: Box::new(CILNode::LoadAddresOfTMPLocal),
                obj: Box::new(ptr_components_type()),
            }),
        },
    };
    let mut locals: Vec<(Option<String>, Type)> = vec![];
    stmt.allocate_tmps(None, &mut locals);
    // The temporary got local 0, appended to the empty table.
    assert_eq!(locals.len(), 1);
    assert_eq!(locals[0], (None, ptr_components_type()));
    assert_eq!(
        stmt,
        CILRoot::STLoc {
            local: 14,
            tree: CILNode::SubTrees(
                vec![CILRoot::STLoc { local: 0, tree: CILNode::LDArg(0) }],
                Box::new(CILNode::LdObj {
                    ptr: Box::new(CILNode::LDLocA(0)),
                    obj: Box::new(ptr_components_type()),
                }),
            ),
        }
    );
}

#[test]
fn temp_store_with_active_index_becomes_local_store() {
    let mut stmt = CILRoot::SetTMPLocal {
        value: CILNode::LDArg(0),
    };
    let mut locals: Vec<(Option<String>, Type)> = vec![];
    stmt.allocate_tmps(Some(7), &mut locals);
    assert_eq!(
        stmt,
        CILRoot::STLoc { local: 7, tree: CILNode::LDArg(0) }
    );
    assert_eq!(locals.len(), 0);
}

#[test]
fn end_to_end_allocate_then_shed() {
    // A store-local whose value embeds a pending-temporary store of an
    // argument load and a read of that temporary's address.
    let mut stmt = CILRoot::STLoc {
        local: 3,
        tree: CILNode::SubTrees(
            vec![CILRoot::SetTMPLocal {
                value: CILNode::LDArg(0),
            }],
            Box::new(CILNode::LdObj {
                ptr: Box::new(CILNode::LoadAddresOfTMPLocal),
                obj: Box::new(ptr_components_type()),
            }),
        ),
    };
    let mut locals: Vec<(Option<String>, Type)> = vec![];
    stmt.allocate_tmps(Some(5), &mut locals);
    let trees = stmt.shed_trees();
    assert_eq!(
        trees,
        vec![
            CILRoot::STLoc { local: 5, tree: CILNode::LDArg(0) },
            CILRoot::STLoc {
                local: 3,
                tree: CILNode::LdObj {
                    ptr: Box::new(CILNode::LDLocA(5)),
                    obj: Box::new(ptr_components_type()),
                },
            },
        ]
    );
}

#[test]
fn shed_preserves_evaluation_order() {
    // Two expression positions, each embedding a distinguishable statement.
    let stmt = CILRoot::SetField {
        addr: CILNode::SubTrees(
            vec![CILRoot::GoTo { target: 1, sub_target: 0 }],
            Box::new(CILNode::LDArg(0)),
        ),
        value: CILNode::SubTrees(
            vec![CILRoot::GoTo { target: 2, sub_target: 0 }],
            Box::new(CILNode::LDArg(1)),
        ),
        desc: field_a(),
    };
    let trees = stmt.shed_trees();
    assert_eq!(
        trees,
        vec![
            CILRoot::GoTo { target: 1, sub_target: 0 },
            CILRoot::GoTo { target: 2, sub_target: 0 },
            CILRoot::SetField {
                addr: CILNode::LDArg(0),
                value: CILNode::LDArg(1),
                desc: field_a(),
            },
        ]
    );
}

#[test]
fn shed_leaves_no_markers() {
    let stmt = CILRoot::STInd {
        width: IndStoreWidth::I32,
        addr: CILNode::SubTrees(vec![CILRoot::Nop], Box::new(CILNode::LDArg(0))),
        val: CILNode::ZeroExtendToUSize(Box::new(CILNode::SubTrees(
            vec![CILRoot::Break],
            Box::new(CILNode::LDLoc(2)),
        ))),
    };
    let trees = stmt.shed_trees();
    assert_eq!(
        trees,
        vec![
            CILRoot::Nop,
            CILRoot::Break,
            CILRoot::STInd {
                width: IndStoreWidth::I32,
                addr: CILNode::LDArg(0),
                val: CILNode::ZeroExtendToUSize(Box::new(CILNode::LDLoc(2))),
            },
        ]
    );
}

fn field_a() -> FieldDescriptor {
    FieldDescriptor::new(
        DotnetTypeRef::new(None, "SomeClass"),
        ptr_components_type(),
        "some_field".to_string(),
    )
}

#[test]
fn peephole_strips_redundant_extension() {
    let mut stmt = CILRoot::SetField {
        addr: CILNode::ZeroExtendToUSize(Box::new(CILNode::LDLocA(4))),
        value: CILNode::LDArg(0),
        desc: field_a(),
    };
    let mut count: usize = 0;
    stmt.opt(&mut count);
    assert_eq!(
        stmt,
        CILRoot::SetField {
            addr: CILNode::LDLocA(4),
            value: CILNode::LDArg(0),
            desc: field_a(),
        }
    );
}

#[test]
fn peephole_leaves_unrelated_extension() {
    let mut stmt = CILRoot::SetField {
        addr: CILNode::ZeroExtendToUSize(Box::new(CILNode::LDArg(4))),
        value: CILNode::LDArg(0),
        desc: field_a(),
    };
    let mut count: usize = 0;
    stmt.opt(&mut count);
    assert_eq!(
        stmt,
        CILRoot::SetField {
            addr: CILNode::ZeroExtendToUSize(Box::new(CILNode::LDArg(4))),
            value: CILNode::LDArg(0),
            desc: field_a(),
        }
    );
    assert_eq!(count, 0);
}

#[test]
fn opt_is_idempotent_and_counts_rewrites() {
    let mut stmt = CILRoot::Ret {
        tree: CILNode::ZeroExtendToUSize(Box::new(CILNode::ZeroExtendToUSize(Box::new(
            CILNode::LDArg(0),
        )))),
    };
    let mut count: usize = 0;
    stmt.opt(&mut count);
    assert_eq!(count, 1);
    assert_eq!(
        stmt,
        CILRoot::Ret { tree: CILNode::ZeroExtendToUSize(Box::new(CILNode::LDArg(0))) }
    );
    // Running the optimizer again on the already-simplified statement
    // reports zero further rewrites and changes nothing.
    let mut second: usize = 0;
    stmt.opt(&mut second);
    assert_eq!(second, 0);
    assert_eq!(
        stmt,
        CILRoot::Ret { tree: CILNode::ZeroExtendToUSize(Box::new(CILNode::LDArg(0))) }
    );
}

#[test]
fn targets_reports_branches_only() {
    let mut acc: Vec<(u32, u32)> = vec![];
    CILRoot::GoTo { target: 8, sub_target: 0 }.targets(&mut acc);
    CILRoot::Nop.targets(&mut acc);
    CILRoot::BTrue { target: 9, sub_target: 1, cond: CILNode::LDArg(0) }.targets(&mut acc);
    assert_eq!(acc, vec![(8, 0), (9, 1)]);
}

#[test]
fn fix_for_exception_handler_redirects_branch() {
    let mut stmt = CILRoot::GoTo { target: 42, sub_target: 0 };
    stmt.fix_for_exception_handler(100);
    assert_eq!(stmt, CILRoot::GoTo { target: 100, sub_target: 42 });

    let mut other = CILRoot::Nop;
    other.fix_for_exception_handler(100);
    assert_eq!(other, CILRoot::Nop);
}

#[test]
fn throw_builds_exception_constructor_call() {
    let stmt = CILRoot::throw("something went wrong");
    let mut exception = DotnetTypeRef::new(Some("System.Runtime"), "System.Exception");
    exception.set_valuetype(false);
    let expected_site = CallSite::new(
        Some(exception.clone()),
        ".ctor".to_string(),
        FnSig::new(
            vec![
                Type::DotnetType(exception),
                Type::DotnetType(DotnetTypeRef::string_type()),
            ],
            Type::Void,
        ),
        false,
    );
    assert_eq!(
        stmt,
        CILRoot::Throw(CILNode::NewObj {
            site: Box::new(expected_site),
            args: vec![CILNode::LdStr("something went wrong".to_string())],
        })
    );
}

#[test]
fn debug_without_mem_checks_prints_plain_message() {
    let stmt = CILRoot::debug("hi", false);
    match stmt {
        CILRoot::Call { site, args } => {
            assert_eq!(site.name, "WriteLine");
            assert_eq!(args, vec![CILNode::LdStr("hi".to_string())]);
        }
        other => panic!("expected a call statement, got {:?}", other),
    }
}

#[test]
fn debug_with_mem_checks_embeds_consistency_check() {
    let stmt = CILRoot::debug("hi", true);
    match stmt {
        CILRoot::Call { site: _, args } => {
            assert_eq!(args.len(), 1);
            match &args[0] {
                CILNode::SubTrees(checks, message) => {
                    assert_eq!(checks.len(), 1);
                    match &checks[0] {
                        CILRoot::Call { site, args } => {
                            assert_eq!(site.name, "mcheck_check_all");
                            assert!(args.is_empty());
                        }
                        other => panic!("expected the check call, got {:?}", other),
                    }
                    assert_eq!(**message, CILNode::LdStr("hi".to_string()));
                }
                other => panic!("expected an embedded check, got {:?}", other),
            }
        }
        other => panic!("expected a call statement, got {:?}", other),
    }
}

#[test]
fn source_info_keeps_ranges_and_file() {
    let stmt = CILRoot::source_info("lib.rs", 3..7, 1..5);
    assert_eq!(
        stmt,
        CILRoot::SourceFileInfo {
            line_start: 3,
            line_end: 7,
            col_start: 1,
            col_end: 5,
            file: "lib.rs".to_string(),
        }
    );
}
