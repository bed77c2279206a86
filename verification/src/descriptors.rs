//! Scalar descriptors carried by statements: type references, field
//! descriptors and call sites. The passes in this crate never look inside
//! them; they are moved or copied along unchanged.
use vstd::prelude::*;
use vstd::string::StringExecFns;

verus! {

/// The mathematical model of a `DotnetTypeRef`: strings become character
/// sequences.
pub struct DotnetTypeRefV {
    pub assembly: Option<Seq<char>>,
    pub name_path: Seq<char>,
    pub is_valuetype: bool,
}

/// The mathematical model of a `Type`.
pub enum TypeV {
    Void,
    DotnetType(DotnetTypeRefV),
}

/// The mathematical model of an `FnSig`.
pub struct FnSigV {
    pub inputs: Seq<TypeV>,
    pub output: TypeV,
}

/// The mathematical model of a `CallSite`.
pub struct CallSiteV {
    pub class: Option<DotnetTypeRefV>,
    pub name: Seq<char>,
    pub signature: FnSigV,
    pub is_static: bool,
}

/// The mathematical model of a `FieldDescriptor`.
pub struct FieldDescriptorV {
    pub owner: DotnetTypeRefV,
    pub tpe: TypeV,
    pub name: Seq<char>,
}

/// The mathematical model of a `StaticFieldDescriptor`.
pub struct StaticFieldDescriptorV {
    pub owner: Option<DotnetTypeRefV>,
    pub tpe: TypeV,
    pub name: Seq<char>,
}

/// A reference to a .NET type: the assembly it lives in (if any), its full
/// name, and whether it is a value type.
#[derive(Clone, Debug, PartialEq, Eq)]
pub struct DotnetTypeRef {
    pub assembly: Option<String>,
    pub name_path: String,
    pub is_valuetype: bool,
}

impl DotnetTypeRef {
    /// A fresh type reference; it starts out marked as a value type.
    pub fn new(assembly: Option<&str>, name_path: &str) -> (r: Self)
        ensures
            r.is_valuetype == true,
            r.name_path@ == name_path@,
            assembly is Some <==> r.assembly is Some,
            assembly matches Some(a) ==> r.assembly matches Some(ra) && ra@ == a@,
    {
        let asm_owned: Option<String> = match assembly {
            Some(a) => Some(String::from_str(a)),
            None => None,
        };
        DotnetTypeRef {
            assembly: asm_owned,
            name_path: String::from_str(name_path),
            is_valuetype: true,
        }
    }

    pub fn set_valuetype(&mut self, is_valuetype: bool)
        ensures
            *final(self) == (DotnetTypeRef { is_valuetype, ..*old(self) }),
    {
        self.is_valuetype = is_valuetype;
    }

    /// The reference to `System.String`.
    pub fn string_type() -> (r: Self)
        ensures
            r@ == (DotnetTypeRefV {
                assembly: Some("System.Runtime"@),
                name_path: "System.String"@,
                is_valuetype: false,
            }),
    {
        let mut r = DotnetTypeRef::new(Some("System.Runtime"), "System.String");
        r.set_valuetype(false);
        r
    }
}

/// The types a statement can mention: the void type and .NET object types.
#[derive(Clone, Debug, PartialEq, Eq)]
pub enum Type {
    Void,
    DotnetType(DotnetTypeRef),
}

/// A function signature: input types and the output type.
#[derive(Clone, Debug, PartialEq, Eq)]
pub struct FnSig {
    pub inputs: Vec<Type>,
    pub output: Type,
}

impl FnSig {
    pub fn new(inputs: Vec<Type>, output: Type) -> (r: Self)
        ensures
            r == (FnSig { inputs, output }),
    {
        FnSig { inputs, output }
    }
}

/// Identifies a callable: the class that owns it (if any), its name, its
/// signature, and whether it is static.
#[derive(Clone, Debug, PartialEq, Eq)]
pub struct CallSite {
    pub class: Option<DotnetTypeRef>,
    pub name: String,
    pub signature: FnSig,
    pub is_static: bool,
}

impl CallSite {
    pub fn new(class: Option<DotnetTypeRef>, name: String, signature: FnSig, is_static: bool) -> (r: Self)
        ensures
            r == (CallSite { class, name, signature, is_static }),
    {
        CallSite { class, name, signature, is_static }
    }

    /// A call site in an external assembly; such calls are always resolved
    /// by name, so this is the same record as `new` builds.
    pub fn new_extern(class: DotnetTypeRef, name: String, signature: FnSig, is_static: bool) -> (r: Self)
        ensures
            r == (CallSite { class: Some(class), name, signature, is_static }),
    {
        CallSite { class: Some(class), name, signature, is_static }
    }

    /// The call site of the global memory-consistency checker invoked by
    /// debug statements when memory checks are enabled.
    pub fn mcheck_check_all() -> (r: Self)
        ensures
            r@ == (CallSiteV {
                class: None,
                name: "mcheck_check_all"@,
                signature: FnSigV { inputs: Seq::empty(), output: TypeV::Void },
                is_static: true,
            }),
    {
        let r = CallSite {
            class: None,
            name: String::from_str("mcheck_check_all"),
            signature: FnSig { inputs: Vec::new(), output: Type::Void },
            is_static: true,
        };
        proof {
            assert(types_view(r.signature.inputs@) =~= Seq::<TypeV>::empty());
        }
        r
    }
}

/// Identifies an instance field: the class that owns it, the field's name
/// and its type.
#[derive(Clone, Debug, PartialEq, Eq)]
pub struct FieldDescriptor {
    pub owner: DotnetTypeRef,
    pub tpe: Type,
    pub name: String,
}

impl FieldDescriptor {
    pub fn new(owner: DotnetTypeRef, tpe: Type, name: String) -> (r: Self)
        ensures
            r == (FieldDescriptor { owner, tpe, name }),
    {
        FieldDescriptor { owner, tpe, name }
    }
}

/// Identifies a static field: the class that owns it, the field's name and
/// its type.
#[derive(Clone, Debug, PartialEq, Eq)]
pub struct StaticFieldDescriptor {
    pub owner: Option<DotnetTypeRef>,
    pub tpe: Type,
    pub name: String,
}

impl StaticFieldDescriptor {
    pub fn new(owner: Option<DotnetTypeRef>, tpe: Type, name: String) -> (r: Self)
        ensures
            r == (StaticFieldDescriptor { owner, tpe, name }),
    {
        StaticFieldDescriptor { owner, tpe, name }
    }
}

impl View for DotnetTypeRef {
    type V = DotnetTypeRefV;

    open spec fn view(&self) -> DotnetTypeRefV {
        DotnetTypeRefV {
            assembly: match self.assembly {
                Some(a) => Some(a@),
                None => None,
            },
            name_path: self.name_path@,
            is_valuetype: self.is_valuetype,
        }
    }
}

impl View for Type {
    type V = TypeV;

    open spec fn view(&self) -> TypeV {
        match *self {
            Type::Void => TypeV::Void,
            Type::DotnetType(d) => TypeV::DotnetType(d@),
        }
    }
}

/// The model of a list of types, elementwise.
pub open spec fn types_view(s: Seq<Type>) -> Seq<TypeV> {
    Seq::new(s.len(), |i: int| s[i]@)
}

impl View for FnSig {
    type V = FnSigV;

    open spec fn view(&self) -> FnSigV {
        FnSigV { inputs: types_view(self.inputs@), output: self.output@ }
    }
}

impl View for CallSite {
    type V = CallSiteV;

    open spec fn view(&self) -> CallSiteV {
        CallSiteV {
            class: match self.class {
                Some(c) => Some(c@),
                None => None,
            },
            name: self.name@,
            signature: self.signature@,
            is_static: self.is_static,
        }
    }
}

impl View for FieldDescriptor {
    type V = FieldDescriptorV;

    open spec fn view(&self) -> FieldDescriptorV {
        FieldDescriptorV { owner: self.owner@, tpe: self.tpe@, name: self.name@ }
    }
}

impl View for StaticFieldDescriptor {
    type V = StaticFieldDescriptorV;

    open spec fn view(&self) -> StaticFieldDescriptorV {
        StaticFieldDescriptorV {
            owner: match self.owner {
                Some(o) => Some(o@),
                None => None,
            },
            tpe: self.tpe@,
            name: self.name@,
        }
    }
}

} // verus!
